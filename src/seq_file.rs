//! Handles on the host's sequential output files.

use vstd::prelude::*;
use crate::error::Error;

verus! {

/// A borrowed view of a host sequential output file, valid for one call.
pub struct SeqFile {
    c_seq_file: usize,
}

impl View for SeqFile {
    type V = usize;

    /// The address of the host object.
    closed spec fn view(&self) -> usize {
        self.c_seq_file
    }
}

impl SeqFile {
    /// A handle that refers to no object.
    pub fn default() -> (r: SeqFile)
        ensures
            r@ == 0,
    {
        SeqFile { c_seq_file: 0 }
    }

    /// Wraps a raw address; the null address is refused.
    pub fn from_c_seq_file(c_seq_file: usize) -> (r: Result<SeqFile, Error>)
        ensures
            c_seq_file == 0 ==> r == Err::<SeqFile, Error>(Error::InvalidArgument),
            c_seq_file != 0 ==> r is Ok && r->Ok_0@ == c_seq_file,
    {
        if c_seq_file == 0 {
            return Err(Error::InvalidArgument);
        }
        let mut h = SeqFile::default();
        h.c_seq_file = c_seq_file;
        Ok(h)
    }

    /// The raw address, for calls back into the host.
    pub fn to_c_seq_file(&self) -> (r: usize)
        ensures
            r == self@,
    {
        self.c_seq_file
    }
}

} // verus!
