//! Handles on the host's file-system statistics record.

use vstd::prelude::*;
use crate::error::Error;

verus! {

/// A borrowed view of the host's file-system statistics record, valid for one call.
pub struct KStatFs {
    c_kstatfs: usize,
}

impl View for KStatFs {
    type V = usize;

    /// The address of the host object.
    closed spec fn view(&self) -> usize {
        self.c_kstatfs
    }
}

impl KStatFs {
    /// A handle that refers to no object.
    pub fn default() -> (r: KStatFs)
        ensures
            r@ == 0,
    {
        KStatFs { c_kstatfs: 0 }
    }

    /// Wraps a raw address; the null address is refused.
    pub fn from_c_kstatfs(c_kstatfs: usize) -> (r: Result<KStatFs, Error>)
        ensures
            c_kstatfs == 0 ==> r == Err::<KStatFs, Error>(Error::InvalidArgument),
            c_kstatfs != 0 ==> r is Ok && r->Ok_0@ == c_kstatfs,
    {
        if c_kstatfs == 0 {
            return Err(Error::InvalidArgument);
        }
        let mut h = KStatFs::default();
        h.c_kstatfs = c_kstatfs;
        Ok(h)
    }

    /// The raw address, for calls back into the host.
    pub fn to_c_kstatfs(&self) -> (r: usize)
        ensures
            r == self@,
    {
        self.c_kstatfs
    }
}

} // verus!
