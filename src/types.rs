//! Plain host types that cross the boundary, and handles on the host
//! records that inode operations read or fill.

use vstd::prelude::*;
use crate::error::Error;

verus! {

/// File type and permission bits.
pub type UMode = u16;

/// A device number.
pub type DevType = u32;

/// A borrowed view of a host attribute-change request, valid for one call.
pub struct IAttr {
    c_iattr: usize,
}

impl View for IAttr {
    type V = usize;

    /// The address of the host object.
    closed spec fn view(&self) -> usize {
        self.c_iattr
    }
}

impl IAttr {
    /// Wraps a raw address; the null address is refused.
    pub fn from_c_iattr(c_iattr: usize) -> (r: Result<IAttr, Error>)
        ensures
            c_iattr == 0 ==> r == Err::<IAttr, Error>(Error::InvalidArgument),
            c_iattr != 0 ==> r is Ok && r->Ok_0@ == c_iattr,
    {
        if c_iattr == 0 {
            return Err(Error::InvalidArgument);
        }
        Ok(IAttr { c_iattr })
    }

    /// The raw address, for calls back into the host.
    pub fn to_c_iattr(&self) -> (r: usize)
        ensures
            r == self@,
    {
        self.c_iattr
    }
}

/// A borrowed view of a host record of file attributes, valid for one call.
pub struct KStat {
    c_kstat: usize,
}

impl View for KStat {
    type V = usize;

    /// The address of the host object.
    closed spec fn view(&self) -> usize {
        self.c_kstat
    }
}

impl KStat {
    /// Wraps a raw address; the null address is refused.
    pub fn from_c_kstat(c_kstat: usize) -> (r: Result<KStat, Error>)
        ensures
            c_kstat == 0 ==> r == Err::<KStat, Error>(Error::InvalidArgument),
            c_kstat != 0 ==> r is Ok && r->Ok_0@ == c_kstat,
    {
        if c_kstat == 0 {
            return Err(Error::InvalidArgument);
        }
        Ok(KStat { c_kstat })
    }

    /// The raw address, for calls back into the host.
    pub fn to_c_kstat(&self) -> (r: usize)
        ensures
            r == self@,
    {
        self.c_kstat
    }
}

/// A borrowed view of a host path (mount and entry), valid for one call.
pub struct Path {
    c_path: usize,
}

impl View for Path {
    type V = usize;

    /// The address of the host object.
    closed spec fn view(&self) -> usize {
        self.c_path
    }
}

impl Path {
    /// Wraps a raw address; the null address is refused.
    pub fn from_c_path(c_path: usize) -> (r: Result<Path, Error>)
        ensures
            c_path == 0 ==> r == Err::<Path, Error>(Error::InvalidArgument),
            c_path != 0 ==> r is Ok && r->Ok_0@ == c_path,
    {
        if c_path == 0 {
            return Err(Error::InvalidArgument);
        }
        Ok(Path { c_path })
    }

    /// The raw address, for calls back into the host.
    pub fn to_c_path(&self) -> (r: usize)
        ensures
            r == self@,
    {
        self.c_path
    }
}

} // verus!
