//! Handles on host user namespaces.

use vstd::prelude::*;
use crate::error::Error;

verus! {

/// A borrowed view of a host user namespace, valid for one call.
pub struct UserNameSpace {
    c_user_ns: usize,
}

impl View for UserNameSpace {
    type V = usize;

    /// The address of the host object.
    closed spec fn view(&self) -> usize {
        self.c_user_ns
    }
}

impl UserNameSpace {
    /// A handle that refers to no object.
    pub fn default() -> (r: UserNameSpace)
        ensures
            r@ == 0,
    {
        UserNameSpace { c_user_ns: 0 }
    }

    /// Wraps a raw address; the null address is refused.
    pub fn from_c_user_namespace(c_user_ns: usize) -> (r: Result<UserNameSpace, Error>)
        ensures
            c_user_ns == 0 ==> r == Err::<UserNameSpace, Error>(Error::InvalidArgument),
            c_user_ns != 0 ==> r is Ok && r->Ok_0@ == c_user_ns,
    {
        if c_user_ns == 0 {
            return Err(Error::InvalidArgument);
        }
        let mut h = UserNameSpace::default();
        h.c_user_ns = c_user_ns;
        Ok(h)
    }

    /// The raw address, for calls back into the host.
    pub fn to_c_user_namespace(&self) -> (r: usize)
        ensures
            r == self@,
    {
        self.c_user_ns
    }
}

} // verus!
