//! Directory-entry handles and the dentry operation table.

use vstd::prelude::*;
use core::marker::PhantomData;
use crate::error::{bool_to_int, err_ptr_of, errno_of, Error, EINVAL};

verus! {

/// A borrowed view of a host directory entry, valid for one call.
pub struct Dentry {
    c_dentry: usize,
}

impl View for Dentry {
    type V = usize;

    /// The address of the host object.
    closed spec fn view(&self) -> usize {
        self.c_dentry
    }
}

impl Dentry {
    /// A handle that refers to no object.
    pub fn default() -> (r: Dentry)
        ensures
            r@ == 0,
    {
        Dentry { c_dentry: 0 }
    }

    /// Wraps a raw address; the null address is refused.
    pub fn from_c_dentry(c_dentry: usize) -> (r: Result<Dentry, Error>)
        ensures
            c_dentry == 0 ==> r == Err::<Dentry, Error>(Error::InvalidArgument),
            c_dentry != 0 ==> r is Ok && r->Ok_0@ == c_dentry,
    {
        if c_dentry == 0 {
            return Err(Error::InvalidArgument);
        }
        let mut d = Dentry::default();
        d.c_dentry = c_dentry;
        Ok(d)
    }

    /// The raw address, for calls back into the host.
    pub fn to_c_dentry(&self) -> (r: usize)
        ensures
            r == self@,
    {
        self.c_dentry
    }
}

/// The value the host receives for an operation that yields an entry: the
/// entry's address, or the error's code encoded as an address.
pub open spec fn dentry_status_of(res: Result<Dentry, Error>) -> usize {
    match res {
        Ok(d) => d@,
        Err(e) => err_ptr_of(errno_of(e)),
    }
}

/// The optional dentry operations a plugin provides.
#[derive(Clone, Copy, Debug, PartialEq, Eq, Structural)]
pub struct ToUse {
    pub d_delete: bool,
}

impl Default for ToUse {
    /// No operation selected: the host uses its built-in behaviour everywhere.
    fn default() -> (r: ToUse)
        ensures
            r == (ToUse { d_delete: false }),
    {
        ToUse { d_delete: false }
    }
}

/// The operation a non-null slot of the dentry table dispatches to.
#[derive(Clone, Copy, Debug, PartialEq, Eq, Structural)]
pub enum DentryOp {
    Delete,
}

/// The dentry operation table in the host's field order; `None` is the null
/// slot that makes the host fall back to its default.
#[derive(Clone, Copy, Debug, PartialEq, Eq, Structural)]
pub struct DentryOperationsTable {
    pub d_revalidate: Option<DentryOp>,
    pub d_weak_revalidate: Option<DentryOp>,
    pub d_hash: Option<DentryOp>,
    pub d_compare: Option<DentryOp>,
    pub d_delete: Option<DentryOp>,
    pub d_init: Option<DentryOp>,
    pub d_release: Option<DentryOp>,
    pub d_prune: Option<DentryOp>,
    pub d_iput: Option<DentryOp>,
    pub d_dname: Option<DentryOp>,
    pub d_automount: Option<DentryOp>,
    pub d_manage: Option<DentryOp>,
    pub d_real: Option<DentryOp>,
}

/// The slot for one operation: installed exactly when selected.
pub open spec fn slot(selected: bool, op: DentryOp) -> Option<DentryOp> {
    if selected {
        Some(op)
    } else {
        None
    }
}

impl DentryOperationsTable {
    /// The table holds a trampoline exactly at the slots `to_use` selects.
    pub open spec fn built_from(&self, to_use: ToUse) -> bool {
        &&& self.d_delete == slot(to_use.d_delete, DentryOp::Delete)
        &&& self.d_revalidate is None
        &&& self.d_weak_revalidate is None
        &&& self.d_hash is None
        &&& self.d_compare is None
        &&& self.d_init is None
        &&& self.d_release is None
        &&& self.d_prune is None
        &&& self.d_iput is None
        &&& self.d_dname is None
        &&& self.d_automount is None
        &&& self.d_manage is None
        &&& self.d_real is None
    }
}

/// Host entry point for `d_delete`: whether to drop the entry from the cache
/// when its last reference goes. The plugin's answer is passed as 1 or 0.
pub fn d_delete_callback<T: DentryOperations>(c_dentry: usize) -> (r: i32)
    ensures
        c_dentry == 0 ==> r == -EINVAL,
        c_dentry != 0 ==> exists|d: Dentry, b: bool|
            d@ == c_dentry && call_ensures(T::d_delete, (&d,), b) && r == (if b {
                1i32
            } else {
                0i32
            }),
{
    let dentry = match Dentry::from_c_dentry(c_dentry) {
        Ok(d) => d,
        Err(e) => return e.to_kernel_errno(),
    };
    let answer = T::d_delete(&dentry);
    bool_to_int(answer)
}

/// Builds the dentry table of a plugin type.
pub struct DentryOperationsVtable<T>(PhantomData<T>);

impl<T: DentryOperations> DentryOperationsVtable<T> {
    /// The table for `T`, with a trampoline at each slot `T::TO_USE` selects.
    pub fn build() -> (r: DentryOperationsTable)
        ensures
            r.built_from(T::TO_USE),
    {
        let to_use = T::TO_USE;
        DentryOperationsTable {
            d_revalidate: None,
            d_weak_revalidate: None,
            d_hash: None,
            d_compare: None,
            d_delete: if to_use.d_delete {
                Some(DentryOp::Delete)
            } else {
                None
            },
            d_init: None,
            d_release: None,
            d_prune: None,
            d_iput: None,
            d_dname: None,
            d_automount: None,
            d_manage: None,
            d_real: None,
        }
    }
}

/// Dentry operations a plugin may provide; each has the host's behaviour
/// unless selected in `TO_USE`.
pub trait DentryOperations {
    /// The operations this plugin selects.
    const TO_USE: ToUse;

    /// Called when the last reference to an entry is dropped: `true` deletes
    /// it at once, `false` keeps it cached.
    fn d_delete(_dentry: &Dentry) -> bool {
        false
    }
}

} // verus!
