//! Inode handles, the inode operation table and its trampolines.

use vstd::prelude::*;
use core::marker::PhantomData;
use crate::dentry::{dentry_status_of, Dentry};
use crate::error::{
    err_ptr_of, from_result, is_status, ptr_from_result, status_of, Error, EINVAL,
};
use crate::types::{DevType, IAttr, KStat, Path, UMode};
use crate::user_ns::UserNameSpace;

verus! {

/// A borrowed view of a host inode, valid for one call.
pub struct Inode {
    c_inode: usize,
}

impl View for Inode {
    type V = usize;

    /// The address of the host object.
    closed spec fn view(&self) -> usize {
        self.c_inode
    }
}

impl Inode {
    /// A handle that refers to no object.
    pub fn default() -> (r: Inode)
        ensures
            r@ == 0,
    {
        Inode { c_inode: 0 }
    }

    /// Wraps a raw address; the null address is refused.
    pub fn from_c_inode(c_inode: usize) -> (r: Result<Inode, Error>)
        ensures
            c_inode == 0 ==> r == Err::<Inode, Error>(Error::InvalidArgument),
            c_inode != 0 ==> r is Ok && r->Ok_0@ == c_inode,
    {
        if c_inode == 0 {
            return Err(Error::InvalidArgument);
        }
        let mut h = Inode::default();
        h.c_inode = c_inode;
        Ok(h)
    }

    /// The raw address, for calls back into the host.
    pub fn to_c_inode(&self) -> (r: usize)
        ensures
            r == self@,
    {
        self.c_inode
    }
}


/// The optional inode operations a plugin provides.
#[derive(Clone, Copy, Debug, PartialEq, Eq, Structural)]
pub struct ToUse {
    pub lookup: bool,
    pub create: bool,
    pub link: bool,
    pub unlink: bool,
    pub symlink: bool,
    pub mkdir: bool,
    pub rmdir: bool,
    pub mknod: bool,
    pub rename: bool,
    pub setattr: bool,
    pub getattr: bool,
}

impl Default for ToUse {
    /// No operation selected: the host uses its built-in behaviour everywhere.
    fn default() -> (r: ToUse)
        ensures
            r == (ToUse {
                lookup: false,
                create: false,
                link: false,
                unlink: false,
                symlink: false,
                mkdir: false,
                rmdir: false,
                mknod: false,
                rename: false,
                setattr: false,
                getattr: false,
            }),
    {
        ToUse {
            lookup: false,
            create: false,
            link: false,
            unlink: false,
            symlink: false,
            mkdir: false,
            rmdir: false,
            mknod: false,
            rename: false,
            setattr: false,
            getattr: false,
        }
    }
}

/// The operation a non-null slot of the inode table dispatches to.
#[derive(Clone, Copy, Debug, PartialEq, Eq, Structural)]
pub enum InodeOp {
    Lookup,
    Create,
    Link,
    Unlink,
    Symlink,
    Mkdir,
    Rmdir,
    Mknod,
    Rename,
    Setattr,
    Getattr,
}

/// The inode operation table in the host's field order; `None` is the null
/// slot that makes the host fall back to its default.
#[derive(Clone, Copy, Debug, PartialEq, Eq, Structural)]
pub struct InodeOperationsTable {
    pub lookup: Option<InodeOp>,
    pub get_link: Option<InodeOp>,
    pub permission: Option<InodeOp>,
    pub get_acl: Option<InodeOp>,
    pub readlink: Option<InodeOp>,
    pub create: Option<InodeOp>,
    pub link: Option<InodeOp>,
    pub unlink: Option<InodeOp>,
    pub symlink: Option<InodeOp>,
    pub mkdir: Option<InodeOp>,
    pub rmdir: Option<InodeOp>,
    pub mknod: Option<InodeOp>,
    pub rename: Option<InodeOp>,
    pub setattr: Option<InodeOp>,
    pub getattr: Option<InodeOp>,
    pub listxattr: Option<InodeOp>,
    pub fiemap: Option<InodeOp>,
    pub update_time: Option<InodeOp>,
    pub atomic_open: Option<InodeOp>,
    pub tmpfile: Option<InodeOp>,
    pub set_acl: Option<InodeOp>,
    pub fileattr_set: Option<InodeOp>,
    pub fileattr_get: Option<InodeOp>,
}

/// The slot for one operation: installed exactly when selected.
pub open spec fn slot(selected: bool, op: InodeOp) -> Option<InodeOp> {
    if selected {
        Some(op)
    } else {
        None
    }
}

impl InodeOperationsTable {
    /// The table holds a trampoline exactly at the slots `to_use` selects.
    pub open spec fn built_from(&self, to_use: ToUse) -> bool {
        &&& self.lookup == slot(to_use.lookup, InodeOp::Lookup)
        &&& self.get_link is None
        &&& self.permission is None
        &&& self.get_acl is None
        &&& self.readlink is None
        &&& self.create == slot(to_use.create, InodeOp::Create)
        &&& self.link == slot(to_use.link, InodeOp::Link)
        &&& self.unlink == slot(to_use.unlink, InodeOp::Unlink)
        &&& self.symlink == slot(to_use.symlink, InodeOp::Symlink)
        &&& self.mkdir == slot(to_use.mkdir, InodeOp::Mkdir)
        &&& self.rmdir == slot(to_use.rmdir, InodeOp::Rmdir)
        &&& self.mknod == slot(to_use.mknod, InodeOp::Mknod)
        &&& self.rename == slot(to_use.rename, InodeOp::Rename)
        &&& self.setattr == slot(to_use.setattr, InodeOp::Setattr)
        &&& self.getattr == slot(to_use.getattr, InodeOp::Getattr)
        &&& self.listxattr is None
        &&& self.fiemap is None
        &&& self.update_time is None
        &&& self.atomic_open is None
        &&& self.tmpfile is None
        &&& self.set_acl is None
        &&& self.fileattr_set is None
        &&& self.fileattr_get is None
    }
}

/// Host entry point for `lookup`: finds the entry `c_dentry` in the directory
/// `c_inode`. Returns the address of the entry found, or an error code
/// encoded as an address.
pub fn lookup<T: InodeOperations>(c_inode: usize, c_dentry: usize, flags: u32) -> (r: usize)
    ensures
        c_inode == 0 || c_dentry == 0 ==> r == err_ptr_of(-EINVAL),
        c_inode != 0 && c_dentry != 0 ==> exists|
            i: &mut Inode,
            d: &mut Dentry,
            res: Result<Dentry, Error>,
        |
            {
                &&& i@ == c_inode
                &&& d@ == c_dentry
                &&& call_ensures(T::lookup, (i, d, flags), res)
                &&& r == dentry_status_of(res)
            },
{
    let mut inode = match Inode::from_c_inode(c_inode) {
        Ok(h) => h,
        Err(e) => return ptr_from_result(Err(e)),
    };
    let mut dentry = match Dentry::from_c_dentry(c_dentry) {
        Ok(h) => h,
        Err(e) => return ptr_from_result(Err(e)),
    };
    match T::lookup(&mut inode, &mut dentry, flags) {
        Ok(found) => found.to_c_dentry(),
        Err(e) => ptr_from_result(Err(e)),
    }
}

/// Host entry point for `create`: makes a regular file for `c_dentry` in the
/// directory `c_inode`.
pub fn create<T: InodeOperations>(
    c_user_ns: usize,
    c_inode: usize,
    c_dentry: usize,
    c_mode: UMode,
    c_excl: bool,
) -> (r: i32)
    ensures
        c_user_ns == 0 || c_inode == 0 || c_dentry == 0 ==> r == -EINVAL,
        c_user_ns != 0 && c_inode != 0 && c_dentry != 0 ==> exists|
            u: &mut UserNameSpace,
            i: &mut Inode,
            d: &mut Dentry,
            res: Result<(), Error>,
        |
            {
                &&& u@ == c_user_ns
                &&& i@ == c_inode
                &&& d@ == c_dentry
                &&& call_ensures(T::create, (u, i, d, c_mode, c_excl), res)
                &&& r == status_of(res)
            },
        is_status(r as int),
{
    let mut user_ns = match UserNameSpace::from_c_user_namespace(c_user_ns) {
        Ok(h) => h,
        Err(e) => return e.to_kernel_errno(),
    };
    let mut inode = match Inode::from_c_inode(c_inode) {
        Ok(h) => h,
        Err(e) => return e.to_kernel_errno(),
    };
    let mut dentry = match Dentry::from_c_dentry(c_dentry) {
        Ok(h) => h,
        Err(e) => return e.to_kernel_errno(),
    };
    from_result(T::create(&mut user_ns, &mut inode, &mut dentry, c_mode, c_excl))
}

/// Host entry point for `link`: makes `c_dentry` in the directory `c_dir` a
/// new name for the file of `c_old_dentry`.
pub fn link<T: InodeOperations>(c_old_dentry: usize, c_dir: usize, c_dentry: usize) -> (r: i32)
    ensures
        c_old_dentry == 0 || c_dir == 0 || c_dentry == 0 ==> r == -EINVAL,
        c_old_dentry != 0 && c_dir != 0 && c_dentry != 0 ==> exists|
            o: &mut Dentry,
            i: &mut Inode,
            d: &mut Dentry,
            res: Result<(), Error>,
        |
            {
                &&& o@ == c_old_dentry
                &&& i@ == c_dir
                &&& d@ == c_dentry
                &&& call_ensures(T::link, (o, i, d), res)
                &&& r == status_of(res)
            },
        is_status(r as int),
{
    let mut old_dentry = match Dentry::from_c_dentry(c_old_dentry) {
        Ok(h) => h,
        Err(e) => return e.to_kernel_errno(),
    };
    let mut dir = match Inode::from_c_inode(c_dir) {
        Ok(h) => h,
        Err(e) => return e.to_kernel_errno(),
    };
    let mut dentry = match Dentry::from_c_dentry(c_dentry) {
        Ok(h) => h,
        Err(e) => return e.to_kernel_errno(),
    };
    from_result(T::link(&mut old_dentry, &mut dir, &mut dentry))
}

/// Host entry point for `unlink`: removes the entry `c_dentry` from the
/// directory `c_inode`.
pub fn unlink<T: InodeOperations>(c_inode: usize, c_dentry: usize) -> (r: i32)
    ensures
        c_inode == 0 || c_dentry == 0 ==> r == -EINVAL,
        c_inode != 0 && c_dentry != 0 ==> exists|
            i: &mut Inode,
            d: &mut Dentry,
            res: Result<(), Error>,
        |
            {
                &&& i@ == c_inode
                &&& d@ == c_dentry
                &&& call_ensures(T::unlink, (i, d), res)
                &&& r == status_of(res)
            },
        is_status(r as int),
{
    let mut inode = match Inode::from_c_inode(c_inode) {
        Ok(h) => h,
        Err(e) => return e.to_kernel_errno(),
    };
    let mut dentry = match Dentry::from_c_dentry(c_dentry) {
        Ok(h) => h,
        Err(e) => return e.to_kernel_errno(),
    };
    from_result(T::unlink(&mut inode, &mut dentry))
}

/// Host entry point for `symlink`: makes `c_dentry` in the directory
/// `c_inode` a symbolic link to `c_symname`. A missing target name is an
/// invalid argument.
pub fn symlink<T: InodeOperations>(
    c_user_ns: usize,
    c_inode: usize,
    c_dentry: usize,
    c_symname: Option<&str>,
) -> (r: i32)
    ensures
        c_user_ns == 0 || c_inode == 0 || c_dentry == 0 || c_symname is None ==> r == -EINVAL,
        c_user_ns != 0 && c_inode != 0 && c_dentry != 0 && c_symname is Some ==> exists|
            u: &mut UserNameSpace,
            i: &mut Inode,
            d: &mut Dentry,
            res: Result<(), Error>,
        |
            {
                &&& u@ == c_user_ns
                &&& i@ == c_inode
                &&& d@ == c_dentry
                &&& call_ensures(T::symlink, (u, i, d, c_symname->Some_0), res)
                &&& r == status_of(res)
            },
        is_status(r as int),
{
    let mut user_ns = match UserNameSpace::from_c_user_namespace(c_user_ns) {
        Ok(h) => h,
        Err(e) => return e.to_kernel_errno(),
    };
    let mut inode = match Inode::from_c_inode(c_inode) {
        Ok(h) => h,
        Err(e) => return e.to_kernel_errno(),
    };
    let mut dentry = match Dentry::from_c_dentry(c_dentry) {
        Ok(h) => h,
        Err(e) => return e.to_kernel_errno(),
    };
    let sym_name = match c_symname {
        Some(s) => s,
        None => return Error::InvalidArgument.to_kernel_errno(),
    };
    from_result(T::symlink(&mut user_ns, &mut inode, &mut dentry, sym_name))
}

/// Host entry point for `mkdir`: makes `c_dentry` a new directory in the
/// directory `c_inode`.
pub fn mkdir<T: InodeOperations>(
    c_user_ns: usize,
    c_inode: usize,
    c_dentry: usize,
    c_mode: UMode,
) -> (r: i32)
    ensures
        c_user_ns == 0 || c_inode == 0 || c_dentry == 0 ==> r == -EINVAL,
        c_user_ns != 0 && c_inode != 0 && c_dentry != 0 ==> exists|
            u: &mut UserNameSpace,
            i: &mut Inode,
            d: &mut Dentry,
            res: Result<(), Error>,
        |
            {
                &&& u@ == c_user_ns
                &&& i@ == c_inode
                &&& d@ == c_dentry
                &&& call_ensures(T::mkdir, (u, i, d, c_mode), res)
                &&& r == status_of(res)
            },
        is_status(r as int),
{
    let mut user_ns = match UserNameSpace::from_c_user_namespace(c_user_ns) {
        Ok(h) => h,
        Err(e) => return e.to_kernel_errno(),
    };
    let mut inode = match Inode::from_c_inode(c_inode) {
        Ok(h) => h,
        Err(e) => return e.to_kernel_errno(),
    };
    let mut dentry = match Dentry::from_c_dentry(c_dentry) {
        Ok(h) => h,
        Err(e) => return e.to_kernel_errno(),
    };
    from_result(T::mkdir(&mut user_ns, &mut inode, &mut dentry, c_mode))
}

/// Host entry point for `rmdir`: removes the directory `c_dentry` from the
/// directory `c_inode`.
pub fn rmdir<T: InodeOperations>(c_inode: usize, c_dentry: usize) -> (r: i32)
    ensures
        c_inode == 0 || c_dentry == 0 ==> r == -EINVAL,
        c_inode != 0 && c_dentry != 0 ==> exists|
            i: &mut Inode,
            d: &mut Dentry,
            res: Result<(), Error>,
        |
            {
                &&& i@ == c_inode
                &&& d@ == c_dentry
                &&& call_ensures(T::rmdir, (i, d), res)
                &&& r == status_of(res)
            },
        is_status(r as int),
{
    let mut inode = match Inode::from_c_inode(c_inode) {
        Ok(h) => h,
        Err(e) => return e.to_kernel_errno(),
    };
    let mut dentry = match Dentry::from_c_dentry(c_dentry) {
        Ok(h) => h,
        Err(e) => return e.to_kernel_errno(),
    };
    from_result(T::rmdir(&mut inode, &mut dentry))
}

/// Host entry point for `mknod`: makes `c_dentry` a special file for the
/// device `c_rdev` in the directory `c_inode`.
pub fn mknod<T: InodeOperations>(
    c_user_ns: usize,
    c_inode: usize,
    c_dentry: usize,
    c_mode: UMode,
    c_rdev: DevType,
) -> (r: i32)
    ensures
        c_user_ns == 0 || c_inode == 0 || c_dentry == 0 ==> r == -EINVAL,
        c_user_ns != 0 && c_inode != 0 && c_dentry != 0 ==> exists|
            u: &mut UserNameSpace,
            i: &mut Inode,
            d: &mut Dentry,
            res: Result<(), Error>,
        |
            {
                &&& u@ == c_user_ns
                &&& i@ == c_inode
                &&& d@ == c_dentry
                &&& call_ensures(T::mknod, (u, i, d, c_mode, c_rdev), res)
                &&& r == status_of(res)
            },
        is_status(r as int),
{
    let mut user_ns = match UserNameSpace::from_c_user_namespace(c_user_ns) {
        Ok(h) => h,
        Err(e) => return e.to_kernel_errno(),
    };
    let mut inode = match Inode::from_c_inode(c_inode) {
        Ok(h) => h,
        Err(e) => return e.to_kernel_errno(),
    };
    let mut dentry = match Dentry::from_c_dentry(c_dentry) {
        Ok(h) => h,
        Err(e) => return e.to_kernel_errno(),
    };
    from_result(T::mknod(&mut user_ns, &mut inode, &mut dentry, c_mode, c_rdev))
}

/// Host entry point for `rename`: moves `c_old_dentry` of the directory
/// `c_old_dir` to `c_new_dentry` of the directory `c_new_dir`.
pub fn rename<T: InodeOperations>(
    c_user_ns: usize,
    c_old_dir: usize,
    c_old_dentry: usize,
    c_new_dir: usize,
    c_new_dentry: usize,
    c_flags: u32,
) -> (r: i32)
    ensures
        c_user_ns == 0 || c_old_dir == 0 || c_old_dentry == 0 || c_new_dir == 0
            || c_new_dentry == 0 ==> r == -EINVAL,
        c_user_ns != 0 && c_old_dir != 0 && c_old_dentry != 0 && c_new_dir != 0
            && c_new_dentry != 0 ==> exists|
            u: &mut UserNameSpace,
            od: &mut Inode,
            oe: &mut Dentry,
            nd: &mut Inode,
            ne: &mut Dentry,
            res: Result<(), Error>,
        |
            {
                &&& u@ == c_user_ns
                &&& od@ == c_old_dir
                &&& oe@ == c_old_dentry
                &&& nd@ == c_new_dir
                &&& ne@ == c_new_dentry
                &&& call_ensures(T::rename, (u, od, oe, nd, ne, c_flags), res)
                &&& r == status_of(res)
            },
        is_status(r as int),
{
    let mut user_ns = match UserNameSpace::from_c_user_namespace(c_user_ns) {
        Ok(h) => h,
        Err(e) => return e.to_kernel_errno(),
    };
    let mut old_dir = match Inode::from_c_inode(c_old_dir) {
        Ok(h) => h,
        Err(e) => return e.to_kernel_errno(),
    };
    let mut old_dentry = match Dentry::from_c_dentry(c_old_dentry) {
        Ok(h) => h,
        Err(e) => return e.to_kernel_errno(),
    };
    let mut new_dir = match Inode::from_c_inode(c_new_dir) {
        Ok(h) => h,
        Err(e) => return e.to_kernel_errno(),
    };
    let mut new_dentry = match Dentry::from_c_dentry(c_new_dentry) {
        Ok(h) => h,
        Err(e) => return e.to_kernel_errno(),
    };
    from_result(
        T::rename(
            &mut user_ns,
            &mut old_dir,
            &mut old_dentry,
            &mut new_dir,
            &mut new_dentry,
            c_flags,
        ),
    )
}

/// Host entry point for `setattr`: applies the attribute change `c_attr` to
/// the file of `c_dentry`.
pub fn setattr<T: InodeOperations>(c_user_ns: usize, c_dentry: usize, c_attr: usize) -> (r: i32)
    ensures
        c_user_ns == 0 || c_dentry == 0 || c_attr == 0 ==> r == -EINVAL,
        c_user_ns != 0 && c_dentry != 0 && c_attr != 0 ==> exists|
            u: &mut UserNameSpace,
            d: &mut Dentry,
            a: &mut IAttr,
            res: Result<(), Error>,
        |
            {
                &&& u@ == c_user_ns
                &&& d@ == c_dentry
                &&& a@ == c_attr
                &&& call_ensures(T::setattr, (u, d, a), res)
                &&& r == status_of(res)
            },
        is_status(r as int),
{
    let mut user_ns = match UserNameSpace::from_c_user_namespace(c_user_ns) {
        Ok(h) => h,
        Err(e) => return e.to_kernel_errno(),
    };
    let mut dentry = match Dentry::from_c_dentry(c_dentry) {
        Ok(h) => h,
        Err(e) => return e.to_kernel_errno(),
    };
    let mut attr = match IAttr::from_c_iattr(c_attr) {
        Ok(h) => h,
        Err(e) => return e.to_kernel_errno(),
    };
    from_result(T::setattr(&mut user_ns, &mut dentry, &mut attr))
}

/// Host entry point for `getattr`: fills `c_kstat` with the attributes of
/// the file at `c_path`.
pub fn getattr<T: InodeOperations>(
    c_user_ns: usize,
    c_path: usize,
    c_kstat: usize,
    c_request_mask: u32,
    c_query_flags: u32,
) -> (r: i32)
    ensures
        c_user_ns == 0 || c_path == 0 || c_kstat == 0 ==> r == -EINVAL,
        c_user_ns != 0 && c_path != 0 && c_kstat != 0 ==> exists|
            u: &mut UserNameSpace,
            p: Path,
            k: &mut KStat,
            res: Result<(), Error>,
        |
            {
                &&& u@ == c_user_ns
                &&& p@ == c_path
                &&& k@ == c_kstat
                &&& call_ensures(T::getattr, (u, &p, k, c_request_mask, c_query_flags), res)
                &&& r == status_of(res)
            },
        is_status(r as int),
{
    let mut user_ns = match UserNameSpace::from_c_user_namespace(c_user_ns) {
        Ok(h) => h,
        Err(e) => return e.to_kernel_errno(),
    };
    let path = match Path::from_c_path(c_path) {
        Ok(h) => h,
        Err(e) => return e.to_kernel_errno(),
    };
    let mut kstat = match KStat::from_c_kstat(c_kstat) {
        Ok(h) => h,
        Err(e) => return e.to_kernel_errno(),
    };
    from_result(T::getattr(&mut user_ns, &path, &mut kstat, c_request_mask, c_query_flags))
}

/// Builds the inode table of a plugin type.
pub struct InodeOperationsVtable<T>(PhantomData<T>);

impl<T: InodeOperations> InodeOperationsVtable<T> {
    /// The table for `T`, with a trampoline at each slot `T::TO_USE` selects.
    pub fn build() -> (r: InodeOperationsTable)
        ensures
            r.built_from(T::TO_USE),
    {
        let to_use = T::TO_USE;
        InodeOperationsTable {
            lookup: if to_use.lookup {
                Some(InodeOp::Lookup)
            } else {
                None
            },
            get_link: None,
            permission: None,
            get_acl: None,
            readlink: None,
            create: if to_use.create {
                Some(InodeOp::Create)
            } else {
                None
            },
            link: if to_use.link {
                Some(InodeOp::Link)
            } else {
                None
            },
            unlink: if to_use.unlink {
                Some(InodeOp::Unlink)
            } else {
                None
            },
            symlink: if to_use.symlink {
                Some(InodeOp::Symlink)
            } else {
                None
            },
            mkdir: if to_use.mkdir {
                Some(InodeOp::Mkdir)
            } else {
                None
            },
            rmdir: if to_use.rmdir {
                Some(InodeOp::Rmdir)
            } else {
                None
            },
            mknod: if to_use.mknod {
                Some(InodeOp::Mknod)
            } else {
                None
            },
            rename: if to_use.rename {
                Some(InodeOp::Rename)
            } else {
                None
            },
            setattr: if to_use.setattr {
                Some(InodeOp::Setattr)
            } else {
                None
            },
            getattr: if to_use.getattr {
                Some(InodeOp::Getattr)
            } else {
                None
            },
            listxattr: None,
            fiemap: None,
            update_time: None,
            atomic_open: None,
            tmpfile: None,
            set_acl: None,
            fileattr_set: None,
            fileattr_get: None,
        }
    }
}

/// Inode operations a plugin may provide. Each has the host's behaviour
/// unless selected in `TO_USE`; one that is selected but not written here
/// reports `NotSupported`.
pub trait InodeOperations {
    /// The operations this plugin selects.
    const TO_USE: ToUse;

    /// Looks up `dentry` in the directory `inode`.
    fn lookup(_inode: &mut Inode, _dentry: &mut Dentry, _flags: u32) -> Result<Dentry, Error> {
        Err(Error::NotSupported)
    }

    /// Creates a regular file for `dentry` in the directory `inode`.
    fn create(
        _mnt_userns: &mut UserNameSpace,
        _inode: &mut Inode,
        _dentry: &mut Dentry,
        _mode: UMode,
        _excl: bool,
    ) -> Result<(), Error> {
        Err(Error::NotSupported)
    }

    /// Makes `new` in `dir` another name for the file of `old`.
    fn link(_old: &mut Dentry, _dir: &mut Inode, _new: &mut Dentry) -> Result<(), Error> {
        Err(Error::NotSupported)
    }

    /// Removes `dentry` from the directory `dir`.
    fn unlink(_dir: &mut Inode, _dentry: &mut Dentry) -> Result<(), Error> {
        Err(Error::NotSupported)
    }

    /// Makes `dentry` in `dir` a symbolic link to `sym_name`.
    fn symlink(
        _mnt_userns: &mut UserNameSpace,
        _dir: &mut Inode,
        _dentry: &mut Dentry,
        _sym_name: &str,
    ) -> Result<(), Error> {
        Err(Error::NotSupported)
    }

    /// Makes `dentry` a new directory in the directory `inode`.
    fn mkdir(
        _mnt_userns: &mut UserNameSpace,
        _inode: &mut Inode,
        _dentry: &mut Dentry,
        _mode: UMode,
    ) -> Result<(), Error> {
        Err(Error::NotSupported)
    }

    /// Removes the directory `dentry` from the directory `inode`.
    fn rmdir(_inode: &mut Inode, _dentry: &mut Dentry) -> Result<(), Error> {
        Err(Error::NotSupported)
    }

    /// Makes `dentry` a special file for the device `rdev`.
    fn mknod(
        _mnt_userns: &mut UserNameSpace,
        _inode: &mut Inode,
        _dentry: &mut Dentry,
        _mode: UMode,
        _rdev: DevType,
    ) -> Result<(), Error> {
        Err(Error::NotSupported)
    }

    /// Moves `old_dentry` of `old_dir` to `new_dentry` of `new_dir`.
    fn rename(
        _mnt_userns: &mut UserNameSpace,
        _old_dir: &mut Inode,
        _old_dentry: &mut Dentry,
        _new_dir: &mut Inode,
        _new_dentry: &mut Dentry,
        _flags: u32,
    ) -> Result<(), Error> {
        Err(Error::NotSupported)
    }

    /// Applies an attribute change to the file of `dentry`.
    fn setattr(
        _mnt_userns: &mut UserNameSpace,
        _dentry: &mut Dentry,
        _iattr: &mut IAttr,
    ) -> Result<(), Error> {
        Err(Error::NotSupported)
    }

    /// Fills `kstat` with the attributes of the file at `path`.
    fn getattr(
        _mnt_userns: &mut UserNameSpace,
        _path: &Path,
        _kstat: &mut KStat,
        _mask: u32,
        _query_flags: u32,
    ) -> Result<(), Error> {
        Err(Error::NotSupported)
    }
}

} // verus!
