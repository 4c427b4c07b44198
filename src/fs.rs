//! File-system type handles, mount kinds and the entry points the host
//! calls to mount and tear down a file system.

use vstd::prelude::*;
use crate::dentry::{dentry_status_of, Dentry};
use crate::error::{err_ptr_of, from_result, is_status, ptr_from_result, status_of, Error, EINVAL};
use crate::super_block::SuperBlock;

verus! {

/// A borrowed view of a host file-system type record, valid for one call.
pub struct FSType {
    c_fs_type: usize,
}

impl View for FSType {
    type V = usize;

    /// The address of the host object.
    closed spec fn view(&self) -> usize {
        self.c_fs_type
    }
}

impl FSType {
    /// A handle that refers to no object.
    pub fn default() -> (r: FSType)
        ensures
            r@ == 0,
    {
        FSType { c_fs_type: 0 }
    }

    /// Wraps a raw address; the null address is refused.
    pub fn from_c_fs_type(c_fs_type: usize) -> (r: Result<FSType, Error>)
        ensures
            c_fs_type == 0 ==> r == Err::<FSType, Error>(Error::InvalidArgument),
            c_fs_type != 0 ==> r is Ok && r->Ok_0@ == c_fs_type,
    {
        if c_fs_type == 0 {
            return Err(Error::InvalidArgument);
        }
        let mut h = FSType::default();
        h.c_fs_type = c_fs_type;
        Ok(h)
    }

    /// The raw address, for calls back into the host.
    pub fn to_c_fs_type(&self) -> (r: usize)
        ensures
            r == self@,
    {
        self.c_fs_type
    }
}

/// How the host mounts a file system type.
#[derive(Clone, Copy, Debug, PartialEq, Eq, Structural)]
pub enum MountType {
    /// The plugin's own `mount` is called instead of `fill_super`.
    Custom,
    /// A file system residing on a block device.
    BDev,
    /// A file system that is not backed by a device.
    NoDev,
    /// A file system whose one instance is shared by all mounts.
    Single,
}

/// What `mount_callback` leaves to the host.
#[derive(Clone, Copy, Debug, PartialEq, Eq, Structural)]
pub enum MountStep {
    /// The mount is over: the root entry's address, or an error code encoded
    /// as an address.
    Done(usize),
    /// The host's generic helper for this mount type is to run, with
    /// `fill_super_callback` as its callback; what it returns goes through
    /// `finish_host_mount`.
    HostHelper(MountType),
}

/// The string a plugin receives for an optional C string of the host: a
/// missing one reads as empty.
pub open spec fn mount_arg(s: Option<&str>) -> Seq<char> {
    match s {
        Some(v) => v@,
        None => Seq::empty(),
    }
}

/// The given string, or the empty string when there is none.
fn str_or_empty(s: Option<&str>) -> (r: &str)
    ensures
        r@ == mount_arg(s),
{
    match s {
        Some(v) => v,
        None => {
            proof {
                reveal_strlit("");
            }
            ""
        },
    }
}

/// Host entry point for `mount`. A `Custom` type is mounted by the plugin;
/// every other type by the host's helper for that type.
pub fn mount_callback<T: FileSystem>(
    c_fs_type: usize,
    flags: i32,
    c_dev_name: Option<&str>,
    c_data: Option<&str>,
) -> (r: MountStep)
    ensures
        c_fs_type == 0 ==> r == MountStep::Done(err_ptr_of(-EINVAL)),
        c_fs_type != 0 && T::MOUNT_TYPE != MountType::Custom ==> r == MountStep::HostHelper(T::MOUNT_TYPE),
        c_fs_type != 0 && T::MOUNT_TYPE == MountType::Custom ==> exists|
            f: FSType,
            dev_name: &str,
            data: &str,
            res: Result<Dentry, Error>,
        |
            {
                &&& f@ == c_fs_type
                &&& dev_name@ == mount_arg(c_dev_name)
                &&& data@ == mount_arg(c_data)
                &&& call_ensures(T::mount, (&f, flags, dev_name, data), res)
                &&& r == MountStep::Done(dentry_status_of(res))
            },
{
    let fs_type = match FSType::from_c_fs_type(c_fs_type) {
        Ok(h) => h,
        Err(e) => return MountStep::Done(ptr_from_result(Err(e))),
    };
    match T::MOUNT_TYPE {
        MountType::Custom => {
            let dev_name = str_or_empty(c_dev_name);
            let data = str_or_empty(c_data);
            let res = T::mount(&fs_type, flags, dev_name, data);
            let step = match res {
                Ok(ref root) => MountStep::Done(root.to_c_dentry()),
                Err(e) => MountStep::Done(ptr_from_result(Err(e))),
            };
            step
        },
        other => MountStep::HostHelper(other),
    }
}

/// The value `mount` hands the host once its helper returned `c_dentry`: a
/// null root is an invalid argument.
pub fn finish_host_mount(c_dentry: usize) -> (r: usize)
    ensures
        c_dentry == 0 ==> r == err_ptr_of(-EINVAL),
        c_dentry != 0 ==> r == c_dentry,
{
    match Dentry::from_c_dentry(c_dentry) {
        Ok(root) => root.to_c_dentry(),
        Err(e) => ptr_from_result(Err(e)),
    }
}

/// Host entry point for `fill_super`: sets up a new superblock from the mount
/// data. Missing data reads as empty.
pub fn fill_super_callback<T: FileSystem>(
    c_sb: usize,
    c_data: Option<&str>,
    silent: i32,
) -> (r: i32)
    ensures
        c_sb == 0 ==> r == -EINVAL,
        c_sb != 0 ==> exists|
            sb: &mut SuperBlock,
            data: &str,
            res: Result<(), Error>,
        |
            {
                &&& sb@ == c_sb
                &&& data@ == mount_arg(c_data)
                &&& call_ensures(T::fill_super, (sb, data, silent), res)
                &&& r == status_of(res)
            },
        is_status(r as int),
{
    let mut sb = match SuperBlock::from_c_super_block(c_sb) {
        Ok(h) => h,
        Err(e) => return e.to_kernel_errno(),
    };
    let data = str_or_empty(c_data);
    from_result(T::fill_super(&mut sb, data, silent))
}

/// Host entry point for `kill_sb`. A notification: nothing is returned, and
/// a null superblock never reaches the plugin.
pub fn kill_superblock_callback<T: FileSystem>(c_sb: usize)
    ensures
        c_sb != 0 ==> exists|sb: SuperBlock|
            {
                &&& sb@ == c_sb
                &&& call_ensures(T::kill_sb, (&sb,), ())
            },
{
    if let Ok(sb) = SuperBlock::from_c_super_block(c_sb) {
        T::kill_sb(&sb);
    }
}

/// A file system type a plugin provides.
pub trait FileSystem {
    /// How the host mounts this type.
    const MOUNT_TYPE: MountType;

    /// Mounts the file system, for a `Custom` type: the root entry.
    fn mount(
        _fs_type: &FSType,
        _flags: i32,
        _dev_name: &str,
        _data: &str,
    ) -> Result<Dentry, Error> {
        Err(Error::NotSupported)
    }

    /// Sets up a new superblock.
    fn fill_super(_sb: &mut SuperBlock, _data: &str, _silent: i32) -> Result<(), Error> {
        Err(Error::NotSupported)
    }

    /// The host is tearing down a superblock.
    fn kill_sb(_sb: &SuperBlock) {
    }
}

} // verus!
