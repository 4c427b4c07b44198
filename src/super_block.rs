//! Superblock handles, the superblock operation table and its trampolines.

use vstd::prelude::*;
use core::marker::PhantomData;
use crate::dentry::Dentry;
use crate::error::{bool_to_int, from_result, is_status, status_of, Error, EINVAL};
use crate::inode::Inode;
use crate::kstatfs::KStatFs;
use crate::seq_file::SeqFile;

verus! {

/// A borrowed view of a host superblock, valid for one call.
pub struct SuperBlock {
    c_sb: usize,
}

impl View for SuperBlock {
    type V = usize;

    /// The address of the host object.
    closed spec fn view(&self) -> usize {
        self.c_sb
    }
}

impl SuperBlock {
    /// A handle that refers to no object.
    pub fn default() -> (r: SuperBlock)
        ensures
            r@ == 0,
    {
        SuperBlock { c_sb: 0 }
    }

    /// Wraps a raw address; the null address is refused.
    pub fn from_c_super_block(c_sb: usize) -> (r: Result<SuperBlock, Error>)
        ensures
            c_sb == 0 ==> r == Err::<SuperBlock, Error>(Error::InvalidArgument),
            c_sb != 0 ==> r is Ok && r->Ok_0@ == c_sb,
    {
        if c_sb == 0 {
            return Err(Error::InvalidArgument);
        }
        let mut h = SuperBlock::default();
        h.c_sb = c_sb;
        Ok(h)
    }

    /// The raw address, for calls back into the host.
    pub fn to_c_super_block(&self) -> (r: usize)
        ensures
            r == self@,
    {
        self.c_sb
    }
}

/// The optional superblock operations a plugin provides.
#[derive(Clone, Copy, Debug, PartialEq, Eq, Structural)]
pub struct ToUse {
    pub destroy_inode: bool,
    pub free_inode: bool,
    pub drop_inode: bool,
    pub evict_inode: bool,
    pub statfs: bool,
    pub show_options: bool,
}

impl Default for ToUse {
    /// No operation selected: the host uses its built-in behaviour everywhere.
    fn default() -> (r: ToUse)
        ensures
            r == (ToUse {
                destroy_inode: false,
                free_inode: false,
                drop_inode: false,
                evict_inode: false,
                statfs: false,
                show_options: false,
            }),
    {
        ToUse {
            destroy_inode: false,
            free_inode: false,
            drop_inode: false,
            evict_inode: false,
            statfs: false,
            show_options: false,
        }
    }
}

/// The operation a non-null slot of the superblock table dispatches to.
#[derive(Clone, Copy, Debug, PartialEq, Eq, Structural)]
pub enum SuperOp {
    DestroyInode,
    FreeInode,
    DropInode,
    EvictInode,
    Statfs,
    ShowOptions,
}

/// The superblock operation table in the host's field order; `None` is the
/// null slot that makes the host fall back to its default.
#[derive(Clone, Copy, Debug, PartialEq, Eq, Structural)]
pub struct SuperOperationsTable {
    pub alloc_inode: Option<SuperOp>,
    pub destroy_inode: Option<SuperOp>,
    pub free_inode: Option<SuperOp>,
    pub dirty_inode: Option<SuperOp>,
    pub write_inode: Option<SuperOp>,
    pub drop_inode: Option<SuperOp>,
    pub evict_inode: Option<SuperOp>,
    pub put_super: Option<SuperOp>,
    pub sync_fs: Option<SuperOp>,
    pub freeze_super: Option<SuperOp>,
    pub freeze_fs: Option<SuperOp>,
    pub thaw_super: Option<SuperOp>,
    pub unfreeze_fs: Option<SuperOp>,
    pub statfs: Option<SuperOp>,
    pub remount_fs: Option<SuperOp>,
    pub umount_begin: Option<SuperOp>,
    pub show_options: Option<SuperOp>,
    pub show_devname: Option<SuperOp>,
    pub show_path: Option<SuperOp>,
    pub show_stats: Option<SuperOp>,
    pub quota_read: Option<SuperOp>,
    pub quota_write: Option<SuperOp>,
    pub get_dquots: Option<SuperOp>,
    pub nr_cached_objects: Option<SuperOp>,
    pub free_cached_objects: Option<SuperOp>,
}

/// The slot for one operation: installed exactly when selected.
pub open spec fn slot(selected: bool, op: SuperOp) -> Option<SuperOp> {
    if selected {
        Some(op)
    } else {
        None
    }
}

impl SuperOperationsTable {
    /// The table holds a trampoline exactly at the slots `to_use` selects.
    pub open spec fn built_from(&self, to_use: ToUse) -> bool {
        &&& self.alloc_inode is None
        &&& self.destroy_inode == slot(to_use.destroy_inode, SuperOp::DestroyInode)
        &&& self.free_inode == slot(to_use.free_inode, SuperOp::FreeInode)
        &&& self.dirty_inode is None
        &&& self.write_inode is None
        &&& self.drop_inode == slot(to_use.drop_inode, SuperOp::DropInode)
        &&& self.evict_inode == slot(to_use.evict_inode, SuperOp::EvictInode)
        &&& self.put_super is None
        &&& self.sync_fs is None
        &&& self.freeze_super is None
        &&& self.freeze_fs is None
        &&& self.thaw_super is None
        &&& self.unfreeze_fs is None
        &&& self.statfs == slot(to_use.statfs, SuperOp::Statfs)
        &&& self.remount_fs is None
        &&& self.umount_begin is None
        &&& self.show_options == slot(to_use.show_options, SuperOp::ShowOptions)
        &&& self.show_devname is None
        &&& self.show_path is None
        &&& self.show_stats is None
        &&& self.quota_read is None
        &&& self.quota_write is None
        &&& self.get_dquots is None
        &&& self.nr_cached_objects is None
        &&& self.free_cached_objects is None
    }
}

/// Host entry point for `destroy_inode`. A notification: nothing is
/// returned, and a null inode never reaches the plugin.
pub fn destroy_inode_callback<T: SuperBlockOperations>(c_inode: usize)
    ensures
        c_inode != 0 ==> exists|i: &mut Inode|
            {
                &&& i@ == c_inode
                &&& call_ensures(T::destroy_inode, (i,), ())
            },
{
    if let Ok(mut inode) = Inode::from_c_inode(c_inode) {
        T::destroy_inode(&mut inode);
    }
}

/// Host entry point for `free_inode`. A notification: nothing is returned,
/// and a null inode never reaches the plugin.
pub fn free_inode_callback<T: SuperBlockOperations>(c_inode: usize)
    ensures
        c_inode != 0 ==> exists|i: &mut Inode|
            {
                &&& i@ == c_inode
                &&& call_ensures(T::free_inode, (i,), ())
            },
{
    if let Ok(mut inode) = Inode::from_c_inode(c_inode) {
        T::free_inode(&mut inode);
    }
}

/// Host entry point for `drop_inode`: whether to evict the inode when its
/// last reference goes. The plugin's answer is passed as 1 or 0 by
/// `bool_to_int`.
pub fn drop_inode_callback<T: SuperBlockOperations>(c_inode: usize) -> (r: i32)
    ensures
        c_inode == 0 ==> r == -EINVAL,
        c_inode != 0 ==> exists|
            i: &mut Inode,
            b: bool,
        |
            {
                &&& i@ == c_inode
                &&& call_ensures(T::drop_inode, (i,), b)
                &&& r == (if b { 1i32 } else { 0i32 })
            },
{
    let mut inode = match Inode::from_c_inode(c_inode) {
        Ok(h) => h,
        Err(e) => return e.to_kernel_errno(),
    };
    bool_to_int(T::drop_inode(&mut inode))
}

/// Host entry point for `evict_inode`. A notification: nothing is returned,
/// and a null inode never reaches the plugin.
pub fn evict_inode_callback<T: SuperBlockOperations>(c_inode: usize)
    ensures
        c_inode != 0 ==> exists|i: &mut Inode|
            {
                &&& i@ == c_inode
                &&& call_ensures(T::evict_inode, (i,), ())
            },
{
    if let Ok(mut inode) = Inode::from_c_inode(c_inode) {
        T::evict_inode(&mut inode);
    }
}

/// Host entry point for `statfs`: fills `c_kstatfs` with the statistics of
/// the file system holding `c_dentry`.
pub fn statfs_callback<T: SuperBlockOperations>(c_dentry: usize, c_kstatfs: usize) -> (r: i32)
    ensures
        c_dentry == 0 || c_kstatfs == 0 ==> r == -EINVAL,
        c_dentry != 0 && c_kstatfs != 0 ==> exists|
            d: &mut Dentry,
            k: &mut KStatFs,
            res: Result<(), Error>,
        |
            {
                &&& d@ == c_dentry
                &&& k@ == c_kstatfs
                &&& call_ensures(T::statfs, (d, k), res)
                &&& r == status_of(res)
            },
        is_status(r as int),
{
    let mut dentry = match Dentry::from_c_dentry(c_dentry) {
        Ok(h) => h,
        Err(e) => return e.to_kernel_errno(),
    };
    let mut kstatfs = match KStatFs::from_c_kstatfs(c_kstatfs) {
        Ok(h) => h,
        Err(e) => return e.to_kernel_errno(),
    };
    from_result(T::statfs(&mut dentry, &mut kstatfs))
}

/// Host entry point for `show_options`: writes the mount options of the file
/// system holding `c_dentry` to `c_seq_file`.
pub fn show_options_callback<T: SuperBlockOperations>(
    c_seq_file: usize,
    c_dentry: usize,
) -> (r: i32)
    ensures
        c_seq_file == 0 || c_dentry == 0 ==> r == -EINVAL,
        c_seq_file != 0 && c_dentry != 0 ==> exists|
            q: &mut SeqFile,
            d: &mut Dentry,
            res: Result<(), Error>,
        |
            {
                &&& q@ == c_seq_file
                &&& d@ == c_dentry
                &&& call_ensures(T::show_options, (q, d), res)
                &&& r == status_of(res)
            },
        is_status(r as int),
{
    let mut seq_file = match SeqFile::from_c_seq_file(c_seq_file) {
        Ok(h) => h,
        Err(e) => return e.to_kernel_errno(),
    };
    let mut dentry = match Dentry::from_c_dentry(c_dentry) {
        Ok(h) => h,
        Err(e) => return e.to_kernel_errno(),
    };
    from_result(T::show_options(&mut seq_file, &mut dentry))
}

/// Builds the superblock table of a plugin type.
pub struct SuperBlockOperationsVtable<T>(PhantomData<T>);

impl<T: SuperBlockOperations> SuperBlockOperationsVtable<T> {
    /// The table for `T`, with a trampoline at each slot `T::TO_USE` selects.
    pub fn build() -> (r: SuperOperationsTable)
        ensures
            r.built_from(T::TO_USE),
    {
        let to_use = T::TO_USE;
        SuperOperationsTable {
            alloc_inode: None,
            destroy_inode: if to_use.destroy_inode {
                Some(SuperOp::DestroyInode)
            } else {
                None
            },
            free_inode: if to_use.free_inode {
                Some(SuperOp::FreeInode)
            } else {
                None
            },
            dirty_inode: None,
            write_inode: None,
            drop_inode: if to_use.drop_inode {
                Some(SuperOp::DropInode)
            } else {
                None
            },
            evict_inode: if to_use.evict_inode {
                Some(SuperOp::EvictInode)
            } else {
                None
            },
            put_super: None,
            sync_fs: None,
            freeze_super: None,
            freeze_fs: None,
            thaw_super: None,
            unfreeze_fs: None,
            statfs: if to_use.statfs {
                Some(SuperOp::Statfs)
            } else {
                None
            },
            remount_fs: None,
            umount_begin: None,
            show_options: if to_use.show_options {
                Some(SuperOp::ShowOptions)
            } else {
                None
            },
            show_devname: None,
            show_path: None,
            show_stats: None,
            quota_read: None,
            quota_write: None,
            get_dquots: None,
            nr_cached_objects: None,
            free_cached_objects: None,
        }
    }
}

/// Superblock operations a plugin may provide. Each has the host's behaviour
/// unless selected in `TO_USE`.
pub trait SuperBlockOperations {
    /// The operations this plugin selects.
    const TO_USE: ToUse;

    /// The host is about to release an inode.
    fn destroy_inode(_inode: &mut Inode) {
    }

    /// The host is freeing an inode's memory.
    fn free_inode(_inode: &mut Inode) {
    }

    /// Whether to evict an inode when its last reference goes.
    fn drop_inode(_inode: &mut Inode) -> bool {
        true
    }

    /// The host is evicting an inode.
    fn evict_inode(_inode: &mut Inode) {
    }

    /// Fills `kstatfs` with the statistics of the file system holding `dentry`.
    fn statfs(_dentry: &mut Dentry, _kstatfs: &mut KStatFs) -> Result<(), Error> {
        Err(Error::NotSupported)
    }

    /// Writes the mount options of the file system holding `dentry`.
    fn show_options(_seq_file: &mut SeqFile, _dentry: &mut Dentry) -> Result<(), Error> {
        Err(Error::NotSupported)
    }
}

} // verus!
