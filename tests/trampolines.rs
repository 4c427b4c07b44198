use kernel_fs::dentry::{self, d_delete_callback, Dentry, DentryOperations};
use kernel_fs::error::{Error, EINVAL};
use kernel_fs::fs::{
    fill_super_callback, finish_host_mount, kill_superblock_callback, mount_callback, FSType,
    FileSystem, MountStep, MountType,
};
use kernel_fs::inode::{
    self, create, getattr, link, lookup, mkdir, mknod, rename, rmdir, setattr, symlink, unlink,
    Inode, InodeOperations,
};
use kernel_fs::kstatfs::KStatFs;
use kernel_fs::seq_file::SeqFile;
use kernel_fs::super_block::{
    self, destroy_inode_callback, drop_inode_callback, evict_inode_callback, free_inode_callback,
    show_options_callback, statfs_callback, SuperBlock, SuperBlockOperations,
};
use kernel_fs::types::{DevType, IAttr, KStat, Path, UMode};
use kernel_fs::user_ns::UserNameSpace;

const INODE_ALL: inode::ToUse = inode::ToUse {
    lookup: true,
    create: true,
    link: true,
    unlink: true,
    symlink: true,
    mkdir: true,
    rmdir: true,
    mknod: true,
    rename: true,
    setattr: true,
    getattr: true,
};

const SUPER_ALL: super_block::ToUse = super_block::ToUse {
    destroy_inode: true,
    free_inode: true,
    drop_inode: true,
    evict_inode: true,
    statfs: true,
    show_options: true,
};

/// A plugin whose every method fails the test if it is reached.
struct Unreachable;

impl InodeOperations for Unreachable {
    const TO_USE: inode::ToUse = INODE_ALL;

    fn lookup(_: &mut Inode, _: &mut Dentry, _: u32) -> Result<Dentry, Error> {
        panic!("lookup reached the plugin")
    }
    fn create(_: &mut UserNameSpace, _: &mut Inode, _: &mut Dentry, _: UMode, _: bool) -> Result<(), Error> {
        panic!("create reached the plugin")
    }
    fn link(_: &mut Dentry, _: &mut Inode, _: &mut Dentry) -> Result<(), Error> {
        panic!("link reached the plugin")
    }
    fn unlink(_: &mut Inode, _: &mut Dentry) -> Result<(), Error> {
        panic!("unlink reached the plugin")
    }
    fn symlink(_: &mut UserNameSpace, _: &mut Inode, _: &mut Dentry, _: &str) -> Result<(), Error> {
        panic!("symlink reached the plugin")
    }
    fn mkdir(_: &mut UserNameSpace, _: &mut Inode, _: &mut Dentry, _: UMode) -> Result<(), Error> {
        panic!("mkdir reached the plugin")
    }
    fn rmdir(_: &mut Inode, _: &mut Dentry) -> Result<(), Error> {
        panic!("rmdir reached the plugin")
    }
    fn mknod(_: &mut UserNameSpace, _: &mut Inode, _: &mut Dentry, _: UMode, _: DevType) -> Result<(), Error> {
        panic!("mknod reached the plugin")
    }
    fn rename(
        _: &mut UserNameSpace,
        _: &mut Inode,
        _: &mut Dentry,
        _: &mut Inode,
        _: &mut Dentry,
        _: u32,
    ) -> Result<(), Error> {
        panic!("rename reached the plugin")
    }
    fn setattr(_: &mut UserNameSpace, _: &mut Dentry, _: &mut IAttr) -> Result<(), Error> {
        panic!("setattr reached the plugin")
    }
    fn getattr(_: &mut UserNameSpace, _: &Path, _: &mut KStat, _: u32, _: u32) -> Result<(), Error> {
        panic!("getattr reached the plugin")
    }
}

impl SuperBlockOperations for Unreachable {
    const TO_USE: super_block::ToUse = SUPER_ALL;

    fn destroy_inode(_: &mut Inode) {
        panic!("destroy_inode reached the plugin")
    }
    fn free_inode(_: &mut Inode) {
        panic!("free_inode reached the plugin")
    }
    fn drop_inode(_: &mut Inode) -> bool {
        panic!("drop_inode reached the plugin")
    }
    fn evict_inode(_: &mut Inode) {
        panic!("evict_inode reached the plugin")
    }
    fn statfs(_: &mut Dentry, _: &mut KStatFs) -> Result<(), Error> {
        panic!("statfs reached the plugin")
    }
    fn show_options(_: &mut SeqFile, _: &mut Dentry) -> Result<(), Error> {
        panic!("show_options reached the plugin")
    }
}

impl DentryOperations for Unreachable {
    const TO_USE: dentry::ToUse = dentry::ToUse { d_delete: true };

    fn d_delete(_: &Dentry) -> bool {
        panic!("d_delete reached the plugin")
    }
}

impl FileSystem for Unreachable {
    const MOUNT_TYPE: MountType = MountType::Custom;

    fn mount(_: &FSType, _: i32, _: &str, _: &str) -> Result<Dentry, Error> {
        panic!("mount reached the plugin")
    }
    fn fill_super(_: &mut SuperBlock, _: &str, _: i32) -> Result<(), Error> {
        panic!("fill_super reached the plugin")
    }
    fn kill_sb(_: &SuperBlock) {
        panic!("kill_sb reached the plugin")
    }
}

/// A plugin that answers from its arguments.
struct Answers;

impl InodeOperations for Answers {
    const TO_USE: inode::ToUse = INODE_ALL;

    fn lookup(_: &mut Inode, dentry: &mut Dentry, flags: u32) -> Result<Dentry, Error> {
        if flags == 0 {
            Dentry::from_c_dentry(dentry.to_c_dentry() + 8)
        } else {
            Err(Error::NotFound)
        }
    }
    fn create(_: &mut UserNameSpace, _: &mut Inode, _: &mut Dentry, _: UMode, _: bool) -> Result<(), Error> {
        Err(Error::NotSupported)
    }
    fn mkdir(_: &mut UserNameSpace, _: &mut Inode, _: &mut Dentry, mode: UMode) -> Result<(), Error> {
        if mode & 0o200 != 0 { Ok(()) } else { Err(Error::AccessDenied) }
    }
    fn symlink(_: &mut UserNameSpace, _: &mut Inode, _: &mut Dentry, name: &str) -> Result<(), Error> {
        if name.len() > 8 { Err(Error::NameTooLong) } else { Ok(()) }
    }
    fn rmdir(_: &mut Inode, _: &mut Dentry) -> Result<(), Error> {
        Err(Error::Unknown)
    }
}

impl SuperBlockOperations for Answers {
    const TO_USE: super_block::ToUse = SUPER_ALL;

    fn drop_inode(inode: &mut Inode) -> bool {
        inode.to_c_inode() % 2 == 1
    }
    fn statfs(_: &mut Dentry, _: &mut KStatFs) -> Result<(), Error> {
        Ok(())
    }
}

impl DentryOperations for Answers {
    const TO_USE: dentry::ToUse = dentry::ToUse { d_delete: true };

    fn d_delete(dentry: &Dentry) -> bool {
        dentry.to_c_dentry() > 0x1000
    }
}

impl FileSystem for Answers {
    const MOUNT_TYPE: MountType = MountType::Custom;

    fn mount(_: &FSType, flags: i32, dev_name: &str, data: &str) -> Result<Dentry, Error> {
        if dev_name.is_empty() && data.is_empty() && flags == 0 {
            Dentry::from_c_dentry(0x7000)
        } else if dev_name == "ram0" {
            Dentry::from_c_dentry(0x9000)
        } else {
            Err(Error::NotFound)
        }
    }
    fn fill_super(_: &mut SuperBlock, data: &str, silent: i32) -> Result<(), Error> {
        if data.is_empty() && silent == 0 { Ok(()) } else { Err(Error::InvalidArgument) }
    }
}

/// A file system mounted by the host's helper for single-instance types.
struct SharedInstance;

impl FileSystem for SharedInstance {
    const MOUNT_TYPE: MountType = MountType::Single;
}

/// A file system that relies on every default.
struct Defaults;

impl InodeOperations for Defaults {
    const TO_USE: inode::ToUse = INODE_ALL;
}

impl SuperBlockOperations for Defaults {
    const TO_USE: super_block::ToUse = SUPER_ALL;
}

impl DentryOperations for Defaults {
    const TO_USE: dentry::ToUse = dentry::ToUse { d_delete: true };
}

impl FileSystem for Defaults {
    const MOUNT_TYPE: MountType = MountType::Custom;
}

const E_INVAL: i32 = -EINVAL;
const INVAL_PTR: usize = usize::MAX - 21;

#[test]
fn null_handles_never_reach_inode_operations() {
    assert_eq!(lookup::<Unreachable>(0, 2, 0), INVAL_PTR);
    assert_eq!(lookup::<Unreachable>(1, 0, 0), INVAL_PTR);
    assert_eq!(create::<Unreachable>(0, 2, 3, 0o644, false), E_INVAL);
    assert_eq!(create::<Unreachable>(1, 0, 3, 0o644, false), E_INVAL);
    assert_eq!(create::<Unreachable>(1, 2, 0, 0o644, true), E_INVAL);
    assert_eq!(link::<Unreachable>(0, 2, 3), E_INVAL);
    assert_eq!(link::<Unreachable>(1, 0, 3), E_INVAL);
    assert_eq!(link::<Unreachable>(1, 2, 0), E_INVAL);
    assert_eq!(unlink::<Unreachable>(0, 2), E_INVAL);
    assert_eq!(unlink::<Unreachable>(1, 0), E_INVAL);
    assert_eq!(symlink::<Unreachable>(0, 2, 3, Some("t")), E_INVAL);
    assert_eq!(symlink::<Unreachable>(1, 0, 3, Some("t")), E_INVAL);
    assert_eq!(symlink::<Unreachable>(1, 2, 0, Some("t")), E_INVAL);
    assert_eq!(symlink::<Unreachable>(1, 2, 3, None), E_INVAL);
    assert_eq!(mkdir::<Unreachable>(0, 2, 3, 0o755), E_INVAL);
    assert_eq!(mkdir::<Unreachable>(1, 0, 3, 0o755), E_INVAL);
    assert_eq!(mkdir::<Unreachable>(1, 2, 0, 0o755), E_INVAL);
    assert_eq!(rmdir::<Unreachable>(0, 2), E_INVAL);
    assert_eq!(rmdir::<Unreachable>(1, 0), E_INVAL);
    assert_eq!(mknod::<Unreachable>(0, 2, 3, 0o600, 7), E_INVAL);
    assert_eq!(mknod::<Unreachable>(1, 0, 3, 0o600, 7), E_INVAL);
    assert_eq!(mknod::<Unreachable>(1, 2, 0, 0o600, 7), E_INVAL);
    assert_eq!(rename::<Unreachable>(0, 2, 3, 4, 5, 0), E_INVAL);
    assert_eq!(rename::<Unreachable>(1, 0, 3, 4, 5, 0), E_INVAL);
    assert_eq!(rename::<Unreachable>(1, 2, 0, 4, 5, 0), E_INVAL);
    assert_eq!(rename::<Unreachable>(1, 2, 3, 0, 5, 0), E_INVAL);
    assert_eq!(rename::<Unreachable>(1, 2, 3, 4, 0, 0), E_INVAL);
    assert_eq!(setattr::<Unreachable>(0, 2, 3), E_INVAL);
    assert_eq!(setattr::<Unreachable>(1, 0, 3), E_INVAL);
    assert_eq!(setattr::<Unreachable>(1, 2, 0), E_INVAL);
    assert_eq!(getattr::<Unreachable>(0, 2, 3, 0, 0), E_INVAL);
    assert_eq!(getattr::<Unreachable>(1, 0, 3, 0, 0), E_INVAL);
    assert_eq!(getattr::<Unreachable>(1, 2, 0, 0, 0), E_INVAL);
}

#[test]
fn null_handles_never_reach_superblock_operations() {
    destroy_inode_callback::<Unreachable>(0);
    free_inode_callback::<Unreachable>(0);
    evict_inode_callback::<Unreachable>(0);
    assert_eq!(drop_inode_callback::<Unreachable>(0), E_INVAL);
    assert_eq!(statfs_callback::<Unreachable>(0, 2), E_INVAL);
    assert_eq!(statfs_callback::<Unreachable>(1, 0), E_INVAL);
    assert_eq!(show_options_callback::<Unreachable>(0, 2), E_INVAL);
    assert_eq!(show_options_callback::<Unreachable>(1, 0), E_INVAL);
}

#[test]
fn null_handles_never_reach_dentry_or_mount_operations() {
    assert_eq!(d_delete_callback::<Unreachable>(0), E_INVAL);
    assert_eq!(mount_callback::<Unreachable>(0, 0, None, None), MountStep::Done(INVAL_PTR));
    assert_eq!(fill_super_callback::<Unreachable>(0, Some("x"), 0), E_INVAL);
    kill_superblock_callback::<Unreachable>(0);
}

#[test]
fn not_supported_create_reaches_the_host_as_its_code() {
    assert_eq!(create::<Answers>(1, 2, 3, 0o644, false), -95);
    assert_eq!(create::<Defaults>(1, 2, 3, 0o644, true), -95);
}

#[test]
fn plugin_results_become_host_statuses() {
    assert_eq!(mkdir::<Answers>(1, 2, 3, 0o755), 0);
    assert_eq!(mkdir::<Answers>(1, 2, 3, 0o555), -13);
    assert_eq!(symlink::<Answers>(1, 2, 3, Some("target")), 0);
    assert_eq!(symlink::<Answers>(1, 2, 3, Some("a-long-target")), -36);
    assert_eq!(rmdir::<Answers>(1, 2), -22);
    assert_eq!(statfs_callback::<Answers>(1, 2), 0);
    assert_eq!(statfs_callback::<Defaults>(1, 2), -95);
    assert_eq!(show_options_callback::<Defaults>(1, 2), -95);
    assert_eq!(unlink::<Defaults>(1, 2), -95);
    assert_eq!(link::<Defaults>(1, 2, 3), -95);
    assert_eq!(mknod::<Defaults>(1, 2, 3, 0o600, 9), -95);
    assert_eq!(rename::<Defaults>(1, 2, 3, 4, 5, 1), -95);
    assert_eq!(setattr::<Defaults>(1, 2, 3), -95);
    assert_eq!(getattr::<Defaults>(1, 2, 3, 0x7ff, 0), -95);
}

#[test]
fn lookup_returns_an_address_or_an_encoded_error() {
    assert_eq!(lookup::<Answers>(0x100, 0x2000, 0), 0x2008);
    assert_eq!(lookup::<Answers>(0x100, 0x2000, 1), usize::MAX - 1);
    assert_eq!(lookup::<Defaults>(0x100, 0x2000, 0), usize::MAX - 94);
}

#[test]
fn boolean_answers_pass_as_one_or_zero() {
    assert_eq!(d_delete_callback::<Answers>(0x2000), 1);
    assert_eq!(d_delete_callback::<Answers>(0x800), 0);
    assert_eq!(d_delete_callback::<Defaults>(0x2000), 0);
    assert_eq!(drop_inode_callback::<Answers>(0x101), 1);
    assert_eq!(drop_inode_callback::<Answers>(0x100), 0);
    assert_eq!(drop_inode_callback::<Defaults>(0x100), 1);
}

#[test]
fn notifications_with_defaults_return_quietly() {
    destroy_inode_callback::<Defaults>(0x100);
    free_inode_callback::<Defaults>(0x100);
    evict_inode_callback::<Defaults>(0x100);
    kill_superblock_callback::<Defaults>(0x100);
}

#[test]
fn custom_mount_calls_the_plugin() {
    assert_eq!(mount_callback::<Answers>(0x40, 0, None, None), MountStep::Done(0x7000));
    assert_eq!(mount_callback::<Answers>(0x40, 0, Some("ram0"), Some("size=1")), MountStep::Done(0x9000));
    assert_eq!(mount_callback::<Answers>(0x40, 0, Some("sda"), None), MountStep::Done(usize::MAX - 1));
    assert_eq!(mount_callback::<Defaults>(0x40, 0, None, None), MountStep::Done(usize::MAX - 94));
}

#[test]
fn helper_mount_is_left_to_the_host() {
    assert_eq!(
        mount_callback::<SharedInstance>(0x40, 0, None, None),
        MountStep::HostHelper(MountType::Single)
    );
    assert_eq!(finish_host_mount(0x5000), 0x5000);
    assert_eq!(finish_host_mount(0), INVAL_PTR);
}

#[test]
fn fill_super_passes_data_and_status() {
    assert_eq!(fill_super_callback::<Answers>(0x80, None, 0), 0);
    assert_eq!(fill_super_callback::<Answers>(0x80, Some("mode=1"), 0), -22);
    assert_eq!(fill_super_callback::<Defaults>(0x80, None, 0), -95);
}
