use kernel_fs::dentry::{self, DentryOp, DentryOperations, DentryOperationsVtable};
use kernel_fs::inode::{self, InodeOp, InodeOperations, InodeOperationsVtable};
use kernel_fs::registration::BuildVtable;
use kernel_fs::super_block::{self, SuperBlockOperations, SuperBlockOperationsVtable, SuperOp};

const INODE_NONE: inode::ToUse = inode::ToUse {
    lookup: false,
    create: false,
    link: false,
    unlink: false,
    symlink: false,
    mkdir: false,
    rmdir: false,
    mknod: false,
    rename: false,
    setattr: false,
    getattr: false,
};

struct RemoveOnly;

impl InodeOperations for RemoveOnly {
    const TO_USE: inode::ToUse = inode::ToUse { unlink: true, ..INODE_NONE };
}

struct NoInodeOps;

impl InodeOperations for NoInodeOps {
    const TO_USE: inode::ToUse = INODE_NONE;
}

struct AllInodeOps;

impl InodeOperations for AllInodeOps {
    const TO_USE: inode::ToUse = inode::ToUse {
        lookup: true,
        create: true,
        link: true,
        unlink: true,
        symlink: true,
        mkdir: true,
        rmdir: true,
        mknod: true,
        rename: true,
        setattr: true,
        getattr: true,
    };
}

struct StatsAndOptions;

impl SuperBlockOperations for StatsAndOptions {
    const TO_USE: super_block::ToUse = super_block::ToUse {
        destroy_inode: false,
        free_inode: false,
        drop_inode: false,
        evict_inode: false,
        statfs: true,
        show_options: true,
    };
}

struct DeleteEntries;

impl DentryOperations for DeleteEntries {
    const TO_USE: dentry::ToUse = dentry::ToUse { d_delete: true };
}

struct KeepEntries;

impl DentryOperations for KeepEntries {
    const TO_USE: dentry::ToUse = dentry::ToUse { d_delete: false };
}

#[test]
fn unselected_create_keeps_the_host_default() {
    let table = InodeOperationsVtable::<RemoveOnly>::build();
    assert_eq!(table.create, None);
    assert_eq!(table.unlink, Some(InodeOp::Unlink));
    assert_eq!(table.lookup, None);
    assert_eq!(table.mkdir, None);
    assert_eq!(table.rename, None);
    assert_eq!(table.tmpfile, None);
}

#[test]
fn no_selection_gives_an_empty_inode_table() {
    let empty = inode::InodeOperationsTable {
        lookup: None,
        get_link: None,
        permission: None,
        get_acl: None,
        readlink: None,
        create: None,
        link: None,
        unlink: None,
        symlink: None,
        mkdir: None,
        rmdir: None,
        mknod: None,
        rename: None,
        setattr: None,
        getattr: None,
        listxattr: None,
        fiemap: None,
        update_time: None,
        atomic_open: None,
        tmpfile: None,
        set_acl: None,
        fileattr_set: None,
        fileattr_get: None,
    };
    assert_eq!(InodeOperationsVtable::<NoInodeOps>::build(), empty);
    assert_eq!(InodeOperationsVtable::<NoInodeOps>::build_vtable(), empty);
}

#[test]
fn every_selection_is_installed() {
    let table = InodeOperationsVtable::<AllInodeOps>::build();
    assert_eq!(table.lookup, Some(InodeOp::Lookup));
    assert_eq!(table.create, Some(InodeOp::Create));
    assert_eq!(table.link, Some(InodeOp::Link));
    assert_eq!(table.unlink, Some(InodeOp::Unlink));
    assert_eq!(table.symlink, Some(InodeOp::Symlink));
    assert_eq!(table.mkdir, Some(InodeOp::Mkdir));
    assert_eq!(table.rmdir, Some(InodeOp::Rmdir));
    assert_eq!(table.mknod, Some(InodeOp::Mknod));
    assert_eq!(table.rename, Some(InodeOp::Rename));
    assert_eq!(table.setattr, Some(InodeOp::Setattr));
    assert_eq!(table.getattr, Some(InodeOp::Getattr));
    assert_eq!(table.get_link, None);
    assert_eq!(table.permission, None);
    assert_eq!(table.get_acl, None);
    assert_eq!(table.readlink, None);
    assert_eq!(table.listxattr, None);
    assert_eq!(table.fiemap, None);
    assert_eq!(table.update_time, None);
    assert_eq!(table.atomic_open, None);
    assert_eq!(table.tmpfile, None);
    assert_eq!(table.set_acl, None);
    assert_eq!(table.fileattr_set, None);
    assert_eq!(table.fileattr_get, None);
}

#[test]
fn super_table_follows_the_selection() {
    let table = SuperBlockOperationsVtable::<StatsAndOptions>::build();
    assert_eq!(table.statfs, Some(SuperOp::Statfs));
    assert_eq!(table.show_options, Some(SuperOp::ShowOptions));
    assert_eq!(table.destroy_inode, None);
    assert_eq!(table.free_inode, None);
    assert_eq!(table.drop_inode, None);
    assert_eq!(table.evict_inode, None);
    assert_eq!(table.alloc_inode, None);
    assert_eq!(table.put_super, None);
    assert_eq!(table, SuperBlockOperationsVtable::<StatsAndOptions>::build_vtable());
}

#[test]
fn dentry_table_follows_the_selection() {
    let on = DentryOperationsVtable::<DeleteEntries>::build();
    assert_eq!(on.d_delete, Some(DentryOp::Delete));
    assert_eq!(on.d_revalidate, None);
    assert_eq!(on.d_real, None);
    let off = DentryOperationsVtable::<KeepEntries>::build_vtable();
    assert_eq!(off.d_delete, None);
}

#[test]
fn default_selections_are_empty() {
    assert_eq!(inode::ToUse::default(), INODE_NONE);
    assert_eq!(dentry::ToUse::default(), dentry::ToUse { d_delete: false });
    let none = super_block::ToUse::default();
    assert!(!none.destroy_inode && !none.free_inode && !none.drop_inode);
    assert!(!none.evict_inode && !none.statfs && !none.show_options);
}
