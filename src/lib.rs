//! Glue that lets ordinary, safe code supply the operation tables of a
//! host's virtual file-system layer.
//!
//! A plugin implements the operation traits (`InodeOperations`,
//! `SuperBlockOperations`, `DentryOperations`, `FileSystem`) and selects the
//! operations it provides. The table builders install a trampoline exactly at
//! each selected slot; the trampolines wrap every raw handle the host passes,
//! refuse null ones with the host's invalid-argument code before the plugin
//! runs, and turn the plugin's result into the host's status convention.
//! `Registration` publishes a file system type in the host's registry and
//! withdraws it.

pub mod dentry;
pub mod error;
pub mod fs;
pub mod inode;
pub mod kstatfs;
pub mod registration;
pub mod seq_file;
pub mod super_block;
pub mod types;
pub mod user_ns;
