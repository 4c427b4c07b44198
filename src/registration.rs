//! Publishing a file system type in the host's registry, and withdrawing it.

use vstd::prelude::*;
use core::marker::PhantomData;
use crate::dentry::{DentryOperations, DentryOperationsTable, DentryOperationsVtable};
use crate::error::{to_result, Error, EBUSY, EINVAL};
use crate::fs::FileSystem;
use crate::inode::{InodeOperations, InodeOperationsTable, InodeOperationsVtable};
use crate::super_block::{SuperBlockOperations, SuperBlockOperationsVtable, SuperOperationsTable};

verus! {

/// A name the host accepts for a file system type: not empty, no NUL byte.
pub open spec fn is_valid_name(name: Seq<u8>) -> bool {
    &&& name.len() > 0
    &&& forall|i: int| 0 <= i < name.len() ==> name[i] != 0
}

/// Whether `name` is a name the host accepts.
fn is_valid_name_bytes(name: &[u8]) -> (r: bool)
    ensures
        r == is_valid_name(name@),
{
    if name.len() == 0 {
        return false;
    }
    let mut i: usize = 0;
    while i < name.len()
        invariant
            0 <= i <= name@.len(),
            forall|j: int| 0 <= j < i ==> name@[j] != 0,
        decreases name@.len() - i,
    {
        if name[i] == 0 {
            return false;
        }
        i = i + 1;
    }
    true
}

/// The entry point a non-null slot of a file system type record dispatches to.
#[derive(Clone, Copy, Debug, PartialEq, Eq, Structural)]
pub enum FsTypeOp {
    Mount,
    KillSuperblock,
}

/// The record the host keeps for a registered file system type.
pub struct FileSystemType {
    /// The name under which the type is published.
    pub name: Vec<u8>,
    /// The identity of the module that owns the type.
    pub owner: usize,
    pub mount: Option<FsTypeOp>,
    pub kill_sb: Option<FsTypeOp>,
}

/// What the host learns of a published type: name, owner, and the `mount`
/// and `kill_sb` slots.
pub type FsRecord = (Seq<u8>, usize, Option<FsTypeOp>, Option<FsTypeOp>);

/// The host's view of a file system type record.
pub open spec fn record_of(fs: FileSystemType) -> FsRecord {
    (fs.name@, fs.owner, fs.mount, fs.kill_sb)
}

/// A copy of `fs`, for the registry to keep.
fn copy_record(fs: &FileSystemType) -> (r: FileSystemType)
    ensures
        record_of(r) == record_of(*fs),
{
    FileSystemType {
        name: vstd::slice::slice_to_vec(fs.name.as_slice()),
        owner: fs.owner,
        mount: fs.mount,
        kill_sb: fs.kill_sb,
    }
}

/// A model of the host's registry of file system types, kept here so that
/// registration can be stated and checked: the host keeps such a list, by
/// name, answers `-EBUSY` to a name it already holds and `-EINVAL` to the
/// withdrawal of one it does not. No name is in it twice.
pub struct FileSystemRegistry {
    entries: Vec<FileSystemType>,
}

impl View for FileSystemRegistry {
    type V = Seq<Seq<u8>>;

    /// The registered names, oldest first.
    closed spec fn view(&self) -> Seq<Seq<u8>> {
        self.entries@.map_values(|e: FileSystemType| e.name@)
    }
}

/// Whether two byte strings are equal.
fn bytes_eq(a: &[u8], b: &[u8]) -> (r: bool)
    ensures
        r == (a@ == b@),
{
    if a.len() != b.len() {
        return false;
    }
    let mut i: usize = 0;
    while i < a.len()
        invariant
            a@.len() == b@.len(),
            0 <= i <= a@.len(),
            forall|j: int| 0 <= j < i ==> a@[j] == b@[j],
        decreases a@.len() - i,
    {
        if a[i] != b[i] {
            return false;
        }
        i = i + 1;
    }
    proof {
        assert(a@ =~= b@);
    }
    true
}

impl FileSystemRegistry {
    /// No name appears twice.
    pub open spec fn wf(&self) -> bool {
        self@.no_duplicates()
    }

    /// The published records, oldest first; their names are `self@`.
    pub closed spec fn records(&self) -> Seq<FsRecord> {
        self.entries@.map_values(|e: FileSystemType| record_of(e))
    }

    /// An empty registry.
    pub fn new() -> (r: FileSystemRegistry)
        ensures
            r@ == Seq::<Seq<u8>>::empty(),
            r.records() == Seq::<FsRecord>::empty(),
            r.wf(),
    {
        let r = FileSystemRegistry { entries: Vec::new() };
        proof {
            assert(r@ =~= Seq::<Seq<u8>>::empty());
            assert(r.records() =~= Seq::<FsRecord>::empty());
        }
        r
    }

    /// Where `name` stands in the registry, if it is there.
    fn position(&self, name: &[u8]) -> (r: Option<usize>)
        ensures
            r is Some ==> r->Some_0 < self@.len() && self@[r->Some_0 as int] == name@,
            r is None ==> !self@.contains(name@),
    {
        let mut i: usize = 0;
        while i < self.entries.len()
            invariant
                0 <= i <= self@.len(),
                self@.len() == self.entries@.len(),
                forall|j: int| 0 <= j < i ==> self@[j] != name@,
            decreases self@.len() - i,
        {
            if bytes_eq(self.entries[i].name.as_slice(), name) {
                return Some(i);
            }
            i = i + 1;
        }
        None
    }

    /// Whether a type of that name is registered.
    pub fn is_registered(&self, name: &[u8]) -> (r: bool)
        ensures
            r == self@.contains(name@),
    {
        self.position(name).is_some()
    }

    /// Publishes `fs`: 0, or `-EBUSY` when its name is taken.
    pub fn register_filesystem(&mut self, fs: &FileSystemType) -> (r: i32)
        requires
            old(self).wf(),
        ensures
            final(self).wf(),
            old(self)@.contains(fs.name@) ==> r == -EBUSY && final(self)@ == old(self)@,
            !old(self)@.contains(fs.name@) ==> {
                &&& r == 0
                &&& final(self)@ == old(self)@.push(fs.name@)
                &&& final(self)@.contains(fs.name@)
                &&& final(self).records() == old(self).records().push(record_of(*fs))
                &&& final(self).records().contains(record_of(*fs))
            },
            old(self)@.contains(fs.name@) ==> final(self).records() == old(self).records(),
    {
        if self.position(fs.name.as_slice()).is_some() {
            return -EBUSY;
        }
        let entry = copy_record(fs);
        self.entries.push(entry);
        proof {
            assert(self@ =~= old(self)@.push(fs.name@));
            assert(self@[self@.len() - 1] == fs.name@);
            assert(self.records() =~= old(self).records().push(record_of(*fs)));
            assert(self.records()[self.records().len() - 1] == record_of(*fs));
        }
        0
    }

    /// Withdraws the type named like `fs`: 0, or `-EINVAL` when no such type
    /// is registered.
    pub fn unregister_filesystem(&mut self, fs: &FileSystemType) -> (r: i32)
        requires
            old(self).wf(),
        ensures
            final(self).wf(),
            !old(self)@.contains(fs.name@) ==> {
                &&& r == -EINVAL
                &&& final(self)@ == old(self)@
                &&& final(self).records() == old(self).records()
            },
            old(self)@.contains(fs.name@) ==> {
                &&& r == 0
                &&& withdrawn(old(self)@, final(self)@, fs.name@)
                &&& exists|i: int|
                    0 <= i < old(self).records().len() && (#[trigger] old(self).records()[i]).0
                        == fs.name@ && final(self).records() == old(self).records().remove(i)
            },
    {
        match self.position(fs.name.as_slice()) {
            None => -EINVAL,
            Some(i) => {
                let ghost before = self@;
                let ghost before_records = self.records();
                self.entries.remove(i);
                proof {
                    assert(self@ =~= before.remove(i as int));
                    assert(self.records() =~= before_records.remove(i as int));
                    assert(before_records[i as int].0 == fs.name@);
                    lemma_remove_withdraws(before, i as int);
                }
                0
            },
        }
    }
}

/// `after` is `before` without `name`, every other name kept.
pub open spec fn withdrawn(before: Seq<Seq<u8>>, after: Seq<Seq<u8>>, name: Seq<u8>) -> bool {
    &&& !after.contains(name)
    &&& forall|n: Seq<u8>| n != name ==> (#[trigger] after.contains(n) <==> before.contains(n))
}

proof fn lemma_remove_withdraws(s: Seq<Seq<u8>>, i: int)
    requires
        s.no_duplicates(),
        0 <= i < s.len(),
    ensures
        s.remove(i).no_duplicates(),
        withdrawn(s, s.remove(i), s[i]),
{
    let t = s.remove(i);
    assert forall|a: int, b: int| 0 <= a < t.len() && 0 <= b < t.len() && a != b implies t[a]
        != t[b] by {
        let ia = if a < i { a } else { a + 1 };
        let ib = if b < i { b } else { b + 1 };
        assert(t[a] == s[ia]);
        assert(t[b] == s[ib]);
    }
    assert forall|j: int| 0 <= j < t.len() implies t[j] != s[i] by {
        let ij = if j < i { j } else { j + 1 };
        assert(t[j] == s[ij]);
    }
    assert forall|n: Seq<u8>| n != s[i] implies (#[trigger] t.contains(n) <==> s.contains(n)) by {
        if s.contains(n) {
            let k = choose|k: int| 0 <= k < s.len() && s[k] == n;
            assert(k != i);
            let kt = if k < i { k } else { k - 1 };
            assert(t[kt] == n);
        }
        if t.contains(n) {
            let k = choose|k: int| 0 <= k < t.len() && t[k] == n;
            let ks = if k < i { k } else { k + 1 };
            assert(s[ks] == n);
        }
    }
}

/// The owner of one file system type's record: publishes it in the host's
/// registry and withdraws it, each at most once at a time.
pub struct Registration<T: FileSystem> {
    fs_type: FileSystemType,
    registered: bool,
    marker: PhantomData<T>,
}

/// What `unregister` did: a published record is withdrawn from the registry;
/// otherwise the call fails with `InvalidArgument` and changes nothing.
pub open spec fn unregister_outcome<T: FileSystem>(
    before: Registration<T>,
    registry_before: Seq<Seq<u8>>,
    after: Registration<T>,
    registry_after: Seq<Seq<u8>>,
    r: Result<(), Error>,
) -> bool {
    &&& after.name() == before.name()
    &&& after.owner() == before.owner()
    &&& after.slots() == before.slots()
    &&& if before.is_registered() && registry_before.contains(before.name()) {
        &&& r is Ok
        &&& !after.is_registered()
        &&& withdrawn(registry_before, registry_after, before.name())
    } else {
        &&& r == Err::<(), Error>(Error::InvalidArgument)
        &&& after.is_registered() == before.is_registered()
        &&& registry_after == registry_before
    }
}

impl<T: FileSystem> Registration<T> {
    /// The name the record is published under.
    pub closed spec fn name(&self) -> Seq<u8> {
        self.fs_type.name@
    }

    /// The identity of the owning module.
    pub closed spec fn owner(&self) -> usize {
        self.fs_type.owner
    }

    /// The record's `mount` and `kill_sb` slots.
    pub closed spec fn slots(&self) -> (Option<FsTypeOp>, Option<FsTypeOp>) {
        (self.fs_type.mount, self.fs_type.kill_sb)
    }

    /// The record as the host sees it.
    pub closed spec fn record(&self) -> FsRecord {
        record_of(self.fs_type)
    }

    /// Whether this registration has published its record.
    pub closed spec fn is_registered(&self) -> bool {
        self.registered
    }

    /// A registration of `fs_type`, not yet published.
    pub fn new(fs_type: FileSystemType) -> (r: Self)
        ensures
            r.name() == fs_type.name@,
            r.owner() == fs_type.owner,
            r.slots() == (fs_type.mount, fs_type.kill_sb),
            !r.is_registered(),
    {
        Registration { fs_type, registered: false, marker: PhantomData }
    }

    /// A registration of `T` under `name`, owned by `owner`, whose record
    /// routes `mount` and `kill_sb` to `T`. A name that is empty or holds a
    /// NUL byte is an invalid argument.
    pub fn new_pinned(name: &[u8], owner: usize) -> (r: Result<Self, Error>)
        ensures
            r is Ok <==> is_valid_name(name@),
            r is Err ==> r == Err::<Self, Error>(Error::InvalidArgument),
            r is Ok ==> {
                let reg = r->Ok_0;
                &&& reg.name() == name@
                &&& reg.owner() == owner
                &&& reg.slots() == (Some(FsTypeOp::Mount), Some(FsTypeOp::KillSuperblock))
                &&& !reg.is_registered()
            },
    {
        if !is_valid_name_bytes(name) {
            return Err(Error::InvalidArgument);
        }
        let fs_type = FileSystemType {
            name: vstd::slice::slice_to_vec(name),
            owner,
            mount: Some(FsTypeOp::Mount),
            kill_sb: Some(FsTypeOp::KillSuperblock),
        };
        Ok(Self::new(fs_type))
    }

    /// The record this registration publishes.
    pub fn fs_type(&self) -> (r: &FileSystemType)
        ensures
            r.name@ == self.name(),
            r.owner == self.owner(),
            (r.mount, r.kill_sb) == self.slots(),
    {
        &self.fs_type
    }

    /// Whether the record is published by this registration.
    pub fn registered(&self) -> (r: bool)
        ensures
            r == self.is_registered(),
    {
        self.registered
    }

    /// Publishes the record. Fails with `InvalidArgument` when its name is
    /// empty or holds a NUL byte, and with `Busy` when this registration is
    /// already published or another type holds the name.
    pub fn register(&mut self, registry: &mut FileSystemRegistry) -> (r: Result<(), Error>)
        requires
            old(registry).wf(),
        ensures
            final(registry).wf(),
            final(self).name() == old(self).name(),
            final(self).owner() == old(self).owner(),
            final(self).slots() == old(self).slots(),
            final(self).record() == old(self).record(),
            old(self).record() == (old(self).name(), old(self).owner(), old(self).slots().0, old(
                self,
            ).slots().1),
            !is_valid_name(old(self).name()) ==> {
                &&& r == Err::<(), Error>(Error::InvalidArgument)
                &&& final(self).is_registered() == old(self).is_registered()
                &&& final(registry)@ == old(registry)@
                &&& final(registry).records() == old(registry).records()
            },
            is_valid_name(old(self).name()) && (old(self).is_registered() || old(
                registry,
            )@.contains(old(self).name())) ==> {
                &&& r == Err::<(), Error>(Error::Busy)
                &&& final(self).is_registered() == old(self).is_registered()
                &&& final(registry)@ == old(registry)@
                &&& final(registry).records() == old(registry).records()
            },
            is_valid_name(old(self).name()) && !old(self).is_registered() && !old(
                registry,
            )@.contains(old(self).name()) ==> {
                &&& r is Ok
                &&& final(self).is_registered()
                &&& final(registry)@ == old(registry)@.push(old(self).name())
                &&& final(registry)@.contains(old(self).name())
                &&& final(registry).records() == old(registry).records().push(old(self).record())
                &&& final(registry).records().contains(old(self).record())
            },
    {
        if !is_valid_name_bytes(self.fs_type.name.as_slice()) {
            return Err(Error::InvalidArgument);
        }
        if self.registered {
            return Err(Error::Busy);
        }
        let result = to_result(registry.register_filesystem(&self.fs_type));
        if result.is_ok() {
            self.registered = true;
        }
        result
    }

    /// Withdraws the record. Fails with `InvalidArgument`, changing nothing,
    /// when it is not published.
    pub fn unregister(&mut self, registry: &mut FileSystemRegistry) -> (r: Result<(), Error>)
        requires
            old(registry).wf(),
        ensures
            final(registry).wf(),
            unregister_outcome(*old(self), old(registry)@, *final(self), final(registry)@, r),
            !(old(self).is_registered() && old(registry)@.contains(old(self).name()))
                ==> final(registry).records() == old(registry).records(),
    {
        if !self.registered {
            return Err(Error::InvalidArgument);
        }
        let result = to_result(registry.unregister_filesystem(&self.fs_type));
        if result.is_ok() {
            self.registered = false;
        }
        result
    }
}

/// Unregistering a published registration twice succeeds the first time and
/// fails with `InvalidArgument` the second, leaving the registry as the first
/// call left it, without the name.
pub proof fn lemma_unregister_twice<T: FileSystem>(
    r0: Registration<T>,
    g0: Seq<Seq<u8>>,
    r1: Registration<T>,
    g1: Seq<Seq<u8>>,
    res1: Result<(), Error>,
    r2: Registration<T>,
    g2: Seq<Seq<u8>>,
    res2: Result<(), Error>,
)
    requires
        r0.is_registered(),
        g0.contains(r0.name()),
        unregister_outcome(r0, g0, r1, g1, res1),
        unregister_outcome(r1, g1, r2, g2, res2),
    ensures
        res1 is Ok,
        !g1.contains(r0.name()),
        res2 == Err::<(), Error>(Error::InvalidArgument),
        g2 == g1,
        !r2.is_registered(),
{
}

/// Builds an operation table of a plugin type.
pub trait BuildVtable<V> {
    /// The table.
    fn build_vtable() -> V;
}

impl<T: InodeOperations> BuildVtable<InodeOperationsTable> for InodeOperationsVtable<T> {
    fn build_vtable() -> (r: InodeOperationsTable)
        ensures
            r.built_from(T::TO_USE),
    {
        Self::build()
    }
}

impl<T: DentryOperations> BuildVtable<DentryOperationsTable> for DentryOperationsVtable<T> {
    fn build_vtable() -> (r: DentryOperationsTable)
        ensures
            r.built_from(T::TO_USE),
    {
        Self::build()
    }
}

impl<T: SuperBlockOperations> BuildVtable<SuperOperationsTable> for SuperBlockOperationsVtable<T> {
    fn build_vtable() -> (r: SuperOperationsTable)
        ensures
            r.built_from(T::TO_USE),
    {
        Self::build()
    }
}

/// A file system type that declares its own host record.
pub trait DeclaredFileSystemType: FileSystem {
    /// The record the host is to keep for this type.
    fn file_system_type() -> FileSystemType;
}

} // verus!
