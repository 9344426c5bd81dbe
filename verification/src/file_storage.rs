//! Crash-safe durable storage of one serialized value at a file path.
//!
//! Three files are involved: the primary file holding the current
//! snapshot, a temp file that every new snapshot is first written to in
//! full, and a lock file that inter-process access is serialized on.
//! The temp file is renamed onto the primary path only once its content
//! is complete, so a reader never observes a partially written snapshot;
//! the lock file is a separate, never-renamed file because a lock on the
//! primary file would be left on a stale inode by the rename.
//!
//! The file system itself is a collaborator driven at the process edge;
//! what is verified here is the derivation of the three paths and the
//! replace protocol over a model of the two data files, stated by the
//! `spec_` transition functions that every operation is proved against.

use vstd::prelude::*;
use crate::api::{SEPARATOR, copy_bytes};

verus! {

/// The dot that separates a file name from its extension.
pub const DOT: u8 = '.' as u8;

/// A failed storage operation: an I/O failure, or on-disk content that
/// does not parse as a stored value.
#[derive(Clone, Copy, PartialEq, Eq, Structural, Debug)]
pub enum StorageError {
    Io,
    InvalidStorageData,
}

/// Whether the file name at the end of `p` has an extension: a dot that
/// does not start the name, with no separator after it.
pub open spec fn has_extension(p: Seq<u8>) -> bool {
    exists|i: int|
        0 < i < p.len() && #[trigger] p[i] == DOT && p[i - 1] != SEPARATOR && (forall|j: int|
            i < j < p.len() ==> #[trigger] p[j] != SEPARATOR)
}

/// The path bytes that adding `s` to `p`'s extension yields: appended to
/// the existing extension, or introduced with a fresh dot when the file
/// name has none.
pub open spec fn with_suffix(p: Seq<u8>, s: Seq<u8>) -> Seq<u8> {
    if has_extension(p) {
        p + s
    } else {
        p.push(DOT) + s
    }
}

/// The suffix marking the temp file.
pub open spec fn spec_tmp_suffix() -> Seq<u8> {
    seq![DOT, 't' as u8, 'm' as u8, 'p' as u8]
}

/// The suffix marking the lock file.
pub open spec fn spec_lock_suffix() -> Seq<u8> {
    seq![DOT, 'l' as u8, 'o' as u8, 'c' as u8, 'k' as u8]
}

/// The temp-file suffix as bytes.
pub fn tmp_suffix() -> (r: Vec<u8>)
    ensures
        r@ == spec_tmp_suffix(),
{
    let mut v: Vec<u8> = Vec::new();
    v.push(DOT);
    v.push('t' as u8);
    v.push('m' as u8);
    v.push('p' as u8);
    assert(v@ =~= spec_tmp_suffix());
    v
}

/// The lock-file suffix as bytes.
pub fn lock_suffix() -> (r: Vec<u8>)
    ensures
        r@ == spec_lock_suffix(),
{
    let mut v: Vec<u8> = Vec::new();
    v.push(DOT);
    v.push('l' as u8);
    v.push('o' as u8);
    v.push('c' as u8);
    v.push('k' as u8);
    assert(v@ =~= spec_lock_suffix());
    v
}

/// Durable value storage at a base path: the primary path itself plus
/// the derived temp and lock paths, immutable for the store's lifetime.
pub struct FileStorage {
    pub path: Vec<u8>,
    pub temp_path: Vec<u8>,
    pub lock_path: Vec<u8>,
}

/// The two data files of one store, as the model that the replace
/// protocol is verified against: the content of the primary file and of
/// the temp file, each absent until first written.
pub struct DiskContents {
    pub primary: Option<Seq<u8>>,
    pub temp: Option<Seq<u8>>,
}

/// Executable stand-in for the two data files; the process edge mirrors
/// every transition onto the real file system.
pub struct DiskModel {
    pub primary: Option<Vec<u8>>,
    pub temp: Option<Vec<u8>>,
}

impl View for DiskModel {
    type V = DiskContents;

    open spec fn view(&self) -> DiskContents {
        DiskContents {
            primary: match self.primary {
                Some(v) => Some(v@),
                None => None,
            },
            temp: match self.temp {
                Some(v) => Some(v@),
                None => None,
            },
        }
    }
}

/// Writing the new snapshot to the temp file leaves the primary file
/// untouched.
pub open spec fn spec_write_temp(d: DiskContents, data: Seq<u8>) -> DiskContents {
    DiskContents { primary: d.primary, temp: Some(data) }
}

/// Renaming the temp file onto the primary path makes the temp content
/// the primary content in one step.
pub open spec fn spec_rename_temp(d: DiskContents) -> DiskContents {
    DiskContents { primary: d.temp, temp: None }
}

/// A full atomic replace: write the temp file, then rename it.
pub open spec fn spec_flush(d: DiskContents, data: Seq<u8>) -> DiskContents {
    spec_rename_temp(spec_write_temp(d, data))
}

/// First-time initialization: write the default snapshot only if the
/// primary file does not exist yet.
pub open spec fn spec_init(d: DiskContents, default: Seq<u8>) -> DiskContents {
    if d.primary is Some {
        d
    } else {
        spec_flush(d, default)
    }
}

/// What a read observes: the primary file's current content.
pub open spec fn spec_load(d: DiskContents) -> Option<Seq<u8>> {
    d.primary
}

impl FileStorage {
    /// Derives a sibling path by adding `suffix` to the extension of
    /// `path`, or introducing it as the extension if the file name has
    /// none.
    pub fn path_with_suffix(path: &Vec<u8>, suffix: &Vec<u8>) -> (r: Vec<u8>)
        ensures
            r@ == with_suffix(path@, suffix@),
    {
        let mut out = copy_bytes(path);
        if !has_extension_exec(path) {
            out.push(DOT);
        }
        let mut i: usize = 0;
        let ghost base = out@;
        while i < suffix.len()
            invariant
                i <= suffix.len(),
                out@ == base + suffix@.subrange(0, i as int),
            decreases suffix.len() - i,
        {
            out.push(suffix[i]);
            assert(out@ =~= base + suffix@.subrange(0, i as int + 1));
            i = i + 1;
        }
        assert(out@ =~= base + suffix@);
        out
    }

    /// Constructor. Derives the temp and lock paths from the base path;
    /// it does not touch the file system — use `create` or `init` for
    /// first-time initialization.
    pub fn new(path: Vec<u8>) -> (s: Self)
        ensures
            s.path@ == path@,
            s.temp_path@ == with_suffix(path@, spec_tmp_suffix()),
            s.lock_path@ == with_suffix(path@, spec_lock_suffix()),
    {
        let temp_path = Self::path_with_suffix(&path, &tmp_suffix());
        let lock_path = Self::path_with_suffix(&path, &lock_suffix());
        FileStorage { path, temp_path, lock_path }
    }

    /// First-time initialization under the exclusive lock: if the
    /// primary file does not exist, atomically write the caller's
    /// default snapshot; an already-initialized store is untouched.
    pub fn init(&self, disk: &mut DiskModel, default: Vec<u8>)
        ensures
            final(disk)@ == spec_init(old(disk)@, default@),
    {
        match &disk.primary {
            Some(_) => {},
            None => {
                Self::flush_to_file(disk, default);
            },
        }
    }

    /// Creates the store at `path` and initializes it.
    pub fn create(path: Vec<u8>, disk: &mut DiskModel, default: Vec<u8>) -> (s: Self)
        ensures
            s.path@ == path@,
            s.temp_path@ == with_suffix(path@, spec_tmp_suffix()),
            s.lock_path@ == with_suffix(path@, spec_lock_suffix()),
            final(disk)@ == spec_init(old(disk)@, default@),
    {
        let s = Self::new(path);
        s.init(disk, default);
        s
    }

    /// Writes the new snapshot to the temp file in full; the primary
    /// file is untouched, so a crash at this point loses nothing.
    pub fn write_temp(disk: &mut DiskModel, data: Vec<u8>)
        ensures
            final(disk)@ == spec_write_temp(old(disk)@, data@),
    {
        disk.temp = Some(data);
    }

    /// Renames the completed temp file onto the primary path: the one
    /// step that makes the new snapshot visible.
    pub fn rename_temp(disk: &mut DiskModel)
        requires
            old(disk)@.temp is Some,
        ensures
            final(disk)@ == spec_rename_temp(old(disk)@),
    {
        let content = match &disk.temp {
            Some(v) => copy_bytes(v),
            None => Vec::new(),
        };
        disk.primary = Some(content);
        disk.temp = None;
    }

    /// Atomically replaces the primary file's content with `data`, using
    /// the temp file as the intermediary.
    pub fn flush_to_file(disk: &mut DiskModel, data: Vec<u8>)
        ensures
            final(disk)@ == spec_flush(old(disk)@, data@),
    {
        Self::write_temp(disk, data);
        Self::rename_temp(disk);
    }

    /// Fixes the read-error taxonomy past the byte snapshot: a loaded
    /// snapshot that did not parse as the stored type (`None` here) is
    /// invalid stored data — a typed error distinct from the I/O errors
    /// of the calls around it, never a silent default value.
    pub fn parse_outcome<V>(parsed: Option<V>) -> (r: Result<V, StorageError>)
        ensures
            match r {
                Ok(v) => parsed == Some(v),
                Err(e) => parsed is None && e == StorageError::InvalidStorageData,
            },
    {
        match parsed {
            Some(v) => Ok(v),
            None => Err(StorageError::InvalidStorageData),
        }
    }

    /// Loads the primary file's current snapshot; a store whose primary
    /// file does not exist fails with an I/O error.
    pub fn load(disk: &DiskModel) -> (r: Result<Vec<u8>, StorageError>)
        ensures
            match r {
                Ok(v) => spec_load(disk@) == Some(v@),
                Err(e) => spec_load(disk@) is None && e == StorageError::Io,
            },
    {
        match &disk.primary {
            Some(v) => Ok(copy_bytes(v)),
            None => Err(StorageError::Io),
        }
    }
}

/// The storage location triple never collides: the temp and lock paths
/// differ from the primary path and from each other, whatever the base
/// path is.
pub proof fn lemma_location_triple_distinct(p: Seq<u8>)
    ensures
        with_suffix(p, spec_tmp_suffix()) != p,
        with_suffix(p, spec_lock_suffix()) != p,
        with_suffix(p, spec_tmp_suffix()) != with_suffix(p, spec_lock_suffix()),
{
    assert(with_suffix(p, spec_tmp_suffix()).len() > p.len());
    assert(with_suffix(p, spec_lock_suffix()).len() > p.len());
    assert(with_suffix(p, spec_tmp_suffix()).len() != with_suffix(p, spec_lock_suffix()).len());
}

/// Crash safety of the replace protocol: termination after the temp
/// write but before the rename leaves the primary content exactly what
/// it was; termination after the rename leaves it exactly the new
/// snapshot. No third content is ever reachable.
pub proof fn lemma_crash_safety(d: DiskContents, data: Seq<u8>)
    ensures
        spec_write_temp(d, data).primary == d.primary,
        spec_rename_temp(spec_write_temp(d, data)).primary == Some(data),
{
}

/// Round trip through the store: a freshly created store reads back the
/// default snapshot, and after a replace the store reads back the new
/// snapshot, whatever was on disk before.
pub proof fn lemma_store_round_trip(d: DiskContents, default: Seq<u8>, v: Seq<u8>)
    ensures
        d.primary is None ==> spec_load(spec_init(d, default)) == Some(default),
        spec_load(spec_init(d, default)) is Some,
        spec_load(spec_flush(spec_init(d, default), v)) == Some(v),
{
}

/// Decides `has_extension` for a path.
pub fn has_extension_exec(path: &Vec<u8>) -> (r: bool)
    ensures
        r == has_extension(path@),
{
    let mut k: usize = path.len();
    while k > 0
        invariant
            k <= path.len(),
            forall|j: int| k <= j < path@.len() ==> path@[j] != SEPARATOR,
            forall|j: int|
                k <= j < path@.len() ==> !(#[trigger] path@[j] == DOT && j > 0 && path@[j - 1]
                    != SEPARATOR),
        decreases k,
    {
        let c = path[k - 1];
        if c == SEPARATOR {
            assert(!has_extension(path@));
            return false;
        }
        if c == DOT && k - 1 > 0 && path[k - 2] != SEPARATOR {
            assert(has_extension(path@)) by {
                assert(0 < k - 1 < path@.len() && path@[k - 1] == DOT && path@[k - 2] != SEPARATOR
                    && (forall|j: int| k - 1 < j < path@.len() ==> path@[j] != SEPARATOR));
            }
            return true;
        }
        k = k - 1;
    }
    assert(!has_extension(path@));
    false
}

} // verus!
