//! The filesystem capability contract: a read-only snapshot capability and a
//! mutating capability layered on top, parameterized by the metadata type.
use vstd::prelude::*;
use vstd::string::StringExecFns;

use crate::error::{GfsError, GfsResult};
use crate::io::{GfsFile, ReadableFile, WritableFile};
use crate::path::{contains_sep, dir_seq, join_seqs, norm_seq};
use crate::path::{GfsPath, OwnedGfsPath, PathLike};

verus! {

/// The structural contract a metadata type must satisfy to participate:
/// copyable and default-constructible. `meta_default` mirrors `Default` with
/// a specification, so that contracts can speak of the default value.
pub trait GfsEntryMeta: Copy + Default {
    /// The metadata value a fresh entry starts from.
    spec fn default_spec() -> Self;

    /// Constructs the default metadata value.
    fn meta_default() -> (r: Self)
        ensures
            r == Self::default_spec(),
    ;
}

/// The degenerate metadata type: an entry carries no metadata at all.
#[derive(Copy, Clone, Default, PartialEq, Eq, Structural, Debug)]
pub struct NoEntryMeta;

impl GfsEntryMeta for NoEntryMeta {
    open spec fn default_spec() -> Self {
        NoEntryMeta
    }

    fn meta_default() -> (r: Self) {
        NoEntryMeta
    }
}

/// Whether a stored path `q` appears in a listing of the directory prefix
/// `dir`: `q` must start with `dir`, and unless the listing is recursive the
/// remainder of `q` after the prefix must contain no further separator.
pub open spec fn listed_under(dir: Seq<char>, q: Seq<char>, recursive: bool) -> bool {
    dir.is_prefix_of(q) && (recursive || !contains_sep(q.skip(dir.len() as int)))
}

/// What a correct directory listing is: `v` holds exactly the stored paths
/// listed under `dir`, each exactly once, each bound to filesystem `owner`.
pub open spec fn is_dir_listing(
    stored: Set<Seq<char>>,
    dir: Seq<char>,
    recursive: bool,
    owner: u64,
    v: Seq<OwnedGfsPath>,
) -> bool {
    &&& forall|i: int|
        #![trigger v[i].path_view()]
        0 <= i < v.len() ==> v[i].owner_id() == owner && stored.contains(v[i].path_view())
            && listed_under(dir, v[i].path_view(), recursive)
    &&& forall|q: Seq<char>|
        #![trigger stored.contains(q)]
        stored.contains(q) && listed_under(dir, q, recursive) ==> exists|i: int|
            0 <= i < v.len() && v[i].path_view() == q
    &&& forall|i: int, j: int|
        #![trigger v[i].path_view(), v[j].path_view()]
        0 <= i < j < v.len() ==> v[i].path_view() != v[j].path_view()
}

/// The read-only capability: resolve metadata, content and listings against a
/// snapshot of the entry store.
pub trait GfsSnapshot<M: GfsEntryMeta>: Sized {
    /// The entry store: a map from path string to (metadata, content).
    spec fn store_view(&self) -> Map<Seq<char>, (M, Seq<u8>)>;

    /// The string form of the designated root path.
    spec fn root_view(&self) -> Seq<char>;

    /// The identifier that bound paths carry to name this filesystem.
    /// Identifiers are chosen at construction time and need not be distinct
    /// across instances; the ownership guard compares nothing else.
    spec fn id_view(&self) -> u64;

    /// The identifier that bound paths carry to name this filesystem.
    fn instance_id(&self) -> (r: u64)
        ensures
            r == self.id_view(),
    ;

    /// The path with every alternative separator replaced by the canonical
    /// one.
    fn normalize_path(path: &GfsPath) -> (r: GfsPath)
        ensures
            r@ == norm_seq(path@),
    ;

    /// The designated root path, fixed at construction time.
    fn root(&self) -> (r: &GfsPath)
        ensures
            r@ == self.root_view(),
    ;

    /// Normalizes `path`, joins it onto the root, and binds the result to
    /// this filesystem.
    fn create_path(&self, path: &GfsPath) -> (r: OwnedGfsPath)
        ensures
            r.path_view() == join_seqs(self.root_view(), norm_seq(path@)),
            r.owner_id() == self.id_view(),
    ;

    /// The metadata stored at `path`, or `EntryNotFound`.
    fn read_meta(&self, path: &GfsPath) -> (r: GfsResult<M>)
        ensures
            match r {
                Ok(m) => self.store_view().dom().contains(path@) && m == self.store_view()[path@].0,
                Err(e) => !self.store_view().dom().contains(path@) && e == GfsError::EntryNotFound,
            },
    ;

    /// The content stored at `path`, or `EntryNotFound`.
    fn read_data(&self, path: &GfsPath) -> (r: GfsResult<Vec<u8>>)
        ensures
            match r {
                Ok(d) => self.store_view().dom().contains(path@) && d@ == self.store_view()[path@].1,
                Err(e) => !self.store_view().dom().contains(path@) && e == GfsError::EntryNotFound,
            },
    ;

    /// Metadata and content stored at `path` together, or `EntryNotFound`.
    fn read_entry(&self, path: &GfsPath) -> (r: GfsResult<GfsFile<M>>)
        ensures
            match r {
                Ok(f) => self.store_view().dom().contains(path@) && f@ == self.store_view()[path@],
                Err(e) => !self.store_view().dom().contains(path@) && e == GfsError::EntryNotFound,
            },
    ;

    /// A read handle over a snapshot of the entry at `path`, cursor at the
    /// start, or `EntryNotFound`.
    fn entry_reader(&self, path: &GfsPath) -> (r: GfsResult<ReadableFile<M>>)
        ensures
            match r {
                Ok(h) => self.store_view().dom().contains(path@) && h.metadata_spec()
                    == self.store_view()[path@].0 && h.content_spec() == self.store_view()[path@].1
                    && h.pos_spec() == 0,
                Err(e) => !self.store_view().dom().contains(path@) && e == GfsError::EntryNotFound,
            },
    ;

    /// Every stored path listed under the directory form of `path`: direct
    /// children only, or descendants at any depth when `recursive` is set.
    /// Listing never errors; an empty result is a valid answer.
    fn read_dir(&self, path: &GfsPath, recursive: bool) -> (r: GfsResult<Vec<OwnedGfsPath>>)
        ensures
            r matches Ok(v) && is_dir_listing(
                self.store_view().dom(),
                dir_seq(path@),
                recursive,
                self.id_view(),
                v@,
            ),
    ;

    /// The listing of the designated root.
    fn read_root(&self, recursive: bool) -> (r: GfsResult<Vec<OwnedGfsPath>>)
        ensures
            r matches Ok(v) && is_dir_listing(
                self.store_view().dom(),
                dir_seq(self.root_view()),
                recursive,
                self.id_view(),
                v@,
            ),
    ;
}

/// The mutating capability layered on top of the snapshot capability:
/// insert, remove and rename entries, and open buffered write handles.
pub trait GFS<M: GfsEntryMeta>: GfsSnapshot<M> {
    /// An empty filesystem with the given root and instance identifier zero.
    ///
    /// Every filesystem made this way carries the same identifier, so the
    /// ownership guard on bound paths cannot tell two such instances apart: a
    /// path bound to one resolves against the other as well. Where that
    /// distinction matters, construct each instance with its own identifier
    /// (the in-memory backend's `with_id`).
    fn new(root: &GfsPath) -> (r: Self)
        ensures
            r.store_view() == Map::<Seq<char>, (M, Seq<u8>)>::empty(),
            r.root_view() == root@,
            r.id_view() == 0,
    ;

    /// Removes the entry at `path` and returns it, or `EntryNotFound`.
    fn drop_entry(&mut self, path: &GfsPath) -> (r: GfsResult<GfsFile<M>>)
        ensures
            final(self).root_view() == old(self).root_view(),
            final(self).id_view() == old(self).id_view(),
            match r {
                Ok(f) => old(self).store_view().dom().contains(path@) && f@ == old(self).store_view()[path@] && final(self).store_view() == old(self).store_view().remove(
                    path@,
                ),
                Err(e) => !old(self).store_view().dom().contains(path@) && e
                    == GfsError::EntryNotFound && final(self).store_view() == old(self).store_view(),
            },
    ;

    /// Removes the entry at `path`, discarding it, or `EntryNotFound`; a
    /// missing path has no observable effect on the store.
    fn remove_entry(&mut self, path: &GfsPath) -> (r: GfsResult<()>)
        ensures
            final(self).root_view() == old(self).root_view(),
            final(self).id_view() == old(self).id_view(),
            match r {
                Ok(u) => old(self).store_view().dom().contains(path@) && final(self).store_view()
                    == old(self).store_view().remove(path@),
                Err(e) => !old(self).store_view().dom().contains(path@) && e
                    == GfsError::EntryNotFound && final(self).store_view() == old(self).store_view(),
            },
    ;

    /// Creates or replaces the entry at `path` and returns the bound path;
    /// idempotent on the path.
    fn insert_entry(&mut self, path: &GfsPath, metadata: M, data: Vec<u8>) -> (r: GfsResult<
        OwnedGfsPath,
    >)
        ensures
            final(self).root_view() == old(self).root_view(),
            final(self).id_view() == old(self).id_view(),
            final(self).store_view() == old(self).store_view().insert(path@, (metadata, data@)),
            r matches Ok(p) && p.path_view() == path@ && p.owner_id() == old(self).id_view(),
    ;

    /// Creates or replaces the entry at `path` with a whole file value.
    fn replace_entry(&mut self, path: &GfsPath, entry: GfsFile<M>) -> (r: GfsResult<OwnedGfsPath>)
        ensures
            final(self).root_view() == old(self).root_view(),
            final(self).id_view() == old(self).id_view(),
            final(self).store_view() == old(self).store_view().insert(path@, entry@),
            r matches Ok(p) && p.path_view() == path@ && p.owner_id() == old(self).id_view(),
    ;

    /// Moves the entry at `path` to `new_path`, metadata and content carried
    /// over unchanged; both steps succeed or the store is left untouched.
    fn rename_entry(&mut self, path: &GfsPath, new_path: &GfsPath) -> (r: GfsResult<OwnedGfsPath>)
        ensures
            final(self).root_view() == old(self).root_view(),
            final(self).id_view() == old(self).id_view(),
            match r {
                Ok(p) => old(self).store_view().dom().contains(path@) && final(self).store_view()
                    == old(self).store_view().remove(path@).insert(
                    new_path@,
                    old(self).store_view()[path@],
                ) && p.path_view() == new_path@ && p.owner_id() == old(self).id_view(),
                Err(e) => !old(self).store_view().dom().contains(path@) && e
                    == GfsError::EntryNotFound && final(self).store_view() == old(self).store_view(),
            },
    ;

    /// A write handle destined for `path`: pre-populated with the current
    /// entry when one exists, otherwise starting from default metadata and
    /// empty content; its cursor starts at zero. Nothing is persisted until
    /// the handle is committed.
    fn entry_writer(&self, path: &GfsPath) -> (r: GfsResult<WritableFile<M>>)
        ensures
            r matches Ok(w) && w.dest_path_spec() == path@ && w.dest_owner_spec() == self.id_view()
                && w.pos_spec() == 0 && (if self.store_view().dom().contains(path@) {
                w.metadata_spec() == self.store_view()[path@].0 && w.buffer_spec()
                    == self.store_view()[path@].1
            } else {
                w.metadata_spec() == M::default_spec() && w.buffer_spec() == Seq::<u8>::empty()
            }),
    ;
}

impl GfsPath {
    /// Binds this path to the given filesystem, consuming it.
    pub fn to_owned_path<M: GfsEntryMeta, F: GfsSnapshot<M>>(self, filesystem: &F) -> (r:
        OwnedGfsPath)
        ensures
            r.path_view() == self@,
            r.owner_id() == filesystem.id_view(),
    {
        let id = filesystem.instance_id();
        OwnedGfsPath::create(self, id)
    }

    /// Binds a copy of this path to the given filesystem.
    pub fn as_owned_path<M: GfsEntryMeta, F: GfsSnapshot<M>>(&self, filesystem: &F) -> (r:
        OwnedGfsPath)
        ensures
            r.path_view() == self@,
            r.owner_id() == filesystem.id_view(),
    {
        let id = filesystem.instance_id();
        OwnedGfsPath::create(self.clone(), id)
    }
}

impl OwnedGfsPath {
    /// Inserts an entry at this bound path in `fs`, when `fs` is the owner.
    pub fn fs_new<M: GfsEntryMeta, F: GFS<M>>(&self, fs: &mut F, metadata: M, contents: Vec<u8>) -> (r:
        GfsResult<OwnedGfsPath>)
        ensures
            final(fs).root_view() == old(fs).root_view(),
            final(fs).id_view() == old(fs).id_view(),
            self.owner_id() == old(fs).id_view() ==> final(fs).store_view() == old(fs).store_view().insert(self.path_view(), (metadata, contents@)) && (r matches Ok(p)
                && p.path_view() == self.path_view() && p.owner_id() == old(fs).id_view()),
            self.owner_id() != old(fs).id_view() ==> *final(fs) == *old(fs) && (r matches Err(e)
                && e is Other),
    {
        if self.filesystem() != fs.instance_id() {
            return Err(GfsError::Other(String::from_str("path is bound to another filesystem")));
        }
        fs.insert_entry(self.as_path(), metadata, contents)
    }

    /// Opens a write handle destined for this bound path, when `fs` is the
    /// owner.
    pub fn fs_writer<M: GfsEntryMeta, F: GFS<M>>(&self, fs: &F) -> (r: GfsResult<WritableFile<M>>)
        ensures
            self.owner_id() == fs.id_view() ==> (r matches Ok(w) && w.dest_path_spec()
                == self.path_view() && w.dest_owner_spec() == fs.id_view() && w.pos_spec() == 0 && (
            if fs.store_view().dom().contains(self.path_view()) {
                w.metadata_spec() == fs.store_view()[self.path_view()].0 && w.buffer_spec()
                    == fs.store_view()[self.path_view()].1
            } else {
                w.metadata_spec() == M::default_spec() && w.buffer_spec() == Seq::<u8>::empty()
            })),
            self.owner_id() != fs.id_view() ==> (r matches Err(e) && e is Other),
    {
        if self.filesystem() != fs.instance_id() {
            return Err(GfsError::Other(String::from_str("path is bound to another filesystem")));
        }
        fs.entry_writer(self.as_path())
    }

    /// Removes and returns the entry at this bound path, when `fs` is the
    /// owner.
    pub fn fs_drop_entry<M: GfsEntryMeta, F: GFS<M>>(&self, fs: &mut F) -> (r: GfsResult<
        GfsFile<M>,
    >)
        ensures
            final(fs).root_view() == old(fs).root_view(),
            final(fs).id_view() == old(fs).id_view(),
            self.owner_id() == old(fs).id_view() ==> match r {
                Ok(f) => old(fs).store_view().dom().contains(self.path_view()) && f@ == old(fs).store_view()[self.path_view()] && final(fs).store_view() == old(fs).store_view().remove(self.path_view()),
                Err(e) => !old(fs).store_view().dom().contains(self.path_view()) && e
                    == GfsError::EntryNotFound && final(fs).store_view() == old(fs).store_view(),
            },
            self.owner_id() != old(fs).id_view() ==> *final(fs) == *old(fs) && (r matches Err(e)
                && e is Other),
    {
        if self.filesystem() != fs.instance_id() {
            return Err(GfsError::Other(String::from_str("path is bound to another filesystem")));
        }
        fs.drop_entry(self.as_path())
    }

    /// Removes the entry at this bound path, discarding it, when `fs` is the
    /// owner.
    pub fn fs_remove_entry<M: GfsEntryMeta, F: GFS<M>>(&self, fs: &mut F) -> (r: GfsResult<()>)
        ensures
            final(fs).root_view() == old(fs).root_view(),
            final(fs).id_view() == old(fs).id_view(),
            self.owner_id() == old(fs).id_view() ==> match r {
                Ok(u) => old(fs).store_view().dom().contains(self.path_view()) && final(fs).store_view() == old(fs).store_view().remove(self.path_view()),
                Err(e) => !old(fs).store_view().dom().contains(self.path_view()) && e
                    == GfsError::EntryNotFound && final(fs).store_view() == old(fs).store_view(),
            },
            self.owner_id() != old(fs).id_view() ==> *final(fs) == *old(fs) && (r matches Err(e)
                && e is Other),
    {
        if self.filesystem() != fs.instance_id() {
            return Err(GfsError::Other(String::from_str("path is bound to another filesystem")));
        }
        fs.remove_entry(self.as_path())
    }

    /// Moves the entry at this bound path to `new_path`, when `fs` is the
    /// owner.
    pub fn fs_rename_entry<M: GfsEntryMeta, F: GFS<M>>(&self, fs: &mut F, new_path: &GfsPath) -> (r:
        GfsResult<OwnedGfsPath>)
        ensures
            final(fs).root_view() == old(fs).root_view(),
            final(fs).id_view() == old(fs).id_view(),
            self.owner_id() == old(fs).id_view() ==> match r {
                Ok(p) => old(fs).store_view().dom().contains(self.path_view()) && final(fs).store_view() == old(fs).store_view().remove(self.path_view()).insert(
                    new_path@,
                    old(fs).store_view()[self.path_view()],
                ) && p.path_view() == new_path@ && p.owner_id() == old(fs).id_view(),
                Err(e) => !old(fs).store_view().dom().contains(self.path_view()) && e
                    == GfsError::EntryNotFound && final(fs).store_view() == old(fs).store_view(),
            },
            self.owner_id() != old(fs).id_view() ==> *final(fs) == *old(fs) && (r matches Err(e)
                && e is Other),
    {
        if self.filesystem() != fs.instance_id() {
            return Err(GfsError::Other(String::from_str("path is bound to another filesystem")));
        }
        fs.rename_entry(self.as_path(), new_path)
    }

    /// The metadata stored at this bound path, when `fs` is the owner.
    pub fn fs_meta<M: GfsEntryMeta, F: GfsSnapshot<M>>(&self, fs: &F) -> (r: GfsResult<M>)
        ensures
            self.owner_id() == fs.id_view() ==> match r {
                Ok(m) => fs.store_view().dom().contains(self.path_view()) && m == fs.store_view()[self.path_view()].0,
                Err(e) => !fs.store_view().dom().contains(self.path_view()) && e
                    == GfsError::EntryNotFound,
            },
            self.owner_id() != fs.id_view() ==> (r matches Err(e) && e is Other),
    {
        if self.filesystem() != fs.instance_id() {
            return Err(GfsError::Other(String::from_str("path is bound to another filesystem")));
        }
        fs.read_meta(self.as_path())
    }

    /// The content stored at this bound path, when `fs` is the owner.
    pub fn fs_data<M: GfsEntryMeta, F: GfsSnapshot<M>>(&self, fs: &F) -> (r: GfsResult<Vec<u8>>)
        ensures
            self.owner_id() == fs.id_view() ==> match r {
                Ok(d) => fs.store_view().dom().contains(self.path_view()) && d@ == fs.store_view()[self.path_view()].1,
                Err(e) => !fs.store_view().dom().contains(self.path_view()) && e
                    == GfsError::EntryNotFound,
            },
            self.owner_id() != fs.id_view() ==> (r matches Err(e) && e is Other),
    {
        if self.filesystem() != fs.instance_id() {
            return Err(GfsError::Other(String::from_str("path is bound to another filesystem")));
        }
        fs.read_data(self.as_path())
    }

    /// A read handle over the entry at this bound path, when `fs` is the
    /// owner.
    pub fn fs_reader<M: GfsEntryMeta, F: GfsSnapshot<M>>(&self, fs: &F) -> (r: GfsResult<
        ReadableFile<M>,
    >)
        ensures
            self.owner_id() == fs.id_view() ==> match r {
                Ok(h) => fs.store_view().dom().contains(self.path_view()) && h.metadata_spec()
                    == fs.store_view()[self.path_view()].0 && h.content_spec() == fs.store_view()[self.path_view()].1 && h.pos_spec() == 0,
                Err(e) => !fs.store_view().dom().contains(self.path_view()) && e
                    == GfsError::EntryNotFound,
            },
            self.owner_id() != fs.id_view() ==> (r matches Err(e) && e is Other),
    {
        if self.filesystem() != fs.instance_id() {
            return Err(GfsError::Other(String::from_str("path is bound to another filesystem")));
        }
        fs.entry_reader(self.as_path())
    }
}

} // verus!
