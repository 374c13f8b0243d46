//! The in-memory filesystem backend: a mutable entry store keyed by path
//! strings, with prefix-based directory listing synthesized from the flat key
//! space.
use vstd::prelude::*;
use vstd::slice::slice_to_vec;
use vstd::string::StrSliceExecFns;

use crate::error::{GfsError, GfsResult};
use crate::filesystem::{listed_under, GfsEntryMeta, GfsSnapshot, NoEntryMeta, GFS};
use crate::io::{GfsFile, ReadableFile, WritableFile};
use crate::path::{contains_sep, dir_seq, GfsPath, OwnedGfsPath, PathLike, GFS_SEPARATOR};

verus! {

/// The metadata type the stock backend is instantiated at when entries carry
/// no metadata.
pub type GameFileMeta = NoEntryMeta;

/// A bound path of the stock backend.
pub type GamePath = OwnedGfsPath;

/// The map a sequence of keyed entries denotes, later entries winning.
spec fn entries_map<M: GfsEntryMeta>(s: Seq<(GfsPath, GfsFile<M>)>) -> Map<Seq<char>, (M, Seq<u8>)>
    decreases s.len(),
{
    if s.len() == 0 {
        Map::empty()
    } else {
        entries_map(s.drop_last()).insert(s.last().0@, s.last().1@)
    }
}

/// No two entries share a key.
spec fn keys_unique<M: GfsEntryMeta>(s: Seq<(GfsPath, GfsFile<M>)>) -> bool {
    forall|i: int, j: int| 0 <= i < j < s.len() ==> s[i].0@ != s[j].0@
}

/// With unique keys, the denoted map holds exactly the listed keys, each
/// bound to its entry's value.
proof fn lemma_entries_map_props<M: GfsEntryMeta>(s: Seq<(GfsPath, GfsFile<M>)>)
    requires
        keys_unique(s),
    ensures
        forall|q: Seq<char>| #[trigger]
            entries_map(s).dom().contains(q) ==> exists|i: int| 0 <= i < s.len() && s[i].0@ == q,
        forall|i: int| #![trigger s[i].0@]
            0 <= i < s.len() ==> entries_map(s).dom().contains(s[i].0@) && entries_map(s)[s[i].0@]
                == s[i].1@,
    decreases s.len(),
{
    if s.len() > 0 {
        assert(keys_unique(s.drop_last()));
        lemma_entries_map_props(s.drop_last());
        assert forall|i: int| 0 <= i < s.len() implies entries_map(s).dom().contains(s[i].0@)
            && entries_map(s)[s[i].0@] == s[i].1@ by {
            if i < s.len() - 1 {
                assert(s.drop_last()[i] == s[i]);
                assert(s[i].0@ != s.last().0@);
            }
        }
        assert forall|q: Seq<char>| entries_map(s).dom().contains(q) implies exists|i: int|
            0 <= i < s.len() && s[i].0@ == q by {
            if q == s.last().0@ {
                assert(s[s.len() - 1].0@ == q);
            } else {
                assert(entries_map(s.drop_last()).dom().contains(q));
                let i = choose|i: int| 0 <= i < s.drop_last().len() && s.drop_last()[i].0@ == q;
                assert(s[i].0@ == q);
            }
        }
    }
}

/// Removing the entry at index `i` removes exactly its key from the denoted
/// map, and keeps the remaining keys unique and distinct from it.
proof fn lemma_entries_map_remove<M: GfsEntryMeta>(s: Seq<(GfsPath, GfsFile<M>)>, i: int)
    requires
        keys_unique(s),
        0 <= i < s.len(),
    ensures
        entries_map(s.remove(i)) == entries_map(s).remove(s[i].0@),
        keys_unique(s.remove(i)),
        forall|j: int| #![trigger s.remove(i)[j]]
            0 <= j < s.remove(i).len() ==> s.remove(i)[j].0@ != s[i].0@,
    decreases s.len(),
{
    s.remove_ensures(i);
    lemma_entries_map_props(s);
    if i == s.len() - 1 {
        assert(s.remove(i) =~= s.drop_last());
        assert(keys_unique(s.drop_last()));
        lemma_entries_map_props(s.drop_last());
        assert(!entries_map(s.drop_last()).dom().contains(s[i].0@));
        assert(entries_map(s.drop_last()) =~= entries_map(s).remove(s[i].0@));
    } else {
        let d = s.drop_last();
        assert(keys_unique(d));
        lemma_entries_map_remove(d, i);
        assert(s.remove(i).drop_last() =~= d.remove(i));
        assert(s.remove(i).last() == s.last());
        assert(entries_map(s.remove(i)) == entries_map(d.remove(i)).insert(
            s.last().0@,
            s.last().1@,
        ));
        assert(d[i] == s[i]);
        assert(s[i].0@ != s.last().0@);
        assert(entries_map(d).remove(s[i].0@).insert(s.last().0@, s.last().1@) =~= entries_map(
            d,
        ).insert(s.last().0@, s.last().1@).remove(s[i].0@));
    }
}

/// The index of the entry stored under `path`, when there is one.
fn find_entry<M: GfsEntryMeta>(entries: &Vec<(GfsPath, GfsFile<M>)>, path: &GfsPath) -> (r: Option<
    usize,
>)
    ensures
        match r {
            Some(i) => i < entries@.len() && entries@[i as int].0@ == path@,
            None => forall|i: int| 0 <= i < entries@.len() ==> entries@[i].0@ != path@,
        },
{
    let n = entries.len();
    let mut i: usize = 0;
    while i < n
        invariant
            i <= n,
            n == entries@.len(),
            forall|j: int| 0 <= j < i ==> entries@[j].0@ != path@,
        decreases n - i,
    {
        let pair = &entries[i];
        if pair.0 == *path {
            return Some(i);
        }
        i += 1;
    }
    None
}

/// Whether the canonical separator occurs in `s` at or after `start`.
fn tail_contains_sep(s: &str, start: usize) -> (r: bool)
    requires
        start as int <= s@.len(),
    ensures
        r == contains_sep(s@.skip(start as int)),
{
    let n = s.unicode_len();
    let mut i = start;
    while i < n
        invariant
            start <= i <= n,
            n == s@.len(),
            forall|j: int| start <= j < i ==> s@[j] != GFS_SEPARATOR,
        decreases n - i,
    {
        if s.get_char(i) == GFS_SEPARATOR {
            proof {
                assert(s@.skip(start as int)[i - start] == GFS_SEPARATOR);
            }
            return true;
        }
        i += 1;
    }
    proof {
        assert forall|k: int| 0 <= k < s@.skip(start as int).len() implies s@.skip(start as int)[k]
            != GFS_SEPARATOR by {
            assert(s@.skip(start as int)[k] == s@[start + k]);
        }
    }
    false
}

/// The in-memory filesystem: owns the entry store and a designated root path,
/// both fixed to one metadata type per instantiation.
///
/// Any number of readers may share a filesystem value at once; every mutation
/// requires exclusive access, so each operation observes and leaves a
/// consistent store. Cross-call sequences (a read followed by a later write)
/// are not atomic with respect to other writers unless the caller holds on to
/// exclusive access across both calls.
pub struct GameFileSystem<M: GfsEntryMeta> {
    entries: Vec<(GfsPath, GfsFile<M>)>,
    root: GfsPath,
    id: u64,
}

impl<M: GfsEntryMeta> GameFileSystem<M> {
    #[verifier::type_invariant]
    spec fn wf(&self) -> bool {
        keys_unique(self.entries@)
    }

    /// An empty filesystem with the given root and instance identifier.
    pub fn with_id(root: &GfsPath, id: u64) -> (r: Self)
        ensures
            r.store_view() == Map::<Seq<char>, (M, Seq<u8>)>::empty(),
            r.root_view() == root@,
            r.id_view() == id,
    {
        let fs = GameFileSystem { entries: Vec::new(), root: root.clone(), id };
        proof {
            assert(fs.store_view() =~= Map::<Seq<char>, (M, Seq<u8>)>::empty());
        }
        fs
    }
}

impl<M: GfsEntryMeta> GfsSnapshot<M> for GameFileSystem<M> {
    closed spec fn store_view(&self) -> Map<Seq<char>, (M, Seq<u8>)> {
        entries_map(self.entries@)
    }

    closed spec fn root_view(&self) -> Seq<char> {
        self.root@
    }

    closed spec fn id_view(&self) -> u64 {
        self.id
    }

    fn instance_id(&self) -> (r: u64) {
        self.id
    }

    fn normalize_path(path: &GfsPath) -> (r: GfsPath) {
        path.normalize()
    }

    fn root(&self) -> (r: &GfsPath) {
        &self.root
    }

    fn create_path(&self, path: &GfsPath) -> (r: OwnedGfsPath) {
        let normalized = path.normalize();
        let joined = self.root.join(&normalized);
        OwnedGfsPath::create(joined, self.id)
    }

    fn read_meta(&self, path: &GfsPath) -> (r: GfsResult<M>) {
        proof {
            use_type_invariant(&*self);
            lemma_entries_map_props(self.entries@);
        }
        match find_entry(&self.entries, path) {
            Some(i) => {
                let pair = &self.entries[i];
                Ok(*pair.1.metadata())
            },
            None => Err(GfsError::EntryNotFound),
        }
    }

    fn read_data(&self, path: &GfsPath) -> (r: GfsResult<Vec<u8>>) {
        proof {
            use_type_invariant(&*self);
            lemma_entries_map_props(self.entries@);
        }
        match find_entry(&self.entries, path) {
            Some(i) => {
                let pair = &self.entries[i];
                Ok(slice_to_vec(pair.1.contents().as_slice()))
            },
            None => Err(GfsError::EntryNotFound),
        }
    }

    fn read_entry(&self, path: &GfsPath) -> (r: GfsResult<GfsFile<M>>) {
        proof {
            use_type_invariant(&*self);
            lemma_entries_map_props(self.entries@);
        }
        match find_entry(&self.entries, path) {
            Some(i) => {
                let pair = &self.entries[i];
                Ok(pair.1.clone())
            },
            None => Err(GfsError::EntryNotFound),
        }
    }

    fn entry_reader(&self, path: &GfsPath) -> (r: GfsResult<ReadableFile<M>>) {
        match self.read_entry(path) {
            Ok(f) => Ok(ReadableFile::from(f)),
            Err(e) => Err(e),
        }
    }

    fn read_dir(&self, path: &GfsPath, recursive: bool) -> (r: GfsResult<Vec<OwnedGfsPath>>) {
        proof {
            use_type_invariant(&*self);
            lemma_entries_map_props(self.entries@);
        }
        let dir = path.clone().to_directory_path();
        let dir_len = dir.as_str().unicode_len();
        let n = self.entries.len();
        let mut out: Vec<OwnedGfsPath> = Vec::new();
        let mut i: usize = 0;
        while i < n
            invariant
                i <= n,
                n == self.entries@.len(),
                dir@ == dir_seq(path@),
                dir_len == dir@.len(),
                keys_unique(self.entries@),
                forall|k: int|
                    #![trigger out@[k].path_view()]
                    0 <= k < out@.len() ==> out@[k].owner_id() == self.id_view() && listed_under(
                        dir_seq(path@),
                        out@[k].path_view(),
                        recursive,
                    ),
                forall|k: int|
                    #![trigger out@[k].path_view()]
                    0 <= k < out@.len() ==> exists|j: int|
                        0 <= j < i && self.entries@[j].0@ == out@[k].path_view(),
                forall|j: int|
                    #![trigger self.entries@[j].0@]
                    0 <= j < i && listed_under(dir_seq(path@), self.entries@[j].0@, recursive)
                        ==> exists|k: int|
                        0 <= k < out@.len() && out@[k].path_view() == self.entries@[j].0@,
                forall|k1: int, k2: int|
                    #![trigger out@[k1].path_view(), out@[k2].path_view()]
                    0 <= k1 < k2 < out@.len() ==> out@[k1].path_view() != out@[k2].path_view(),
            decreases n - i,
        {
            let ghost prev = out@;
            let ghost ii = i as int;
            let pair = &self.entries[i];
            let candidate = &pair.0;
            let included: bool;
            if dir.is_child(candidate) {
                if recursive {
                    included = true;
                } else {
                    included = !tail_contains_sep(candidate.as_str(), dir_len);
                }
            } else {
                included = false;
            }
            proof {
                assert(included == listed_under(dir_seq(path@), self.entries@[ii].0@, recursive));
            }
            if included {
                out.push(OwnedGfsPath::create(candidate.clone(), self.id));
            }
            i += 1;
            proof {
                if included {
                    assert(out@.last().path_view() == self.entries@[ii].0@);
                    assert(out@.last().owner_id() == self.id_view());
                    assert(out@.drop_last() =~= prev);
                } else {
                    assert(out@ == prev);
                }
                assert forall|k: int| 0 <= k < out@.len() implies #[trigger] out@[k].owner_id() == self.id_view() && listed_under(
                    dir_seq(path@),
                    out@[k].path_view(),
                    recursive,
                ) && exists|j: int| 0 <= j < i && self.entries@[j].0@ == out@[k].path_view() by {
                    if k < prev.len() {
                        assert(out@[k] == prev[k]);
                        assert(prev[k].path_view() == out@[k].path_view());
                    } else {
                        assert(out@[k] == out@.last());
                        assert(self.entries@[ii].0@ == out@[k].path_view());
                    }
                }
                assert forall|j: int|
                    0 <= j < i && listed_under(
                        dir_seq(path@),
                        #[trigger] self.entries@[j].0@,
                        recursive,
                    ) implies exists|k: int|
                    0 <= k < out@.len() && out@[k].path_view() == self.entries@[j].0@ by {
                    if j < ii {
                        let k = choose|k: int|
                            0 <= k < prev.len() && prev[k].path_view() == self.entries@[j].0@;
                        assert(out@[k] == prev[k]);
                        assert(out@[k].path_view() == self.entries@[j].0@);
                    } else {
                        assert(included);
                        assert(out@[out@.len() - 1].path_view() == self.entries@[j].0@);
                    }
                }
                assert forall|k1: int, k2: int| 0 <= k1 < k2 < out@.len() implies #[trigger] out@[k1].path_view() != #[trigger] out@[k2].path_view() by {
                    assert(out@[k1] == prev[k1]);
                    if k2 < prev.len() {
                        assert(out@[k2] == prev[k2]);
                    } else {
                        let j = choose|j: int|
                            0 <= j < ii && self.entries@[j].0@ == prev[k1].path_view();
                        assert(self.entries@[j].0@ != self.entries@[ii].0@);
                        assert(out@[k2].path_view() == self.entries@[ii].0@);
                    }
                }
            }
        }
        proof {
            assert forall|q: Seq<char>|
                self.store_view().dom().contains(q) && listed_under(
                    dir_seq(path@),
                    q,
                    recursive,
                ) implies exists|k: int| 0 <= k < out@.len() && out@[k].path_view() == q by {
                let j = choose|j: int| 0 <= j < self.entries@.len() && self.entries@[j].0@ == q;
                assert(listed_under(dir_seq(path@), self.entries@[j].0@, recursive));
            }
            assert forall|k: int| 0 <= k < out@.len() implies self.store_view().dom().contains(
                out@[k].path_view(),
            ) by {
                let j = choose|j: int|
                    0 <= j < self.entries@.len() && self.entries@[j].0@ == out@[k].path_view();
                assert(entries_map(self.entries@).dom().contains(self.entries@[j].0@));
            }
        }
        Ok(out)
    }

    fn read_root(&self, recursive: bool) -> (r: GfsResult<Vec<OwnedGfsPath>>) {
        self.read_dir(&self.root, recursive)
    }
}

impl<M: GfsEntryMeta> GFS<M> for GameFileSystem<M> {
    fn new(root: &GfsPath) -> (r: Self) {
        GameFileSystem::with_id(root, 0)
    }

    fn drop_entry(&mut self, path: &GfsPath) -> (r: GfsResult<GfsFile<M>>) {
        proof {
            use_type_invariant(&*self);
            lemma_entries_map_props(self.entries@);
        }
        match find_entry(&self.entries, path) {
            Some(i) => {
                proof {
                    lemma_entries_map_remove(self.entries@, i as int);
                }
                let mut entries: Vec<(GfsPath, GfsFile<M>)> = Vec::new();
                std::mem::swap(&mut entries, &mut self.entries);
                let (_key, file) = entries.remove(i);
                std::mem::swap(&mut entries, &mut self.entries);
                Ok(file)
            },
            None => Err(GfsError::EntryNotFound),
        }
    }

    fn remove_entry(&mut self, path: &GfsPath) -> (r: GfsResult<()>) {
        match self.drop_entry(path) {
            Ok(_file) => Ok(()),
            Err(e) => Err(e),
        }
    }

    fn insert_entry(&mut self, path: &GfsPath, metadata: M, data: Vec<u8>) -> (r: GfsResult<
        OwnedGfsPath,
    >) {
        proof {
            use_type_invariant(&*self);
            lemma_entries_map_props(self.entries@);
        }
        let ghost store0 = entries_map(self.entries@);
        let file = GfsFile::create(metadata, data);
        let found = find_entry(&self.entries, path);
        let mut entries: Vec<(GfsPath, GfsFile<M>)> = Vec::new();
        std::mem::swap(&mut entries, &mut self.entries);
        if let Some(i) = found {
            proof {
                lemma_entries_map_remove(entries@, i as int);
            }
            let _removed = entries.remove(i);
        }
        let ghost mid = entries@;
        entries.push((path.clone(), file));
        proof {
            assert(entries@.drop_last() =~= mid);
            assert(entries@.last().0@ == path@);
            assert(keys_unique(entries@));
            assert(entries_map(entries@) =~= store0.insert(path@, (metadata, data@)));
        }
        std::mem::swap(&mut entries, &mut self.entries);
        Ok(OwnedGfsPath::create(path.clone(), self.id))
    }

    fn replace_entry(&mut self, path: &GfsPath, entry: GfsFile<M>) -> (r: GfsResult<
        OwnedGfsPath,
    >) {
        let (metadata, contents) = entry.into_parts();
        self.insert_entry(path, metadata, contents)
    }

    fn rename_entry(&mut self, path: &GfsPath, new_path: &GfsPath) -> (r: GfsResult<
        OwnedGfsPath,
    >) {
        match self.drop_entry(path) {
            Ok(file) => self.replace_entry(new_path, file),
            Err(e) => Err(e),
        }
    }

    fn entry_writer(&self, path: &GfsPath) -> (r: GfsResult<WritableFile<M>>) {
        let owned = OwnedGfsPath::create(path.clone(), self.instance_id());
        match self.read_entry(path) {
            Ok(f) => {
                let (metadata, contents) = f.into_parts();
                Ok(WritableFile::from_owned(&owned, metadata, contents))
            },
            Err(_e) => Ok(WritableFile::from_owned(&owned, M::meta_default(), Vec::new())),
        }
    }
}

} // verus!
