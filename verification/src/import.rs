//! The compute side of the archive bridge: entries already read out of an
//! external archive are placed into the store under a destination root, and
//! whatever they replace is handed back so the caller can audit overwrites.
use vstd::prelude::*;
use vstd::slice::slice_to_vec;

use crate::error::GfsResult;
use crate::filesystem::{GfsEntryMeta, GfsSnapshot, GFS};
use crate::io::GfsFile;
use crate::path::{join_seqs, GfsPath, PathLike};

verus! {

/// The store after a batch import: each item inserted in turn at
/// `root.join(item's relative path)`, later items winning on a shared
/// destination.
pub open spec fn import_fold<M: GfsEntryMeta>(
    store: Map<Seq<char>, (M, Seq<u8>)>,
    root: Seq<char>,
    items: Seq<(GfsPath, M, Vec<u8>)>,
) -> Map<Seq<char>, (M, Seq<u8>)>
    decreases items.len(),
{
    if items.len() == 0 {
        store
    } else {
        import_fold(store, root, items.drop_last()).insert(
            join_seqs(root, items.last().0@),
            (items.last().1, items.last().2@),
        )
    }
}

/// The `(relative path, prior value)` pairs a batch import replaces: one pair
/// for each item whose destination held an entry at the moment that item was
/// inserted.
pub open spec fn import_replaced<M: GfsEntryMeta>(
    store: Map<Seq<char>, (M, Seq<u8>)>,
    root: Seq<char>,
    items: Seq<(GfsPath, M, Vec<u8>)>,
) -> Seq<(Seq<char>, (M, Seq<u8>))>
    decreases items.len(),
{
    if items.len() == 0 {
        Seq::empty()
    } else {
        let prefix = import_replaced(store, root, items.drop_last());
        let mid = import_fold(store, root, items.drop_last());
        let dest = join_seqs(root, items.last().0@);
        if mid.dom().contains(dest) {
            prefix.push((items.last().0@, mid[dest]))
        } else {
            prefix
        }
    }
}

/// Imports one externally produced entry: inserts it at
/// `dest_root.join(rel_path)` and returns the entry previously stored there,
/// if any, so the caller can audit the overwrite.
pub fn import_entry<M: GfsEntryMeta, F: GFS<M>>(
    fs: &mut F,
    dest_root: &GfsPath,
    rel_path: &GfsPath,
    metadata: M,
    contents: Vec<u8>,
) -> (r: GfsResult<Option<GfsFile<M>>>)
    ensures
        final(fs).root_view() == old(fs).root_view(),
        final(fs).id_view() == old(fs).id_view(),
        final(fs).store_view() == old(fs).store_view().insert(
            join_seqs(dest_root@, rel_path@),
            (metadata, contents@),
        ),
        r matches Ok(prev) && (match prev {
            Some(f) => old(fs).store_view().dom().contains(join_seqs(dest_root@, rel_path@)) && f@
                == old(fs).store_view()[join_seqs(dest_root@, rel_path@)],
            None => !old(fs).store_view().dom().contains(join_seqs(dest_root@, rel_path@)),
        }),
{
    let dest = dest_root.join(rel_path);
    let previous = match fs.read_entry(&dest) {
        Ok(f) => Some(f),
        Err(_e) => None,
    };
    match fs.insert_entry(&dest, metadata, contents) {
        Ok(_p) => Ok(previous),
        Err(e) => Err(e),
    }
}

/// Imports a batch of externally produced entries under `dest_root`, in
/// order, and accumulates the `(relative path, replaced entry)` pairs.
/// Entries already inserted stay inserted whatever happens later in the
/// batch.
pub fn import_archive<M: GfsEntryMeta, F: GFS<M>>(
    fs: &mut F,
    dest_root: &GfsPath,
    items: &Vec<(GfsPath, M, Vec<u8>)>,
) -> (r: GfsResult<Vec<(GfsPath, GfsFile<M>)>>)
    ensures
        final(fs).root_view() == old(fs).root_view(),
        final(fs).id_view() == old(fs).id_view(),
        final(fs).store_view() == import_fold(old(fs).store_view(), dest_root@, items@),
        r matches Ok(rep) && ({
            let spec_rep = import_replaced(old(fs).store_view(), dest_root@, items@);
            &&& rep@.len() == spec_rep.len()
            &&& forall|k: int|
                #![trigger rep@[k]]
                0 <= k < rep@.len() ==> rep@[k].0@ == spec_rep[k].0 && rep@[k].1@ == spec_rep[k].1
        }),
{
    let ghost store0 = fs.store_view();
    let n = items.len();
    let mut replaced: Vec<(GfsPath, GfsFile<M>)> = Vec::new();
    let mut i: usize = 0;
    while i < n
        invariant
            i <= n,
            n == items@.len(),
            fs.root_view() == old(fs).root_view(),
            fs.id_view() == old(fs).id_view(),
            store0 == old(fs).store_view(),
            fs.store_view() == import_fold(store0, dest_root@, items@.subrange(0, i as int)),
            replaced@.len() == import_replaced(store0, dest_root@, items@.subrange(0, i as int)).len(),
            forall|k: int|
                #![trigger replaced@[k]]
                0 <= k < replaced@.len() ==> replaced@[k].0@ == import_replaced(
                    store0,
                    dest_root@,
                    items@.subrange(0, i as int),
                )[k].0 && replaced@[k].1@ == import_replaced(
                    store0,
                    dest_root@,
                    items@.subrange(0, i as int),
                )[k].1,
        decreases n - i,
    {
        let ghost pre = items@.subrange(0, i as int);
        let ghost post = items@.subrange(0, i as int + 1);
        let item = &items[i];
        let rel = item.0.clone();
        let metadata = item.1;
        let contents = slice_to_vec(item.2.as_slice());
        let outcome = import_entry(fs, dest_root, &rel, metadata, contents);
        proof {
            assert(post.drop_last() =~= pre);
            assert(post.last() == items@[i as int]);
        }
        match outcome {
            Ok(Some(f)) => {
                replaced.push((rel, f));
            },
            Ok(None) => {
            },
            Err(e) => {
                return Err(e);
            },
        }
        i += 1;
        proof {
            assert(fs.store_view() == import_fold(store0, dest_root@, post));
        }
    }
    proof {
        assert(items@.subrange(0, n as int) =~= items@);
    }
    Ok(replaced)
}

} // verus!
