//! An in-process virtual filesystem: named byte blobs with small metadata,
//! stored under a hierarchical path namespace, with prefix-based directory
//! listing and buffered read/write handles.
mod error;
mod filesystem;
mod implementation;
mod import;
mod io;
mod path;

pub use error::{GfsError, GfsResult};
pub use filesystem::{is_dir_listing, listed_under};
pub use filesystem::{GfsEntryMeta, GfsSnapshot, NoEntryMeta, GFS};
pub use implementation::{GameFileMeta, GameFileSystem, GamePath};
pub use import::{import_archive, import_entry, import_fold, import_replaced};
pub use io::{read_window, seek_target, write_at};
pub use io::{GfsFile, GfsSeekFrom, ReadableFile, WritableFile};
pub use path::{contains_sep, dir_seq, is_sep, join_seqs, norm_seq, strip_seps};
pub use path::{lemma_join_empty_single_trailing_sep, lemma_join_empty_then_directory};
pub use path::{GfsPath, OwnedGfsPath, PathLike, ALT_SEPARATOR, GFS_ROOT, GFS_SEPARATOR};

use vstd::prelude::*;

verus! {

/// The metadata type the stock game filesystem is instantiated at: fully
/// empty, the minimal valid instantiation of the metadata capability.
#[derive(Copy, Clone, Default, PartialEq, Eq, Structural)]
pub struct GameMeta {}

impl GfsEntryMeta for GameMeta {
    open spec fn default_spec() -> Self {
        GameMeta {  }
    }

    fn meta_default() -> (r: Self) {
        GameMeta {  }
    }
}

/// A stored entry of the stock game filesystem.
pub type GameFile = GfsFile<GameMeta>;

/// A read handle of the stock game filesystem.
pub type ReadableGameFile = ReadableFile<GameMeta>;

/// A write handle of the stock game filesystem.
pub type WritableGameFile = WritableFile<GameMeta>;

} // verus!
