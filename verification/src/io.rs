//! The file handle abstractions: a stored entry value, a buffered read handle
//! over a content snapshot, and a buffered write handle that persists its
//! content exactly once, through an explicit commit.
use vstd::prelude::*;
use vstd::slice::{slice_index_get, slice_to_vec};
use vstd::string::StringExecFns;

use crate::error::{GfsError, GfsResult};
use crate::filesystem::{GfsEntryMeta, GfsSnapshot, GFS};
use crate::path::{GfsPath, OwnedGfsPath, PathLike};

verus! {

/// The bytes a window read yields: from the cursor (clamped to the content's
/// end) up to `amount` bytes, never past the end.
pub open spec fn read_window(content: Seq<u8>, pos: int, amount: int) -> Seq<u8> {
    let start = if pos <= content.len() {
        pos
    } else {
        content.len() as int
    };
    let end = if start + amount <= content.len() {
        start + amount
    } else {
        content.len() as int
    };
    content.subrange(start, end)
}

/// The buffer a cursor write yields: `data` overlaid onto `buffer` at `pos`,
/// the buffer grown as needed, any gap between the old end and `pos` filled
/// with zero bytes.
pub open spec fn write_at(buffer: Seq<u8>, pos: int, data: Seq<u8>) -> Seq<u8> {
    Seq::new(
        if buffer.len() >= pos + data.len() {
            buffer.len()
        } else {
            (pos + data.len()) as nat
        },
        |i: int|
            if pos <= i < pos + data.len() {
                data[i - pos]
            } else if i < buffer.len() {
                buffer[i]
            } else {
                0u8
            },
    )
}

/// Where a seek starts counting from.
#[derive(Copy, Clone, Debug, PartialEq, Eq, Structural)]
pub enum GfsSeekFrom {
    /// An absolute offset from the start of the buffer.
    Start(u64),
    /// A signed offset from the current cursor position.
    Current(i64),
    /// A signed offset from the end of the buffer.
    End(i64),
}

/// The cursor position a seek requests, before any range check.
pub open spec fn seek_target(origin: GfsSeekFrom, pos: int, len: int) -> int {
    match origin {
        GfsSeekFrom::Start(n) => n as int,
        GfsSeekFrom::Current(d) => pos + d as int,
        GfsSeekFrom::End(d) => len + d as int,
    }
}

/// Resolves a seek request against a cursor and a buffer length; a target
/// outside `0 ..= usize::MAX` is rejected.
fn resolve_seek(position: usize, len: usize, origin: GfsSeekFrom) -> (r: GfsResult<usize>)
    ensures
        ({
            let t = seek_target(origin, position as int, len as int);
            match r {
                Ok(p) => 0 <= t <= usize::MAX && p == t,
                Err(e) => !(0 <= t <= usize::MAX) && e is Other,
            }
        }),
{
    match origin {
        GfsSeekFrom::Start(n) => {
            if n > usize::MAX as u64 {
                Err(GfsError::Other(String::from_str("seek target out of range")))
            } else {
                Ok(n as usize)
            }
        },
        GfsSeekFrom::Current(d) => {
            let t: i128 = position as i128 + d as i128;
            if t < 0 || t > usize::MAX as i128 {
                Err(GfsError::Other(String::from_str("seek target out of range")))
            } else {
                Ok(t as usize)
            }
        },
        GfsSeekFrom::End(d) => {
            let t: i128 = len as i128 + d as i128;
            if t < 0 || t > usize::MAX as i128 {
                Err(GfsError::Other(String::from_str("seek target out of range")))
            } else {
                Ok(t as usize)
            }
        },
    }
}

/// Copies the window `[clamped cursor, clamped cursor + amount)` out of
/// `content`.
fn read_slice(content: &Vec<u8>, position: usize, amount: usize) -> (r: Vec<u8>)
    ensures
        r@ == read_window(content@, position as int, amount as int),
        position as int + r@.len() <= usize::MAX as int,
{
    let len = content.len();
    let start = if position < len {
        position
    } else {
        len
    };
    let remaining = len - start;
    let count = if amount < remaining {
        amount
    } else {
        remaining
    };
    let mut out: Vec<u8> = Vec::new();
    let mut k: usize = 0;
    while k < count
        invariant
            k <= count,
            start + count <= len,
            len == content@.len(),
            out@.len() == k,
            forall|j: int| 0 <= j < k ==> out@[j] == content@[start + j],
        decreases count - k,
    {
        let b = content[start + k];
        out.push(b);
        k += 1;
    }
    proof {
        assert(out@ =~= read_window(content@, position as int, amount as int));
    }
    out
}

/// A stored entry: metadata plus a content byte buffer, treated as a value.
pub struct GfsFile<M: GfsEntryMeta> {
    pub(crate) metadata: M,
    pub(crate) contents: Vec<u8>,
}

impl<M: GfsEntryMeta> View for GfsFile<M> {
    type V = (M, Seq<u8>);

    closed spec fn view(&self) -> (M, Seq<u8>) {
        (self.metadata, self.contents@)
    }
}

impl<M: GfsEntryMeta> GfsFile<M> {
    /// Packs metadata and content into an entry value.
    pub fn create(metadata: M, contents: Vec<u8>) -> (r: Self)
        ensures
            r@ == (metadata, contents@),
    {
        GfsFile { metadata, contents }
    }

    /// The entry's metadata.
    pub fn metadata(&self) -> (r: &M)
        ensures
            *r == self@.0,
    {
        &self.metadata
    }

    /// The entry's content bytes.
    pub fn contents(&self) -> (r: &Vec<u8>)
        ensures
            r@ == self@.1,
    {
        &self.contents
    }

    /// Unpacks the entry into its metadata and content.
    pub fn into_parts(self) -> (r: (M, Vec<u8>))
        ensures
            r.0 == self@.0,
            r.1@ == self@.1,
    {
        (self.metadata, self.contents)
    }
}

impl<M: GfsEntryMeta> Clone for GfsFile<M> {
    /// An equal, independent entry value.
    fn clone(&self) -> (r: Self)
        ensures
            r@ == self@,
    {
        GfsFile { metadata: self.metadata, contents: slice_to_vec(self.contents.as_slice()) }
    }
}

/// A read handle: metadata plus an immutable content snapshot and a cursor.
/// It observes the content as of handle-open time, regardless of later
/// mutation to the store.
pub struct ReadableFile<M: GfsEntryMeta> {
    metadata: M,
    position: usize,
    content: Vec<u8>,
}

impl<M: GfsEntryMeta> ReadableFile<M> {
    /// The metadata captured when the handle was opened.
    pub closed spec fn metadata_spec(&self) -> M {
        self.metadata
    }

    /// The content snapshot captured when the handle was opened.
    pub closed spec fn content_spec(&self) -> Seq<u8> {
        self.content@
    }

    /// The cursor position.
    pub closed spec fn pos_spec(&self) -> int {
        self.position as int
    }

    /// The metadata captured when the handle was opened.
    pub fn metadata(&self) -> (r: &M)
        ensures
            *r == self.metadata_spec(),
    {
        &self.metadata
    }

    /// The length of the content snapshot.
    pub fn len(&self) -> (r: usize)
        ensures
            r == self.content_spec().len(),
    {
        self.content.len()
    }

    /// Reads up to `amount` bytes at the cursor and advances it by the count
    /// copied, never past the end; a read past the end is short or empty,
    /// never an error.
    pub fn read(&mut self, amount: usize) -> (r: Vec<u8>)
        ensures
            r@ == read_window(old(self).content_spec(), old(self).pos_spec(), amount as int),
            final(self).pos_spec() == old(self).pos_spec() + r@.len(),
            final(self).metadata_spec() == old(self).metadata_spec(),
            final(self).content_spec() == old(self).content_spec(),
    {
        let out = read_slice(&self.content, self.position, amount);
        let n = out.len();
        self.position = self.position + n;
        out
    }

    /// Moves the cursor to an absolute position counted from the start,
    /// the current position, or the end; a target outside the addressable
    /// range is rejected and leaves the cursor unchanged.
    pub fn seek(&mut self, origin: GfsSeekFrom) -> (r: GfsResult<u64>)
        ensures
            final(self).metadata_spec() == old(self).metadata_spec(),
            final(self).content_spec() == old(self).content_spec(),
            ({
                let t = seek_target(
                    origin,
                    old(self).pos_spec(),
                    old(self).content_spec().len() as int,
                );
                match r {
                    Ok(p) => 0 <= t <= usize::MAX && final(self).pos_spec() == t && p == t,
                    Err(e) => !(0 <= t <= usize::MAX) && e is Other && final(self).pos_spec()
                        == old(self).pos_spec(),
                }
            }),
    {
        let len = self.content.len();
        match resolve_seek(self.position, len, origin) {
            Ok(p) => {
                self.position = p;
                Ok(p as u64)
            },
            Err(e) => Err(e),
        }
    }
}

impl<M: GfsEntryMeta> From<GfsFile<M>> for ReadableFile<M> {
    /// A read handle over the given entry value, cursor at the start.
    fn from(value: GfsFile<M>) -> (r: Self)
        ensures
            r.metadata_spec() == value@.0,
            r.content_spec() == value@.1,
            r.pos_spec() == 0,
    {
        ReadableFile { metadata: value.metadata, position: 0, content: value.contents }
    }
}

impl<M: GfsEntryMeta> vstd::std_specs::convert::FromSpecImpl<GfsFile<M>> for ReadableFile<M> {
    open spec fn obeys_from_spec() -> bool {
        true
    }

    closed spec fn from_spec(value: GfsFile<M>) -> Self {
        ReadableFile { metadata: value.metadata, position: 0, content: value.contents }
    }
}

/// A write handle: metadata (mutable while open), a growable byte buffer with
/// a read/write/seek cursor, and the destination path bound to its owning
/// filesystem. Nothing is persisted until `commit` is called; a handle
/// discarded without a commit persists nothing.
pub struct WritableFile<M: GfsEntryMeta> {
    metadata: M,
    buffer: Vec<u8>,
    position: usize,
    destination: OwnedGfsPath,
}

impl<M: GfsEntryMeta> WritableFile<M> {
    /// The metadata that a commit would persist.
    pub closed spec fn metadata_spec(&self) -> M {
        self.metadata
    }

    /// The buffered content that a commit would persist.
    pub closed spec fn buffer_spec(&self) -> Seq<u8> {
        self.buffer@
    }

    /// The cursor position.
    pub closed spec fn pos_spec(&self) -> int {
        self.position as int
    }

    /// The string form of the destination path.
    pub closed spec fn dest_path_spec(&self) -> Seq<char> {
        self.destination.path_view()
    }

    /// The identifier of the filesystem the destination is bound to.
    pub closed spec fn dest_owner_spec(&self) -> u64 {
        self.destination.owner_id()
    }

    /// A write handle destined for the bound path `path`, starting from the
    /// given metadata and buffered content, cursor at the start.
    pub fn from_owned(path: &OwnedGfsPath, metadata: M, contents: Vec<u8>) -> (r: Self)
        ensures
            r.metadata_spec() == metadata,
            r.buffer_spec() == contents@,
            r.pos_spec() == 0,
            r.dest_path_spec() == path.path_view(),
            r.dest_owner_spec() == path.owner_id(),
    {
        WritableFile { metadata, buffer: contents, position: 0, destination: path.clone() }
    }

    /// A write handle destined for `filesystem`'s bound form of `path`
    /// (normalized and joined onto the root), starting from the given
    /// metadata and buffered content.
    pub fn create<F: GfsSnapshot<M>>(
        path: &GfsPath,
        filesystem: &F,
        metadata: M,
        contents: Vec<u8>,
    ) -> (r: Self)
        ensures
            r.metadata_spec() == metadata,
            r.buffer_spec() == contents@,
            r.pos_spec() == 0,
            r.dest_path_spec() == crate::path::join_seqs(
                filesystem.root_view(),
                crate::path::norm_seq(path@),
            ),
            r.dest_owner_spec() == filesystem.id_view(),
    {
        let destination = filesystem.create_path(path);
        WritableFile { metadata, buffer: contents, position: 0, destination }
    }

    /// The metadata that a commit would persist.
    pub fn metadata(&self) -> (r: &M)
        ensures
            *r == self.metadata_spec(),
    {
        &self.metadata
    }

    /// Replaces the metadata that a commit would persist.
    pub fn modify_metadata(&mut self, metadata: M)
        ensures
            final(self).metadata_spec() == metadata,
            final(self).buffer_spec() == old(self).buffer_spec(),
            final(self).pos_spec() == old(self).pos_spec(),
            final(self).dest_path_spec() == old(self).dest_path_spec(),
            final(self).dest_owner_spec() == old(self).dest_owner_spec(),
    {
        self.metadata = metadata;
    }

    /// Writes all of `buf` at the cursor, overwriting what it covers and
    /// growing the buffer as needed (a gap beyond the old end is zero-filled),
    /// then advances the cursor past the written bytes. The one failure is a
    /// write whose end would not fit in the address space; it changes nothing.
    pub fn write(&mut self, buf: &[u8]) -> (r: GfsResult<usize>)
        ensures
            final(self).metadata_spec() == old(self).metadata_spec(),
            final(self).dest_path_spec() == old(self).dest_path_spec(),
            final(self).dest_owner_spec() == old(self).dest_owner_spec(),
            match r {
                Ok(n) => old(self).pos_spec() + buf@.len() <= usize::MAX && n == buf@.len()
                    && final(self).buffer_spec() == write_at(
                    old(self).buffer_spec(),
                    old(self).pos_spec(),
                    buf@,
                ) && final(self).pos_spec() == old(self).pos_spec() + buf@.len(),
                Err(e) => old(self).pos_spec() + buf@.len() > usize::MAX && e is Other
                    && final(self).buffer_spec() == old(self).buffer_spec()
                    && final(self).pos_spec() == old(self).pos_spec(),
            },
    {
        let n = buf.len();
        if n > usize::MAX - self.position {
            return Err(GfsError::Other(String::from_str("write would overflow the buffer")));
        }
        let ghost target = write_at(self.buffer@, self.position as int, buf@);
        let blen = self.buffer.len();
        let total = if blen >= self.position + n {
            blen
        } else {
            self.position + n
        };
        let mut out: Vec<u8> = Vec::new();
        let mut i: usize = 0;
        while i < total
            invariant
                i <= total,
                total == target.len(),
                n == buf@.len(),
                blen == self.buffer@.len(),
                self.position + n <= usize::MAX,
                target == write_at(self.buffer@, self.position as int, buf@),
                out@.len() == i,
                forall|j: int| 0 <= j < i ==> out@[j] == target[j],
            decreases total - i,
        {
            let b: u8 = if i >= self.position && i - self.position < n {
                *slice_index_get(buf, i - self.position)
            } else if i < blen {
                self.buffer[i]
            } else {
                0u8
            };
            out.push(b);
            i += 1;
        }
        proof {
            assert(out@ =~= target);
        }
        self.buffer = out;
        self.position = self.position + n;
        Ok(n)
    }

    /// Reads up to `amount` bytes at the cursor out of the buffered content
    /// and advances the cursor by the count copied, never past the end.
    pub fn read(&mut self, amount: usize) -> (r: Vec<u8>)
        ensures
            r@ == read_window(old(self).buffer_spec(), old(self).pos_spec(), amount as int),
            final(self).pos_spec() == old(self).pos_spec() + r@.len(),
            final(self).buffer_spec() == old(self).buffer_spec(),
            final(self).metadata_spec() == old(self).metadata_spec(),
            final(self).dest_path_spec() == old(self).dest_path_spec(),
            final(self).dest_owner_spec() == old(self).dest_owner_spec(),
    {
        let out = read_slice(&self.buffer, self.position, amount);
        let n = out.len();
        self.position = self.position + n;
        out
    }

    /// Moves the cursor, as a read handle's seek does.
    pub fn seek(&mut self, origin: GfsSeekFrom) -> (r: GfsResult<u64>)
        ensures
            final(self).buffer_spec() == old(self).buffer_spec(),
            final(self).metadata_spec() == old(self).metadata_spec(),
            final(self).dest_path_spec() == old(self).dest_path_spec(),
            final(self).dest_owner_spec() == old(self).dest_owner_spec(),
            ({
                let t = seek_target(
                    origin,
                    old(self).pos_spec(),
                    old(self).buffer_spec().len() as int,
                );
                match r {
                    Ok(p) => 0 <= t <= usize::MAX && final(self).pos_spec() == t && p == t,
                    Err(e) => !(0 <= t <= usize::MAX) && e is Other && final(self).pos_spec()
                        == old(self).pos_spec(),
                }
            }),
    {
        let len = self.buffer.len();
        match resolve_seek(self.position, len, origin) {
            Ok(p) => {
                self.position = p;
                Ok(p as u64)
            },
            Err(e) => Err(e),
        }
    }

    /// Buffered writes have no backing device to push to; always succeeds and
    /// changes nothing.
    pub fn flush(&self) -> (r: GfsResult<()>)
        ensures
            r == Ok::<(), GfsError>(()),
    {
        Ok(())
    }

    /// Persists the buffered content and current metadata to the entry store
    /// at the destination path, exactly once, consuming the handle. This is
    /// the only way a write handle reaches the store.
    pub fn commit<F: GFS<M>>(self, fs: &mut F) -> (r: GfsResult<OwnedGfsPath>)
        ensures
            final(fs).root_view() == old(fs).root_view(),
            final(fs).id_view() == old(fs).id_view(),
            self.dest_owner_spec() == old(fs).id_view() ==> final(fs).store_view() == old(fs).store_view().insert(
                self.dest_path_spec(),
                (self.metadata_spec(), self.buffer_spec()),
            ) && (r matches Ok(p) && p.path_view() == self.dest_path_spec() && p.owner_id() == old(fs).id_view()),
            self.dest_owner_spec() != old(fs).id_view() ==> *final(fs) == *old(fs) && (r matches Err(
                e,
            ) && e is Other),
    {
        let WritableFile { metadata, buffer, position, destination } = self;
        destination.fs_new(fs, metadata, buffer)
    }
}

} // verus!
