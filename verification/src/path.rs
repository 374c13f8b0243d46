//! The path model: immutable separator-delimited path values, path values
//! bound to a filesystem instance, and the algebra on them (join,
//! directory-normalize, prefix/child test, separator normalization).
use vstd::prelude::*;
use vstd::string::StrSliceExecFns;
use vstd::string::StringExecFns;

verus! {

/// The canonical path separator.
pub const GFS_SEPARATOR: char = '/';

/// The alternative separator accepted on input and normalized away.
pub const ALT_SEPARATOR: char = '\\';

/// The designated root path of a freshly constructed filesystem.
pub const GFS_ROOT: &'static str = "";

/// Whether `c` is one of the two accepted separators.
pub open spec fn is_sep(c: char) -> bool {
    c == GFS_SEPARATOR || c == ALT_SEPARATOR
}

/// `s` with every leading separator removed.
pub open spec fn strip_seps(s: Seq<char>) -> Seq<char>
    decreases s.len(),
{
    if s.len() > 0 && is_sep(s[0]) {
        strip_seps(s.skip(1))
    } else {
        s
    }
}

/// The string form of `base.join(rel)`: the base, exactly one canonical
/// separator, then `rel` with its leading separators stripped. A base that
/// already ends in the separator gets no second one.
pub open spec fn join_seqs(base: Seq<char>, rel: Seq<char>) -> Seq<char> {
    if base.len() > 0 && base.last() == GFS_SEPARATOR {
        base + strip_seps(rel)
    } else {
        base + seq![GFS_SEPARATOR] + strip_seps(rel)
    }
}

/// The directory form of a path: unchanged when it already ends in the
/// canonical separator, otherwise with one separator appended.
pub open spec fn dir_seq(s: Seq<char>) -> Seq<char> {
    if s.len() > 0 && s.last() == GFS_SEPARATOR {
        s
    } else {
        s.push(GFS_SEPARATOR)
    }
}

/// `s` with every alternative separator replaced by the canonical one.
pub open spec fn norm_seq(s: Seq<char>) -> Seq<char> {
    s.map(|i: int, c: char| if c == ALT_SEPARATOR {
        GFS_SEPARATOR
    } else {
        c
    })
}

/// Whether the canonical separator occurs anywhere in `s`.
pub open spec fn contains_sep(s: Seq<char>) -> bool {
    exists|i: int| 0 <= i < s.len() && s[i] == GFS_SEPARATOR
}

/// Whether `c` is an accepted separator (run-time form of `is_sep`).
fn is_sep_char(c: char) -> (r: bool)
    ensures
        r == is_sep(c),
{
    c == GFS_SEPARATOR || c == ALT_SEPARATOR
}

/// An immutable path value over the separator-delimited namespace.
#[derive(Debug, Hash)]
pub struct GfsPath {
    path: String,
}

impl View for GfsPath {
    type V = Seq<char>;

    closed spec fn view(&self) -> Seq<char> {
        self.path@
    }
}

/// The operations every path value supports, whether detached or bound to a
/// filesystem.
pub trait PathLike: Sized {
    /// The character sequence this path value stands for.
    spec fn path_view(&self) -> Seq<char>;

    /// The path's string form, borrowed.
    fn as_str(&self) -> (r: &str)
        ensures
            r@ == self.path_view(),
    ;

    /// The path's string form, owned.
    fn to_string(&self) -> (r: String)
        ensures
            r@ == self.path_view(),
    ;

    /// Whether `path` starts with `self`'s string form.
    fn is_child(&self, path: &Self) -> (r: bool)
        ensures
            r == self.path_view().is_prefix_of(path.path_view()),
    ;

    /// The directory form of this path; idempotent.
    fn to_directory_path(self) -> (r: Self)
        ensures
            r.path_view() == dir_seq(self.path_view()),
    ;

    /// This path, exactly one canonical separator, then `path` with its
    /// leading separators stripped.
    fn join(&self, path: &GfsPath) -> (r: Self)
        ensures
            r.path_view() == join_seqs(self.path_view(), path@),
    ;

    /// The underlying plain path, borrowed.
    fn as_path(&self) -> (r: &GfsPath)
        ensures
            r@ == self.path_view(),
    ;

    /// The underlying plain path, owned.
    fn to_path(self) -> (r: GfsPath)
        ensures
            r@ == self.path_view(),
    ;
}

impl GfsPath {
    /// Wraps a string as a path value, unchanged.
    pub fn new(path: &str) -> (r: GfsPath)
        ensures
            r@ == path@,
    {
        GfsPath { path: String::from_str(path) }
    }

    /// This path with every alternative separator replaced by the canonical
    /// one.
    pub fn normalize(&self) -> (r: GfsPath)
        ensures
            r@ == norm_seq(self@),
    {
        let s = self.path.as_str();
        let n = s.unicode_len();
        let mut out = String::new();
        let mut i: usize = 0;
        while i < n
            invariant
                i <= n,
                n == s@.len(),
                s@ == self@,
                out@ == norm_seq(s@.subrange(0, i as int)),
            decreases n - i,
        {
            let c = s.get_char(i);
            if c == ALT_SEPARATOR {
                out.append("/");
                proof {
                    reveal_strlit("/");
                    assert(norm_seq(s@.subrange(0, i + 1 as int)) =~= norm_seq(
                        s@.subrange(0, i as int),
                    ).push(GFS_SEPARATOR));
                }
            } else {
                let piece = s.substring_char(i, i + 1);
                out.append(piece);
                proof {
                    assert(piece@ =~= seq![s@[i as int]]);
                    assert(norm_seq(s@.subrange(0, i + 1 as int)) =~= norm_seq(
                        s@.subrange(0, i as int),
                    ).push(s@[i as int]));
                }
            }
            i += 1;
        }
        proof {
            assert(s@.subrange(0, n as int) =~= s@);
        }
        GfsPath { path: out }
    }
}

impl Clone for GfsPath {
    /// An equal, independent path value.
    fn clone(&self) -> (r: Self)
        ensures
            r == *self,
    {
        GfsPath { path: self.path.clone() }
    }
}

impl PartialEq for GfsPath {
    fn eq(&self, other: &Self) -> (r: bool) {
        self.path == other.path
    }
}

impl Eq for GfsPath {

}

impl vstd::std_specs::cmp::PartialEqSpecImpl for GfsPath {
    open spec fn obeys_eq_spec() -> bool {
        true
    }

    open spec fn eq_spec(&self, other: &GfsPath) -> bool {
        self@ == other@
    }
}

impl PathLike for GfsPath {
    open spec fn path_view(&self) -> Seq<char> {
        self@
    }

    fn as_str(&self) -> (r: &str) {
        let s = self.path.as_str();
        proof {
            assert(s@ == self.path_view());
        }
        s
    }

    fn to_string(&self) -> (r: String) {
        self.path.clone()
    }

    fn is_child(&self, path: &Self) -> (r: bool) {
        let pre = self.path.as_str();
        let s = path.path.as_str();
        let plen = pre.unicode_len();
        let slen = s.unicode_len();
        if plen > slen {
            return false;
        }
        let mut i: usize = 0;
        while i < plen
            invariant
                i <= plen,
                plen <= slen,
                pre@ == self@,
                s@ == path@,
                plen == pre@.len(),
                slen == s@.len(),
                forall|j: int| 0 <= j < i ==> pre@[j] == s@[j],
            decreases plen - i,
        {
            if pre.get_char(i) != s.get_char(i) {
                proof {
                    assert(self@[i as int] != path@.subrange(0, plen as int)[i as int]);
                }
                return false;
            }
            i += 1;
        }
        proof {
            assert(self@ =~= path@.subrange(0, plen as int));
        }
        true
    }

    fn to_directory_path(self) -> (r: Self) {
        let n = self.path.as_str().unicode_len();
        if n > 0 {
            let c = self.path.as_str().get_char(n - 1);
            if c == GFS_SEPARATOR {
                return self;
            }
        }
        let out = self.path.concat("/");
        proof {
            reveal_strlit("/");
            assert(out@ =~= self@.push(GFS_SEPARATOR));
        }
        GfsPath { path: out }
    }

    fn join(&self, path: &GfsPath) -> (r: Self) {
        let rel = path.path.as_str();
        let n = rel.unicode_len();
        let mut i: usize = 0;
        loop
            invariant
                i <= n,
                n == rel@.len(),
                rel@ == path@,
                forall|j: int| 0 <= j < i ==> is_sep(rel@[j]),
            ensures
                i <= n,
                i == n || !is_sep(rel@[i as int]),
                forall|j: int| 0 <= j < i ==> is_sep(rel@[j]),
            decreases n - i,
        {
            if i == n {
                break ;
            }
            if !is_sep_char(rel.get_char(i)) {
                break ;
            }
            i += 1;
        }
        proof {
            lemma_strip_seps_skip(rel@, i as int);
        }
        let tail = rel.substring_char(i, n);
        let blen = self.path.as_str().unicode_len();
        let mut ends_in_sep = false;
        if blen > 0 {
            ends_in_sep = self.path.as_str().get_char(blen - 1) == GFS_SEPARATOR;
        }
        let out = if ends_in_sep {
            self.path.clone().concat(tail)
        } else {
            self.path.clone().concat("/").concat(tail)
        };
        proof {
            reveal_strlit("/");
            assert(out@ =~= join_seqs(self@, path@));
        }
        GfsPath { path: out }
    }

    fn as_path(&self) -> (r: &GfsPath) {
        self
    }

    fn to_path(self) -> (r: GfsPath) {
        self
    }
}

/// When the first `i` characters of `s` are separators and the character at
/// `i` (if any) is not, stripping leading separators drops exactly those `i`.
proof fn lemma_strip_seps_skip(s: Seq<char>, i: int)
    requires
        0 <= i <= s.len(),
        forall|j: int| 0 <= j < i ==> is_sep(s[j]),
        i == s.len() || !is_sep(s[i]),
    ensures
        strip_seps(s) == s.skip(i),
    decreases i,
{
    if i == 0 {
        assert(s.skip(0) =~= s);
    } else {
        lemma_strip_seps_skip(s.skip(1), i - 1);
        assert(s.skip(1).skip(i - 1) =~= s.skip(i));
    }
}

/// Joining the empty relative path, then taking the directory form, yields
/// exactly the base's own directory form: one canonical separator is
/// appended when the base does not already end in one, and none otherwise.
pub proof fn lemma_join_empty_then_directory(p: Seq<char>)
    ensures
        join_seqs(p, Seq::<char>::empty()) == dir_seq(p),
        dir_seq(join_seqs(p, Seq::<char>::empty())) == dir_seq(p),
{
    assert(strip_seps(Seq::<char>::empty()) =~= Seq::<char>::empty());
    if p.len() > 0 && p.last() == GFS_SEPARATOR {
        assert(join_seqs(p, Seq::<char>::empty()) =~= p);
    } else {
        assert(join_seqs(p, Seq::<char>::empty()) =~= p.push(GFS_SEPARATOR));
    }
}

/// `to_directory_path(join(p, ""))` ends in exactly one trailing separator —
/// its last character is the separator and the character before it (if any)
/// is not — whether or not `p` already ends in one, as long as `p` does not
/// already end in two separators. It is `p` itself when `p` ends in the
/// separator, and `p` followed by one separator otherwise.
pub proof fn lemma_join_empty_single_trailing_sep(p: Seq<char>)
    requires
        p.len() < 2 || p[p.len() - 2] != GFS_SEPARATOR || p.last() != GFS_SEPARATOR,
    ensures
        ({
            let d = dir_seq(join_seqs(p, Seq::<char>::empty()));
            &&& d.len() >= 1
            &&& d.last() == GFS_SEPARATOR
            &&& (d.len() >= 2 ==> d[d.len() - 2] != GFS_SEPARATOR)
            &&& (p.len() > 0 && p.last() == GFS_SEPARATOR ==> d == p)
            &&& (p.len() == 0 || p.last() != GFS_SEPARATOR ==> d == p.push(GFS_SEPARATOR))
        }),
{
    lemma_join_empty_then_directory(p);
}

/// A path value bound to the filesystem that produced it: the plain path plus
/// the identifier of its owning filesystem, resolved by lookup at call time.
pub struct OwnedGfsPath {
    path: GfsPath,
    fs_id: u64,
}

impl OwnedGfsPath {
    /// The identifier of the filesystem this path is bound to.
    pub closed spec fn owner_id(&self) -> u64 {
        self.fs_id
    }

    /// Binds a path value to the filesystem identified by `owner`.
    pub fn create<P: PathLike>(path: P, owner: u64) -> (r: Self)
        ensures
            r.path_view() == path.path_view(),
            r.owner_id() == owner,
    {
        OwnedGfsPath { path: path.to_path(), fs_id: owner }
    }

    /// The identifier of the owning filesystem.
    pub fn filesystem(&self) -> (r: u64)
        ensures
            r == self.owner_id(),
    {
        self.fs_id
    }
}

impl Clone for OwnedGfsPath {
    /// An equal, independent bound path: same string form, same owner.
    fn clone(&self) -> (r: Self)
        ensures
            r == *self,
    {
        OwnedGfsPath { path: self.path.clone(), fs_id: self.fs_id }
    }
}

impl PathLike for OwnedGfsPath {
    closed spec fn path_view(&self) -> Seq<char> {
        self.path@
    }

    fn as_str(&self) -> (r: &str) {
        self.path.as_str()
    }

    fn to_string(&self) -> (r: String) {
        self.path.to_string()
    }

    fn is_child(&self, path: &Self) -> (r: bool) {
        self.path.is_child(&path.path)
    }

    fn to_directory_path(self) -> (r: Self)
        ensures
            r.owner_id() == self.owner_id(),
    {
        OwnedGfsPath { path: self.path.to_directory_path(), fs_id: self.fs_id }
    }

    fn join(&self, path: &GfsPath) -> (r: Self)
        ensures
            r.owner_id() == self.owner_id(),
    {
        OwnedGfsPath { path: self.path.join(path), fs_id: self.fs_id }
    }

    fn as_path(&self) -> (r: &GfsPath) {
        &self.path
    }

    fn to_path(self) -> (r: GfsPath) {
        self.path
    }
}

} // verus!
