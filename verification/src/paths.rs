//! File paths compared the way `Path` compares them: by their components,
//! so that `m//x.nam`, `m/./x.nam` and `m/x.nam/` name the same file as
//! `m/x.nam`.  Paths are held as the bytes of their encoding.  With Windows
//! paths both `/` and `\` separate components and a drive prefix such as
//! `C:` is compared by its letter, whatever its case; paths that begin with
//! two separators (the UNC, verbatim and device prefixes of Windows) are
//! compared byte for byte.

use vstd::prelude::*;

verus! {

/// A byte that separates components: `/`, and with Windows paths also `\`.
pub open spec fn is_separator(b: u8, windows: bool) -> bool {
    b == 47u8 || (windows && b == 92u8)
}

/// A Windows path that begins with two separators: a UNC, verbatim or
/// device path.
pub open spec fn has_double_prefix(p: Seq<u8>, windows: bool) -> bool {
    windows && p.len() >= 2 && is_separator(p[0], windows) && is_separator(p[1], windows)
}

/// An ASCII letter.
pub open spec fn is_ascii_letter(b: u8) -> bool {
    (65u8 <= b && b <= 90u8) || (97u8 <= b && b <= 122u8)
}

/// An ASCII letter in upper case.
pub open spec fn upper(b: u8) -> u8 {
    if 97u8 <= b && b <= 122u8 { (b - 32) as u8 } else { b }
}

/// The drive letter, in upper case, of a Windows path that begins with a
/// letter and `:`.
pub open spec fn drive_of(p: Seq<u8>, windows: bool) -> Option<u8> {
    if windows && p.len() >= 2 && is_ascii_letter(p[0]) && p[1] == 58u8 {
        Some(upper(p[0]))
    } else {
        None
    }
}

/// The path after its drive prefix, if it has one.
pub open spec fn path_body(p: Seq<u8>, windows: bool) -> Seq<u8> {
    if drive_of(p, windows) is Some { p.skip(2) } else { p }
}

/// The body starts at the root: its first byte is a separator.
pub open spec fn is_rooted(p: Seq<u8>, windows: bool) -> bool {
    p.len() > 0 && is_separator(p[0], windows)
}

/// The pieces of a path between its separators, in order, empty pieces
/// included (a path without separators is one piece).
pub open spec fn segments(p: Seq<u8>, windows: bool) -> Seq<Seq<u8>>
    decreases p.len(),
{
    if p.len() == 0 {
        seq![Seq::<u8>::empty()]
    } else {
        let s = segments(p.drop_last(), windows);
        if is_separator(p.last(), windows) {
            s.push(Seq::<u8>::empty())
        } else {
            s.update(s.len() - 1, s.last().push(p.last()))
        }
    }
}

/// The piece `.`.
pub open spec fn cur_dir() -> Seq<u8> {
    seq![46u8]
}

/// A piece that names something: not empty and not `.`.
pub open spec fn is_name(seg: Seq<u8>) -> bool {
    seg.len() > 0 && seg != cur_dir()
}

/// The pieces that name something, in order.
pub open spec fn names_of(segs: Seq<Seq<u8>>) -> Seq<Seq<u8>>
    decreases segs.len(),
{
    if segs.len() == 0 {
        seq![]
    } else {
        let prev = names_of(segs.drop_last());
        if is_name(segs.last()) {
            prev.push(segs.last())
        } else {
            prev
        }
    }
}

/// A relative body that begins with the piece `.` (which `Path` keeps as
/// a component).
pub open spec fn starts_at_cur_dir(p: Seq<u8>, windows: bool) -> bool {
    !is_rooted(p, windows) && segments(p, windows)[0] == cur_dir()
}

/// Two paths name the same file: paths with a double prefix are equal byte
/// for byte; other paths have the same drive, both bodies start at the root
/// or neither does, both begin with `.` or neither does, and their names
/// agree in order.
pub open spec fn same_path(a: Seq<u8>, b: Seq<u8>, windows: bool) -> bool {
    if has_double_prefix(a, windows) || has_double_prefix(b, windows) {
        a == b
    } else {
        let x = path_body(a, windows);
        let y = path_body(b, windows);
        &&& drive_of(a, windows) == drive_of(b, windows)
        &&& is_rooted(x, windows) == is_rooted(y, windows)
        &&& starts_at_cur_dir(x, windows) == starts_at_cur_dir(y, windows)
        &&& names_of(segments(x, windows)) == names_of(segments(y, windows))
    }
}

/// The byte strings the vectors hold.
pub open spec fn byte_strings(v: Seq<Vec<u8>>) -> Seq<Seq<u8>> {
    v.map_values(|x: Vec<u8>| x@)
}

/// The components of a path.
pub struct PathParts {
    /// A Windows path beginning with two separators.
    pub double_prefix: bool,
    /// The drive letter, in upper case.
    pub drive: Option<u8>,
    pub rooted: bool,
    pub cur_dir: bool,
    pub names: Vec<Vec<u8>>,
}

proof fn lemma_segments_nonempty(p: Seq<u8>, windows: bool)
    ensures
        segments(p, windows).len() >= 1,
    decreases p.len(),
{
    if p.len() > 0 {
        lemma_segments_nonempty(p.drop_last(), windows);
    }
}

fn separator(b: u8, windows: bool) -> (r: bool)
    ensures
        r == is_separator(b, windows),
{
    b == 47u8 || (windows && b == 92u8)
}

fn is_cur_dir(seg: &Vec<u8>) -> (r: bool)
    ensures
        r == (seg@ == cur_dir()),
{
    if seg.len() == 1 && seg[0] == 46u8 {
        assert(seg@ =~= cur_dir());
        true
    } else {
        false
    }
}

proof fn lemma_count_after_root(p: Seq<u8>, k: int, windows: bool)
    requires
        p.len() > 0,
        is_separator(p[0], windows),
        1 <= k <= p.len(),
    ensures
        segments(p.take(k), windows).len() >= 2,
    decreases k,
{
    lemma_segments_nonempty(p.take(k), windows);
    if k == 1 {
        assert(p.take(1).drop_last() =~= Seq::<u8>::empty());
        assert(p.take(1).last() == p[0]);
        assert(segments(Seq::<u8>::empty(), windows).len() == 1);
        assert(segments(p.take(1), windows) == segments(p.take(1).drop_last(), windows).push(Seq::<u8>::empty()));
    } else {
        assert(p.take(k).drop_last() =~= p.take(k - 1));
        lemma_count_after_root(p, k - 1, windows);
        lemma_segments_nonempty(p.take(k - 1), windows);
        assert(segments(p.take(k), windows).len() >= segments(p.take(k - 1), windows).len());
    }
}

/// Splits a path body (a path without drive prefix) into root, leading
/// `.` and names.
fn split_body(p: &Vec<u8>, windows: bool) -> (r: (bool, bool, Vec<Vec<u8>>))
    ensures
        r.0 == is_rooted(p@, windows),
        r.1 == starts_at_cur_dir(p@, windows),
        byte_strings(r.2@) == names_of(segments(p@, windows)),
{
    let n: usize = p.len();
    let mut kept: Vec<Vec<u8>> = Vec::new();
    let mut cur: Vec<u8> = Vec::new();
    let mut count: usize = 0;
    let mut first_dot: bool = false;
    let mut i: usize = 0;
    assert(p@.take(0) =~= Seq::<u8>::empty());
    assert(byte_strings(kept@) =~= Seq::<Seq<u8>>::empty());
    while i < n
        invariant
            n == p@.len(),
            i <= n,
            count <= i,
            segments(p@.take(i as int), windows).len() == count + 1,
            cur@ == segments(p@.take(i as int), windows).last(),
            byte_strings(kept@) == names_of(segments(p@.take(i as int), windows).drop_last()),
            count > 0 ==> first_dot == (segments(p@.take(i as int), windows)[0] == cur_dir()),
        decreases n - i,
    {
        let b: u8 = p[i];
        let ghost segs = segments(p@.take(i as int), windows);
        proof {
            assert(p@.take(i + 1).drop_last() =~= p@.take(i as int));
            assert(p@.take(i + 1).last() == b);
        }
        if separator(b, windows) {
            let done: Vec<u8> = cur;
            cur = Vec::new();
            let named: bool = done.len() > 0 && !is_cur_dir(&done);
            if count == 0 {
                first_dot = is_cur_dir(&done);
            }
            proof {
                let s2 = segments(p@.take(i + 1), windows);
                assert(s2 == segs.push(Seq::<u8>::empty()));
                assert(s2.drop_last() =~= segs);
                assert(segs.drop_last().push(segs.last()) =~= segs);
            }
            if named {
                kept.push(done);
                proof {
                    assert(byte_strings(kept@) =~= names_of(segments(p@.take(i as int), windows).drop_last()).push(done@));
                }
            }
            count = count + 1;
        } else {
            cur.push(b);
            proof {
                let s2 = segments(p@.take(i + 1), windows);
                assert(s2 == segs.update(segs.len() - 1, segs.last().push(b)));
                assert(s2.drop_last() =~= segs.drop_last());
            }
        }
        i = i + 1;
    }
    proof {
        assert(p@.take(n as int) =~= p@);
        let segs = segments(p@, windows);
        assert(segs.drop_last().push(segs.last()) =~= segs);
    }
    let last_dot: bool = is_cur_dir(&cur);
    if cur.len() > 0 && !last_dot {
        kept.push(cur);
    }
    let rooted: bool = n > 0 && separator(p[0], windows);
    if rooted {
        proof {
            lemma_count_after_root(p@, n as int, windows);
        }
    }
    let starts_dot: bool = !rooted && (if count == 0 { last_dot } else { first_dot });
    (rooted, starts_dot, kept)
}

/// Splits a path into its components.
pub fn path_parts(p: &Vec<u8>, windows: bool) -> (r: PathParts)
    ensures
        r.double_prefix == has_double_prefix(p@, windows),
        r.drive == drive_of(p@, windows),
        r.rooted == is_rooted(path_body(p@, windows), windows),
        r.cur_dir == starts_at_cur_dir(path_body(p@, windows), windows),
        byte_strings(r.names@) == names_of(segments(path_body(p@, windows), windows)),
{
    let n: usize = p.len();
    let double_prefix: bool = windows && n >= 2 && separator(p[0], windows) && separator(p[1], windows);
    let drive: Option<u8> = if windows && n >= 2 && p[1] == 58u8
        && ((65u8 <= p[0] && p[0] <= 90u8) || (97u8 <= p[0] && p[0] <= 122u8)) {
        if 97u8 <= p[0] { Some(p[0] - 32) } else { Some(p[0]) }
    } else {
        None
    };
    let start: usize = if drive.is_some() { 2 } else { 0 };
    let mut body: Vec<u8> = Vec::new();
    let mut k: usize = start;
    while k < n
        invariant
            n == p@.len(),
            start <= k <= n,
            body@ == p@.subrange(start as int, k as int),
        decreases n - k,
    {
        body.push(p[k]);
        assert(p@.subrange(start as int, k + 1) =~= p@.subrange(start as int, k as int).push(p@[k as int]));
        k = k + 1;
    }
    assert(body@ =~= path_body(p@, windows));
    let (rooted, cur_dir, names) = split_body(&body, windows);
    PathParts { double_prefix, drive, rooted, cur_dir, names }
}

fn bytes_equal(a: &Vec<u8>, b: &Vec<u8>) -> (r: bool)
    ensures
        r == (a@ == b@),
{
    if a.len() != b.len() {
        return false;
    }
    let mut i: usize = 0;
    while i < a.len()
        invariant
            a@.len() == b@.len(),
            i <= a@.len(),
            forall|k: int| 0 <= k < i ==> a@[k] == b@[k],
        decreases a@.len() - i,
    {
        if a[i] != b[i] {
            return false;
        }
        i = i + 1;
    }
    assert(a@ =~= b@);
    true
}

/// Whether two paths name the same file (see `same_path`).
pub fn paths_equal(a: &Vec<u8>, b: &Vec<u8>, windows: bool) -> (r: bool)
    ensures
        r == same_path(a@, b@, windows),
{
    let x: PathParts = path_parts(a, windows);
    let y: PathParts = path_parts(b, windows);
    if x.double_prefix || y.double_prefix {
        return bytes_equal(a, b);
    }
    assert(byte_strings(x.names@).len() == x.names@.len());
    assert(byte_strings(y.names@).len() == y.names@.len());
    if x.drive != y.drive || x.rooted != y.rooted || x.cur_dir != y.cur_dir || x.names.len() != y.names.len() {
        return false;
    }
    let n: usize = x.names.len();
    let mut i: usize = 0;
    while i < n
        invariant
            n == x.names@.len(),
            n == y.names@.len(),
            i <= n,
            byte_strings(x.names@) == names_of(segments(path_body(a@, windows), windows)),
            byte_strings(y.names@) == names_of(segments(path_body(b@, windows), windows)),
            forall|k: int| 0 <= k < i ==> x.names@[k]@ == y.names@[k]@,
        decreases n - i,
    {
        if !bytes_equal(&x.names[i], &y.names[i]) {
            assert(byte_strings(x.names@)[i as int] == x.names@[i as int]@);
            assert(byte_strings(y.names@)[i as int] == y.names@[i as int]@);
            assert(byte_strings(x.names@)[i as int] != byte_strings(y.names@)[i as int]);
            return false;
        }
        i = i + 1;
    }
    assert(byte_strings(x.names@) =~= byte_strings(y.names@));
    true
}

} // verus!
