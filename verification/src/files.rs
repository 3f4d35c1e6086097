//! Choosing the default model or impulse-response file of a folder: among
//! the folder's file names with the wanted extension (compared ignoring
//! ASCII case), the first in name order.  The host lists the folder.

use vstd::prelude::*;
use vstd::string::*;
use crate::text::text_eq;
use vstd::relations::{sorted_by, total_ordering};

verus! {

/// Index of the last `.` in `name`, if there is one.
pub open spec fn last_dot(name: Seq<char>) -> Option<int>
    decreases name.len(),
{
    if name.len() == 0 {
        None
    } else if name.last() == '.' {
        Some(name.len() - 1)
    } else {
        last_dot(name.drop_last())
    }
}

/// The extension of a file name, as `Path::extension` gives it: the text
/// after the last `.`; none when there is no `.`, when the only `.` opens
/// the name, and for the name `..`.
pub open spec fn file_extension(name: Seq<char>) -> Option<Seq<char>> {
    if name == ".."@ {
        None
    } else {
        match last_dot(name) {
            Some(k) => if k == 0 { None } else { Some(name.skip(k + 1)) },
            None => None,
        }
    }
}

/// A character's code with ASCII capitals folded to small letters.
pub open spec fn ascii_folded(c: char) -> u32 {
    let v = c as int;
    if 65 <= v <= 90 { (v + 32) as u32 } else { v as u32 }
}

/// The two texts are equal ignoring ASCII case (as `eq_ignore_ascii_case`).
pub open spec fn same_ignoring_ascii_case(a: Seq<char>, b: Seq<char>) -> bool {
    &&& a.len() == b.len()
    &&& forall|i: int| 0 <= i < a.len() ==> #[trigger] ascii_folded(a[i]) == ascii_folded(b[i])
}

/// The file name has extension `ext`, ignoring ASCII case.
pub open spec fn has_extension(name: Seq<char>, ext: Seq<char>) -> bool {
    match file_extension(name) {
        Some(e) => same_ignoring_ascii_case(e, ext),
        None => false,
    }
}

/// `a` comes strictly before `b` in name order: character by character by
/// code point, a proper prefix first (the order of UTF-8 bytes).
pub open spec fn name_before(a: Seq<char>, b: Seq<char>) -> bool
    decreases a.len(),
{
    if b.len() == 0 {
        false
    } else if a.len() == 0 {
        true
    } else if a[0] != b[0] {
        (a[0] as int) < (b[0] as int)
    } else {
        name_before(a.drop_first(), b.drop_first())
    }
}

/// `i` is the file a folder listing `names` opens with for extension
/// `ext`: its name has the extension, no other such name comes before it,
/// and no earlier such name is equal to it.
pub open spec fn is_top_file(names: Seq<String>, ext: Seq<char>, i: int) -> bool {
    &&& 0 <= i < names.len()
    &&& has_extension(names[i]@, ext)
    &&& forall|j: int| 0 <= j < i && #[trigger] has_extension(names[j]@, ext)
        ==> name_before(names[i]@, names[j]@)
    &&& forall|j: int| i < j < names.len() && #[trigger] has_extension(names[j]@, ext)
        ==> !name_before(names[j]@, names[i]@)
}

proof fn lemma_last_dot(name: Seq<char>)
    ensures
        match last_dot(name) {
            Some(k) => 0 <= k < name.len() && name[k] == '.'
                && forall|j: int| k < j < name.len() ==> #[trigger] name[j] != '.',
            None => forall|j: int| 0 <= j < name.len() ==> #[trigger] name[j] != '.',
        },
    decreases name.len(),
{
    if name.len() > 0 {
        lemma_last_dot(name.drop_last());
        assert(forall|j: int| 0 <= j < name.len() - 1 ==> name.drop_last()[j] == #[trigger] name[j]);
    }
}

proof fn lemma_name_before_step(a: Seq<char>, b: Seq<char>, i: int)
    requires
        0 <= i < a.len(),
        i < b.len(),
        a[i] == b[i],
    ensures
        name_before(a.skip(i), b.skip(i)) == name_before(a.skip(i + 1), b.skip(i + 1)),
{
    assert(a.skip(i).drop_first() =~= a.skip(i + 1));
    assert(b.skip(i).drop_first() =~= b.skip(i + 1));
}

proof fn lemma_name_before_asymmetric(a: Seq<char>, b: Seq<char>)
    ensures
        name_before(a, b) ==> !name_before(b, a),
        !name_before(a, b) && !name_before(b, a) ==> a == b,
    decreases a.len(),
{
    if a.len() > 0 && b.len() > 0 && a[0] == b[0] {
        lemma_name_before_asymmetric(a.drop_first(), b.drop_first());
        if a.drop_first() == b.drop_first() {
            assert forall|k: int| 0 <= k < a.len() implies a[k] == b[k] by {
                if k > 0 {
                    assert(a[k] == a.drop_first()[k - 1]);
                    assert(b[k] == b.drop_first()[k - 1]);
                }
            }
            assert(a =~= b);
        }
    } else if a.len() > 0 && b.len() > 0 {
    } else if a.len() == 0 && b.len() == 0 {
        assert(a =~= b);
    }
}

proof fn lemma_name_before_transitive(a: Seq<char>, b: Seq<char>, c: Seq<char>)
    requires
        name_before(a, b),
        name_before(b, c),
    ensures
        name_before(a, c),
    decreases a.len(),
{
    if a.len() > 0 && b.len() > 0 && c.len() > 0 && a[0] == b[0] && b[0] == c[0] {
        lemma_name_before_transitive(a.drop_first(), b.drop_first(), c.drop_first());
    }
}

/// Whether `a` comes strictly before `b` in name order.
pub fn comes_before(a: &str, b: &str) -> (r: bool)
    ensures
        r == name_before(a@, b@),
{
    let n: usize = a.unicode_len();
    let m: usize = b.unicode_len();
    let mut i: usize = 0;
    assert(a@.skip(0) =~= a@);
    assert(b@.skip(0) =~= b@);
    while i < n && i < m
        invariant
            n == a@.len(),
            m == b@.len(),
            i <= n,
            i <= m,
            name_before(a@, b@) == name_before(a@.skip(i as int), b@.skip(i as int)),
        decreases n - i,
    {
        let c: char = a.get_char(i);
        let d: char = b.get_char(i);
        if c != d {
            assert(a@.skip(i as int)[0] == c);
            assert(b@.skip(i as int)[0] == d);
            return (c as u32) < (d as u32);
        }
        proof { lemma_name_before_step(a@, b@, i as int); }
        i = i + 1;
    }
    i < m
}

fn folded(c: char) -> (r: u32)
    ensures
        r == ascii_folded(c),
{
    let v: u32 = c as u32;
    if 65 <= v && v <= 90 { v + 32 } else { v }
}

/// Whether the file name `name` has extension `ext`, ignoring ASCII case.
pub fn extension_matches(name: &str, ext: &str) -> (r: bool)
    ensures
        r == has_extension(name@, ext@),
{
    if text_eq(name, "..") {
        return false;
    }
    let n: usize = name.unicode_len();
    proof { lemma_last_dot(name@); }
    let mut i: usize = n;
    let mut dot: Option<usize> = None;
    while i > 0
        invariant
            n == name@.len(),
            i <= n,
            dot is None ==> forall|j: int| i <= j < n ==> #[trigger] name@[j] != '.',
            dot is Some ==> last_dot(name@) == Some(dot->0 as int),
            dot is Some ==> i == 0,
        decreases i,
    {
        if name.get_char(i - 1) == '.' {
            proof {
                lemma_last_dot(name@);
                let r = last_dot(name@);
                if r is Some {
                    let k = r->0;
                    if k < i - 1 {
                        assert(name@[i - 1] != '.');
                    } else if k > i - 1 {
                        assert(name@[k] != '.');
                    }
                } else {
                    assert(name@[i - 1] != '.');
                }
            }
            dot = Some(i - 1);
            i = 0;
        } else {
            i = i - 1;
        }
    }
    match dot {
        None => {
            proof {
                if last_dot(name@) is Some {
                    let k = last_dot(name@)->0;
                    assert(name@[k] != '.');
                }
            }
            false
        },
        Some(k) => {
            if k == 0 {
                return false;
            }
            let ghost e: Seq<char> = name@.skip(k + 1);
            let len: usize = n - (k + 1);
            assert(file_extension(name@) == Some(e));
            assert(e.len() == len);
            if len != ext.unicode_len() {
                return false;
            }
            let mut t: usize = 0;
            while t < len
                invariant
                    n == name@.len(),
                    k < n,
                    len == n - (k + 1),
                    len == ext@.len(),
                    e == name@.skip(k + 1),
                    file_extension(name@) == Some(e),
                    t <= len,
                    forall|q: int| 0 <= q < t ==> #[trigger] ascii_folded(e[q]) == ascii_folded(ext@[q]),
                decreases len - t,
            {
                let a: u32 = folded(name.get_char(k + 1 + t));
                let b: u32 = folded(ext.get_char(t));
                assert(e[t as int] == name@[k + 1 + t]);
                if a != b {
                    assert(ascii_folded(e[t as int]) != ascii_folded(ext@[t as int]));
                    return false;
                }
                t = t + 1;
            }
            true
        },
    }
}

/// The index of the file a folder opens with: among `names`, the first
/// of those with extension `ext` (ignoring ASCII case) that no other such
/// name comes before; `None` when no name has the extension.
pub fn top_file_index(names: &Vec<String>, ext: &str) -> (r: Option<usize>)
    ensures
        match r {
            Some(i) => is_top_file(names@, ext@, i as int),
            None => forall|j: int| 0 <= j < names@.len() ==> !#[trigger] has_extension(names@[j]@, ext@),
        },
{
    let mut best: Option<usize> = None;
    let mut i: usize = 0;
    while i < names.len()
        invariant
            i <= names@.len(),
            best is None ==> forall|j: int| 0 <= j < i ==> !#[trigger] has_extension(names@[j]@, ext@),
            best is Some ==> {
                let b = best->0 as int;
                &&& 0 <= b < i
                &&& has_extension(names@[b]@, ext@)
                &&& forall|j: int| 0 <= j < b && #[trigger] has_extension(names@[j]@, ext@)
                    ==> name_before(names@[b]@, names@[j]@)
                &&& forall|j: int| b < j < i && #[trigger] has_extension(names@[j]@, ext@)
                    ==> !name_before(names@[j]@, names@[b]@)
            },
        decreases names@.len() - i,
    {
        let name: &str = names[i].as_str();
        if extension_matches(name, ext) {
            match best {
                None => {
                    best = Some(i);
                },
                Some(b) => {
                    if comes_before(name, names[b].as_str()) {
                        proof {
                            let x = names@[i as int]@;
                            let y = names@[b as int]@;
                            assert forall|j: int| 0 <= j < i && #[trigger] has_extension(names@[j]@, ext@)
                                implies name_before(x, names@[j]@) by {
                                let z = names@[j]@;
                                if j < b {
                                    lemma_name_before_transitive(x, y, z);
                                } else if j > b {
                                    lemma_name_before_asymmetric(y, z);
                                    if y != z {
                                        lemma_name_before_transitive(x, y, z);
                                    }
                                }
                            }
                        }
                        best = Some(i);
                    }
                },
            }
        }
        i = i + 1;
    }
    best
}

/// `a` comes no later than `b` in name order.
pub open spec fn name_leq(a: Seq<char>, b: Seq<char>) -> bool {
    !name_before(b, a)
}

/// Name order as a relation.
pub open spec fn name_order() -> spec_fn(Seq<char>, Seq<char>) -> bool {
    |a: Seq<char>, b: Seq<char>| name_leq(a, b)
}

/// The file names of a listing, in listing order.
pub open spec fn name_texts(names: Seq<String>) -> Seq<Seq<char>> {
    names.map_values(|s: String| s@)
}

/// The names of a listing that have extension `ext`, in listing order.
pub open spec fn listed_names(names: Seq<String>, ext: Seq<char>) -> Seq<Seq<char>> {
    name_texts(names).filter(|n: Seq<char>| has_extension(n, ext))
}

/// The names with extension `ext`, sorted in name order: the files one
/// steps through in a folder.
pub open spec fn sorted_listing(names: Seq<String>, ext: Seq<char>) -> Seq<Seq<char>> {
    listed_names(names, ext).sort_by(name_order())
}

/// The names that `order` picks from the listing, in the order it gives.
pub open spec fn picked_names(names: Seq<String>, order: Seq<usize>) -> Seq<Seq<char>> {
    order.map_values(|k: usize| names[k as int]@)
}

proof fn lemma_name_order_total()
    ensures
        total_ordering(name_order()),
{
    let r = name_order();
    assert forall|a: Seq<char>| #[trigger] r(a, a) by {
        lemma_name_before_asymmetric(a, a);
    }
    assert forall|a: Seq<char>, b: Seq<char>| #[trigger] r(a, b) && #[trigger] r(b, a) implies a == b by {
        lemma_name_before_asymmetric(a, b);
    }
    assert forall|a: Seq<char>, b: Seq<char>, c: Seq<char>| #[trigger] r(a, b) && #[trigger] r(b, c) implies r(a, c) by {
        lemma_name_before_asymmetric(a, b);
        lemma_name_before_asymmetric(b, c);
        lemma_name_before_asymmetric(a, c);
        if a != b && b != c {
            lemma_name_before_transitive(a, b, c);
        }
    }
    assert forall|a: Seq<char>, b: Seq<char>| #[trigger] r(a, b) || #[trigger] r(b, a) by {
        lemma_name_before_asymmetric(a, b);
    }
}

proof fn lemma_listed_step(names: Seq<String>, ext: Seq<char>, i: int)
    requires
        0 <= i < names.len(),
    ensures
        listed_names(names.take(i + 1), ext) == if has_extension(names[i]@, ext) {
            listed_names(names.take(i), ext).push(names[i]@)
        } else {
            listed_names(names.take(i), ext)
        },
{
    reveal(Seq::filter);
    let t = name_texts(names.take(i + 1));
    let pred = |n: Seq<char>| has_extension(n, ext);
    assert(t.drop_last() =~= name_texts(names.take(i)));
    assert(t.last() == names[i]@);
    assert(t.len() > 0);
    assert(listed_names(names.take(i + 1), ext) == t.filter(pred));
    assert(listed_names(names.take(i), ext) == t.drop_last().filter(pred));
    assert(pred(t.last()) == has_extension(names[i]@, ext));
}

proof fn lemma_listed_contains(names: Seq<String>, ext: Seq<char>, y: Seq<char>)
    ensures
        listed_names(names, ext).contains(y)
            <==> exists|j: int| 0 <= j < names.len() && has_extension(#[trigger] names[j]@, ext) && names[j]@ == y,
    decreases names.len(),
{
    if names.len() > 0 {
        let n = names.len() - 1;
        lemma_listed_step(names, ext, n);
        assert(names.take(n + 1) =~= names);
        lemma_listed_contains(names.take(n), ext, y);
        let prev = listed_names(names.take(n), ext);
        if listed_names(names, ext).contains(y) {
            if !prev.contains(y) {
                let k = choose|k: int| 0 <= k < listed_names(names, ext).len() && listed_names(names, ext)[k] == y;
                assert(k == prev.len());
                assert(names[n]@ == y);
            } else {
                let j = choose|j: int| 0 <= j < names.take(n).len() && has_extension(#[trigger] names.take(n)[j]@, ext)
                    && names.take(n)[j]@ == y;
                assert(names[j] == names.take(n)[j]);
            }
        }
        if exists|j: int| 0 <= j < names.len() && has_extension(#[trigger] names[j]@, ext) && names[j]@ == y {
            let j = choose|j: int| 0 <= j < names.len() && has_extension(#[trigger] names[j]@, ext) && names[j]@ == y;
            if j < n {
                assert(names.take(n)[j] == names[j]);
                assert(prev.contains(y));
                let k = choose|k: int| 0 <= k < prev.len() && prev[k] == y;
                assert(listed_names(names, ext)[k] == y);
            } else {
                assert(listed_names(names, ext)[prev.len() as int] == y);
            }
        }
    } else {
        assert(listed_names(names, ext) =~= Seq::<Seq<char>>::empty());
    }
}

/// The folder's files with extension `ext` in name order, as indices into
/// `names`: the order in which the editor steps through them.
pub fn sorted_listing_order(names: &Vec<String>, ext: &str) -> (order: Vec<usize>)
    ensures
        picked_names(names@, order@) == sorted_listing(names@, ext@),
        forall|k: int| 0 <= k < order@.len() ==> #[trigger] order@[k] < names@.len(),
{
    let mut order: Vec<usize> = Vec::new();
    let n: usize = names.len();
    let mut i: usize = 0;
    proof { lemma_name_order_total(); }
    assert(listed_names(names@.take(0), ext@) =~= Seq::<Seq<char>>::empty());
    assert(picked_names(names@, order@) =~= Seq::<Seq<char>>::empty());
    while i < n
        invariant
            n == names@.len(),
            i <= n,
            forall|k: int| 0 <= k < order@.len() ==> #[trigger] order@[k] < i,
            total_ordering(name_order()),
            sorted_by(picked_names(names@, order@), name_order()),
            picked_names(names@, order@).to_multiset() == listed_names(names@.take(i as int), ext@).to_multiset(),
        decreases n - i,
    {
        let name: &str = names[i].as_str();
        proof { lemma_listed_step(names@, ext@, i as int); }
        if extension_matches(name, ext) {
            let ghost v = picked_names(names@, order@);
            let ghost x = names@[i as int]@;
            let mut p: usize = 0;
            while p < order.len() && !comes_before(name, names[order[p]].as_str())
                invariant
                    p <= order@.len(),
                    forall|k: int| 0 <= k < order@.len() ==> #[trigger] order@[k] < i,
                    i < n,
                    n == names@.len(),
                    v == picked_names(names@, order@),
                    x == names@[i as int]@,
                    name@ == x,
                    forall|q: int| 0 <= q < p ==> !name_before(x, #[trigger] v[q]),
                decreases order@.len() - p,
            {
                p = p + 1;
            }
            let ghost old_order = order@;
            order.insert(p, i);
            proof {
                let w = picked_names(names@, order@);
                assert(w =~= v.insert(p as int, x));
                assert forall|a: int, b: int| 0 <= a < b < w.len() implies #[trigger] name_order()(w[a], w[b]) by {
                    if a < p && b == p {
                        lemma_name_before_asymmetric(v[a], x);
                    } else if a == p && b > p {
                        let y = v[b - 1];
                        assert(p < v.len());
                        assert(name_before(x, v[p as int]));
                        if p < b - 1 {
                            assert(name_order()(v[p as int], y));
                            lemma_name_before_asymmetric(v[p as int], y);
                            if v[p as int] != y {
                                lemma_name_before_transitive(x, v[p as int], y);
                            }
                        }
                        lemma_name_before_asymmetric(x, y);
                    } else if a < p && b > p {
                        assert(name_order()(v[a], v[b - 1]));
                    } else if a > p {
                        assert(name_order()(v[a - 1], v[b - 1]));
                    } else {
                        assert(name_order()(v[a], v[b]));
                    }
                }
                assert(w.remove(p as int) =~= v);
                w.to_multiset_ensures();
                v.to_multiset_ensures();
                assert(w.to_multiset().count(x) > 0) by {
                    assert(w[p as int] == x);
                    assert(w.contains(x));
                }
                assert(w.to_multiset() =~= v.to_multiset().insert(x)) by {
                    broadcast use vstd::multiset::group_multiset_axioms;
                }
                vstd::seq_lib::to_multiset_build(listed_names(names@.take(i as int), ext@), x);
            }
        }
        i = i + 1;
    }
    proof {
        assert(names@.take(n as int) =~= names@);
        let l = listed_names(names@, ext@);
        l.lemma_sort_by_ensures(name_order());
        vstd::seq_lib::lemma_sorted_unique(picked_names(names@, order@), l.sort_by(name_order()), name_order());
    }
    order
}

/// The file a folder opens with is the first of the files one steps
/// through in it.
pub proof fn law_top_file_starts_the_listing(names: Seq<String>, ext: Seq<char>, i: int)
    requires
        is_top_file(names, ext, i),
    ensures
        sorted_listing(names, ext).len() > 0,
        sorted_listing(names, ext)[0] == names[i]@,
{
    lemma_name_order_total();
    let l = listed_names(names, ext);
    let s = sorted_listing(names, ext);
    l.lemma_sort_by_ensures(name_order());
    l.to_multiset_ensures();
    s.to_multiset_ensures();
    let x = names[i]@;
    lemma_listed_contains(names, ext, x);
    assert(l.contains(x));
    assert(l.to_multiset().count(x) > 0);
    assert(s.to_multiset().count(x) > 0);
    assert(s.contains(x));
    let k = choose|k: int| 0 <= k < s.len() && s[k] == x;
    let y = s[0];
    assert(s.contains(y));
    assert(s.to_multiset().count(y) > 0);
    assert(l.to_multiset().count(y) > 0);
    assert(l.contains(y));
    lemma_listed_contains(names, ext, y);
    let j = choose|j: int| 0 <= j < names.len() && has_extension(#[trigger] names[j]@, ext) && names[j]@ == y;
    if k > 0 {
        assert(name_order()(y, x));
    }
    lemma_name_before_asymmetric(x, y);
    if j < i {
        assert(name_before(x, names[j]@));
    } else if j > i {
        assert(!name_before(names[j]@, x));
    }
}

/// The file a folder opens with does not depend on the order in which the
/// folder is listed: two listings with the same names give files with the
/// same name.
pub proof fn law_top_file_ignores_listing_order(a: Seq<String>, b: Seq<String>, ext: Seq<char>, i: int, j: int)
    requires
        forall|k: int| 0 <= k < a.len() ==> exists|l: int| 0 <= l < b.len() && #[trigger] b[l]@ == #[trigger] a[k]@,
        forall|l: int| 0 <= l < b.len() ==> exists|k: int| 0 <= k < a.len() && #[trigger] a[k]@ == #[trigger] b[l]@,
        is_top_file(a, ext, i),
        is_top_file(b, ext, j),
    ensures
        a[i]@ == b[j]@,
{
    let x = a[i]@;
    let y = b[j]@;
    let l = choose|l: int| 0 <= l < b.len() && #[trigger] b[l]@ == a[i]@;
    let k = choose|k: int| 0 <= k < a.len() && #[trigger] a[k]@ == b[j]@;
    assert(has_extension(b[l]@, ext));
    assert(has_extension(a[k]@, ext));
    lemma_name_before_asymmetric(x, y);
    if l < j {
        assert(name_before(y, x));
    } else if l > j {
        assert(!name_before(x, y));
    }
    if k < i {
        assert(name_before(x, y));
    } else if k > i {
        assert(!name_before(y, x));
    }
}

} // verus!
