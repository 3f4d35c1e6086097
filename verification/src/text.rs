//! Text helpers over `&str` and `String`, stated on their character views.

use vstd::prelude::*;
use vstd::string::*;

verus! {

/// Character-wise equality of two string slices.
pub fn text_eq(a: &str, b: &str) -> (r: bool)
    ensures
        r == (a@ == b@),
{
    let n: usize = a.unicode_len();
    if n != b.unicode_len() {
        return false;
    }
    let mut i: usize = 0;
    while i < n
        invariant
            n == a@.len(),
            n == b@.len(),
            i <= n,
            forall|k: int| 0 <= k < i ==> a@[k] == b@[k],
        decreases n - i,
    {
        if a.get_char(i) != b.get_char(i) {
            return false;
        }
        i = i + 1;
    }
    assert(a@ =~= b@);
    true
}

/// `s` ends with the characters of `suffix`.
pub open spec fn has_suffix(s: Seq<char>, suffix: Seq<char>) -> bool {
    suffix.len() <= s.len() && s.subrange(s.len() - suffix.len(), s.len() as int) == suffix
}

/// Whether `s` ends with `suffix` (as `str::ends_with` with a string pattern).
pub fn ends_with_text(s: &str, suffix: &str) -> (r: bool)
    ensures
        r == has_suffix(s@, suffix@),
{
    let n: usize = s.unicode_len();
    let k: usize = suffix.unicode_len();
    if k > n {
        return false;
    }
    let start: usize = n - k;
    let mut i: usize = 0;
    while i < k
        invariant
            n == s@.len(),
            k == suffix@.len(),
            k <= n,
            start == n - k,
            i <= k,
            forall|j: int| 0 <= j < i ==> s@[start + j] == suffix@[j],
        decreases k - i,
    {
        if s.get_char(start + i) != suffix.get_char(i) {
            assert(s@.subrange(start as int, n as int)[i as int] != suffix@[i as int]);
            return false;
        }
        i = i + 1;
    }
    assert(s@.subrange(start as int, n as int) =~= suffix@);
    true
}

/// The replacement text for one character when it is quoted inside a
/// single-quoted script string: backslash and single quote gain a backslash.
pub open spec fn js_escape_char(c: char) -> Seq<char> {
    if c == '\\' {
        seq!['\\', '\\']
    } else if c == '\'' {
        seq!['\\', '\'']
    } else {
        seq![c]
    }
}

/// Like `js_escape_char`, and a double quote gains a backslash as well.
pub open spec fn json_escape_char(c: char) -> Seq<char> {
    if c == '"' {
        seq!['\\', '"']
    } else {
        js_escape_char(c)
    }
}

/// Every character of `s` replaced by `js_escape_char`.
pub open spec fn js_escaped(s: Seq<char>) -> Seq<char>
    decreases s.len(),
{
    if s.len() == 0 {
        seq![]
    } else {
        js_escaped(s.drop_last()) + js_escape_char(s.last())
    }
}

/// Every character of `s` replaced by `json_escape_char`.
pub open spec fn json_escaped(s: Seq<char>) -> Seq<char>
    decreases s.len(),
{
    if s.len() == 0 {
        seq![]
    } else {
        json_escaped(s.drop_last()) + json_escape_char(s.last())
    }
}

/// Escapes `s` for a single-quoted script string literal: `\` becomes `\\`
/// and `'` becomes `\'`.
pub fn escape_js(s: &str) -> (r: String)
    ensures
        r@ == js_escaped(s@),
{
    escape_with(s, false)
}

/// Escapes `s` as `escape_js` does, and `"` becomes `\"`.
pub fn escape_json(s: &str) -> (r: String)
    ensures
        r@ == json_escaped(s@),
{
    escape_with(s, true)
}

fn escape_with(s: &str, quotes: bool) -> (r: String)
    ensures
        quotes ==> r@ == json_escaped(s@),
        !quotes ==> r@ == js_escaped(s@),
{
    let n: usize = s.unicode_len();
    let mut out = String::new();
    let mut i: usize = 0;
    while i < n
        invariant
            n == s@.len(),
            i <= n,
            quotes ==> out@ == json_escaped(s@.take(i as int)),
            !quotes ==> out@ == js_escaped(s@.take(i as int)),
        decreases n - i,
    {
        let c: char = s.get_char(i);
        proof {
            reveal_strlit("\\\\");
            reveal_strlit("\\'");
            reveal_strlit("\\\"");
            assert(s@.take(i + 1).drop_last() =~= s@.take(i as int));
            assert(s@.take(i + 1).last() == c);
        }
        if c == '\\' {
            out.append("\\\\");
        } else if c == '\'' {
            out.append("\\'");
        } else if quotes && c == '"' {
            out.append("\\\"");
        } else {
            let one: &str = s.substring_char(i, i + 1);
            assert(one@ =~= seq![c]);
            out.append(one);
        }
        i = i + 1;
    }
    assert(s@.take(n as int) =~= s@);
    out
}


/// Text without backslashes or quotes is left as it is by both escapes.
pub proof fn law_plain_text_unescaped(s: Seq<char>)
    requires
        forall|i: int| 0 <= i < s.len() ==> #[trigger] s[i] != '\\' && s[i] != '\'' && s[i] != '"',
    ensures
        js_escaped(s) == s,
        json_escaped(s) == s,
    decreases s.len(),
{
    if s.len() > 0 {
        law_plain_text_unescaped(s.drop_last());
        assert(s.drop_last().push(s.last()) =~= s);
        assert(s[s.len() - 1] == s.last());
    }
}

/// Escaping keeps every character and only adds backslashes: the escaped
/// text is at least as long as the original and at most twice as long.
pub proof fn law_escape_length(s: Seq<char>)
    ensures
        s.len() <= js_escaped(s).len() <= 2 * s.len(),
        s.len() <= json_escaped(s).len() <= 2 * s.len(),
    decreases s.len(),
{
    if s.len() > 0 {
        law_escape_length(s.drop_last());
    }
}

} // verus!
