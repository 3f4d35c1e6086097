//! The web editor's side of the plugin: content types of embedded assets,
//! the scripts sent to the page, moving through the files of a folder, and
//! which files a slot update asks to load.

use vstd::prelude::*;
use vstd::string::*;
use crate::text::{ends_with_text, has_suffix, escape_js, escape_json, js_escaped, json_escaped, text_eq};
use crate::dsp::reconcile::ConfigSummary;

verus! {

/// The content type of an embedded asset, by the file name's extension.
pub open spec fn mime_for(path: Seq<char>) -> Seq<char> {
    if has_suffix(path, ".html"@) {
        "text/html"@
    } else if has_suffix(path, ".js"@) {
        "application/javascript"@
    } else if has_suffix(path, ".css"@) {
        "text/css"@
    } else if has_suffix(path, ".svg"@) {
        "image/svg+xml"@
    } else if has_suffix(path, ".png"@) {
        "image/png"@
    } else if has_suffix(path, ".ico"@) {
        "image/x-icon"@
    } else {
        "application/octet-stream"@
    }
}

/// Map a file path to its MIME type.
pub fn mime_from_path(path: &str) -> (r: &'static str)
    ensures
        r@ == mime_for(path@),
{
    if ends_with_text(path, ".html") {
        "text/html"
    } else if ends_with_text(path, ".js") {
        "application/javascript"
    } else if ends_with_text(path, ".css") {
        "text/css"
    } else if ends_with_text(path, ".svg") {
        "image/svg+xml"
    } else if ends_with_text(path, ".png") {
        "image/png"
    } else if ends_with_text(path, ".ico") {
        "image/x-icon"
    } else {
        "application/octet-stream"
    }
}

/// What the editor's asset handler does with a request.
pub enum AssetRequest {
    /// The path would climb out of the embedded assets: refused.
    Forbidden,
    /// Look up the embedded asset at `path`.
    Serve { path: String },
}

/// `p` with its leading slashes removed.
pub open spec fn without_leading_slashes(p: Seq<char>) -> Seq<char>
    decreases p.len(),
{
    if p.len() > 0 && p[0] == '/' {
        without_leading_slashes(p.drop_first())
    } else {
        p
    }
}

/// `p` holds two dots in a row.
pub open spec fn has_parent_step(p: Seq<char>) -> bool {
    exists|i: int| 0 <= i && i + 1 < p.len() && #[trigger] p[i] == '.' && p[i + 1] == '.'
}

/// The asset a request path names: the path without its leading slashes,
/// and the index page for an empty one.
pub open spec fn asset_path_for(uri_path: Seq<char>) -> Seq<char> {
    let t = without_leading_slashes(uri_path);
    if t.len() == 0 { "index.html"@ } else { t }
}

proof fn lemma_without_leading_slashes(p: Seq<char>)
    ensures
        without_leading_slashes(p).len() == 0 || without_leading_slashes(p)[0] != '/',
        without_leading_slashes(p).len() <= p.len(),
    decreases p.len(),
{
    if p.len() > 0 && p[0] == '/' {
        lemma_without_leading_slashes(p.drop_first());
    }
}

/// Whether `p` holds two dots in a row.
pub fn contains_parent_step(p: &str) -> (r: bool)
    ensures
        r == has_parent_step(p@),
{
    let n: usize = p.unicode_len();
    let mut i: usize = 1;
    while i < n
        invariant
            n == p@.len(),
            1 <= i,
            forall|j: int| 0 <= j && j + 1 < i && j + 1 < n ==> !(#[trigger] p@[j] == '.' && p@[j + 1] == '.'),
        decreases n - i,
    {
        if p.get_char(i - 1) == '.' && p.get_char(i) == '.' {
            assert(p@[i - 1] == '.' && p@[(i - 1) + 1] == '.');
            return true;
        }
        i = i + 1;
    }
    false
}

/// Decides a request for an embedded asset: the path without its leading
/// slashes (the index page for an empty one) is refused when it holds two
/// dots in a row, and looked up otherwise.
pub fn asset_request(uri_path: &str) -> (r: AssetRequest)
    ensures
        match r {
            AssetRequest::Forbidden => has_parent_step(asset_path_for(uri_path@)),
            AssetRequest::Serve { path } => !has_parent_step(asset_path_for(uri_path@))
                && path@ == asset_path_for(uri_path@),
        },
{
    let n: usize = uri_path.unicode_len();
    let mut k: usize = 0;
    assert(uri_path@.skip(0) =~= uri_path@);
    while k < n && uri_path.get_char(k) == '/'
        invariant
            n == uri_path@.len(),
            k <= n,
            without_leading_slashes(uri_path@) == without_leading_slashes(uri_path@.skip(k as int)),
        decreases n - k,
    {
        assert(uri_path@.skip(k as int).drop_first() =~= uri_path@.skip(k + 1));
        k = k + 1;
    }
    let rest: &str = uri_path.substring_char(k, n);
    assert(rest@ =~= uri_path@.skip(k as int));
    assert(without_leading_slashes(rest@) == rest@);
    let path: String = if k == n { String::from_str("index.html") } else { String::from_str(rest) };
    if contains_parent_step(path.as_str()) {
        AssetRequest::Forbidden
    } else {
        AssetRequest::Serve { path }
    }
}

/// The asset path a request names is never empty and never starts with a
/// slash: it is always relative to the embedded assets.
pub proof fn law_asset_path_is_relative(uri_path: Seq<char>)
    ensures
        asset_path_for(uri_path).len() > 0,
        asset_path_for(uri_path)[0] != '/',
{
    lemma_without_leading_slashes(uri_path);
    reveal_strlit("index.html");
}

/// The script that tells the page a file was chosen for a slot: the kind
/// (`nam` or `cab`) and the slot id go in as given, the display name and
/// the path escaped for a single-quoted string.
pub open spec fn file_loaded_text(kind: Seq<char>, name: Seq<char>, slot_id: Seq<char>, path: Seq<char>) -> Seq<char> {
    "if (window.onFileLoaded) window.onFileLoaded('"@ + kind + "', '"@ + js_escaped(name) + "', '"@ + slot_id
        + "', '"@ + js_escaped(path) + "');"@
}

/// Builds the script that reports a chosen file to the page.
pub fn file_loaded_script(kind: &str, display_name: &str, slot_id: &str, path: &str) -> (r: String)
    ensures
        r@ == file_loaded_text(kind@, display_name@, slot_id@, path@),
{
    let name: String = escape_js(display_name);
    let p: String = escape_js(path);
    let mut s: String = String::new();
    s.append("if (window.onFileLoaded) window.onFileLoaded('");
    s.append(kind);
    s.append("', '");
    s.append(name.as_str());
    s.append("', '");
    s.append(slot_id);
    s.append("', '");
    s.append(p.as_str());
    s.append("');");
    assert(s@ =~= file_loaded_text(kind@, display_name@, slot_id@, path@));
    s
}

/// The script that hands the page the saved slots and snapshots, both
/// escaped for a single-quoted string that may hold double quotes.
pub open spec fn sync_text(slots_json: Seq<char>, snapshots_json: Seq<char>) -> Seq<char> {
    "if (window.syncSlots) window.syncSlots('"@ + json_escaped(slots_json)
        + "'); if (window.syncSnapshots) window.syncSnapshots('"@ + json_escaped(snapshots_json) + "');"@
}

/// Builds the script that restores the page's slots and snapshots.
pub fn sync_script(slots_json: &str, snapshots_json: &str) -> (r: String)
    ensures
        r@ == sync_text(slots_json@, snapshots_json@),
{
    let a: String = escape_json(slots_json);
    let b: String = escape_json(snapshots_json);
    let mut s: String = String::new();
    s.append("if (window.syncSlots) window.syncSlots('");
    s.append(a.as_str());
    s.append("'); if (window.syncSnapshots) window.syncSnapshots('");
    s.append(b.as_str());
    s.append("');");
    assert(s@ =~= sync_text(slots_json@, snapshots_json@));
    s
}

/// Remainder of an integer division rounded towards zero, as Rust's `%`.
pub open spec fn rem_toward_zero(a: int, b: int) -> int {
    if a >= 0 { a % b } else { -((-a) % b) }
}

/// Index of the file `direction` steps from `current` among `count` files,
/// going round from the last to the first and back.
pub fn cycle_index(current: usize, direction: i32, count: usize) -> (r: usize)
    requires
        0 < count <= i32::MAX,
        current < count,
        i32::MIN <= current + direction <= i32::MAX,
        rem_toward_zero(current + direction, count as int) + count <= i32::MAX,
    ensures
        r as int == (current + direction) % (count as int),
{
    let c: i32 = count as i32;
    let x: i32 = current as i32 + direction;
    let m: i32 = x % c;
    assert(m as int == rem_toward_zero(x as int, c as int));
    let r: i32 = (m + c) % c;
    proof { lemma_shifted_remainder(x as int, c as int); }
    r as usize
}

proof fn lemma_shifted_remainder(x: int, c: int)
    requires
        c > 0,
    ensures
        (rem_toward_zero(x, c) + c) % c == x % c,
{
    let k = (-x) % c;
    if x < 0 {
        let q = (-x) / c;
        vstd::arithmetic::div_mod::lemma_fundamental_div_mod(-x, c);
        assert(-x == c * q + k);
        if k == 0 {
            assert(x == (-q) * c + 0) by (nonlinear_arith)
                requires
                    -x == c * q + k,
                    k == 0,
            ;
            vstd::arithmetic::div_mod::lemma_fundamental_div_mod_converse(x, c, -q, 0);
        } else {
            assert(x == (-q - 1) * c + (c - k)) by (nonlinear_arith)
                requires
                    -x == c * q + k,
            ;
            vstd::arithmetic::div_mod::lemma_fundamental_div_mod_converse(x, c, -q - 1, c - k);
            vstd::arithmetic::div_mod::lemma_fundamental_div_mod_converse(c - k, c, 0, c - k);
        }
        vstd::arithmetic::div_mod::lemma_fundamental_div_mod_converse(c, c, 1, 0);
    } else {
        let q = x / c;
        vstd::arithmetic::div_mod::lemma_fundamental_div_mod(x, c);
        vstd::arithmetic::div_mod::lemma_fundamental_div_mod_converse(x % c + c, c, 1, x % c);
    }
}

/// The index of the first slot of type `slot_type` that names a file.
pub open spec fn first_with_path(slots: Seq<ConfigSummary>, slot_type: Seq<char>) -> Option<int>
    decreases slots.len(),
{
    if slots.len() == 0 {
        None
    } else if slots[0].slot_type@ == slot_type && slots[0].path is Some {
        Some(0)
    } else {
        match first_with_path(slots.drop_first(), slot_type) {
            Some(k) => Some(k + 1),
            None => None,
        }
    }
}

/// The slots whose files a slot update asks to load: the first amp slot
/// that names a model, and the first cab slot that names an impulse
/// response.
pub fn files_to_load(slots: &Vec<ConfigSummary>) -> (r: (Option<usize>, Option<usize>))
    ensures
        match r.0 {
            Some(i) => first_with_path(slots@, "amp"@) == Some(i as int),
            None => first_with_path(slots@, "amp"@) is None,
        },
        match r.1 {
            Some(i) => first_with_path(slots@, "cab"@) == Some(i as int),
            None => first_with_path(slots@, "cab"@) is None,
        },
{
    let mut nam: Option<usize> = None;
    let mut cab: Option<usize> = None;
    let n: usize = slots.len();
    let mut i: usize = 0;
    assert(slots@.skip(0) =~= slots@);
    while i < n
        invariant
            n == slots@.len(),
            i <= n,
            nam is None ==> first_with_path(slots@, "amp"@) == shifted(first_with_path(slots@.skip(i as int), "amp"@), i as int),
            nam is Some ==> first_with_path(slots@, "amp"@) == Some(nam->0 as int),
            cab is None ==> first_with_path(slots@, "cab"@) == shifted(first_with_path(slots@.skip(i as int), "cab"@), i as int),
            cab is Some ==> first_with_path(slots@, "cab"@) == Some(cab->0 as int),
        decreases n - i,
    {
        let s: &ConfigSummary = &slots[i];
        proof {
            assert(slots@.skip(i as int)[0] == *s);
            assert(slots@.skip(i as int).drop_first() =~= slots@.skip(i + 1));
        }
        if nam.is_none() && text_eq(s.slot_type.as_str(), "amp") && s.path.is_some() {
            nam = Some(i);
        }
        if cab.is_none() && text_eq(s.slot_type.as_str(), "cab") && s.path.is_some() {
            cab = Some(i);
        }
        i = i + 1;
    }
    (nam, cab)
}

/// An index found in a suffix that starts at `offset`, as an index of the
/// whole.
pub open spec fn shifted(k: Option<int>, offset: int) -> Option<int> {
    match k {
        Some(j) => Some(j + offset),
        None => None,
    }
}

} // verus!
