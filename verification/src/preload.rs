//! Preload scripts for webviews the host manages: the
//! `window.__ozmuxContext` globals, the `window.__ozmuxGranted` capability
//! grant, and the host-API bridge, plus the extension webview URL.

use vstd::prelude::*;
use crate::ime::EntityId;

verus! {

/// The decimal digit character of `d`.
pub open spec fn digit_char(d: nat) -> char {
    if d == 0 { '0' }
    else if d == 1 { '1' }
    else if d == 2 { '2' }
    else if d == 3 { '3' }
    else if d == 4 { '4' }
    else if d == 5 { '5' }
    else if d == 6 { '6' }
    else if d == 7 { '7' }
    else if d == 8 { '8' }
    else { '9' }
}

/// The decimal representation of `n`, without leading zeros.
pub open spec fn decimal(n: nat) -> Seq<char>
    decreases n,
{
    if n < 10 {
        seq![digit_char(n)]
    } else {
        decimal(n / 10).push(digit_char(n % 10))
    }
}

fn digit_str(d: u64) -> (r: &'static str)
    requires
        d < 10,
    ensures
        r@ == seq![digit_char(d as nat)],
{
    match d {
        0 => {
            proof { reveal_strlit("0"); }
            "0"
        },
        1 => {
            proof { reveal_strlit("1"); }
            "1"
        },
        2 => {
            proof { reveal_strlit("2"); }
            "2"
        },
        3 => {
            proof { reveal_strlit("3"); }
            "3"
        },
        4 => {
            proof { reveal_strlit("4"); }
            "4"
        },
        5 => {
            proof { reveal_strlit("5"); }
            "5"
        },
        6 => {
            proof { reveal_strlit("6"); }
            "6"
        },
        7 => {
            proof { reveal_strlit("7"); }
            "7"
        },
        8 => {
            proof { reveal_strlit("8"); }
            "8"
        },
        _ => {
            proof { reveal_strlit("9"); }
            "9"
        },
    }
}

fn append_decimal(out: &mut String, n: u64)
    ensures
        final(out)@ == old(out)@ + decimal(n as nat),
    decreases n,
{
    if n >= 10 {
        append_decimal(out, n / 10);
    }
    let d = digit_str(n % 10);
    out.append(d);
    proof {
        assert(decimal(n as nat) =~= if n < 10 {
            seq![digit_char(n as nat)]
        } else {
            decimal((n / 10) as nat).push(digit_char((n % 10) as nat))
        });
    }
}

/// The decimal rendering of an entity's bits.
pub fn decimal_string(n: u64) -> (r: String)
    ensures
        r@ == decimal(n as nat),
{
    let mut out = String::new();
    append_decimal(&mut out, n);
    proof {
        assert(out@ =~= decimal(n as nat));
    }
    out
}

/// What Rust's `Debug` formatting of a string produces: the string in
/// double quotes with its special characters escaped.
pub uninterp spec fn debug_quoted(s: Seq<char>) -> Seq<char>;

/// Whether `c` is an ASCII letter or digit.
pub open spec fn ascii_alphanumeric(c: char) -> bool {
    ('0' as u32 <= c as u32 <= '9' as u32) || ('a' as u32 <= c as u32 <= 'z' as u32) || ('A' as u32 <= c
        as u32 <= 'Z' as u32)
}

/// `s` in double quotes.
pub open spec fn quoted(s: Seq<char>) -> Seq<char> {
    seq!['"'] + s + seq!['"']
}

/// `format!("{:?}", s)`: std's `Debug` formatting of a `str`. Its result is
/// a function of `s` alone, named `debug_quoted`: the string in double
/// quotes, where ASCII letters and digits stand as they are (no escape
/// applies to them). How other characters are escaped is not stated here.
#[verifier::external_body]
fn debug_str(s: &str) -> (r: String)
    ensures
        r@ == debug_quoted(s@),
        (forall|i: int| 0 <= i < s@.len() ==> #[trigger] ascii_alphanumeric(s@[i])) ==> r@ == quoted(s@),
{
    format!("{:?}", s)
}

/// The extension webview URL `ozmux-ext://<name>/<entry>`.
pub open spec fn extension_url(extension_name: Seq<char>, entry: Seq<char>) -> Seq<char> {
    "ozmux-ext://"@ + extension_name + "/"@ + entry
}

/// Builds the `ozmux-ext://<name>/<entry>` webview URL for an extension
/// surface, where `entry` is the client's HTML path relative to the
/// extension dir.
pub fn webview_url(extension_name: &str, entry: &str) -> (r: String)
    ensures
        r@ == extension_url(extension_name@, entry@),
{
    let mut url = String::from_str("ozmux-ext://");
    url.append(extension_name);
    url.append("/");
    url.append(entry);
    url
}

/// The context script assigning `window.__ozmuxContext`. The keys
/// `sessionId`/`windowId` keep their legacy names (a browser-side contract);
/// both carry the workspace. The ids are quoted decimal strings.
pub open spec fn context_js(workspace: u64, pane: u64, surface: u64, role: Seq<char>, extension_name: Seq<char>) -> Seq<char> {
    "window.__ozmuxContext={sessionId:"@ + quoted(decimal(workspace as nat)) + ",windowId:"@
        + quoted(decimal(workspace as nat)) + ",paneId:"@ + quoted(decimal(pane as nat)) + ",surfaceId:"@
        + quoted(decimal(surface as nat)) + ",role:"@ + debug_quoted(role) + ",extensionName:"@
        + debug_quoted(extension_name) + "};"@
}

/// Every character of a decimal rendering is a digit.
proof fn lemma_decimal_is_alphanumeric(n: nat)
    ensures
        forall|i: int| 0 <= i < decimal(n).len() ==> #[trigger] ascii_alphanumeric(decimal(n)[i]),
    decreases n,
{
    assert forall|d: nat| #[trigger] ascii_alphanumeric(digit_char(d)) by {}
    if n >= 10 {
        lemma_decimal_is_alphanumeric(n / 10);
        let prefix = decimal(n / 10);
        assert forall|i: int| 0 <= i < decimal(n).len() implies #[trigger] ascii_alphanumeric(decimal(n)[i]) by {
            if i < prefix.len() {
                assert(decimal(n)[i] == prefix[i]);
            } else {
                assert(decimal(n)[i] == digit_char(n % 10));
            }
        }
    }
}

/// Builds the per-webview context preload script with the given `role` and
/// `extension_name`. It is one complete statement, since preload scripts are
/// joined and evaluated as one unit.
pub fn context_preload_js_role(
    workspace: EntityId,
    pane: EntityId,
    surface: EntityId,
    role: &str,
    extension_name: &str,
) -> (r: String)
    ensures
        r@ == context_js(workspace, pane, surface, role@, extension_name@),
{
    let workspace_id = decimal_string(workspace);
    let pane_id = decimal_string(pane);
    let surface_id = decimal_string(surface);
    proof {
        lemma_decimal_is_alphanumeric(workspace as nat);
        lemma_decimal_is_alphanumeric(pane as nat);
        lemma_decimal_is_alphanumeric(surface as nat);
    }
    let mut js = String::from_str("window.__ozmuxContext={sessionId:");
    js.append(debug_str(workspace_id.as_str()).as_str());
    js.append(",windowId:");
    js.append(debug_str(workspace_id.as_str()).as_str());
    js.append(",paneId:");
    js.append(debug_str(pane_id.as_str()).as_str());
    js.append(",surfaceId:");
    js.append(debug_str(surface_id.as_str()).as_str());
    js.append(",role:");
    js.append(debug_str(role).as_str());
    js.append(",extensionName:");
    js.append(debug_str(extension_name).as_str());
    js.append("};");
    js
}

/// The context preload script of an extension webview (`role:"extension"`).
pub fn context_preload_js(workspace: EntityId, pane: EntityId, surface: EntityId, extension_name: &str) -> (r: String)
    ensures
        r@ == context_js(workspace, pane, surface, "extension"@, extension_name@),
{
    context_preload_js_role(workspace, pane, surface, "extension", extension_name)
}

/// The lowercase hexadecimal digit of `d` (below 16).
pub open spec fn hex_digit(d: nat) -> char {
    if d < 10 {
        digit_char(d)
    } else if d == 10 {
        'a'
    } else if d == 11 {
        'b'
    } else if d == 12 {
        'c'
    } else if d == 13 {
        'd'
    } else if d == 14 {
        'e'
    } else {
        'f'
    }
}

/// One character inside a JSON string: `"` and `\` and the control
/// characters below U+0020 are escaped (the short forms `\b`, `\t`, `\n`,
/// `\f`, `\r` where JSON has them, else `\u00XX` in lowercase hex);
/// every other character stands as it is.
pub open spec fn json_char(c: char) -> Seq<char> {
    if c == '"' {
        seq!['\\', '"']
    } else if c == '\\' {
        seq!['\\', '\\']
    } else if c == '\u{8}' {
        seq!['\\', 'b']
    } else if c == '\t' {
        seq!['\\', 't']
    } else if c == '\n' {
        seq!['\\', 'n']
    } else if c == '\u{c}' {
        seq!['\\', 'f']
    } else if c == '\r' {
        seq!['\\', 'r']
    } else if (c as u32) < 0x20 {
        seq!['\\', 'u', '0', '0', hex_digit((c as nat) / 16), hex_digit((c as nat) % 16)]
    } else {
        seq![c]
    }
}

/// The escaped characters of a JSON string's contents.
pub open spec fn json_chars(s: Seq<char>) -> Seq<char>
    decreases s.len(),
{
    if s.len() == 0 {
        seq![]
    } else {
        json_chars(s.drop_last()) + json_char(s.last())
    }
}

/// A string as a JSON string literal.
pub open spec fn json_string(s: Seq<char>) -> Seq<char> {
    seq!['"'] + json_chars(s) + seq!['"']
}

/// The JSON string literals of `items`, separated by commas.
pub open spec fn json_items(items: Seq<Seq<char>>) -> Seq<char>
    decreases items.len(),
{
    if items.len() == 0 {
        seq![]
    } else if items.len() == 1 {
        json_string(items[0])
    } else {
        json_items(items.drop_last()) + seq![','] + json_string(items.last())
    }
}

/// The compact JSON array of a list of strings, as serde_json renders it.
pub open spec fn json_string_array(items: Seq<Seq<char>>) -> Seq<char> {
    seq!['['] + json_items(items) + seq![']']
}

/// The strings of a list, as plain values.
pub open spec fn string_views(items: Seq<String>) -> Seq<Seq<char>> {
    items.map_values(|s: String| s@)
}

/// The distinct strings of `s`, each once, in the order of their first
/// occurrence.
pub open spec fn distinct_in_order(s: Seq<Seq<char>>) -> Seq<Seq<char>>
    decreases s.len(),
{
    if s.len() == 0 {
        seq![]
    } else {
        let d = distinct_in_order(s.drop_last());
        if d.contains(s.last()) {
            d
        } else {
            d.push(s.last())
        }
    }
}

/// A capability grant names each capability once, and names exactly the
/// capabilities asked for.
pub proof fn lemma_grant_is_distinct(s: Seq<Seq<char>>)
    ensures
        distinct_in_order(s).no_duplicates(),
        forall|x: Seq<char>| distinct_in_order(s).contains(x) <==> s.contains(x),
    decreases s.len(),
{
    if s.len() > 0 {
        lemma_grant_is_distinct(s.drop_last());
        let d = distinct_in_order(s.drop_last());
        assert forall|x: Seq<char>| distinct_in_order(s).contains(x) <==> s.contains(x) by {
            if s.contains(x) && x != s.last() {
                let k = choose|k: int| 0 <= k < s.len() && s[k] == x;
                assert(s.drop_last()[k] == x);
            }
            if s.drop_last().contains(x) {
                let k = choose|k: int| 0 <= k < s.drop_last().len() && s.drop_last()[k] == x;
                assert(s[k] == x);
            }
            if !d.contains(s.last()) && x == s.last() {
                assert(d.push(s.last())[d.len() as int] == x);
            }
            if !d.contains(s.last()) && d.contains(x) {
                let k = choose|k: int| 0 <= k < d.len() && d[k] == x;
                assert(d.push(s.last())[k] == x);
            }
            if !d.contains(s.last()) && d.push(s.last()).contains(x) && x != s.last() {
                let k = choose|k: int| 0 <= k < d.len() + 1 && d.push(s.last())[k] == x;
                assert(k < d.len());
                assert(d[k] == x);
            }
        }
    }
}

/// The distinct strings of a list, each once, in first-occurrence order.
pub(crate) fn distinct_strings(items: &Vec<String>) -> (r: Vec<String>)
    ensures
        string_views(r@) == distinct_in_order(string_views(items@)),
{
    let mut out: Vec<String> = Vec::new();
    let mut i: usize = 0;
    while i < items.len()
        invariant
            0 <= i <= items.len(),
            string_views(out@) == distinct_in_order(string_views(items@).take(i as int)),
        decreases items.len() - i,
    {
        let mut seen = false;
        let mut j: usize = 0;
        while j < out.len()
            invariant
                0 <= j <= out.len(),
                i < items@.len(),
                seen <==> exists|k: int| 0 <= k < j && out@[k]@ == items@[i as int]@,
            decreases out.len() - j,
        {
            if out[j] == items[i] {
                seen = true;
            }
            j = j + 1;
        }
        let ghost prefix = string_views(items@).take(i as int);
        let ghost next = string_views(items@).take(i + 1);
        proof {
            assert(next.drop_last() =~= prefix);
            assert(next.last() == items@[i as int]@);
            let views = string_views(out@);
            if seen {
                let k = choose|k: int| 0 <= k < out@.len() && out@[k]@ == items@[i as int]@;
                assert(views[k] == items@[i as int]@);
            }
            if views.contains(items@[i as int]@) {
                let k = choose|k: int| 0 <= k < views.len() && views[k] == items@[i as int]@;
                assert(out@[k]@ == items@[i as int]@);
            }
        }
        if !seen {
            let ghost before = out@;
            out.push(items[i].clone());
            proof {
                assert(string_views(out@) =~= string_views(before).push(items@[i as int]@));
            }
        }
        i = i + 1;
    }
    proof {
        assert(string_views(items@).take(items@.len() as int) =~= string_views(items@));
    }
    out
}

#[verifier::external_type_specification]
#[verifier::external_body]
pub struct ExSerdeJsonError(serde_json::Error);

/// `serde_json::to_string` of a list of strings: the compact array (see
/// `json_string_array`). A list of strings always serializes (a string's
/// serialization cannot fail, nor can writing into memory), so it is `Ok`.
#[verifier::external_body]
fn to_json_array(items: &Vec<String>) -> (r: Result<String, serde_json::Error>)
    ensures
        r is Ok,
        r.unwrap()@ == json_string_array(string_views(items@)),
{
    serde_json::to_string(items)
}

/// Why a preload could not be built.
#[derive(Debug, Clone, Copy, PartialEq, Eq, Structural)]
pub enum PreloadError {
    /// The capability grant did not serialize (a list of strings always
    /// does, so the preload builders never give it).
    GrantNotSerializable,
}

/// The capability grant script.
pub open spec fn grant_js(json: Seq<char>) -> Seq<char> {
    "window.__ozmuxGranted="@ + json + ";"@
}

/// Builds the full preload script set for an extension webview, in order:
/// the context globals, the capability grant `granted` (each capability
/// once, in first-occurrence order),
/// and the host-API bridge script `host_bridge_js`. It always succeeds.
pub fn build_preload(
    workspace: EntityId,
    pane: EntityId,
    surface: EntityId,
    extension_name: &str,
    granted: &Vec<String>,
    host_bridge_js: &str,
) -> (r: Result<Vec<String>, PreloadError>)
    ensures
        r matches Ok(scripts) && scripts@.len() == 3
            && scripts@[0]@ == context_js(workspace, pane, surface, "extension"@, extension_name@)
            && scripts@[1]@ == grant_js(json_string_array(distinct_in_order(string_views(granted@))))
            && scripts@[2]@ == host_bridge_js@,
{
    let ctx_js = context_preload_js(workspace, pane, surface, extension_name);
    let granted = distinct_strings(granted);
    let granted_json = match to_json_array(&granted) {
        Ok(json) => json,
        Err(_) => return Err(PreloadError::GrantNotSerializable),
    };
    let mut granted_js = String::from_str("window.__ozmuxGranted=");
    granted_js.append(granted_json.as_str());
    granted_js.append(";");
    let bridge = String::from_str(host_bridge_js);
    let mut scripts: Vec<String> = Vec::new();
    scripts.push(ctx_js);
    scripts.push(granted_js);
    scripts.push(bridge);
    Ok(scripts)
}

/// Builds the preload for a dynamic webview: context globals only, with
/// `role:"dynamic"` and an empty extension name. No capability grant and no
/// host bridge.
pub fn build_dynamic_preload(workspace: EntityId, pane: EntityId, surface: EntityId) -> (r: Vec<String>)
    ensures
        r@.len() == 1,
        r@[0]@ == context_js(workspace, pane, surface, "dynamic"@, ""@),
{
    let ctx_js = context_preload_js_role(workspace, pane, surface, "dynamic", "");
    let mut scripts: Vec<String> = Vec::new();
    scripts.push(ctx_js);
    scripts
}

} // verus!
