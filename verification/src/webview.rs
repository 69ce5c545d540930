//! The WebView runtime availability probe.
//!
//! On the Windows family the probe shell-executes the registry query tool
//! against two candidate key paths and scans each captured output for the
//! runtime's product version: the last whitespace-delimited token of the
//! first line that contains the value name `pv`. The host shell runs the
//! tool and hands the captured outputs here, in key-path order, one entry
//! per query that exited successfully. On every other platform no probing
//! happens and a fixed "always available" record is reported.

use vstd::prelude::*;
use vstd::string::*;
use crate::scan::contains_pv;
use crate::scan::first_pv_line;
use crate::scan::line_contains_pv;
use crate::scan::last_token;
use crate::scan::spec_last_token;
use crate::scan::spec_lines;
use crate::scan::split_lines;
use crate::scan::str_views;

verus! {

/// What the front-end learns of the WebView runtime: a version string, a
/// runtime label, and whether the runtime is available.
pub struct WebViewInfo {
    pub version: String,
    pub runtime: String,
    pub available: bool,
}

/// The version that one captured registry query output yields: the last
/// whitespace-delimited token of the first line containing `pv`, or `None`
/// when no line contains it.
pub open spec fn spec_registry_version(out: Seq<char>) -> Option<Seq<char>> {
    match first_pv_line(spec_lines(out)) {
        None => None,
        Some(line) => spec_last_token(line),
    }
}

/// The version that a sequence of captured outputs yields: the first output
/// that yields one decides.
pub open spec fn spec_first_version(outs: Seq<Seq<char>>) -> Option<Seq<char>>
    decreases outs.len(),
{
    if outs.len() == 0 {
        None
    } else if spec_registry_version(outs[0]) is Some {
        spec_registry_version(outs[0])
    } else {
        spec_first_version(outs.skip(1))
    }
}

/// Outputs that all yield nothing contribute nothing: the scan continues
/// past them.
proof fn lemma_first_version_prefix(outs: Seq<Seq<char>>, m: int)
    requires
        0 <= m <= outs.len(),
        forall|k: int| 0 <= k < m ==> spec_registry_version(#[trigger] outs[k]) is None,
    ensures
        spec_first_version(outs) == spec_first_version(outs.skip(m)),
    decreases m,
{
    if m > 0 {
        lemma_first_version_prefix(outs.skip(1), m - 1);
        assert(outs.skip(1).skip(m - 1) =~= outs.skip(m));
        assert forall|k: int| 0 <= k < m - 1 implies spec_registry_version(
            #[trigger] outs.skip(1)[k],
        ) is None by {
            assert(outs.skip(1)[k] == outs[k + 1]);
        }
        assert(spec_first_version(outs.skip(1)) == spec_first_version(outs.skip(1).skip(m - 1)));
    } else {
        assert(outs.skip(0) =~= outs);
    }
}

/// A version is extracted from an output exactly when some line of it
/// contains `pv`: the probe owes a version to every output with a `pv`
/// line, since such a line always has a last token.
pub proof fn lemma_version_found_iff_pv_line(out: Seq<char>)
    ensures
        spec_registry_version(out) is Some <==> first_pv_line(spec_lines(out)) is Some,
{
    if first_pv_line(spec_lines(out)) is Some {
        crate::scan::lemma_first_pv_line_contains_pv(spec_lines(out));
        crate::scan::lemma_pv_line_has_token(first_pv_line(spec_lines(out))->0);
    }
}

/// The version that one captured registry query output yields, as
/// `spec_registry_version` describes it.
pub fn parse_registry_output(out: &str) -> (r: Option<String>)
    ensures
        r is Some <==> spec_registry_version(out@) is Some,
        r is Some ==> r->0@ == spec_registry_version(out@)->0,
{
    let lines = split_lines(out);
    let ghost ls = spec_lines(out@);
    let mut idx: usize = 0;
    while idx < lines.len()
        invariant
            str_views(lines@) == ls,
            ls == spec_lines(out@),
            idx <= lines.len(),
            forall|j: int| 0 <= j < idx ==> !contains_pv(#[trigger] ls[j]),
        decreases lines.len() - idx,
    {
        if line_contains_pv(lines[idx].as_str()) {
            proof {
                crate::scan::lemma_first_pv_line_prefix(ls, idx as int);
                assert(ls.skip(idx as int)[0] == ls[idx as int]);
                assert(first_pv_line(ls) == Some(ls[idx as int]));
            }
            return last_token(lines[idx].as_str());
        }
        idx += 1;
    }
    proof {
        crate::scan::lemma_first_pv_line_prefix(ls, ls.len() as int);
        assert(ls.skip(ls.len() as int).len() == 0);
    }
    None
}

/// The runtime version that the captured outputs yield, scanned in order,
/// as `spec_first_version` describes it.
pub fn read_webview2_version_from_registry(outputs: &Vec<String>) -> (r: Option<String>)
    ensures
        r is Some <==> spec_first_version(str_views(outputs@)) is Some,
        r is Some ==> r->0@ == spec_first_version(str_views(outputs@))->0,
{
    let ghost outs = str_views(outputs@);
    let mut idx: usize = 0;
    while idx < outputs.len()
        invariant
            outs == str_views(outputs@),
            outs.len() == outputs.len(),
            idx <= outputs.len(),
            forall|k: int| 0 <= k < idx ==> spec_registry_version(#[trigger] outs[k]) is None,
        decreases outputs.len() - idx,
    {
        proof {
            assert(outs[idx as int] == outputs@[idx as int]@);
        }
        let v = parse_registry_output(outputs[idx].as_str());
        if v.is_some() {
            proof {
                lemma_first_version_prefix(outs, idx as int);
                assert(outs.skip(idx as int)[0] == outs[idx as int]);
            }
            return v;
        }
        idx += 1;
    }
    proof {
        lemma_first_version_prefix(outs, outs.len() as int);
        assert(outs.skip(outs.len() as int).len() == 0);
    }
    None
}

/// Whether the captured outputs show an installed WebView runtime.
pub fn check_webview2_runtime(outputs: &Vec<String>) -> (b: bool)
    ensures
        b == (spec_first_version(str_views(outputs@)) is Some),
{
    read_webview2_version_from_registry(outputs).is_some()
}

/// The runtime version the captured outputs show, or `Unknown` when they
/// show none.
pub fn get_webview2_version(outputs: &Vec<String>) -> (r: String)
    ensures
        spec_first_version(str_views(outputs@)) is Some ==> r@ == spec_first_version(
            str_views(outputs@),
        )->0,
        spec_first_version(str_views(outputs@)) is None ==> r@ == "Unknown"@,
{
    match read_webview2_version_from_registry(outputs) {
        Some(v) => v,
        None => String::from_str("Unknown"),
    }
}

/// The registry key paths that are probed for the WebView2 runtime's `pv`
/// value, in query order: the 32-bit registry view's key first, then the
/// native key. The host shell runs the registry query tool once per path
/// and captures the outputs in this order.
pub fn webview2_registry_key_paths() -> (r: Vec<String>)
    ensures
        r@.len() == 2,
        r@[0]@
            == "HKEY_LOCAL_MACHINE\\SOFTWARE\\WOW6432Node\\Microsoft\\EdgeUpdate\\Clients\\{F3017226-FE2A-4295-8BDF-00C3A9A7E4C5}"@,
        r@[1]@
            == "HKEY_LOCAL_MACHINE\\SOFTWARE\\Microsoft\\EdgeUpdate\\Clients\\{F3017226-FE2A-4295-8BDF-00C3A9A7E4C5}"@,
{
    let mut r: Vec<String> = Vec::new();
    r.push(
        String::from_str(
            "HKEY_LOCAL_MACHINE\\SOFTWARE\\WOW6432Node\\Microsoft\\EdgeUpdate\\Clients\\{F3017226-FE2A-4295-8BDF-00C3A9A7E4C5}",
        ),
    );
    r.push(
        String::from_str(
            "HKEY_LOCAL_MACHINE\\SOFTWARE\\Microsoft\\EdgeUpdate\\Clients\\{F3017226-FE2A-4295-8BDF-00C3A9A7E4C5}",
        ),
    );
    r
}

/// The Windows-family WebView report, built from the captured registry
/// query outputs: available exactly when a version was found, the found
/// version or `Unknown`, and the fixed runtime label.
pub fn webview_info_from_registry(outputs: &Vec<String>) -> (r: Result<WebViewInfo, String>)
    ensures
        r is Ok,
        r->Ok_0.available == (spec_first_version(str_views(outputs@)) is Some),
        spec_first_version(str_views(outputs@)) is Some ==> r->Ok_0.version@ == spec_first_version(
            str_views(outputs@),
        )->0,
        spec_first_version(str_views(outputs@)) is None ==> r->Ok_0.version@ == "Unknown"@,
        r->Ok_0.runtime@ == "WebView2"@,
{
    let available = check_webview2_runtime(outputs);
    Ok(WebViewInfo {
        version: get_webview2_version(outputs),
        runtime: String::from_str("WebView2"),
        available,
    })
}

/// The WebView report on platforms outside the Windows family: always the
/// same fixed record, with availability true, regardless of environment.
pub fn get_webview_info() -> (r: Result<WebViewInfo, String>)
    ensures
        r is Ok,
        r->Ok_0.version@ == "System WebView"@,
        r->Ok_0.runtime@ == "System Default"@,
        r->Ok_0.available == true,
{
    Ok(WebViewInfo {
        version: String::from_str("System WebView"),
        runtime: String::from_str("System Default"),
        available: true,
    })
}

} // verus!
