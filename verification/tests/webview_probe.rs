use compat_backend::check_webview2_runtime;
use compat_backend::get_webview2_version;
use compat_backend::get_webview_info;
use compat_backend::read_webview2_version_from_registry;
use compat_backend::webview_info_from_registry;
use compat_backend::scan::last_token;
use compat_backend::scan::line_contains_pv;
use compat_backend::scan::split_lines;

const REG_OUTPUT: &str = "\r\nHKEY_LOCAL_MACHINE\\SOFTWARE\\WOW6432Node\\Microsoft\\EdgeUpdate\\Clients\\{F3017226-FE2A-4295-8BDF-00C3A9A7E4C5}\r\n    pv    REG_SZ    109.0.1518.78\r\n\r\n";

#[test]
fn webview_info_fixed_off_windows() {
    let info = get_webview_info().unwrap();
    assert_eq!(info.version, "System WebView");
    assert_eq!(info.runtime, "System Default");
    assert!(info.available);
}

#[test]
fn webview_info_deterministic() {
    let a = get_webview_info().unwrap();
    let b = get_webview_info().unwrap();
    assert_eq!(a.version, b.version);
    assert_eq!(a.runtime, b.runtime);
    assert_eq!(a.available, b.available);
}

#[test]
fn registry_output_yields_version() {
    let outputs = vec![String::from(REG_OUTPUT)];
    assert_eq!(
        read_webview2_version_from_registry(&outputs),
        Some(String::from("109.0.1518.78"))
    );
    assert!(check_webview2_runtime(&outputs));
    assert_eq!(get_webview2_version(&outputs), "109.0.1518.78");
}

#[test]
fn no_outputs_yield_unknown() {
    let outputs: Vec<String> = Vec::new();
    assert_eq!(read_webview2_version_from_registry(&outputs), None);
    assert!(!check_webview2_runtime(&outputs));
    assert_eq!(get_webview2_version(&outputs), "Unknown");
}

#[test]
fn output_without_pv_line_yields_nothing() {
    let outputs = vec![String::from("HKEY\\Something\r\n    other    REG_SZ    1.2.3\r\n")];
    assert_eq!(read_webview2_version_from_registry(&outputs), None);
    assert_eq!(get_webview2_version(&outputs), "Unknown");
}

#[test]
fn first_output_with_version_wins() {
    let outputs = vec![
        String::from("no match here\r\n"),
        String::from(REG_OUTPUT),
        String::from("    pv    REG_SZ    9.9.9\r\n"),
    ];
    assert_eq!(
        read_webview2_version_from_registry(&outputs),
        Some(String::from("109.0.1518.78"))
    );
}

#[test]
fn first_pv_line_decides_within_one_output() {
    let outputs = vec![String::from("    pv    REG_SZ    1.0.0\n    pv    REG_SZ    2.0.0\n")];
    assert_eq!(
        read_webview2_version_from_registry(&outputs),
        Some(String::from("1.0.0"))
    );
}

#[test]
fn windows_report_built_from_outputs() {
    let found = webview_info_from_registry(&vec![String::from(REG_OUTPUT)]).unwrap();
    assert_eq!(found.version, "109.0.1518.78");
    assert_eq!(found.runtime, "WebView2");
    assert!(found.available);

    let missing = webview_info_from_registry(&Vec::new()).unwrap();
    assert_eq!(missing.version, "Unknown");
    assert_eq!(missing.runtime, "WebView2");
    assert!(!missing.available);
}

#[test]
fn split_lines_cuts_like_str_lines() {
    let text = "first\r\nsecond\nthird";
    let lines = split_lines(text);
    assert_eq!(lines, vec!["first", "second", "third"]);
    let expected: Vec<&str> = text.lines().collect();
    assert_eq!(lines, expected);
}

#[test]
fn split_lines_empty_and_trailing_newline() {
    assert!(split_lines("").is_empty());
    assert_eq!(split_lines("a\n"), vec!["a"]);
    assert_eq!(split_lines("a\n\nb"), vec!["a", "", "b"]);
}

#[test]
fn line_contains_pv_matches_substring() {
    assert!(line_contains_pv("    pv    REG_SZ    1.0"));
    assert!(line_contains_pv("pv"));
    assert!(!line_contains_pv("p v"));
    assert!(!line_contains_pv(""));
    assert!(!line_contains_pv("vp"));
}

#[test]
fn last_token_takes_last_whitespace_delimited_piece() {
    assert_eq!(
        last_token("    pv    REG_SZ    109.0.1518.78"),
        Some(String::from("109.0.1518.78"))
    );
    assert_eq!(last_token("pv"), Some(String::from("pv")));
    assert_eq!(last_token("a b\tc "), Some(String::from("c")));
    assert_eq!(last_token(""), None);
    assert_eq!(last_token(" \t "), None);
}

#[test]
fn registry_key_paths_in_query_order() {
    let paths = compat_backend::webview2_registry_key_paths();
    assert_eq!(
        paths,
        vec![
            "HKEY_LOCAL_MACHINE\\SOFTWARE\\WOW6432Node\\Microsoft\\EdgeUpdate\\Clients\\{F3017226-FE2A-4295-8BDF-00C3A9A7E4C5}",
            "HKEY_LOCAL_MACHINE\\SOFTWARE\\Microsoft\\EdgeUpdate\\Clients\\{F3017226-FE2A-4295-8BDF-00C3A9A7E4C5}",
        ]
    );
}

#[test]
fn final_piece_without_newline_kept_whole() {
    let text = "a\r\nb\r";
    let lines = split_lines(text);
    assert_eq!(lines, vec!["a", "b\r"]);
    let expected: Vec<&str> = text.lines().collect();
    assert_eq!(lines, expected);
}

#[test]
fn unicode_whitespace_delimits_tokens() {
    assert_eq!(last_token("a\u{A0}b"), Some(String::from("b")));
    assert_eq!(last_token("a\u{2003}b\u{0C}c"), Some(String::from("c")));
    assert_eq!(last_token("x\u{3000}"), Some(String::from("x")));
    assert_eq!(
        "a\u{A0}b".split_whitespace().last(),
        Some("b")
    );
}
