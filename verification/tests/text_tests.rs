use warp_app::text::{contains, join, starts_with, str_eq, trim};

#[test]
fn trim_matches_std() {
    for s in ["  a b  ", "\t\nx\r\n", "", "   ", "\u{3000}y\u{a0}", "z", " \u{85}q\u{2029}"] {
        assert_eq!(trim(s), s.trim(), "input {:?}", s);
    }
}

#[test]
fn search_helpers_match_std() {
    assert!(starts_with("warp-oss-linux-x86_64.tar.gz", "warp-oss-linux-x86_64"));
    assert!(!starts_with("warp", "warp-oss"));
    assert!(starts_with("abc", ""));
    assert!(contains("http://x", "://"));
    assert!(!contains("example.com", "://"));
    assert!(contains("abc", ""));
    assert!(str_eq("same", "same"));
    assert!(!str_eq("same", "sam"));
}

#[test]
fn join_puts_separator_between() {
    let parts = vec!["a".to_string(), "b".to_string(), "c".to_string()];
    assert_eq!(join(&parts, ", "), "a, b, c");
    assert_eq!(join(&vec![], ", "), "");
    assert_eq!(join(&vec!["only".to_string()], ", "), "only");
}
