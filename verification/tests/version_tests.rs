use warp_app::version::{is_newer, parse_u32, parse_version, strip_v_prefix};

#[test]
fn strip_v_prefix_removes_leading_v() {
    assert_eq!(strip_v_prefix("v1.2.3"), "1.2.3");
    assert_eq!(strip_v_prefix("1.2.3"), "1.2.3");
    assert_eq!(strip_v_prefix("vv2"), "v2");
    assert_eq!(strip_v_prefix(""), "");
    assert_eq!(strip_v_prefix("V1.0"), "V1.0");
}

#[test]
fn parse_u32_follows_std() {
    for s in ["0", "7", "+7", "00012", "4294967295", "4294967296", "", "+", "-1", "1a", " 1", "12.3", "٣"] {
        assert_eq!(parse_u32(s), s.parse::<u32>().ok(), "input {:?}", s);
    }
    assert_eq!(parse_u32("+42"), Some(42));
    assert_eq!(parse_u32("99999999999"), None);
}

#[test]
fn parse_version_reads_three_components() {
    assert_eq!(parse_version("1.2.3"), (1, 2, 3));
    assert_eq!(parse_version("1.2"), (1, 2, 0));
    assert_eq!(parse_version(""), (0, 0, 0));
    assert_eq!(parse_version("unknown"), (0, 0, 0));
    assert_eq!(parse_version("1.2.3.4"), (1, 2, 3));
    // Pieces that are not numbers are skipped, so later numbers move up.
    assert_eq!(parse_version("1.x.3"), (1, 3, 0));
    // The pre-release and build parts of a complete major.minor.patch core do not count.
    assert_eq!(parse_version("1.2.3-beta"), (1, 2, 3));
    assert_eq!(parse_version("1.2.3-rc.1"), (1, 2, 3));
    assert_eq!(parse_version("1.2.3+build.5"), (1, 2, 3));
    // Without a complete core the whole string is split, and pieces that are not
    // numbers are skipped.
    assert_eq!(parse_version("2-rc.1"), (1, 0, 0));
    assert_eq!(parse_version("-1.2.3"), (2, 3, 0));
    assert_eq!(parse_version("1.+2.3"), (1, 2, 3));
    assert_eq!(parse_version("1.2-rc"), (1, 0, 0));
    assert_eq!(parse_version("1..3-rc"), (1, 0, 0));
    assert_eq!(parse_version("..5"), (5, 0, 0));
    assert_eq!(parse_version("10.20.30"), (10, 20, 30));
}

#[test]
fn is_newer_compares_in_order() {
    assert!(is_newer("1.2.3", "1.2.4"));
    assert!(is_newer("1.2.3", "1.3.0"));
    assert!(is_newer("1.2.3", "2.0.0"));
    assert!(is_newer("1.9.0", "1.10.0"));
    assert!(!is_newer("1.2.3", "1.2.3"));
    assert!(!is_newer("1.2.4", "1.2.3"));
    assert!(!is_newer("2.0.0", "1.99.99"));
    assert!(is_newer("unknown", "0.0.1"));
    assert!(!is_newer("unknown", "0.0.0"));
    assert!(!is_newer("1.2", "1.2.0"));
    assert!(is_newer("1.2.1", "1.2.3-rc.1"));
    assert!(!is_newer("1.2.3", "1.2.3-rc.1"));
    assert!(!is_newer("1.2.3-rc.1", "1.2.3"));
    assert!(is_newer("1.2.3+b1", "1.2.4+b0"));
}

#[test]
fn is_newer_is_a_strict_order_on_examples() {
    let versions = ["0.0.1", "0.1.0", "1.0.0", "1.0.1", "1.2", "1.2.0", "2"];
    for a in versions {
        assert!(!is_newer(a, a));
        for b in versions {
            assert!(!(is_newer(a, b) && is_newer(b, a)));
            for c in versions {
                if is_newer(a, b) && is_newer(b, c) {
                    assert!(is_newer(a, c));
                }
            }
        }
    }
}
