use sidecar_supervisor::text::{chain, has_trailing_slash, render_i32, render_u64};

#[test]
fn chain_joins_in_order() {
    assert_eq!(chain("ab", "cd"), "abcd");
    assert_eq!(chain("", "cd"), "cd");
    assert_eq!(chain("ab", ""), "ab");
    assert_eq!(chain("", ""), "");
    assert_eq!(chain("é", "ß"), "éß");
}

#[test]
fn trailing_slash_is_seen() {
    assert!(has_trailing_slash("/"));
    assert!(has_trailing_slash("/home/user/"));
    assert!(!has_trailing_slash("/home/user"));
    assert!(!has_trailing_slash(""));
    assert!(!has_trailing_slash("/é"));
    assert!(has_trailing_slash("é/"));
}

#[test]
fn render_u64_matches_std() {
    for n in [0u64, 1, 9, 10, 11, 99, 100, 101, 12345, 4294967295, u64::MAX] {
        assert_eq!(render_u64(n), format!("{}", n));
    }
    assert_eq!(render_u64(0), "0");
    assert_eq!(render_u64(1203), "1203");
}

#[test]
fn render_i32_matches_std() {
    for n in [0i32, 1, -1, 9, -9, 10, -10, 137, -137, 2147483647, -2147483647, i32::MIN] {
        assert_eq!(render_i32(n), format!("{}", n));
    }
    assert_eq!(render_i32(-2147483648), "-2147483648");
    assert_eq!(render_i32(42), "42");
}
