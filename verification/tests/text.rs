use kube_mock::text::{find_str, next_segment, split_once_str, str_eq};

#[test]
fn str_eq_compares_characters() {
    assert!(str_eq("pods", "pods"));
    assert!(!str_eq("pods", "pod"));
    assert!(!str_eq("pods", "podz"));
    assert!(str_eq("", ""));
}

#[test]
fn find_str_gives_first_occurrence() {
    assert_eq!(find_str("a/api/b/api/", "/api/"), Some(1));
    assert_eq!(find_str("abc", "x"), None);
    assert_eq!(find_str("abc", ""), Some(0));
    assert_eq!(find_str("ab", "abc"), None);
}

#[test]
fn split_once_str_cuts_around_first_occurrence() {
    assert_eq!(split_once_str("apps/v1/x", "/"), Some(("apps", "v1/x")));
    assert_eq!(split_once_str("apps", "/"), None);
}

#[test]
fn next_segment_walks_like_split() {
    assert_eq!(next_segment(Some("a/b")), (Some("a"), Some("b")));
    assert_eq!(next_segment(Some("b")), (Some("b"), None));
    assert_eq!(next_segment(None), (None, None));
    assert_eq!(next_segment(Some("")), (Some(""), None));
}
