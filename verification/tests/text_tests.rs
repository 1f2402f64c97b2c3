use zed_mojo::text::{contains_str, ends_with_str, find_str, join2, join3, rfind_str, take_chars};

#[test]
fn searching_text() {
    assert_eq!(find_str("a/bin/b/bin/c", "/bin/"), Some(1));
    assert_eq!(rfind_str("a/bin/b/bin/c", "/bin/"), Some(7));
    assert_eq!(find_str("abc", "x"), None);
    assert_eq!(rfind_str("ab", "abc"), None);
    assert!(contains_str("[tool.pixi]", "tool.pixi"));
    assert!(!contains_str("mo", "mojo"));
    assert!(ends_with_str("/home/.pixi", "/.pixi"));
    assert!(!ends_with_str("/home/.pix", "/.pixi"));
}

#[test]
fn positions_count_characters() {
    assert_eq!(find_str("é/bin/x", "/bin/"), Some(1));
    assert_eq!(take_chars("é/bin/x", 1), "é");
}

#[test]
fn joining_text() {
    assert_eq!(join2("a", "b"), "ab");
    assert_eq!(join3("a", "=", "b"), "a=b");
}
