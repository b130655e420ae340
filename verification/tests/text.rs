use filesystem_operations::text::{bytes_equal, str_equal};

#[test]
fn bytes_equal_on_equal_slices() {
    assert!(bytes_equal(b"", b""));
    assert!(bytes_equal(b"abc", b"abc"));
    assert!(bytes_equal(&[0, 255, 7], &[0, 255, 7]));
}

#[test]
fn bytes_equal_on_different_lengths() {
    assert!(!bytes_equal(b"abc", b"ab"));
    assert!(!bytes_equal(b"ab", b"abc"));
    assert!(!bytes_equal(b"", b"a"));
}

#[test]
fn bytes_equal_on_a_difference_at_each_place() {
    assert!(!bytes_equal(b"xbc", b"abc"));
    assert!(!bytes_equal(b"axc", b"abc"));
    assert!(!bytes_equal(b"abx", b"abc"));
}

#[test]
fn str_equal_agrees_with_std() {
    let samples = ["", "a", "A", "filesystem-mcp", "Filesystem-MCP", "filesystem-mc", "\u{e9}", "e\u{301}"];
    for a in samples {
        for b in samples {
            assert_eq!(str_equal(a, b), a == b, "{:?} against {:?}", a, b);
        }
    }
}

#[test]
fn str_equal_tells_composed_from_decomposed() {
    assert!(!str_equal("\u{e9}", "e\u{301}"));
    assert!(str_equal("\u{1f4c1}", "\u{1f4c1}"));
}
