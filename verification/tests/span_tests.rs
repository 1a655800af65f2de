use rasta::span::Span;
use rasta::text::u64_to_string;

#[test]
fn render_underlines_the_range() {
    let s = Span::new(
        (2, 3),
        (2, 5),
        "abcdef".to_string(),
        "main.ca".to_string(),
    );
    assert_eq!(s.render(), "main.ca:2:3\nabcdef\n  ^^\n");
}

#[test]
fn render_handles_an_empty_range() {
    let s = Span::new((1, 1), (1, 1), "x".to_string(), "f".to_string());
    assert_eq!(s.render(), "f:1:1\nx\n\n");
}

#[test]
fn render_uses_only_the_first_line() {
    // a multi-line range still shows the recorded first line; a known
    // rendering limitation that is kept
    let s = Span::new((3, 2), (5, 4), "line three".to_string(), "m.ca".to_string());
    let out = s.render();
    assert!(out.starts_with("m.ca:3:2\nline three\n"));
}

#[test]
fn span_join_keeps_ends() {
    let a = Span::new((1, 2), (1, 4), "ab".to_string(), "f".to_string());
    let b = Span::new((1, 7), (1, 9), "ab".to_string(), "f".to_string());
    let joined = a.to(&b);
    assert_eq!(joined.start, (1, 2));
    assert_eq!(joined.end, (1, 9));
    assert_eq!(joined.file, "f");
}

#[test]
fn decimal_rendering_is_exact() {
    assert_eq!(u64_to_string(0), "0");
    assert_eq!(u64_to_string(7), "7");
    assert_eq!(u64_to_string(64), "64");
    assert_eq!(u64_to_string(1030), "1030");
    assert_eq!(u64_to_string(u64::MAX), "18446744073709551615");
}
