use appkit_view::selector::selector_argument_count;

#[test]
fn selector_without_colon_takes_no_argument() {
    assert_eq!(selector_argument_count("dealloc"), 0);
    assert_eq!(selector_argument_count(""), 0);
}

#[test]
fn selector_counts_one_argument_per_colon() {
    assert_eq!(selector_argument_count("keyDown:"), 1);
    assert_eq!(selector_argument_count("insertText:replacementRange:"), 2);
    assert_eq!(selector_argument_count("setMarkedText:selectedRange:replacementRange:"), 3);
}

#[test]
fn selector_counts_colons_in_any_position() {
    assert_eq!(selector_argument_count("::"), 2);
    assert_eq!(selector_argument_count("a:é:b"), 2);
}
