use appkit_view::text_input::{
    attributed_substring_for_proposed_range, character_index_for_point, has_marked_text,
    actual_range, marked_range, not_found, selected_range,
    valid_attributes_for_marked_text, TextRange,
};

#[test]
fn not_found_is_largest_signed_integer() {
    assert_eq!(not_found(), isize::MAX as usize);
}

#[test]
fn selection_is_empty_at_start() {
    assert_eq!(selected_range(), TextRange { location: 0, length: 0 });
    assert!(!selected_range().is_not_found_range());
}

#[test]
fn no_marked_text() {
    assert!(!has_marked_text());
    assert_eq!(marked_range(), TextRange { location: isize::MAX as usize, length: 0 });
    assert_eq!(has_marked_text(), !marked_range().is_not_found_range());
}

#[test]
fn substring_is_none() {
    assert_eq!(attributed_substring_for_proposed_range(TextRange::new(3, 4)), None);
    assert_eq!(attributed_substring_for_proposed_range(TextRange::new(0, 0)), None);
}

#[test]
fn actual_range_is_not_found_when_requested() {
    assert_eq!(actual_range(true), Some(TextRange { location: isize::MAX as usize, length: 0 }));
    assert_eq!(actual_range(true), Some(TextRange::not_found()));
    assert_eq!(actual_range(false), None);
}

#[test]
fn no_character_under_point() {
    assert_eq!(character_index_for_point(), isize::MAX as usize);
}

#[test]
fn no_marked_text_attributes() {
    assert!(valid_attributes_for_marked_text().is_empty());
}

#[test]
fn text_range_new_and_not_found() {
    let r = TextRange::new(5, 2);
    assert_eq!((r.location, r.length), (5, 2));
    assert!(!r.is_not_found_range());
    assert!(TextRange::not_found().is_not_found_range());
}
