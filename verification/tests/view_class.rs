use std::collections::HashSet;

use appkit_view::selector::selector_argument_count;
use appkit_view::view_class::{view_methods, Handler};

#[test]
fn view_class_registers_forty_five_methods() {
    assert_eq!(view_methods().len(), 45);
}

#[test]
fn view_class_arities_match_selectors() {
    for entry in view_methods() {
        assert_eq!(
            selector_argument_count(entry.selector),
            entry.handler.arity(),
            "selector {}",
            entry.selector
        );
    }
}

#[test]
fn view_class_selectors_are_distinct() {
    let methods = view_methods();
    let names: HashSet<&str> = methods.iter().map(|m| m.selector).collect();
    assert_eq!(names.len(), methods.len());
}

#[test]
fn view_class_implements_text_input_client() {
    let required = [
        "insertText:replacementRange:",
        "doCommandBySelector:",
        "setMarkedText:selectedRange:replacementRange:",
        "unmarkText",
        "selectedRange",
        "markedRange",
        "hasMarkedText",
        "attributedSubstringForProposedRange:actualRange:",
        "validAttributesForMarkedText",
        "firstRectForCharacterRange:actualRange:",
        "characterIndexForPoint:",
    ];
    let methods = view_methods();
    for name in required {
        assert!(methods.iter().any(|m| m.selector == name), "missing {}", name);
    }
}

#[test]
fn view_class_drags_are_motion_events() {
    let methods = view_methods();
    for name in ["mouseMoved:", "mouseDragged:", "rightMouseDragged:", "otherMouseDragged:"] {
        let entry = methods.iter().find(|m| m.selector == name).unwrap();
        assert_eq!(entry.handler, Handler::MouseMoved);
    }
}

#[test]
fn view_class_boolean_properties() {
    let methods = view_methods();
    let find = |name: &str| methods.iter().find(|m| m.selector == name).unwrap().handler;
    assert_eq!(find("acceptsFirstResponder"), Handler::PropertyYes);
    assert_eq!(find("isFlipped"), Handler::PropertyYes);
    assert_eq!(find("preservesContentInLiveResize"), Handler::PropertyNo);
    assert_eq!(find("acceptsFirstMouse:"), Handler::AcceptsFirstMouse);
    assert_eq!(find("dealloc"), Handler::Dealloc);
}

#[test]
fn view_class_first_and_last_entries() {
    let methods = view_methods();
    assert_eq!(methods[0].selector, "acceptsFirstResponder");
    assert_eq!(methods[0].handler, Handler::PropertyYes);
    assert_eq!(methods[44].selector, "characterIndexForPoint:");
    assert_eq!(methods[44].handler, Handler::CharacterIndexForPoint);
}

#[test]
fn handler_arities() {
    assert_eq!(Handler::PropertyYes.arity(), 0);
    assert_eq!(Handler::KeyDown.arity(), 1);
    assert_eq!(Handler::InsertText.arity(), 2);
    assert_eq!(Handler::SetMarkedText.arity(), 3);
    assert_eq!(Handler::AttributedSubstringForProposedRange.arity(), 2);
}

#[test]
fn handler_constant_answers() {
    assert_eq!(Handler::PropertyYes.constant_answer(), Some(true));
    assert_eq!(Handler::AcceptsFirstMouse.constant_answer(), Some(true));
    assert_eq!(Handler::PropertyNo.constant_answer(), Some(false));
    assert_eq!(Handler::KeyDown.constant_answer(), None);
    assert_eq!(Handler::HasMarkedText.constant_answer(), None);
}

#[test]
fn view_class_constant_answers_by_selector() {
    let methods = view_methods();
    let answer = |name: &str| {
        methods.iter().find(|m| m.selector == name).unwrap().handler.constant_answer()
    };
    assert_eq!(answer("acceptsFirstResponder"), Some(true));
    assert_eq!(answer("isFlipped"), Some(true));
    assert_eq!(answer("preservesContentInLiveResize"), Some(false));
    assert_eq!(answer("acceptsFirstMouse:"), Some(true));
    assert_eq!(answer("becomeFirstResponder"), None);
}
