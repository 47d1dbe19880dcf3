//! The methods that the view class registers with the Objective-C runtime.
//!
//! The class is built at run time: for every entry of [`view_methods`] the
//! selector is bound to the implementation that [`Handler`] names. The runtime's
//! class builder refuses (and panics on) a selector whose number of colons differs
//! from the number of arguments the implementation takes, and a selector that the
//! class already has; the laws below show that neither happens for this table. They
//! also show that the class implements every method that the text-input client
//! protocol requires, which it declares that it conforms to.
use vstd::prelude::*;

use crate::selector::{colons_from, selector_arity};

verus! {

/// An implementation that the view class binds to a selector.
#[derive(Clone, Copy, Debug, PartialEq, Eq, Structural)]
pub enum Handler {
    /// Answers yes (a boolean property that is always on).
    PropertyYes,
    /// Asks the view whether it takes keyboard focus.
    BecomeFirstResponder,
    /// Asks the view whether it gives up keyboard focus.
    ResignFirstResponder,
    /// Answers no (a boolean property that is always off).
    PropertyNo,
    /// Answers yes to the click that activates the window.
    AcceptsFirstMouse,
    /// Asks the view whether its window may close.
    WindowShouldClose,
    /// Tears the view down (see `teardown`).
    Dealloc,
    /// Tells the view that it moves to another window.
    ViewWillMoveToWindow,
    /// Asks the view which view lies under a point.
    HitTest,
    /// Tells the view to refresh its mouse-tracking areas.
    UpdateTrackingAreas,
    /// Hands a pointer motion or drag event to the view.
    MouseMoved,
    /// Hands a scroll event to the view.
    ScrollWheel,
    /// Tells the view that its scale factor or color space changed.
    ViewDidChangeBackingProperties,
    /// Tells the view that a drag entered it.
    DraggingEntered,
    /// Asks the view whether it prepares for a drop.
    PrepareForDragOperation,
    /// Asks the view to perform a drop.
    PerformDragOperation,
    /// Tells the view that a drag moved within it.
    DraggingUpdated,
    /// Tells the view that a drag left it.
    DraggingExited,
    /// Hands a notification to the view.
    HandleNotification,
    /// Hands a left button press to the view.
    MouseDown,
    /// Hands a left button release to the view.
    MouseUp,
    /// Hands a right button press to the view.
    RightMouseDown,
    /// Hands a right button release to the view.
    RightMouseUp,
    /// Hands a press of another button to the view.
    OtherMouseDown,
    /// Hands a release of another button to the view.
    OtherMouseUp,
    /// Tells the view that the pointer entered it.
    MouseEntered,
    /// Tells the view that the pointer left it.
    MouseExited,
    /// Hands a key press to the view.
    KeyDown,
    /// Hands a key release to the view.
    KeyUp,
    /// Hands a change of the modifier keys to the view.
    FlagsChanged,
    /// Text-input client: inserts text (ignored).
    InsertText,
    /// Text-input client: runs an editing command (ignored).
    DoCommandBySelector,
    /// Text-input client: sets the marked text (ignored).
    SetMarkedText,
    /// Text-input client: commits the marked text (ignored).
    UnmarkText,
    /// Text-input client: reports the selection.
    SelectedRange,
    /// Text-input client: reports the marked text.
    MarkedRange,
    /// Text-input client: tells whether there is marked text.
    HasMarkedText,
    /// Text-input client: returns the text in a range.
    AttributedSubstringForProposedRange,
    /// Text-input client: lists the attributes supported in marked text.
    ValidAttributesForMarkedText,
    /// Text-input client: returns the screen rectangle of a range.
    FirstRectForCharacterRange,
    /// Text-input client: returns the character under a point.
    CharacterIndexForPoint,
}

impl Handler {
    /// Whether this is the implementation that AppKit's selector `name` calls
    /// for: each implementation answers the selectors named after it (the
    /// pointer-motion handler also answers the three drag selectors, the always-yes
    /// property answers both yes properties).
    pub open spec fn spec_answers_selector(self, name: Seq<char>) -> bool {
        match self {
            Handler::PropertyYes => name == "acceptsFirstResponder"@ || name == "isFlipped"@,
            Handler::BecomeFirstResponder => name == "becomeFirstResponder"@,
            Handler::ResignFirstResponder => name == "resignFirstResponder"@,
            Handler::PropertyNo => name == "preservesContentInLiveResize"@,
            Handler::AcceptsFirstMouse => name == "acceptsFirstMouse:"@,
            Handler::WindowShouldClose => name == "windowShouldClose:"@,
            Handler::Dealloc => name == "dealloc"@,
            Handler::ViewWillMoveToWindow => name == "viewWillMoveToWindow:"@,
            Handler::HitTest => name == "hitTest:"@,
            Handler::UpdateTrackingAreas => name == "updateTrackingAreas:"@,
            Handler::MouseMoved => name == "mouseMoved:"@ || name == "mouseDragged:"@ || name == "rightMouseDragged:"@ || name == "otherMouseDragged:"@,
            Handler::ScrollWheel => name == "scrollWheel:"@,
            Handler::ViewDidChangeBackingProperties => name == "viewDidChangeBackingProperties:"@,
            Handler::DraggingEntered => name == "draggingEntered:"@,
            Handler::PrepareForDragOperation => name == "prepareForDragOperation:"@,
            Handler::PerformDragOperation => name == "performDragOperation:"@,
            Handler::DraggingUpdated => name == "draggingUpdated:"@,
            Handler::DraggingExited => name == "draggingExited:"@,
            Handler::HandleNotification => name == "handleNotification:"@,
            Handler::MouseDown => name == "mouseDown:"@,
            Handler::MouseUp => name == "mouseUp:"@,
            Handler::RightMouseDown => name == "rightMouseDown:"@,
            Handler::RightMouseUp => name == "rightMouseUp:"@,
            Handler::OtherMouseDown => name == "otherMouseDown:"@,
            Handler::OtherMouseUp => name == "otherMouseUp:"@,
            Handler::MouseEntered => name == "mouseEntered:"@,
            Handler::MouseExited => name == "mouseExited:"@,
            Handler::KeyDown => name == "keyDown:"@,
            Handler::KeyUp => name == "keyUp:"@,
            Handler::FlagsChanged => name == "flagsChanged:"@,
            Handler::InsertText => name == "insertText:replacementRange:"@,
            Handler::DoCommandBySelector => name == "doCommandBySelector:"@,
            Handler::SetMarkedText => name == "setMarkedText:selectedRange:replacementRange:"@,
            Handler::UnmarkText => name == "unmarkText"@,
            Handler::SelectedRange => name == "selectedRange"@,
            Handler::MarkedRange => name == "markedRange"@,
            Handler::HasMarkedText => name == "hasMarkedText"@,
            Handler::AttributedSubstringForProposedRange => name == "attributedSubstringForProposedRange:actualRange:"@,
            Handler::ValidAttributesForMarkedText => name == "validAttributesForMarkedText"@,
            Handler::FirstRectForCharacterRange => name == "firstRectForCharacterRange:actualRange:"@,
            Handler::CharacterIndexForPoint => name == "characterIndexForPoint:"@,
        }
    }

    /// The fixed answer of an implementation that answers every call with the
    /// same yes or no, whatever the view: yes for `PropertyYes` and
    /// `AcceptsFirstMouse`, no for `PropertyNo`; `None` for an implementation
    /// whose answer depends on the view or that answers nothing.
    pub open spec fn spec_constant_answer(self) -> Option<bool> {
        match self {
            Handler::PropertyYes => Some(true),
            Handler::AcceptsFirstMouse => Some(true),
            Handler::PropertyNo => Some(false),
            _ => None,
        }
    }

    /// Returns the fixed yes-or-no answer of the implementation, or `None` if
    /// it has none.
    pub fn constant_answer(&self) -> (answer: Option<bool>)
        ensures
            answer == self.spec_constant_answer(),
    {
        match self {
            Handler::PropertyYes => Some(true),
            Handler::AcceptsFirstMouse => Some(true),
            Handler::PropertyNo => Some(false),
            _ => None,
        }
    }

    /// The number of arguments the implementation takes besides the receiver
    /// and the selector.
    pub open spec fn spec_arity(self) -> nat {
        match self {
            Handler::PropertyYes
            | Handler::BecomeFirstResponder
            | Handler::ResignFirstResponder
            | Handler::PropertyNo
            | Handler::Dealloc
            | Handler::UnmarkText
            | Handler::SelectedRange
            | Handler::MarkedRange
            | Handler::HasMarkedText
            | Handler::ValidAttributesForMarkedText => 0nat,
            Handler::AcceptsFirstMouse
            | Handler::WindowShouldClose
            | Handler::ViewWillMoveToWindow
            | Handler::HitTest
            | Handler::UpdateTrackingAreas
            | Handler::MouseMoved
            | Handler::ScrollWheel
            | Handler::ViewDidChangeBackingProperties
            | Handler::DraggingEntered
            | Handler::PrepareForDragOperation
            | Handler::PerformDragOperation
            | Handler::DraggingUpdated
            | Handler::DraggingExited
            | Handler::HandleNotification
            | Handler::MouseDown
            | Handler::MouseUp
            | Handler::RightMouseDown
            | Handler::RightMouseUp
            | Handler::OtherMouseDown
            | Handler::OtherMouseUp
            | Handler::MouseEntered
            | Handler::MouseExited
            | Handler::KeyDown
            | Handler::KeyUp
            | Handler::FlagsChanged
            | Handler::DoCommandBySelector
            | Handler::CharacterIndexForPoint => 1nat,
            Handler::InsertText
            | Handler::AttributedSubstringForProposedRange
            | Handler::FirstRectForCharacterRange => 2nat,
            Handler::SetMarkedText => 3nat,
        }
    }

    /// Returns the number of arguments the implementation takes besides the
    /// receiver and the selector.
    pub fn arity(&self) -> (n: usize)
        ensures
            n == self.spec_arity(),
    {
        match self {
            Handler::PropertyYes
            | Handler::BecomeFirstResponder
            | Handler::ResignFirstResponder
            | Handler::PropertyNo
            | Handler::Dealloc
            | Handler::UnmarkText
            | Handler::SelectedRange
            | Handler::MarkedRange
            | Handler::HasMarkedText
            | Handler::ValidAttributesForMarkedText => 0,
            Handler::AcceptsFirstMouse
            | Handler::WindowShouldClose
            | Handler::ViewWillMoveToWindow
            | Handler::HitTest
            | Handler::UpdateTrackingAreas
            | Handler::MouseMoved
            | Handler::ScrollWheel
            | Handler::ViewDidChangeBackingProperties
            | Handler::DraggingEntered
            | Handler::PrepareForDragOperation
            | Handler::PerformDragOperation
            | Handler::DraggingUpdated
            | Handler::DraggingExited
            | Handler::HandleNotification
            | Handler::MouseDown
            | Handler::MouseUp
            | Handler::RightMouseDown
            | Handler::RightMouseUp
            | Handler::OtherMouseDown
            | Handler::OtherMouseUp
            | Handler::MouseEntered
            | Handler::MouseExited
            | Handler::KeyDown
            | Handler::KeyUp
            | Handler::FlagsChanged
            | Handler::DoCommandBySelector
            | Handler::CharacterIndexForPoint => 1,
            Handler::InsertText
            | Handler::AttributedSubstringForProposedRange
            | Handler::FirstRectForCharacterRange => 2,
            Handler::SetMarkedText => 3,
        }
    }
}

/// A method of the view class: the selector's name and its implementation.
#[derive(Clone, Copy, Debug)]
pub struct MethodEntry {
    pub selector: &'static str,
    pub handler: Handler,
}

/// The methods of the view class, in the order in which they are registered.
pub open spec fn spec_view_methods() -> Seq<(Seq<char>, Handler)> {
    seq![
        ("acceptsFirstResponder"@, Handler::PropertyYes),
        ("becomeFirstResponder"@, Handler::BecomeFirstResponder),
        ("resignFirstResponder"@, Handler::ResignFirstResponder),
        ("isFlipped"@, Handler::PropertyYes),
        ("preservesContentInLiveResize"@, Handler::PropertyNo),
        ("acceptsFirstMouse:"@, Handler::AcceptsFirstMouse),
        ("windowShouldClose:"@, Handler::WindowShouldClose),
        ("dealloc"@, Handler::Dealloc),
        ("viewWillMoveToWindow:"@, Handler::ViewWillMoveToWindow),
        ("hitTest:"@, Handler::HitTest),
        ("updateTrackingAreas:"@, Handler::UpdateTrackingAreas),
        ("mouseMoved:"@, Handler::MouseMoved),
        ("mouseDragged:"@, Handler::MouseMoved),
        ("rightMouseDragged:"@, Handler::MouseMoved),
        ("otherMouseDragged:"@, Handler::MouseMoved),
        ("scrollWheel:"@, Handler::ScrollWheel),
        ("viewDidChangeBackingProperties:"@, Handler::ViewDidChangeBackingProperties),
        ("draggingEntered:"@, Handler::DraggingEntered),
        ("prepareForDragOperation:"@, Handler::PrepareForDragOperation),
        ("performDragOperation:"@, Handler::PerformDragOperation),
        ("draggingUpdated:"@, Handler::DraggingUpdated),
        ("draggingExited:"@, Handler::DraggingExited),
        ("handleNotification:"@, Handler::HandleNotification),
        ("mouseDown:"@, Handler::MouseDown),
        ("mouseUp:"@, Handler::MouseUp),
        ("rightMouseDown:"@, Handler::RightMouseDown),
        ("rightMouseUp:"@, Handler::RightMouseUp),
        ("otherMouseDown:"@, Handler::OtherMouseDown),
        ("otherMouseUp:"@, Handler::OtherMouseUp),
        ("mouseEntered:"@, Handler::MouseEntered),
        ("mouseExited:"@, Handler::MouseExited),
        ("keyDown:"@, Handler::KeyDown),
        ("keyUp:"@, Handler::KeyUp),
        ("flagsChanged:"@, Handler::FlagsChanged),
        ("insertText:replacementRange:"@, Handler::InsertText),
        ("doCommandBySelector:"@, Handler::DoCommandBySelector),
        ("setMarkedText:selectedRange:replacementRange:"@, Handler::SetMarkedText),
        ("unmarkText"@, Handler::UnmarkText),
        ("selectedRange"@, Handler::SelectedRange),
        ("markedRange"@, Handler::MarkedRange),
        ("hasMarkedText"@, Handler::HasMarkedText),
        ("attributedSubstringForProposedRange:actualRange:"@, Handler::AttributedSubstringForProposedRange),
        ("validAttributesForMarkedText"@, Handler::ValidAttributesForMarkedText),
        ("firstRectForCharacterRange:actualRange:"@, Handler::FirstRectForCharacterRange),
        ("characterIndexForPoint:"@, Handler::CharacterIndexForPoint),
    ]
}

/// Returns the methods of the view class, in the order in which they are
/// registered.
pub fn view_methods() -> (methods: Vec<MethodEntry>)
    ensures
        methods@.len() == spec_view_methods().len(),
        forall|i: int|
            0 <= i < methods@.len() ==> (#[trigger] methods@[i]).selector@ == spec_view_methods()[i].0
                && methods@[i].handler == spec_view_methods()[i].1,
        forall|i: int|
            0 <= i < methods@.len() ==> (#[trigger] methods@[i]).handler.spec_answers_selector(
                methods@[i].selector@,
            ),
{
    proof {
        lemma_view_methods_answer_their_selectors();
    }
    vec![
        MethodEntry { selector: "acceptsFirstResponder", handler: Handler::PropertyYes },
        MethodEntry { selector: "becomeFirstResponder", handler: Handler::BecomeFirstResponder },
        MethodEntry { selector: "resignFirstResponder", handler: Handler::ResignFirstResponder },
        MethodEntry { selector: "isFlipped", handler: Handler::PropertyYes },
        MethodEntry { selector: "preservesContentInLiveResize", handler: Handler::PropertyNo },
        MethodEntry { selector: "acceptsFirstMouse:", handler: Handler::AcceptsFirstMouse },
        MethodEntry { selector: "windowShouldClose:", handler: Handler::WindowShouldClose },
        MethodEntry { selector: "dealloc", handler: Handler::Dealloc },
        MethodEntry { selector: "viewWillMoveToWindow:", handler: Handler::ViewWillMoveToWindow },
        MethodEntry { selector: "hitTest:", handler: Handler::HitTest },
        MethodEntry { selector: "updateTrackingAreas:", handler: Handler::UpdateTrackingAreas },
        MethodEntry { selector: "mouseMoved:", handler: Handler::MouseMoved },
        MethodEntry { selector: "mouseDragged:", handler: Handler::MouseMoved },
        MethodEntry { selector: "rightMouseDragged:", handler: Handler::MouseMoved },
        MethodEntry { selector: "otherMouseDragged:", handler: Handler::MouseMoved },
        MethodEntry { selector: "scrollWheel:", handler: Handler::ScrollWheel },
        MethodEntry { selector: "viewDidChangeBackingProperties:", handler: Handler::ViewDidChangeBackingProperties },
        MethodEntry { selector: "draggingEntered:", handler: Handler::DraggingEntered },
        MethodEntry { selector: "prepareForDragOperation:", handler: Handler::PrepareForDragOperation },
        MethodEntry { selector: "performDragOperation:", handler: Handler::PerformDragOperation },
        MethodEntry { selector: "draggingUpdated:", handler: Handler::DraggingUpdated },
        MethodEntry { selector: "draggingExited:", handler: Handler::DraggingExited },
        MethodEntry { selector: "handleNotification:", handler: Handler::HandleNotification },
        MethodEntry { selector: "mouseDown:", handler: Handler::MouseDown },
        MethodEntry { selector: "mouseUp:", handler: Handler::MouseUp },
        MethodEntry { selector: "rightMouseDown:", handler: Handler::RightMouseDown },
        MethodEntry { selector: "rightMouseUp:", handler: Handler::RightMouseUp },
        MethodEntry { selector: "otherMouseDown:", handler: Handler::OtherMouseDown },
        MethodEntry { selector: "otherMouseUp:", handler: Handler::OtherMouseUp },
        MethodEntry { selector: "mouseEntered:", handler: Handler::MouseEntered },
        MethodEntry { selector: "mouseExited:", handler: Handler::MouseExited },
        MethodEntry { selector: "keyDown:", handler: Handler::KeyDown },
        MethodEntry { selector: "keyUp:", handler: Handler::KeyUp },
        MethodEntry { selector: "flagsChanged:", handler: Handler::FlagsChanged },
        MethodEntry { selector: "insertText:replacementRange:", handler: Handler::InsertText },
        MethodEntry { selector: "doCommandBySelector:", handler: Handler::DoCommandBySelector },
        MethodEntry { selector: "setMarkedText:selectedRange:replacementRange:", handler: Handler::SetMarkedText },
        MethodEntry { selector: "unmarkText", handler: Handler::UnmarkText },
        MethodEntry { selector: "selectedRange", handler: Handler::SelectedRange },
        MethodEntry { selector: "markedRange", handler: Handler::MarkedRange },
        MethodEntry { selector: "hasMarkedText", handler: Handler::HasMarkedText },
        MethodEntry { selector: "attributedSubstringForProposedRange:actualRange:", handler: Handler::AttributedSubstringForProposedRange },
        MethodEntry { selector: "validAttributesForMarkedText", handler: Handler::ValidAttributesForMarkedText },
        MethodEntry { selector: "firstRectForCharacterRange:actualRange:", handler: Handler::FirstRectForCharacterRange },
        MethodEntry { selector: "characterIndexForPoint:", handler: Handler::CharacterIndexForPoint },
    ]
}

/// The selectors that the text-input client protocol requires.
pub open spec fn spec_text_input_client_selectors() -> Seq<Seq<char>> {
    seq![
        "insertText:replacementRange:"@,
        "doCommandBySelector:"@,
        "setMarkedText:selectedRange:replacementRange:"@,
        "unmarkText"@,
        "selectedRange"@,
        "markedRange"@,
        "hasMarkedText"@,
        "attributedSubstringForProposedRange:actualRange:"@,
        "validAttributesForMarkedText"@,
        "firstRectForCharacterRange:actualRange:"@,
        "characterIndexForPoint:"@,
    ]
}

/// A key that tells the selector names of the table apart: the length and
/// the characters at positions 0, 5 and 8 (a space where the name is shorter).
spec fn name_key(name: Seq<char>) -> (nat, char, char, char) {
    (
        name.len(),
        name[0],
        if 5 < name.len() { name[5] } else { ' ' },
        if 8 < name.len() { name[8] } else { ' ' },
    )
}

/// The position in the table of the selector with the given key.
spec fn position_of_key(key: (nat, char, char, char)) -> int {
    if key == (21nat, 'a', 't', 'i') {
        0
    } else if key == (20nat, 'b', 'e', 'r') {
        1
    } else if key == (20nat, 'r', 'n', 'r') {
        2
    } else if key == (9nat, 'i', 'p', 'd') {
        3
    } else if key == (28nat, 'p', 'r', 's') {
        4
    } else if key == (18nat, 'a', 't', 'i') {
        5
    } else if key == (18nat, 'w', 'w', 'o') {
        6
    } else if key == (7nat, 'd', 'o', ' ') {
        7
    } else if key == (21nat, 'v', 'i', 'M') {
        8
    } else if key == (8nat, 'h', 's', ' ') {
        9
    } else if key == (20nat, 'u', 'e', 'a') {
        10
    } else if key == (11nat, 'm', 'M', 'e') {
        11
    } else if key == (13nat, 'm', 'D', 'g') {
        12
    } else if key == (18nat, 'r', 'M', 's') {
        13
    } else if key == (18nat, 'o', 'M', 's') {
        14
    } else if key == (12nat, 's', 'l', 'e') {
        15
    } else if key == (31nat, 'v', 'i', 'h') {
        16
    } else if key == (16nat, 'd', 'i', 'E') {
        17
    } else if key == (24nat, 'p', 'r', 'o') {
        18
    } else if key == (21nat, 'p', 'r', 'r') {
        19
    } else if key == (16nat, 'd', 'i', 'U') {
        20
    } else if key == (15nat, 'd', 'i', 'E') {
        21
    } else if key == (19nat, 'h', 'e', 't') {
        22
    } else if key == (10nat, 'm', 'D', 'n') {
        23
    } else if key == (8nat, 'm', 'U', ' ') {
        24
    } else if key == (15nat, 'r', 'M', 's') {
        25
    } else if key == (13nat, 'r', 'M', 's') {
        26
    } else if key == (15nat, 'o', 'M', 's') {
        27
    } else if key == (13nat, 'o', 'M', 's') {
        28
    } else if key == (13nat, 'm', 'E', 'e') {
        29
    } else if key == (12nat, 'm', 'E', 't') {
        30
    } else if key == (8nat, 'k', 'w', ' ') {
        31
    } else if key == (6nat, 'k', ':', ' ') {
        32
    } else if key == (13nat, 'f', 'C', 'n') {
        33
    } else if key == (28nat, 'i', 't', 'x') {
        34
    } else if key == (20nat, 'd', 'm', 'd') {
        35
    } else if key == (45nat, 's', 'r', 'd') {
        36
    } else if key == (10nat, 'u', 'k', 'x') {
        37
    } else if key == (13nat, 's', 't', 'R') {
        38
    } else if key == (11nat, 'm', 'd', 'n') {
        39
    } else if key == (13nat, 'h', 'r', 'd') {
        40
    } else if key == (48nat, 'a', 'b', 'e') {
        41
    } else if key == (28nat, 'v', 'A', 'r') {
        42
    } else if key == (39nat, 'f', 'R', 't') {
        43
    } else if key == (23nat, 'c', 'c', 'r') {
        44
    } else {
        -1
    }
}

/// The argument count and the key of the selector names 0 to 4 of the table.
proof fn lemma_selector_names_0()
    ensures
        selector_arity("acceptsFirstResponder"@) == 0,
        name_key("acceptsFirstResponder"@) == (21nat, 'a', 't', 'i'),
        selector_arity("becomeFirstResponder"@) == 0,
        name_key("becomeFirstResponder"@) == (20nat, 'b', 'e', 'r'),
        selector_arity("resignFirstResponder"@) == 0,
        name_key("resignFirstResponder"@) == (20nat, 'r', 'n', 'r'),
        selector_arity("isFlipped"@) == 0,
        name_key("isFlipped"@) == (9nat, 'i', 'p', 'd'),
        selector_arity("preservesContentInLiveResize"@) == 0,
        name_key("preservesContentInLiveResize"@) == (28nat, 'p', 'r', 's'),
{
    assert(selector_arity("acceptsFirstResponder"@) == 0 && name_key("acceptsFirstResponder"@) == (21nat, 'a', 't', 'i')) by {
        reveal_strlit("acceptsFirstResponder");
        reveal_with_fuel(colons_from, 22);
    }
    assert(selector_arity("becomeFirstResponder"@) == 0 && name_key("becomeFirstResponder"@) == (20nat, 'b', 'e', 'r')) by {
        reveal_strlit("becomeFirstResponder");
        reveal_with_fuel(colons_from, 21);
    }
    assert(selector_arity("resignFirstResponder"@) == 0 && name_key("resignFirstResponder"@) == (20nat, 'r', 'n', 'r')) by {
        reveal_strlit("resignFirstResponder");
        reveal_with_fuel(colons_from, 21);
    }
    assert(selector_arity("isFlipped"@) == 0 && name_key("isFlipped"@) == (9nat, 'i', 'p', 'd')) by {
        reveal_strlit("isFlipped");
        reveal_with_fuel(colons_from, 10);
    }
    assert(selector_arity("preservesContentInLiveResize"@) == 0 && name_key("preservesContentInLiveResize"@) == (28nat, 'p', 'r', 's')) by {
        reveal_strlit("preservesContentInLiveResize");
        reveal_with_fuel(colons_from, 29);
    }
}

/// The argument count and the key of the selector names 5 to 9 of the table.
proof fn lemma_selector_names_1()
    ensures
        selector_arity("acceptsFirstMouse:"@) == 1,
        name_key("acceptsFirstMouse:"@) == (18nat, 'a', 't', 'i'),
        selector_arity("windowShouldClose:"@) == 1,
        name_key("windowShouldClose:"@) == (18nat, 'w', 'w', 'o'),
        selector_arity("dealloc"@) == 0,
        name_key("dealloc"@) == (7nat, 'd', 'o', ' '),
        selector_arity("viewWillMoveToWindow:"@) == 1,
        name_key("viewWillMoveToWindow:"@) == (21nat, 'v', 'i', 'M'),
        selector_arity("hitTest:"@) == 1,
        name_key("hitTest:"@) == (8nat, 'h', 's', ' '),
{
    assert(selector_arity("acceptsFirstMouse:"@) == 1 && name_key("acceptsFirstMouse:"@) == (18nat, 'a', 't', 'i')) by {
        reveal_strlit("acceptsFirstMouse:");
        reveal_with_fuel(colons_from, 19);
    }
    assert(selector_arity("windowShouldClose:"@) == 1 && name_key("windowShouldClose:"@) == (18nat, 'w', 'w', 'o')) by {
        reveal_strlit("windowShouldClose:");
        reveal_with_fuel(colons_from, 19);
    }
    assert(selector_arity("dealloc"@) == 0 && name_key("dealloc"@) == (7nat, 'd', 'o', ' ')) by {
        reveal_strlit("dealloc");
        reveal_with_fuel(colons_from, 8);
    }
    assert(selector_arity("viewWillMoveToWindow:"@) == 1 && name_key("viewWillMoveToWindow:"@) == (21nat, 'v', 'i', 'M')) by {
        reveal_strlit("viewWillMoveToWindow:");
        reveal_with_fuel(colons_from, 22);
    }
    assert(selector_arity("hitTest:"@) == 1 && name_key("hitTest:"@) == (8nat, 'h', 's', ' ')) by {
        reveal_strlit("hitTest:");
        reveal_with_fuel(colons_from, 9);
    }
}

/// The argument count and the key of the selector names 10 to 14 of the table.
proof fn lemma_selector_names_2()
    ensures
        selector_arity("updateTrackingAreas:"@) == 1,
        name_key("updateTrackingAreas:"@) == (20nat, 'u', 'e', 'a'),
        selector_arity("mouseMoved:"@) == 1,
        name_key("mouseMoved:"@) == (11nat, 'm', 'M', 'e'),
        selector_arity("mouseDragged:"@) == 1,
        name_key("mouseDragged:"@) == (13nat, 'm', 'D', 'g'),
        selector_arity("rightMouseDragged:"@) == 1,
        name_key("rightMouseDragged:"@) == (18nat, 'r', 'M', 's'),
        selector_arity("otherMouseDragged:"@) == 1,
        name_key("otherMouseDragged:"@) == (18nat, 'o', 'M', 's'),
{
    assert(selector_arity("updateTrackingAreas:"@) == 1 && name_key("updateTrackingAreas:"@) == (20nat, 'u', 'e', 'a')) by {
        reveal_strlit("updateTrackingAreas:");
        reveal_with_fuel(colons_from, 21);
    }
    assert(selector_arity("mouseMoved:"@) == 1 && name_key("mouseMoved:"@) == (11nat, 'm', 'M', 'e')) by {
        reveal_strlit("mouseMoved:");
        reveal_with_fuel(colons_from, 12);
    }
    assert(selector_arity("mouseDragged:"@) == 1 && name_key("mouseDragged:"@) == (13nat, 'm', 'D', 'g')) by {
        reveal_strlit("mouseDragged:");
        reveal_with_fuel(colons_from, 14);
    }
    assert(selector_arity("rightMouseDragged:"@) == 1 && name_key("rightMouseDragged:"@) == (18nat, 'r', 'M', 's')) by {
        reveal_strlit("rightMouseDragged:");
        reveal_with_fuel(colons_from, 19);
    }
    assert(selector_arity("otherMouseDragged:"@) == 1 && name_key("otherMouseDragged:"@) == (18nat, 'o', 'M', 's')) by {
        reveal_strlit("otherMouseDragged:");
        reveal_with_fuel(colons_from, 19);
    }
}

/// The argument count and the key of the selector names 15 to 19 of the table.
proof fn lemma_selector_names_3()
    ensures
        selector_arity("scrollWheel:"@) == 1,
        name_key("scrollWheel:"@) == (12nat, 's', 'l', 'e'),
        selector_arity("viewDidChangeBackingProperties:"@) == 1,
        name_key("viewDidChangeBackingProperties:"@) == (31nat, 'v', 'i', 'h'),
        selector_arity("draggingEntered:"@) == 1,
        name_key("draggingEntered:"@) == (16nat, 'd', 'i', 'E'),
        selector_arity("prepareForDragOperation:"@) == 1,
        name_key("prepareForDragOperation:"@) == (24nat, 'p', 'r', 'o'),
        selector_arity("performDragOperation:"@) == 1,
        name_key("performDragOperation:"@) == (21nat, 'p', 'r', 'r'),
{
    assert(selector_arity("scrollWheel:"@) == 1 && name_key("scrollWheel:"@) == (12nat, 's', 'l', 'e')) by {
        reveal_strlit("scrollWheel:");
        reveal_with_fuel(colons_from, 13);
    }
    assert(selector_arity("viewDidChangeBackingProperties:"@) == 1 && name_key("viewDidChangeBackingProperties:"@) == (31nat, 'v', 'i', 'h')) by {
        reveal_strlit("viewDidChangeBackingProperties:");
        reveal_with_fuel(colons_from, 32);
    }
    assert(selector_arity("draggingEntered:"@) == 1 && name_key("draggingEntered:"@) == (16nat, 'd', 'i', 'E')) by {
        reveal_strlit("draggingEntered:");
        reveal_with_fuel(colons_from, 17);
    }
    assert(selector_arity("prepareForDragOperation:"@) == 1 && name_key("prepareForDragOperation:"@) == (24nat, 'p', 'r', 'o')) by {
        reveal_strlit("prepareForDragOperation:");
        reveal_with_fuel(colons_from, 25);
    }
    assert(selector_arity("performDragOperation:"@) == 1 && name_key("performDragOperation:"@) == (21nat, 'p', 'r', 'r')) by {
        reveal_strlit("performDragOperation:");
        reveal_with_fuel(colons_from, 22);
    }
}

/// The argument count and the key of the selector names 20 to 24 of the table.
proof fn lemma_selector_names_4()
    ensures
        selector_arity("draggingUpdated:"@) == 1,
        name_key("draggingUpdated:"@) == (16nat, 'd', 'i', 'U'),
        selector_arity("draggingExited:"@) == 1,
        name_key("draggingExited:"@) == (15nat, 'd', 'i', 'E'),
        selector_arity("handleNotification:"@) == 1,
        name_key("handleNotification:"@) == (19nat, 'h', 'e', 't'),
        selector_arity("mouseDown:"@) == 1,
        name_key("mouseDown:"@) == (10nat, 'm', 'D', 'n'),
        selector_arity("mouseUp:"@) == 1,
        name_key("mouseUp:"@) == (8nat, 'm', 'U', ' '),
{
    assert(selector_arity("draggingUpdated:"@) == 1 && name_key("draggingUpdated:"@) == (16nat, 'd', 'i', 'U')) by {
        reveal_strlit("draggingUpdated:");
        reveal_with_fuel(colons_from, 17);
    }
    assert(selector_arity("draggingExited:"@) == 1 && name_key("draggingExited:"@) == (15nat, 'd', 'i', 'E')) by {
        reveal_strlit("draggingExited:");
        reveal_with_fuel(colons_from, 16);
    }
    assert(selector_arity("handleNotification:"@) == 1 && name_key("handleNotification:"@) == (19nat, 'h', 'e', 't')) by {
        reveal_strlit("handleNotification:");
        reveal_with_fuel(colons_from, 20);
    }
    assert(selector_arity("mouseDown:"@) == 1 && name_key("mouseDown:"@) == (10nat, 'm', 'D', 'n')) by {
        reveal_strlit("mouseDown:");
        reveal_with_fuel(colons_from, 11);
    }
    assert(selector_arity("mouseUp:"@) == 1 && name_key("mouseUp:"@) == (8nat, 'm', 'U', ' ')) by {
        reveal_strlit("mouseUp:");
        reveal_with_fuel(colons_from, 9);
    }
}

/// The argument count and the key of the selector names 25 to 29 of the table.
proof fn lemma_selector_names_5()
    ensures
        selector_arity("rightMouseDown:"@) == 1,
        name_key("rightMouseDown:"@) == (15nat, 'r', 'M', 's'),
        selector_arity("rightMouseUp:"@) == 1,
        name_key("rightMouseUp:"@) == (13nat, 'r', 'M', 's'),
        selector_arity("otherMouseDown:"@) == 1,
        name_key("otherMouseDown:"@) == (15nat, 'o', 'M', 's'),
        selector_arity("otherMouseUp:"@) == 1,
        name_key("otherMouseUp:"@) == (13nat, 'o', 'M', 's'),
        selector_arity("mouseEntered:"@) == 1,
        name_key("mouseEntered:"@) == (13nat, 'm', 'E', 'e'),
{
    assert(selector_arity("rightMouseDown:"@) == 1 && name_key("rightMouseDown:"@) == (15nat, 'r', 'M', 's')) by {
        reveal_strlit("rightMouseDown:");
        reveal_with_fuel(colons_from, 16);
    }
    assert(selector_arity("rightMouseUp:"@) == 1 && name_key("rightMouseUp:"@) == (13nat, 'r', 'M', 's')) by {
        reveal_strlit("rightMouseUp:");
        reveal_with_fuel(colons_from, 14);
    }
    assert(selector_arity("otherMouseDown:"@) == 1 && name_key("otherMouseDown:"@) == (15nat, 'o', 'M', 's')) by {
        reveal_strlit("otherMouseDown:");
        reveal_with_fuel(colons_from, 16);
    }
    assert(selector_arity("otherMouseUp:"@) == 1 && name_key("otherMouseUp:"@) == (13nat, 'o', 'M', 's')) by {
        reveal_strlit("otherMouseUp:");
        reveal_with_fuel(colons_from, 14);
    }
    assert(selector_arity("mouseEntered:"@) == 1 && name_key("mouseEntered:"@) == (13nat, 'm', 'E', 'e')) by {
        reveal_strlit("mouseEntered:");
        reveal_with_fuel(colons_from, 14);
    }
}

/// The argument count and the key of the selector names 30 to 34 of the table.
proof fn lemma_selector_names_6()
    ensures
        selector_arity("mouseExited:"@) == 1,
        name_key("mouseExited:"@) == (12nat, 'm', 'E', 't'),
        selector_arity("keyDown:"@) == 1,
        name_key("keyDown:"@) == (8nat, 'k', 'w', ' '),
        selector_arity("keyUp:"@) == 1,
        name_key("keyUp:"@) == (6nat, 'k', ':', ' '),
        selector_arity("flagsChanged:"@) == 1,
        name_key("flagsChanged:"@) == (13nat, 'f', 'C', 'n'),
        selector_arity("insertText:replacementRange:"@) == 2,
        name_key("insertText:replacementRange:"@) == (28nat, 'i', 't', 'x'),
{
    assert(selector_arity("mouseExited:"@) == 1 && name_key("mouseExited:"@) == (12nat, 'm', 'E', 't')) by {
        reveal_strlit("mouseExited:");
        reveal_with_fuel(colons_from, 13);
    }
    assert(selector_arity("keyDown:"@) == 1 && name_key("keyDown:"@) == (8nat, 'k', 'w', ' ')) by {
        reveal_strlit("keyDown:");
        reveal_with_fuel(colons_from, 9);
    }
    assert(selector_arity("keyUp:"@) == 1 && name_key("keyUp:"@) == (6nat, 'k', ':', ' ')) by {
        reveal_strlit("keyUp:");
        reveal_with_fuel(colons_from, 7);
    }
    assert(selector_arity("flagsChanged:"@) == 1 && name_key("flagsChanged:"@) == (13nat, 'f', 'C', 'n')) by {
        reveal_strlit("flagsChanged:");
        reveal_with_fuel(colons_from, 14);
    }
    assert(selector_arity("insertText:replacementRange:"@) == 2 && name_key("insertText:replacementRange:"@) == (28nat, 'i', 't', 'x')) by {
        reveal_strlit("insertText:replacementRange:");
        reveal_with_fuel(colons_from, 29);
    }
}

/// The argument count and the key of the selector names 35 to 39 of the table.
proof fn lemma_selector_names_7()
    ensures
        selector_arity("doCommandBySelector:"@) == 1,
        name_key("doCommandBySelector:"@) == (20nat, 'd', 'm', 'd'),
        selector_arity("setMarkedText:selectedRange:replacementRange:"@) == 3,
        name_key("setMarkedText:selectedRange:replacementRange:"@) == (45nat, 's', 'r', 'd'),
        selector_arity("unmarkText"@) == 0,
        name_key("unmarkText"@) == (10nat, 'u', 'k', 'x'),
        selector_arity("selectedRange"@) == 0,
        name_key("selectedRange"@) == (13nat, 's', 't', 'R'),
        selector_arity("markedRange"@) == 0,
        name_key("markedRange"@) == (11nat, 'm', 'd', 'n'),
{
    assert(selector_arity("doCommandBySelector:"@) == 1 && name_key("doCommandBySelector:"@) == (20nat, 'd', 'm', 'd')) by {
        reveal_strlit("doCommandBySelector:");
        reveal_with_fuel(colons_from, 21);
    }
    assert(selector_arity("setMarkedText:selectedRange:replacementRange:"@) == 3 && name_key("setMarkedText:selectedRange:replacementRange:"@) == (45nat, 's', 'r', 'd')) by {
        reveal_strlit("setMarkedText:selectedRange:replacementRange:");
        reveal_with_fuel(colons_from, 46);
    }
    assert(selector_arity("unmarkText"@) == 0 && name_key("unmarkText"@) == (10nat, 'u', 'k', 'x')) by {
        reveal_strlit("unmarkText");
        reveal_with_fuel(colons_from, 11);
    }
    assert(selector_arity("selectedRange"@) == 0 && name_key("selectedRange"@) == (13nat, 's', 't', 'R')) by {
        reveal_strlit("selectedRange");
        reveal_with_fuel(colons_from, 14);
    }
    assert(selector_arity("markedRange"@) == 0 && name_key("markedRange"@) == (11nat, 'm', 'd', 'n')) by {
        reveal_strlit("markedRange");
        reveal_with_fuel(colons_from, 12);
    }
}

/// The argument count and the key of the selector names 40 to 44 of the table.
proof fn lemma_selector_names_8()
    ensures
        selector_arity("hasMarkedText"@) == 0,
        name_key("hasMarkedText"@) == (13nat, 'h', 'r', 'd'),
        selector_arity("attributedSubstringForProposedRange:actualRange:"@) == 2,
        name_key("attributedSubstringForProposedRange:actualRange:"@) == (48nat, 'a', 'b', 'e'),
        selector_arity("validAttributesForMarkedText"@) == 0,
        name_key("validAttributesForMarkedText"@) == (28nat, 'v', 'A', 'r'),
        selector_arity("firstRectForCharacterRange:actualRange:"@) == 2,
        name_key("firstRectForCharacterRange:actualRange:"@) == (39nat, 'f', 'R', 't'),
        selector_arity("characterIndexForPoint:"@) == 1,
        name_key("characterIndexForPoint:"@) == (23nat, 'c', 'c', 'r'),
{
    assert(selector_arity("hasMarkedText"@) == 0 && name_key("hasMarkedText"@) == (13nat, 'h', 'r', 'd')) by {
        reveal_strlit("hasMarkedText");
        reveal_with_fuel(colons_from, 14);
    }
    assert(selector_arity("attributedSubstringForProposedRange:actualRange:"@) == 2 && name_key("attributedSubstringForProposedRange:actualRange:"@) == (48nat, 'a', 'b', 'e')) by {
        reveal_strlit("attributedSubstringForProposedRange:actualRange:");
        reveal_with_fuel(colons_from, 49);
    }
    assert(selector_arity("validAttributesForMarkedText"@) == 0 && name_key("validAttributesForMarkedText"@) == (28nat, 'v', 'A', 'r')) by {
        reveal_strlit("validAttributesForMarkedText");
        reveal_with_fuel(colons_from, 29);
    }
    assert(selector_arity("firstRectForCharacterRange:actualRange:"@) == 2 && name_key("firstRectForCharacterRange:actualRange:"@) == (39nat, 'f', 'R', 't')) by {
        reveal_strlit("firstRectForCharacterRange:actualRange:");
        reveal_with_fuel(colons_from, 40);
    }
    assert(selector_arity("characterIndexForPoint:"@) == 1 && name_key("characterIndexForPoint:"@) == (23nat, 'c', 'c', 'r')) by {
        reveal_strlit("characterIndexForPoint:");
        reveal_with_fuel(colons_from, 24);
    }
}

/// The argument count of each entry's selector matches its implementation,
/// and the entry's name key locates the entry.
proof fn lemma_entry(i: int)
    requires
        0 <= i < spec_view_methods().len(),
    ensures
        selector_arity(spec_view_methods()[i].0) == spec_view_methods()[i].1.spec_arity(),
        position_of_key(name_key(spec_view_methods()[i].0)) == i,
        spec_view_methods()[i].1.spec_answers_selector(spec_view_methods()[i].0),
{
    lemma_selector_names_0();
    lemma_selector_names_1();
    lemma_selector_names_2();
    lemma_selector_names_3();
    lemma_selector_names_4();
    lemma_selector_names_5();
    lemma_selector_names_6();
    lemma_selector_names_7();
    lemma_selector_names_8();
    if i == 0 {
        assert(spec_view_methods()[0] == ("acceptsFirstResponder"@, Handler::PropertyYes));
    } else if i == 1 {
        assert(spec_view_methods()[1] == ("becomeFirstResponder"@, Handler::BecomeFirstResponder));
    } else if i == 2 {
        assert(spec_view_methods()[2] == ("resignFirstResponder"@, Handler::ResignFirstResponder));
    } else if i == 3 {
        assert(spec_view_methods()[3] == ("isFlipped"@, Handler::PropertyYes));
    } else if i == 4 {
        assert(spec_view_methods()[4] == ("preservesContentInLiveResize"@, Handler::PropertyNo));
    } else if i == 5 {
        assert(spec_view_methods()[5] == ("acceptsFirstMouse:"@, Handler::AcceptsFirstMouse));
    } else if i == 6 {
        assert(spec_view_methods()[6] == ("windowShouldClose:"@, Handler::WindowShouldClose));
    } else if i == 7 {
        assert(spec_view_methods()[7] == ("dealloc"@, Handler::Dealloc));
    } else if i == 8 {
        assert(spec_view_methods()[8] == ("viewWillMoveToWindow:"@, Handler::ViewWillMoveToWindow));
    } else if i == 9 {
        assert(spec_view_methods()[9] == ("hitTest:"@, Handler::HitTest));
    } else if i == 10 {
        assert(spec_view_methods()[10] == ("updateTrackingAreas:"@, Handler::UpdateTrackingAreas));
    } else if i == 11 {
        assert(spec_view_methods()[11] == ("mouseMoved:"@, Handler::MouseMoved));
    } else if i == 12 {
        assert(spec_view_methods()[12] == ("mouseDragged:"@, Handler::MouseMoved));
    } else if i == 13 {
        assert(spec_view_methods()[13] == ("rightMouseDragged:"@, Handler::MouseMoved));
    } else if i == 14 {
        assert(spec_view_methods()[14] == ("otherMouseDragged:"@, Handler::MouseMoved));
    } else if i == 15 {
        assert(spec_view_methods()[15] == ("scrollWheel:"@, Handler::ScrollWheel));
    } else if i == 16 {
        assert(spec_view_methods()[16] == ("viewDidChangeBackingProperties:"@, Handler::ViewDidChangeBackingProperties));
    } else if i == 17 {
        assert(spec_view_methods()[17] == ("draggingEntered:"@, Handler::DraggingEntered));
    } else if i == 18 {
        assert(spec_view_methods()[18] == ("prepareForDragOperation:"@, Handler::PrepareForDragOperation));
    } else if i == 19 {
        assert(spec_view_methods()[19] == ("performDragOperation:"@, Handler::PerformDragOperation));
    } else if i == 20 {
        assert(spec_view_methods()[20] == ("draggingUpdated:"@, Handler::DraggingUpdated));
    } else if i == 21 {
        assert(spec_view_methods()[21] == ("draggingExited:"@, Handler::DraggingExited));
    } else if i == 22 {
        assert(spec_view_methods()[22] == ("handleNotification:"@, Handler::HandleNotification));
    } else if i == 23 {
        assert(spec_view_methods()[23] == ("mouseDown:"@, Handler::MouseDown));
    } else if i == 24 {
        assert(spec_view_methods()[24] == ("mouseUp:"@, Handler::MouseUp));
    } else if i == 25 {
        assert(spec_view_methods()[25] == ("rightMouseDown:"@, Handler::RightMouseDown));
    } else if i == 26 {
        assert(spec_view_methods()[26] == ("rightMouseUp:"@, Handler::RightMouseUp));
    } else if i == 27 {
        assert(spec_view_methods()[27] == ("otherMouseDown:"@, Handler::OtherMouseDown));
    } else if i == 28 {
        assert(spec_view_methods()[28] == ("otherMouseUp:"@, Handler::OtherMouseUp));
    } else if i == 29 {
        assert(spec_view_methods()[29] == ("mouseEntered:"@, Handler::MouseEntered));
    } else if i == 30 {
        assert(spec_view_methods()[30] == ("mouseExited:"@, Handler::MouseExited));
    } else if i == 31 {
        assert(spec_view_methods()[31] == ("keyDown:"@, Handler::KeyDown));
    } else if i == 32 {
        assert(spec_view_methods()[32] == ("keyUp:"@, Handler::KeyUp));
    } else if i == 33 {
        assert(spec_view_methods()[33] == ("flagsChanged:"@, Handler::FlagsChanged));
    } else if i == 34 {
        assert(spec_view_methods()[34] == ("insertText:replacementRange:"@, Handler::InsertText));
    } else if i == 35 {
        assert(spec_view_methods()[35] == ("doCommandBySelector:"@, Handler::DoCommandBySelector));
    } else if i == 36 {
        assert(spec_view_methods()[36] == ("setMarkedText:selectedRange:replacementRange:"@, Handler::SetMarkedText));
    } else if i == 37 {
        assert(spec_view_methods()[37] == ("unmarkText"@, Handler::UnmarkText));
    } else if i == 38 {
        assert(spec_view_methods()[38] == ("selectedRange"@, Handler::SelectedRange));
    } else if i == 39 {
        assert(spec_view_methods()[39] == ("markedRange"@, Handler::MarkedRange));
    } else if i == 40 {
        assert(spec_view_methods()[40] == ("hasMarkedText"@, Handler::HasMarkedText));
    } else if i == 41 {
        assert(spec_view_methods()[41] == ("attributedSubstringForProposedRange:actualRange:"@, Handler::AttributedSubstringForProposedRange));
    } else if i == 42 {
        assert(spec_view_methods()[42] == ("validAttributesForMarkedText"@, Handler::ValidAttributesForMarkedText));
    } else if i == 43 {
        assert(spec_view_methods()[43] == ("firstRectForCharacterRange:actualRange:"@, Handler::FirstRectForCharacterRange));
    } else if i == 44 {
        assert(spec_view_methods()[44] == ("characterIndexForPoint:"@, Handler::CharacterIndexForPoint));
    }
}

/// Every selector of the table has as many colons as its implementation takes
/// arguments, so the class builder's argument check passes for each of them.
pub proof fn lemma_view_method_arities()
    ensures
        forall|i: int|
            0 <= i < spec_view_methods().len() ==> selector_arity(
                #[trigger] spec_view_methods()[i].0,
            ) == spec_view_methods()[i].1.spec_arity(),
{
    assert forall|i: int| 0 <= i < spec_view_methods().len() implies selector_arity(
        #[trigger] spec_view_methods()[i].0,
    ) == spec_view_methods()[i].1.spec_arity() by {
        lemma_entry(i);
    }
}

/// No selector occurs twice in the table, so the class builder never meets a
/// method that the class already has.
pub proof fn lemma_view_selectors_distinct()
    ensures
        forall|i: int, j: int|
            0 <= i < spec_view_methods().len() && 0 <= j < spec_view_methods().len() && i != j
                ==> #[trigger] spec_view_methods()[i].0 != #[trigger] spec_view_methods()[j].0,
{
    assert forall|i: int, j: int|
        0 <= i < spec_view_methods().len() && 0 <= j < spec_view_methods().len() && i != j
        implies #[trigger] spec_view_methods()[i].0 != #[trigger] spec_view_methods()[j].0 by {
        lemma_entry(i);
        lemma_entry(j);
    }
}

/// The class implements every method that the text-input client protocol
/// requires.
pub proof fn lemma_text_input_client_implemented()
    ensures
        forall|k: int|
            0 <= k < spec_text_input_client_selectors().len() ==> exists|i: int|
                0 <= i < spec_view_methods().len() && #[trigger] spec_view_methods()[i].0
                    == #[trigger] spec_text_input_client_selectors()[k],
{
    assert forall|k: int| 0 <= k < spec_text_input_client_selectors().len() implies exists|i: int|
        0 <= i < spec_view_methods().len() && #[trigger] spec_view_methods()[i].0
            == #[trigger] spec_text_input_client_selectors()[k] by {
        if k == 0 {
            assert(spec_view_methods()[34].0 == spec_text_input_client_selectors()[k]);
        } else if k == 1 {
            assert(spec_view_methods()[35].0 == spec_text_input_client_selectors()[k]);
        } else if k == 2 {
            assert(spec_view_methods()[36].0 == spec_text_input_client_selectors()[k]);
        } else if k == 3 {
            assert(spec_view_methods()[37].0 == spec_text_input_client_selectors()[k]);
        } else if k == 4 {
            assert(spec_view_methods()[38].0 == spec_text_input_client_selectors()[k]);
        } else if k == 5 {
            assert(spec_view_methods()[39].0 == spec_text_input_client_selectors()[k]);
        } else if k == 6 {
            assert(spec_view_methods()[40].0 == spec_text_input_client_selectors()[k]);
        } else if k == 7 {
            assert(spec_view_methods()[41].0 == spec_text_input_client_selectors()[k]);
        } else if k == 8 {
            assert(spec_view_methods()[42].0 == spec_text_input_client_selectors()[k]);
        } else if k == 9 {
            assert(spec_view_methods()[43].0 == spec_text_input_client_selectors()[k]);
        } else if k == 10 {
            assert(spec_view_methods()[44].0 == spec_text_input_client_selectors()[k]);
        }
    }
}

/// Each selector of the table is bound to the implementation that answers it:
/// a press to the press handler, a release to the release handler, each
/// text-input query to the handler of the same name, and so on.
pub proof fn lemma_view_methods_answer_their_selectors()
    ensures
        forall|i: int|
            0 <= i < spec_view_methods().len() ==> (#[trigger] spec_view_methods()[i]).1.spec_answers_selector(
                spec_view_methods()[i].0,
            ),
{
    assert forall|i: int| 0 <= i < spec_view_methods().len() implies (#[trigger] spec_view_methods()[i]).1.spec_answers_selector(
        spec_view_methods()[i].0,
    ) by {
        lemma_entry(i);
    }
}

/// Exactly the three property handlers have a fixed answer: yes for the
/// always-yes property and the first-mouse click, no for the always-no
/// property; every handler that asks the view, or answers nothing, has none.
pub proof fn lemma_constant_answers(h: Handler)
    ensures
        h.spec_constant_answer() is Some <==> (h == Handler::PropertyYes || h == Handler::PropertyNo
            || h == Handler::AcceptsFirstMouse),
        h == Handler::PropertyYes ==> h.spec_constant_answer() == Some(true),
        h == Handler::AcceptsFirstMouse ==> h.spec_constant_answer() == Some(true),
        h == Handler::PropertyNo ==> h.spec_constant_answer() == Some(false),
{
}

/// The view answers yes to `acceptsFirstResponder`, `isFlipped` and
/// `acceptsFirstMouse:`, and no to `preservesContentInLiveResize`, whatever the
/// view.
pub proof fn lemma_view_constant_answers()
    ensures
        spec_view_methods()[0].0 == "acceptsFirstResponder"@,
        spec_view_methods()[0].1.spec_constant_answer() == Some(true),
        spec_view_methods()[3].0 == "isFlipped"@,
        spec_view_methods()[3].1.spec_constant_answer() == Some(true),
        spec_view_methods()[4].0 == "preservesContentInLiveResize"@,
        spec_view_methods()[4].1.spec_constant_answer() == Some(false),
        spec_view_methods()[5].0 == "acceptsFirstMouse:"@,
        spec_view_methods()[5].1.spec_constant_answer() == Some(true),
{
}

} // verus!
