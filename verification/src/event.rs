//! The value object emitted once per detected selection.

use vstd::prelude::*;

verus! {

/// The trigger identifier carried by every selection event.
pub open spec fn selected_trigger() -> Seq<char> {
    "selected"@
}

/// One detected selection: the extracted text and the screen position of the
/// release that produced it. Immutable once constructed; ownership passes to
/// the event sink on emission.
#[derive(Clone, Debug)]
pub struct SelectionEvent {
    pub text: String,
    pub x: i32,
    pub y: i32,
    /// Constant identifier of the detection cause.
    pub trigger: String,
}

impl SelectionEvent {
    /// Build the event for a selection of `text` released at `(x, y)`.
    pub fn selected(text: String, x: i32, y: i32) -> (ev: SelectionEvent)
        ensures
            ev.text@ == text@,
            ev.x == x,
            ev.y == y,
            ev.trigger@ == selected_trigger(),
    {
        SelectionEvent { text, x, y, trigger: "selected".to_owned() }
    }
}

/// The event to forward for extracted text `text` at `(x, y)`: one populated
/// event when some text was extracted, nothing when the extraction came back
/// empty — empty text means nothing was selected.
pub fn selection_event_for(text: String, x: i32, y: i32) -> (ev: Option<SelectionEvent>)
    ensures
        ev is Some <==> text@.len() > 0,
        ev matches Some(e) ==> e.text@ == text@ && e.x == x && e.y == y && e.trigger@
            == selected_trigger(),
{
    if text.as_str().is_empty() {
        None
    } else {
        Some(SelectionEvent::selected(text, x, y))
    }
}

} // verus!
