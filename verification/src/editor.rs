//! What the editor's view decides: how the field answers each event of its
//! surface, and which surface stands for the field.

use crate::editable::EditableText;
use crate::tokens::render_markup;
use vstd::prelude::*;

verus! {

/// Something that happened on the field's surface.
#[derive(Debug)]
pub enum FieldEvent {
    /// The field's region got the input focus.
    FocusIn,
    /// The input lost the focus.
    FocusOut,
    /// The input committed a new value.
    Change(String),
    /// The input has just been put on the page.
    InputMounted,
    /// The focus could not be moved to the input.
    FocusFailed,
}

/// What the view has to do after an event, besides drawing the field anew.
#[derive(Clone, Copy, Debug, PartialEq, Eq, Structural)]
pub enum Action {
    Nothing,
    /// Move the input focus to the input.
    FocusInput,
    /// Record that the input did not get the focus, and go on.
    LogFocusFailure,
}

/// What stands on the page for the field.
#[derive(Debug)]
pub enum Surface {
    /// A region that shows this markup, taken as it is. It cannot be typed
    /// into; it only takes the focus, which starts editing.
    Display(String),
    /// A text input that starts with this value.
    Input(String),
}

impl Surface {
    /// Whether text can be typed into the surface: into the input only.
    pub fn is_editable(&self) -> (editable: bool)
        ensures
            editable == (*self is Input),
    {
        match self {
            Surface::Display(_) => false,
            Surface::Input(_) => true,
        }
    }
}

/// The field after `event`.
pub open spec fn next_field(field: EditableText, event: FieldEvent, next: EditableText) -> bool {
    match event {
        FieldEvent::FocusIn => next == field.as_editing(),
        FieldEvent::FocusOut => next == field.as_rendering(),
        FieldEvent::Change(value) => {
            &&& (next is Editing) == (field is Editing)
            &&& next.content()@.raw == value@
            &&& next.content()@.rendered == render_markup(value@)
        },
        FieldEvent::InputMounted => next == field,
        FieldEvent::FocusFailed => next == field,
    }
}

/// What the view owes after `event`.
pub open spec fn action_for(event: FieldEvent) -> Action {
    match event {
        FieldEvent::InputMounted => Action::FocusInput,
        FieldEvent::FocusFailed => Action::LogFocusFailure,
        _ => Action::Nothing,
    }
}

/// The surface that stands for `field`.
pub open spec fn surface_of(field: EditableText, surface: Surface) -> bool {
    match surface {
        Surface::Display(markup) => field is Rendering && markup@ == field.content()@.rendered,
        Surface::Input(value) => field is Editing && value@ == field.content()@.raw,
    }
}

/// Answers one event of the surface: focus moves the mode, a committed value
/// is rendered in whichever mode the field is, and a freshly mounted input
/// asks for the focus. A focus that could not be moved leaves the field as
/// it is and is only to be recorded.
pub fn handle(field: &mut EditableText, event: FieldEvent) -> (action: Action)
    ensures
        next_field(*old(field), event, *final(field)),
        action == action_for(event),
{
    match event {
        FieldEvent::FocusIn => {
            field.set_editing();
            Action::Nothing
        },
        FieldEvent::FocusOut => {
            field.set_rendering();
            Action::Nothing
        },
        FieldEvent::Change(value) => {
            field.render(value);
            Action::Nothing
        },
        FieldEvent::InputMounted => Action::FocusInput,
        FieldEvent::FocusFailed => Action::LogFocusFailure,
    }
}

/// Whether the field's region takes the focus to start editing: only
/// while the field is not being edited.
pub fn takes_focus(field: &EditableText) -> (focusable: bool)
    ensures
        focusable == (*field is Rendering),
{
    !field.is_editing()
}

/// The surface to draw: the markup while rendering, an input that holds
/// the raw text while editing.
pub fn surface(field: &EditableText) -> (out: Surface)
    ensures
        surface_of(*field, out),
{
    if field.is_editing() {
        Surface::Input(field.to_string())
    } else {
        Surface::Display(field.to_string())
    }
}

/// The surface of a field can be typed into exactly while the field is
/// being edited: what a rendering field shows is never editable.
pub proof fn lemma_editable_only_while_editing(field: EditableText, shown: Surface)
    requires
        surface_of(field, shown),
    ensures
        (shown is Input) == (field is Editing),
        field is Rendering ==> shown is Display,
{
}

} // verus!
