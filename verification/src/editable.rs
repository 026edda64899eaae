//! A text field that is either being edited or shown rendered.

use crate::text::RenderableText;
use crate::tokens::{marker_free, render_markup};
use vstd::prelude::*;

verus! {

/// A text in one of two modes. Changing the mode carries the text over as
/// it is.
pub enum EditableText {
    /// The raw text is being typed.
    Editing(RenderableText),
    /// The markup is on show.
    Rendering(RenderableText),
}

impl EditableText {
    /// The text held, whatever the mode.
    pub open spec fn content(self) -> RenderableText {
        match self {
            EditableText::Editing(text) => text,
            EditableText::Rendering(text) => text,
        }
    }

    /// The field once editing has been asked for.
    pub open spec fn as_editing(self) -> EditableText {
        EditableText::Editing(self.content())
    }

    /// The field once rendering has been asked for.
    pub open spec fn as_rendering(self) -> EditableText {
        EditableText::Rendering(self.content())
    }

    /// What the field shows: the raw text while editing, else the markup.
    pub open spec fn shown(self) -> Seq<char> {
        if self is Editing {
            self.content()@.raw
        } else {
            self.content()@.rendered
        }
    }

    /// A field with empty text, in rendering mode.
    pub fn new() -> (field: Self)
        ensures
            field is Rendering,
            field.content()@.raw == Seq::<char>::empty(),
            field.content()@.rendered == Seq::<char>::empty(),
    {
        EditableText::Rendering(RenderableText::new())
    }

    /// Switches to editing. Does nothing to a field that is being edited.
    pub fn set_editing(&mut self)
        ensures
            *final(self) == old(self).as_editing(),
    {
        let mut held = EditableText::Editing(RenderableText::new());
        core::mem::swap(self, &mut held);
        *self = match held {
            EditableText::Editing(text) => EditableText::Editing(text),
            EditableText::Rendering(text) => EditableText::Editing(text),
        };
    }

    /// Switches to rendering. Does nothing to a field that is rendering.
    pub fn set_rendering(&mut self)
        ensures
            *final(self) == old(self).as_rendering(),
    {
        let mut held = EditableText::Rendering(RenderableText::new());
        core::mem::swap(self, &mut held);
        *self = match held {
            EditableText::Editing(text) => EditableText::Rendering(text),
            EditableText::Rendering(text) => EditableText::Rendering(text),
        };
    }

    /// Whether the field is being edited.
    pub fn is_editing(&self) -> (editing: bool)
        ensures
            editing == (self is Editing),
    {
        match self {
            EditableText::Editing(_) => true,
            EditableText::Rendering(_) => false,
        }
    }

    /// The text held, whatever the mode.
    pub fn text(&self) -> (text: &RenderableText)
        ensures
            *text == self.content(),
    {
        match self {
            EditableText::Editing(text) => text,
            EditableText::Rendering(text) => text,
        }
    }

    /// The text held, whatever the mode, to be rendered anew. The mode stays.
    pub fn text_mut(&mut self) -> (text: &mut RenderableText)
        ensures
            *text == old(self).content(),
            final(self).content() == *final(text),
            (*final(self) is Editing) == (*old(self) is Editing),
    {
        match self {
            EditableText::Editing(text) => text,
            EditableText::Rendering(text) => text,
        }
    }

    /// Takes `raw` as the new text and renders its markup anew. The mode stays.
    pub fn render(&mut self, raw: String)
        ensures
            (*final(self) is Editing) == (*old(self) is Editing),
            final(self).content()@.raw == raw@,
            final(self).content()@.rendered == render_markup(raw@),
            marker_free(raw@) ==> final(self).content()@.rendered == raw@,
    {
        self.text_mut().render(raw);
    }

    /// What the field shows: the raw text while editing, else the markup.
    pub fn to_string(&self) -> (out: String)
        ensures
            out@ == self.shown(),
    {
        match self {
            EditableText::Editing(text) => String::from_str(text.raw()),
            EditableText::Rendering(text) => String::from_str(text.rendered()),
        }
    }
}

/// Asking twice for a mode gives what asking once gives.
pub proof fn lemma_mode_idempotent(field: EditableText)
    ensures
        field.as_editing().as_editing() == field.as_editing(),
        field.as_rendering().as_rendering() == field.as_rendering(),
{
}

/// Going to the other mode and back keeps the text, raw and rendered, and
/// a field that started in the mode it comes back to is as it was.
pub proof fn lemma_toggle_keeps_text(field: EditableText)
    ensures
        field.as_editing().as_rendering().content() == field.content(),
        field.as_rendering().as_editing().content() == field.content(),
        field is Rendering ==> field.as_editing().as_rendering() == field,
        field is Editing ==> field.as_rendering().as_editing() == field,
{
}

impl Default for EditableText {
    fn default() -> (field: Self)
        ensures
            field is Rendering,
            field.content()@.raw == Seq::<char>::empty(),
            field.content()@.rendered == Seq::<char>::empty(),
    {
        EditableText::new()
    }
}

} // verus!
