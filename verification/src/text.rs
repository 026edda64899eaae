//! A text and the markup rendered from it.

use crate::tokens::{lemma_marker_free_renders_to_itself, marker_free, render_markup, render_text};
use vstd::prelude::*;

verus! {

/// What a `RenderableText` holds, as plain sequences.
pub struct TextView {
    pub raw: Seq<char>,
    pub rendered: Seq<char>,
}

/// The text as its author typed it, together with its markup. The markup is
/// always the one rendered from the text held: nothing else can set it.
pub struct RenderableText {
    raw: String,
    rendered: String,
}

impl View for RenderableText {
    type V = TextView;

    closed spec fn view(&self) -> TextView {
        TextView { raw: self.raw@, rendered: self.rendered@ }
    }
}

impl RenderableText {
    #[verifier::type_invariant]
    spec fn rendered_from_raw(&self) -> bool {
        self.rendered@ == render_markup(self.raw@)
    }

    /// The empty text.
    pub fn new() -> (text: Self)
        ensures
            text@.raw == Seq::<char>::empty(),
            text@.rendered == Seq::<char>::empty(),
    {
        RenderableText { raw: String::new(), rendered: String::new() }
    }

    /// The text as typed.
    pub fn raw(&self) -> (out: &str)
        ensures
            out@ == self@.raw,
    {
        self.raw.as_str()
    }

    /// The markup, which is the one rendered from `raw`.
    pub fn rendered(&self) -> (out: &str)
        ensures
            out@ == self@.rendered,
            out@ == render_markup(self@.raw),
    {
        proof {
            use_type_invariant(self);
        }
        self.rendered.as_str()
    }

    /// Takes `raw` as the new text and renders its markup anew.
    pub fn render(&mut self, raw: String)
        ensures
            final(self)@.raw == raw@,
            final(self)@.rendered == render_markup(raw@),
            marker_free(raw@) ==> final(self)@.rendered == raw@,
    {
        proof {
            if marker_free(raw@) {
                lemma_marker_free_renders_to_itself(raw@);
            }
        }
        let rendered = render_text(raw.as_str());
        *self = RenderableText { raw, rendered };
    }
}

impl Default for RenderableText {
    fn default() -> (text: Self)
        ensures
            text@.raw == Seq::<char>::empty(),
            text@.rendered == Seq::<char>::empty(),
    {
        RenderableText::new()
    }
}

} // verus!
