//! The markers that a card's text may hold, and the markup that stands for
//! each of them once the text is rendered.

use vstd::prelude::*;

verus! {

/// An icon that a marker in the text asks for.
#[derive(Clone, Copy, Debug, PartialEq, Eq, Structural)]
pub enum Token {
    Pow,
    Int,
    Def,
    Lif,
    Res,
}

impl Token {
    /// The marker as it is typed, colons included.
    pub open spec fn marker_text(self) -> Seq<char> {
        match self {
            Token::Pow => ":pow:"@,
            Token::Int => ":int:"@,
            Token::Def => ":def:"@,
            Token::Lif => ":lif:"@,
            Token::Res => ":res:"@,
        }
    }

    /// The inline image that replaces the marker.
    pub open spec fn markup_text(self) -> Seq<char> {
        match self {
            Token::Pow => "<img src=\"icons/pow.png\" class=\"inline-img\"/>"@,
            Token::Int => "<img src=\"icons/int.png\" class=\"inline-img\"/>"@,
            Token::Def => "<img src=\"icons/def.png\" class=\"inline-img\"/>"@,
            Token::Lif => "<img src=\"icons/lif.png\" class=\"inline-img\"/>"@,
            Token::Res => "<img src=\"icons/res.png\" class=\"inline-img\"/>"@,
        }
    }

    /// The marker as it is typed, colons included.
    pub fn marker(self) -> (out: &'static str)
        ensures
            out@ == self.marker_text(),
    {
        match self {
            Token::Pow => ":pow:",
            Token::Int => ":int:",
            Token::Def => ":def:",
            Token::Lif => ":lif:",
            Token::Res => ":res:",
        }
    }

    /// The inline image that replaces the marker.
    pub fn markup(self) -> (out: &'static str)
        ensures
            out@ == self.markup_text(),
    {
        match self {
            Token::Pow => "<img src=\"icons/pow.png\" class=\"inline-img\"/>",
            Token::Int => "<img src=\"icons/int.png\" class=\"inline-img\"/>",
            Token::Def => "<img src=\"icons/def.png\" class=\"inline-img\"/>",
            Token::Lif => "<img src=\"icons/lif.png\" class=\"inline-img\"/>",
            Token::Res => "<img src=\"icons/res.png\" class=\"inline-img\"/>",
        }
    }
}

/// `text` after the marker of `token` has been replaced throughout.
pub open spec fn with_icon(text: Seq<char>, token: Token) -> Seq<char> {
    crate::substitute::replace_all(text, token.marker_text(), token.markup_text())
}

/// The markup for `raw`: the five markers replaced one after the other, each
/// pass reading what the pass before it wrote.
pub open spec fn render_markup(raw: Seq<char>) -> Seq<char> {
    with_icon(
        with_icon(
            with_icon(with_icon(with_icon(raw, Token::Pow), Token::Int), Token::Def),
            Token::Lif,
        ),
        Token::Res,
    )
}

/// No marker of any token stands in `text`.
pub open spec fn marker_free(text: Seq<char>) -> bool {
    forall|token: Token| !crate::substitute::occurs(text, #[trigger] token.marker_text())
}

/// Replaces the marker of `token` throughout `text`.
pub fn substitute_icon(text: &str, token: Token) -> (out: String)
    ensures
        out@ == with_icon(text@, token),
{
    crate::substitute::substitute(text, token.marker(), token.markup())
}

/// Renders `raw` into markup. Nothing else in `raw` is changed or escaped.
pub fn render_text(raw: &str) -> (out: String)
    ensures
        out@ == render_markup(raw@),
{
    let a = substitute_icon(raw, Token::Pow);
    let b = substitute_icon(a.as_str(), Token::Int);
    let c = substitute_icon(b.as_str(), Token::Def);
    let d = substitute_icon(c.as_str(), Token::Lif);
    substitute_icon(d.as_str(), Token::Res)
}

/// Text without markers is its own markup.
pub proof fn lemma_marker_free_renders_to_itself(raw: Seq<char>)
    requires
        marker_free(raw),
    ensures
        render_markup(raw) == raw,
{
    assert(!crate::substitute::occurs(raw, Token::Pow.marker_text()));
    assert(!crate::substitute::occurs(raw, Token::Int.marker_text()));
    assert(!crate::substitute::occurs(raw, Token::Def.marker_text()));
    assert(!crate::substitute::occurs(raw, Token::Lif.marker_text()));
    assert(!crate::substitute::occurs(raw, Token::Res.marker_text()));
    crate::substitute::lemma_absent_unchanged(raw, Token::Pow.marker_text(), Token::Pow.markup_text());
    crate::substitute::lemma_absent_unchanged(raw, Token::Int.marker_text(), Token::Int.markup_text());
    crate::substitute::lemma_absent_unchanged(raw, Token::Def.marker_text(), Token::Def.markup_text());
    crate::substitute::lemma_absent_unchanged(raw, Token::Lif.marker_text(), Token::Lif.markup_text());
    crate::substitute::lemma_absent_unchanged(raw, Token::Res.marker_text(), Token::Res.markup_text());
}

} // verus!
