use teklo_foundry::text::RenderableText;

#[test]
fn new_text_is_empty() {
    let text = RenderableText::new();
    assert_eq!(text.raw(), "");
    assert_eq!(text.rendered(), "");
}

#[test]
fn default_text_is_empty() {
    let text = RenderableText::default();
    assert_eq!(text.raw(), "");
    assert_eq!(text.rendered(), "");
}

#[test]
fn render_pow_in_a_sentence() {
    let mut text = RenderableText::new();
    text.render(String::from("Deal :pow: damage"));
    assert_eq!(text.raw(), "Deal :pow: damage");
    assert_eq!(
        text.rendered(),
        "Deal <img src=\"icons/pow.png\" class=\"inline-img\"/> damage"
    );
}

#[test]
fn render_adjacent_markers() {
    let mut text = RenderableText::new();
    text.render(String::from(":int::def:"));
    assert_eq!(text.raw(), ":int::def:");
    assert_eq!(
        text.rendered(),
        "<img src=\"icons/int.png\" class=\"inline-img\"/><img src=\"icons/def.png\" class=\"inline-img\"/>"
    );
}

#[test]
fn render_keeps_raw_verbatim() {
    for s in ["", "x", ":pow:", "  spaces  ", "<script>", "日本:res:"] {
        let mut text = RenderableText::new();
        text.render(String::from(s));
        assert_eq!(text.raw(), s);
    }
}

#[test]
fn render_without_markers_gives_the_text_back() {
    for s in ["", "No icons here", "a:b:c", "::"] {
        let mut text = RenderableText::new();
        text.render(String::from(s));
        assert_eq!(text.rendered(), s);
    }
}

#[test]
fn render_replaces_what_was_there() {
    let mut text = RenderableText::new();
    text.render(String::from(":pow:"));
    text.render(String::from("later"));
    assert_eq!(text.raw(), "later");
    assert_eq!(text.rendered(), "later");
}

#[test]
fn render_empty_clears() {
    let mut text = RenderableText::new();
    text.render(String::from(":lif:"));
    text.render(String::new());
    assert_eq!(text.raw(), "");
    assert_eq!(text.rendered(), "");
}
