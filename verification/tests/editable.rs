use teklo_foundry::editable::EditableText;
use teklo_foundry::text::RenderableText;

const POW: &str = "<img src=\"icons/pow.png\" class=\"inline-img\"/>";

fn field_with(raw: &str) -> EditableText {
    let mut field = EditableText::new();
    field.render(String::from(raw));
    field
}

#[test]
fn default_field_is_rendering_and_empty() {
    let field = EditableText::default();
    assert!(!field.is_editing());
    assert_eq!(field.text().raw(), "");
    assert_eq!(field.text().rendered(), "");
    assert!(matches!(field, EditableText::Rendering(_)));
}

#[test]
fn new_field_is_rendering_and_empty() {
    let field = EditableText::new();
    assert!(!field.is_editing());
    assert_eq!(field.text().raw(), "");
    assert_eq!(field.text().rendered(), "");
}

#[test]
fn set_editing_moves_to_editing() {
    let mut field = field_with("a :pow:");
    field.set_editing();
    assert!(field.is_editing());
    assert_eq!(field.text().raw(), "a :pow:");
    assert_eq!(field.text().rendered(), format!("a {}", POW));
}

#[test]
fn set_rendering_moves_to_rendering() {
    let mut field = field_with("a :pow:");
    field.set_editing();
    field.set_rendering();
    assert!(!field.is_editing());
    assert_eq!(field.text().raw(), "a :pow:");
    assert_eq!(field.text().rendered(), format!("a {}", POW));
}

#[test]
fn set_editing_twice_is_set_editing_once() {
    let mut once = field_with("x:pow:");
    once.set_editing();
    let mut twice = field_with("x:pow:");
    twice.set_editing();
    twice.set_editing();
    assert_eq!(once.is_editing(), twice.is_editing());
    assert_eq!(once.text().raw(), twice.text().raw());
    assert_eq!(once.text().rendered(), twice.text().rendered());
    assert_eq!(once.to_string(), twice.to_string());
}

#[test]
fn set_rendering_twice_is_set_rendering_once() {
    let mut once = field_with("x:pow:");
    once.set_editing();
    once.set_rendering();
    let mut twice = field_with("x:pow:");
    twice.set_editing();
    twice.set_rendering();
    twice.set_rendering();
    assert_eq!(once.is_editing(), twice.is_editing());
    assert_eq!(once.text().raw(), twice.text().raw());
    assert_eq!(once.text().rendered(), twice.text().rendered());
    assert_eq!(once.to_string(), twice.to_string());
}

#[test]
fn set_rendering_on_a_rendering_field_changes_nothing() {
    let mut field = field_with(":def:");
    field.set_rendering();
    assert!(!field.is_editing());
    assert_eq!(field.text().raw(), ":def:");
}

#[test]
fn toggle_there_and_back_keeps_text() {
    let mut field = field_with("Gain :lif: life");
    let raw = String::from(field.text().raw());
    let rendered = String::from(field.text().rendered());
    field.set_editing();
    field.set_rendering();
    assert!(!field.is_editing());
    assert_eq!(field.text().raw(), raw);
    assert_eq!(field.text().rendered(), rendered);

    field.set_editing();
    field.set_rendering();
    field.set_editing();
    assert!(field.is_editing());
    assert_eq!(field.text().raw(), raw);
    assert_eq!(field.text().rendered(), rendered);
}

#[test]
fn render_keeps_the_mode() {
    let mut field = EditableText::new();
    field.render(String::from("a"));
    assert!(!field.is_editing());
    field.set_editing();
    field.render(String::from("b :res:"));
    assert!(field.is_editing());
    assert_eq!(field.text().raw(), "b :res:");
    assert_eq!(
        field.text().rendered(),
        "b <img src=\"icons/res.png\" class=\"inline-img\"/>"
    );
}

#[test]
fn text_mut_renders_in_place() {
    let mut field = EditableText::new();
    field.set_editing();
    field.text_mut().render(String::from(":pow:"));
    assert!(field.is_editing());
    assert_eq!(field.text().raw(), ":pow:");
    assert_eq!(field.text().rendered(), POW);
}

#[test]
fn to_string_shows_raw_while_editing_and_markup_otherwise() {
    let mut field = field_with("Deal :pow:");
    assert_eq!(field.to_string(), format!("Deal {}", POW));
    field.set_editing();
    assert_eq!(field.to_string(), "Deal :pow:");
    field.set_rendering();
    assert_eq!(field.to_string(), format!("Deal {}", POW));
}

#[test]
fn variants_hold_the_same_text() {
    let mut text = RenderableText::new();
    text.render(String::from("z"));
    let field = EditableText::Editing(text);
    assert!(field.is_editing());
    assert_eq!(field.text().raw(), "z");
}
