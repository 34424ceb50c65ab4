use nodui::ui::{
    Color, NodeHeader, NodeLayout, NodeSide, SocketShape, SocketUI, TextUi, TitleHeader,
};

#[test]
fn text_new_has_no_color() {
    let t = TextUi::new("hello");
    assert_eq!(t.text, "hello");
    assert_eq!(t.color, None);
}

#[test]
fn text_with_color_keeps_text() {
    let t = TextUi::new(String::from("a")).with_color((1u8, 2u8, 3u8));
    assert_eq!(t.text, "a");
    assert_eq!(t.color, Some(Color::from_rgb(1, 2, 3)));
}

#[test]
fn text_default_is_empty() {
    let t = TextUi::default();
    assert!(t.text.is_empty());
    assert_eq!(t.color, None);
}

#[test]
fn text_from_variants() {
    let s = String::from("name");
    assert_eq!(TextUi::from("name"), TextUi::new("name"));
    assert_eq!(TextUi::from(&s), TextUi::new("name"));
    assert_eq!(TextUi::from(s.clone()), TextUi::new("name"));
    let red = Color::red();
    assert_eq!(TextUi::from(("name", red)), TextUi::new("name").with_color(red));
    assert_eq!(TextUi::from((&s, red)), TextUi::new("name").with_color(red));
    assert_eq!(TextUi::from((s, red)).color, Some(red));
}

#[test]
fn socket_ui_new_defaults() {
    let s = SocketUI::new(NodeSide::Right, true);
    assert_eq!(s.side, NodeSide::Right);
    assert!(s.is_connected);
    assert!(s.name.text.is_empty());
    assert_eq!(s.color, Color::white());
    assert_eq!(s.shape, SocketShape::Circle);
}

#[test]
fn socket_ui_builders_change_one_field() {
    let base = SocketUI::new(NodeSide::Left, false);
    let named = base.clone().with_name("in");
    assert_eq!(named.name, TextUi::new("in"));
    assert_eq!(named.color, base.color);
    let colored = base.clone().with_color((9u8, 8u8, 7u8, 6u8));
    assert_eq!(colored.color, Color::from_rgba(9, 8, 7, 6));
    assert_eq!(colored.name, base.name);
    let shaped = base.clone().with_shape(SocketShape::Triangle);
    assert_eq!(shaped.shape, SocketShape::Triangle);
    assert_eq!(shaped.side, NodeSide::Left);
}

#[test]
fn defaults_of_enums() {
    assert_eq!(SocketShape::default(), SocketShape::Circle);
    assert_eq!(NodeLayout::default(), NodeLayout::Double);
    assert_eq!(NodeHeader::default(), NodeHeader::Empty);
}

#[test]
fn title_header() {
    let h = TitleHeader::new("Add", Color::blue());
    assert_eq!(h.title, TextUi::new("Add"));
    assert_eq!(h.background, Color::blue());
    assert_eq!(NodeHeader::from(h.clone()), NodeHeader::Title(h));
    let d = TitleHeader::default();
    assert!(d.title.text.is_empty());
    assert_eq!(d.background, Color::transparent());
}

#[test]
fn text_new_keeps_the_str() {
    assert_eq!(
        TextUi::new("abc"),
        TextUi { text: String::from("abc"), color: None }
    );
}

#[test]
fn later_color_wins() {
    let t = TextUi::new("x");
    let red = Color::from_rgb(255, 0, 0);
    let blue = Color::from_rgb(0, 0, 255);
    assert_eq!(t.clone().with_color(red).with_color(blue), t.with_color(blue));
}
