use nodui::ui::Color;

#[test]
fn from_rgba_and_back() {
    let c = Color::from_rgba(1, 2, 3, 4);
    assert_eq!(c.rgba(), (1, 2, 3, 4));
    assert_eq!(c.as_array(), &[1, 2, 3, 4]);
}

#[test]
fn from_rgb_is_opaque() {
    assert_eq!(Color::from_rgb(10, 20, 30).rgba(), (10, 20, 30, 255));
}

#[test]
fn as_array_mut_writes_through() {
    let mut c = Color::from_rgb(0, 0, 0);
    c.as_array_mut()[1] = 200;
    assert_eq!(c.rgba(), (0, 200, 0, 255));
}

#[test]
fn default_is_transparent() {
    assert_eq!(Color::default().rgba(), (0, 0, 0, 0));
    assert_eq!(Color::default(), Color::transparent());
}

#[test]
fn named_colors() {
    assert_eq!(Color::white().rgba(), (255, 255, 255, 255));
    assert_eq!(Color::black().rgba(), (0, 0, 0, 255));
    assert_eq!(Color::red().rgba(), (255, 0, 0, 255));
    assert_eq!(Color::green().rgba(), (0, 255, 0, 255));
    assert_eq!(Color::blue().rgba(), (0, 0, 255, 255));
    assert_eq!(Color::cyan().rgba(), (0, 255, 255, 255));
    assert_eq!(Color::magenta().rgba(), (255, 0, 255, 255));
    assert_eq!(Color::yellow().rgba(), (255, 255, 0, 255));
}

#[test]
fn from_tuples() {
    assert_eq!(Color::from((1u8, 2u8, 3u8, 4u8)), Color::from_rgba(1, 2, 3, 4));
    assert_eq!(Color::from((1u8, 2u8, 3u8)), Color::from_rgba(1, 2, 3, 255));
}

#[test]
fn into_egui_opaque_keeps_components() {
    assert_eq!(Color::from_rgb(12, 34, 56).into_egui(), [12, 34, 56, 255]);
}

#[test]
fn into_egui_transparent_is_zero() {
    assert_eq!(Color::from_rgba(200, 100, 50, 0).into_egui(), [0, 0, 0, 0]);
}

#[test]
fn into_egui_premultiplies() {
    let arr = Color::from_rgba(255, 255, 255, 128).into_egui();
    assert_eq!(arr[3], 128);
    assert!(arr[0] < 255);
    assert_eq!(
        arr,
        egui::Color32::from_rgba_unmultiplied(255, 255, 255, 128).to_array()
    );
}
