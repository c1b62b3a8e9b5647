use tradedoc::properties::{DocumentProperties, Rgb};

#[test]
fn all_none_resolves_to_documented_defaults() {
    let input = DocumentProperties {
        font_normal: None,
        font_bold: None,
        background_color: None,
        font_size_title: None,
        font_size_body: None,
        font_size_label: None,
    };
    let r = input.input_or_default();
    assert_eq!(r.font_normal, "Helvetica");
    assert_eq!(r.font_bold, "Helvetica-Bold");
    // Channels are hundredths: 90 stands for 0.90 light gray.
    assert_eq!(r.background_color, Rgb { r: 90, g: 90, b: 90 });
    assert!((r.background_color.r as f32) / 100.0 == 0.9);
    assert_eq!(r.font_size_title, 20);
    assert_eq!(r.font_size_body, 10);
    assert_eq!(r.font_size_label, 10);
}

#[test]
fn fully_populated_input_is_kept_unchanged() {
    let input = DocumentProperties {
        font_normal: Some("Courier".to_string()),
        font_bold: Some("Courier-Bold".to_string()),
        background_color: Some(Rgb { r: 10, g: 20, b: 30 }),
        font_size_title: Some(32),
        font_size_body: Some(9),
        font_size_label: Some(8),
    };
    let r = input.input_or_default();
    assert_eq!(r.font_normal, "Courier");
    assert_eq!(r.font_bold, "Courier-Bold");
    assert_eq!(r.background_color, Rgb { r: 10, g: 20, b: 30 });
    assert_eq!(r.font_size_title, 32);
    assert_eq!(r.font_size_body, 9);
    assert_eq!(r.font_size_label, 8);
}
