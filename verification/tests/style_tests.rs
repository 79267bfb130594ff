use theme_style::color::Color;
use theme_style::jsonval::{JsonEntry, JsonLeaf};
use theme_style::style::{FontStyle, Style};

#[test]
fn single_field_tokens() {
    assert_eq!(FontStyle::Bold.to_single_field_token(), "bold");
    assert_eq!(FontStyle::Italic.to_single_field_token(), "italic");
    assert_eq!(FontStyle::BoldItalic.to_single_field_token(), "bold italic");
    assert_eq!(FontStyle::Underline.to_single_field_token(), "underline");
    assert_eq!(FontStyle::Inherit.to_single_field_token(), "");
}

#[test]
fn flag_fields_per_variant() {
    assert_eq!(FontStyle::Bold.to_flag_fields(), vec![("bold".to_string(), true)]);
    assert_eq!(FontStyle::Italic.to_flag_fields(), vec![("italic".to_string(), true)]);
    assert_eq!(
        FontStyle::BoldItalic.to_flag_fields(),
        vec![("bold".to_string(), true), ("italic".to_string(), true)]
    );
    assert_eq!(FontStyle::Underline.to_flag_fields(), vec![("underline".to_string(), true)]);
}

#[test]
fn font_style_into_json_value() {
    assert_eq!(FontStyle::Bold.into_json_value().dump(), "\"bold\"");
    assert_eq!(FontStyle::BoldItalic.into_json_value().dump(), "\"bold italic\"");
    assert_eq!(FontStyle::Inherit.into_json_value().dump(), "\"\"");
}

#[test]
fn color_only_single_field_mode() {
    let style = Style::from_color(Color::new(0x336699));
    let v = style.as_json_value(true);
    assert_eq!(v.dump(), "{\"foreground\":\"#336699\",\"fontStyle\":\"\"}");
}

#[test]
fn color_only_flag_mode_falls_back_to_empty_font_style() {
    let style = Style::from_color(Color::new(0x336699));
    let v = style.as_json_value(false);
    assert_eq!(v.dump(), "{\"foreground\":\"#336699\",\"fontStyle\":\"\"}");
}

#[test]
fn bold_italic_flag_mode() {
    let style = Style::from_font_style(FontStyle::BoldItalic);
    let v = style.as_json_value(false);
    assert_eq!(v.dump(), "{\"bold\":true,\"italic\":true}");
}

#[test]
fn underline_single_field_mode() {
    let style = Style::from_font_style(FontStyle::Underline);
    let v = style.as_json_value(true);
    assert_eq!(v.dump(), "{\"fontStyle\":\"underline\"}");
}

#[test]
fn inherit_with_color_emits_foreground_only() {
    let style = Style::from_color_and_font_style(Color::new(0xABCDEF), FontStyle::Inherit);
    assert_eq!(style.as_json_value(true).dump(), "{\"foreground\":\"#ABCDEF\"}");
    assert_eq!(style.as_json_value(false).dump(), "{\"foreground\":\"#ABCDEF\"}");
}

#[test]
fn inherit_alone_emits_nothing() {
    let style = Style::from_font_style(FontStyle::Inherit);
    assert_eq!(style.as_json_value(true).dump(), "{}");
    assert_eq!(style.as_json_value(false).dump(), "{}");
}

#[test]
fn alpha_color_single_field_mode() {
    let style = Style::from_color(Color::with_alpha(0x112233, 0x80));
    let v = style.as_json_value(true);
    assert_eq!(v.dump(), "{\"foreground\":\"#11223380\",\"fontStyle\":\"\"}");
}

#[test]
fn each_emphasis_in_each_mode() {
    let cases: Vec<(FontStyle, &str, &str)> = vec![
        (FontStyle::Bold, "{\"fontStyle\":\"bold\"}", "{\"bold\":true}"),
        (FontStyle::Italic, "{\"fontStyle\":\"italic\"}", "{\"italic\":true}"),
        (
            FontStyle::BoldItalic,
            "{\"fontStyle\":\"bold italic\"}",
            "{\"bold\":true,\"italic\":true}",
        ),
        (FontStyle::Underline, "{\"fontStyle\":\"underline\"}", "{\"underline\":true}"),
    ];
    for (font_style, single, flags) in cases {
        let style = Style::from_font_style(font_style);
        assert_eq!(style.as_json_value(true).dump(), single);
        assert_eq!(style.as_json_value(false).dump(), flags);
    }
}

#[test]
fn entries_of_full_style() {
    let style = Style::from_color_and_font_style(Color::new(0x336699), FontStyle::BoldItalic);
    let entries: Vec<JsonEntry> = style.to_entries(false);
    assert_eq!(entries.len(), 3);
    assert_eq!(entries[0].key, "foreground");
    assert!(matches!(&entries[0].value, JsonLeaf::Text(s) if s.as_str() == "#336699"));
    assert_eq!(entries[1].key, "bold");
    assert!(matches!(entries[1].value, JsonLeaf::Flag(true)));
    assert_eq!(entries[2].key, "italic");
    assert!(matches!(entries[2].value, JsonLeaf::Flag(true)));
}

#[test]
fn entries_in_single_field_mode() {
    let style = Style::from_color_and_font_style(Color::new(0x336699), FontStyle::Underline);
    let entries: Vec<JsonEntry> = style.to_entries(true);
    assert_eq!(entries.len(), 2);
    assert_eq!(entries[0].key, "foreground");
    assert_eq!(entries[1].key, "fontStyle");
    assert!(matches!(&entries[1].value, JsonLeaf::Text(s) if s.as_str() == "underline"));
}

#[test]
fn inherit_detected_by_equality() {
    assert_eq!(FontStyle::Inherit, FontStyle::Inherit);
    assert_ne!(FontStyle::Bold, FontStyle::Inherit);
}
