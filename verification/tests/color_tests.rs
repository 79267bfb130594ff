use theme_style::color::Color;
use theme_style::convert::{oklab_to_hex, oklch_to_hex, GamutOverflow};
use theme_style::hexfmt::{pack_channels, unpack_channels};
use tincture::{ColorSpace, Hex, Hue, LinearRgb, Oklab, Oklch, Srgb};

fn in_gamut_oklab() -> Oklab {
    let linear = LinearRgb {
        r: 0.4,
        g: 0.2,
        b: 0.6,
    };
    tincture::convert(linear)
}

#[test]
fn hex_token_without_alpha() {
    assert_eq!(Color::new(0x336699).to_hex_token(), "#336699");
}

#[test]
fn hex_token_zero_padded() {
    assert_eq!(Color::new(0x000001).to_hex_token(), "#000001");
    assert_eq!(Color::new(0x000000).to_hex_token(), "#000000");
    assert_eq!(Color::new(0xFFFFFF).to_hex_token(), "#FFFFFF");
}

#[test]
fn hex_token_with_alpha() {
    assert_eq!(Color::with_alpha(0x112233, 0x80).to_hex_token(), "#11223380");
    assert_eq!(Color::with_alpha(0xABCDEF, 0x00).to_hex_token(), "#ABCDEF00");
}

#[test]
fn hex_token_shape_for_in_gamut_samples() {
    let color = Color::from_oklab(in_gamut_oklab()).unwrap();
    let token = color.to_hex_token();
    let chars: Vec<char> = token.chars().collect();
    assert_eq!(chars.len(), 7);
    assert_eq!(chars[0], '#');
    for c in &chars[1..] {
        assert!(c.is_ascii_hexdigit() && !c.is_ascii_lowercase());
    }

    let with_alpha = Color::from_oklab_with_alpha(in_gamut_oklab(), 0x42).unwrap();
    let token = with_alpha.to_hex_token();
    let chars: Vec<char> = token.chars().collect();
    assert_eq!(chars.len(), 9);
    assert_eq!(chars[0], '#');
    for c in &chars[1..] {
        assert!(c.is_ascii_hexdigit() && !c.is_ascii_lowercase());
    }
}

#[test]
fn pack_unpack_round_trip() {
    assert_eq!(pack_channels(0x33, 0x66, 0x99), 0x336699);
    assert_eq!(unpack_channels(0x336699), (0x33, 0x66, 0x99));
    for &(r, g, b) in &[(0u8, 0u8, 0u8), (255, 255, 255), (1, 2, 3), (255, 0, 128)] {
        assert_eq!(unpack_channels(pack_channels(r, g, b)), (r, g, b));
    }
    for &hex in &[0x000000u32, 0xFFFFFF, 0x123456, 0x0000FF] {
        let (r, g, b) = unpack_channels(hex);
        assert_eq!(pack_channels(r, g, b), hex);
    }
}

#[test]
fn conversion_matches_direct_pipeline() {
    let oklab = in_gamut_oklab();
    let linear: LinearRgb = tincture::convert(oklab);
    let srgb = Srgb::from(linear);
    assert!(srgb.in_bounds());
    let expected = srgb.hex();
    assert_eq!(oklab_to_hex(oklab), Ok(expected));
    let token = Color::from_oklab(oklab).unwrap().to_hex_token();
    assert_eq!(token, format!("#{:06X}", expected));
}

#[test]
fn cylindrical_matches_rectangular() {
    let oklch = Oklch {
        l: 0.8,
        c: 0.1,
        h: Hue::from_degrees(40.0).unwrap(),
    };
    let oklab = Oklab::from(oklch);
    assert_eq!(oklch_to_hex(oklch), oklab_to_hex(oklab));
    let from_cyl = Color::from_oklch(oklch).unwrap().to_hex_token();
    let from_rect = Color::from_oklab(oklab).unwrap().to_hex_token();
    assert_eq!(from_cyl, from_rect);
    let from_cyl = Color::from_oklch_with_alpha(oklch, 0x7F).unwrap().to_hex_token();
    let from_rect = Color::from_oklab_with_alpha(oklab, 0x7F).unwrap().to_hex_token();
    assert_eq!(from_cyl, from_rect);
}

#[test]
fn out_of_gamut_is_reported() {
    let too_bright = Oklab {
        l: 2.0,
        a: 0.0,
        b: 0.0,
    };
    assert!(matches!(Color::from_oklab(too_bright), Err(GamutOverflow)));
    assert!(matches!(Color::from_oklab_with_alpha(too_bright, 0x10), Err(GamutOverflow)));
    let too_vivid = Oklch {
        l: 0.5,
        c: 10.0,
        h: Hue::from_degrees(0.0).unwrap(),
    };
    assert!(matches!(Color::from_oklch(too_vivid), Err(GamutOverflow)));
    assert!(matches!(Color::from_oklch_with_alpha(too_vivid, 0x10), Err(GamutOverflow)));
}

#[test]
fn color_into_json_value() {
    let v = Color::new(0x336699).into_json_value();
    assert_eq!(v.dump(), "\"#336699\"");
    let v = Color::with_alpha(0x112233, 0x80).into_json_value();
    assert_eq!(v.dump(), "\"#11223380\"");
}
