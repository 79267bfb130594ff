//! A finished 24-bit sRGB color with an optional alpha byte, and its
//! rendering as a hex token.

use vstd::prelude::*;
use vstd::string::StringExecFns;
use crate::convert::{oklab_to_hex, oklch_to_hex, GamutOverflow};
use crate::hexfmt::{byte_hex, push_byte_hex, is_upper_hex_digit};
use crate::jsonval::{value_model, JsonModel};

verus! {

/// A packed 24-bit sRGB color (red most significant, blue least
/// significant) with an optional 8-bit alpha.
#[derive(Clone, Copy)]
pub struct Color {
    pub hex: u32,
    pub alpha: Option<u8>,
}

/// The hex token for a packed color: `#RRGGBB` without alpha, `#RRGGBBAA`
/// with it, each byte as two uppercase hexadecimal digits.
pub open spec fn hex_token(hex: u32, alpha: Option<u8>) -> Seq<char>
    recommends
        hex <= 0xFFFFFF,
{
    let rgb = seq!['#'] + byte_hex((hex / 0x10000) % 0x100) + byte_hex((hex / 0x100) % 0x100)
        + byte_hex(hex % 0x100);
    match alpha {
        Some(a) => rgb + byte_hex(a as u32),
        None => rgb,
    }
}

impl Color {
    /// The color's invariant: the packed value fits exactly 24 bits.
    pub open spec fn wf(self) -> bool {
        self.hex <= 0xFFFFFF
    }

    /// A color from an already packed 24-bit value, without alpha.
    pub fn new(hex: u32) -> (c: Color)
        requires
            hex <= 0xFFFFFF,
        ensures
            c == (Color { hex, alpha: None }),
            c.wf(),
    {
        Color { hex, alpha: None }
    }

    /// A color from an already packed 24-bit value with an alpha byte.
    pub fn with_alpha(hex: u32, alpha: u8) -> (c: Color)
        requires
            hex <= 0xFFFFFF,
        ensures
            c == (Color { hex, alpha: Some(alpha) }),
            c.wf(),
    {
        Color { hex, alpha: Some(alpha) }
    }

    /// A color converted from a rectangular perceptual sample, without
    /// alpha, or the gamut error where the sample is not displayable.
    pub fn from_oklab(oklab: tincture::Oklab) -> (r: Result<Color, GamutOverflow>)
        ensures
            r matches Ok(c) ==> c.wf() && c.alpha is None,
    {
        match oklab_to_hex(oklab) {
            Ok(hex) => Ok(Color { hex, alpha: None }),
            Err(e) => Err(e),
        }
    }

    /// A color converted from a rectangular perceptual sample with an
    /// explicit alpha byte.
    pub fn from_oklab_with_alpha(oklab: tincture::Oklab, alpha: u8) -> (r: Result<
        Color,
        GamutOverflow,
    >)
        ensures
            r matches Ok(c) ==> c.wf() && c.alpha == Some(alpha),
    {
        match oklab_to_hex(oklab) {
            Ok(hex) => Ok(Color { hex, alpha: Some(alpha) }),
            Err(e) => Err(e),
        }
    }

    /// A color converted from a cylindrical perceptual sample, without
    /// alpha, or the gamut error where the sample is not displayable.
    pub fn from_oklch(oklch: tincture::Oklch) -> (r: Result<Color, GamutOverflow>)
        ensures
            r matches Ok(c) ==> c.wf() && c.alpha is None,
    {
        match oklch_to_hex(oklch) {
            Ok(hex) => Ok(Color { hex, alpha: None }),
            Err(e) => Err(e),
        }
    }

    /// A color converted from a cylindrical perceptual sample with an
    /// explicit alpha byte.
    pub fn from_oklch_with_alpha(oklch: tincture::Oklch, alpha: u8) -> (r: Result<
        Color,
        GamutOverflow,
    >)
        ensures
            r matches Ok(c) ==> c.wf() && c.alpha == Some(alpha),
    {
        match oklch_to_hex(oklch) {
            Ok(hex) => Ok(Color { hex, alpha: Some(alpha) }),
            Err(e) => Err(e),
        }
    }

    /// Renders the color as its hex token: `#RRGGBB`, or `#RRGGBBAA` when
    /// alpha is present.
    pub fn to_hex_token(&self) -> (r: String)
        requires
            self.wf(),
        ensures
            r@ == hex_token(self.hex, self.alpha),
    {
        let mut out = String::from_str("#");
        proof {
            reveal_strlit("#");
        }
        push_byte_hex(&mut out, (self.hex / 0x10000) % 0x100);
        push_byte_hex(&mut out, (self.hex / 0x100) % 0x100);
        push_byte_hex(&mut out, self.hex % 0x100);
        if let Some(a) = self.alpha {
            push_byte_hex(&mut out, a as u32);
        }
        proof {
            assert(out@ =~= hex_token(self.hex, self.alpha));
        }
        out
    }

    /// The color as the `json` crate's string value holding its hex token.
    pub fn into_json_value(self) -> (v: json::JsonValue)
        requires
            self.wf(),
        ensures
            value_model(v) == JsonModel::Text(hex_token(self.hex, self.alpha)),
    {
        crate::jsonval::value_from_string(self.to_hex_token())
    }
}

/// Every hex token of a well-formed color is a `#` followed by six
/// uppercase hexadecimal digits, or by eight when alpha is present.
pub proof fn lemma_hex_token_shape(hex: u32, alpha: Option<u8>)
    requires
        hex <= 0xFFFFFF,
    ensures
        alpha is None ==> hex_token(hex, alpha).len() == 7,
        alpha is Some ==> hex_token(hex, alpha).len() == 9,
        hex_token(hex, alpha)[0] == '#',
        forall|i: int|
            1 <= i < hex_token(hex, alpha).len() ==> is_upper_hex_digit(hex_token(hex, alpha)[i]),
{
    let t = hex_token(hex, alpha);
    assert forall|i: int| 1 <= i < t.len() implies is_upper_hex_digit(t[i]) by {
        lemma_byte_hex_digits((hex / 0x10000) % 0x100);
        lemma_byte_hex_digits((hex / 0x100) % 0x100);
        lemma_byte_hex_digits(hex % 0x100);
        if alpha is Some {
            lemma_byte_hex_digits(alpha->0 as u32);
        }
    }
}

/// Both digits of a byte's hexadecimal form are uppercase hexadecimal
/// digits.
proof fn lemma_byte_hex_digits(b: u32)
    requires
        b < 256,
    ensures
        forall|i: int| 0 <= i < 2 ==> is_upper_hex_digit(byte_hex(b)[i]),
{
}

} // verus!
