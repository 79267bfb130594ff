//! Conversion of a perceptual color sample into a packed 24-bit sRGB
//! integer, with out-of-gamut detection, through the `tincture` crate.

use vstd::prelude::*;
use tincture::ColorSpace;
use tincture::Hex;

verus! {

/// A converted color fell outside the displayable sRGB gamut.
#[derive(Clone, Copy, PartialEq, Eq, Structural, Debug)]
pub struct GamutOverflow;

#[verifier::external_type_specification]
#[verifier::external_body]
pub struct ExOklab(tincture::Oklab);

#[verifier::external_type_specification]
#[verifier::external_body]
pub struct ExOklch(tincture::Oklch);

#[verifier::external_type_specification]
#[verifier::external_body]
pub struct ExLinearRgb(tincture::LinearRgb);

#[verifier::external_type_specification]
#[verifier::external_body]
pub struct ExSrgb(tincture::Srgb);

/// Relies on tincture::convert: the standard perceptual-to-linear-light
/// transform from Oklab coordinates.
#[verifier::external_body]
fn oklab_to_linear(c: tincture::Oklab) -> tincture::LinearRgb {
    tincture::convert(c)
}

/// Relies on tincture::Srgb::from: gamma encoding of a linear-light color.
#[verifier::external_body]
fn srgb_from_linear(c: tincture::LinearRgb) -> tincture::Srgb {
    tincture::Srgb::from(c)
}

/// Relies on tincture::ColorSpace::in_bounds for Srgb: whether every
/// channel lies in the displayable range.
#[verifier::external_body]
fn srgb_in_bounds(c: &tincture::Srgb) -> bool {
    (*c).in_bounds()
}

/// Relies on tincture::Hex::hex for Srgb: each channel is scaled to one
/// byte, and the three bytes are packed red-first into the low 24 bits, so
/// the result never exceeds 0xFFFFFF.
#[verifier::external_body]
fn srgb_hex(c: &tincture::Srgb) -> (r: u32)
    ensures
        r <= 0xFFFFFF,
{
    (*c).hex()
}

/// Relies on tincture::Oklab::from: the cylindrical Oklch coordinates taken
/// to the Cartesian Oklab coordinates of the same perceptual color.
#[verifier::external_body]
fn oklab_from_oklch(c: tincture::Oklch) -> tincture::Oklab {
    tincture::Oklab::from(c)
}

/// Converts a rectangular perceptual sample to the packed 24-bit sRGB
/// integer, or reports that the color falls outside the sRGB gamut.
pub fn oklab_to_hex(oklab: tincture::Oklab) -> (r: Result<u32, GamutOverflow>)
    ensures
        r matches Ok(hex) ==> hex <= 0xFFFFFF,
{
    let linear_rgb: tincture::LinearRgb = oklab_to_linear(oklab);
    let srgb = srgb_from_linear(linear_rgb);
    if srgb_in_bounds(&srgb) {
        Ok(srgb_hex(&srgb))
    } else {
        Err(GamutOverflow)
    }
}

/// Converts a cylindrical perceptual sample by first taking it to the
/// rectangular coordinates of the same perceptual space.
pub fn oklch_to_hex(oklch: tincture::Oklch) -> (r: Result<u32, GamutOverflow>)
    ensures
        r matches Ok(hex) ==> hex <= 0xFFFFFF,
{
    let oklab = oklab_from_oklch(oklch);
    oklab_to_hex(oklab)
}

} // verus!
