//! Encoding of text-editor theme styling: perceptual color samples packed
//! into 24-bit sRGB values with out-of-gamut detection, hex color tokens,
//! and style records rendered to JSON under two key/value conventions.

pub mod color;
pub mod convert;
pub mod hexfmt;
pub mod jsonval;
pub mod style;
