//! Colours of 16-bit RGB displays.
//!
//! A colour is kept as the word that goes to the display: five bits of red,
//! six of green, five of blue, red in the most significant bits. The words
//! themselves come from `embedded_graphics`, which owns the conversion from
//! 24-bit colours and the named colours.
use vstd::prelude::*;
use embedded_graphics::pixelcolor::{IntoStorage, Rgb565, Rgb888, RgbColor, WebColors};

verus! {

/// An eight-bit channel value scaled to the range `0..=max`, in the fixed-point
/// arithmetic of the display library: the value times `max / 255`, held with 24
/// fractional bits, and rounded half up.
pub open spec fn scaled_channel(value: u8, max: int) -> int {
    (value * ((max * 0x100_0000) / 255) + 0x80_0000) / 0x100_0000
}

/// The display word for the 24-bit colour `(red, green, blue)`.
pub open spec fn rgb565_word(red: u8, green: u8, blue: u8) -> u16 {
    (scaled_channel(red, 31) * 0x800 + scaled_channel(green, 63) * 0x20 + scaled_channel(
        blue,
        31,
    )) as u16
}

/// The display word for the 24-bit colour `(red, green, blue)`, for themes
/// that are written down in the colours of the web.
pub fn rgb565(red: u8, green: u8, blue: u8) -> (word: u16)
    ensures
        word == rgb565_word(red, green, blue),
{
    rgb565_from_rgb888(red, green, blue)
}

/// Calls `Rgb565::from(Rgb888)` of `embedded_graphics` and takes the word the
/// colour is stored as. Trusted: that the conversion scales each channel as
/// [`scaled_channel`] says and packs red, green and blue from the top.
#[verifier::external_body]
pub(crate) fn rgb565_from_rgb888(red: u8, green: u8, blue: u8) -> (word: u16)
    ensures
        word == rgb565_word(red, green, blue),
{
    Rgb565::from(Rgb888::new(red, green, blue)).into_storage()
}

/// Reads `Rgb565::WHITE` of `embedded_graphics`. Trusted: that white has
/// every bit set.
#[verifier::external_body]
pub(crate) fn rgb565_white() -> (word: u16)
    ensures
        word == 0xFFFF,
{
    Rgb565::WHITE.into_storage()
}

/// Reads `Rgb565::CSS_BLACK` of `embedded_graphics`. Trusted: that it is the
/// conversion of the web colour (0, 0, 0).
#[verifier::external_body]
pub(crate) fn rgb565_css_black() -> (word: u16)
    ensures
        word == rgb565_word(0, 0, 0),
{
    Rgb565::CSS_BLACK.into_storage()
}

/// Reads `Rgb565::CSS_LIGHT_GRAY` of `embedded_graphics`. Trusted: that it is
/// the conversion of the web colour (211, 211, 211).
#[verifier::external_body]
pub(crate) fn rgb565_css_light_gray() -> (word: u16)
    ensures
        word == rgb565_word(211, 211, 211),
{
    Rgb565::CSS_LIGHT_GRAY.into_storage()
}

/// Reads `Rgb565::CSS_DARK_GRAY` of `embedded_graphics`. Trusted: that it is
/// the conversion of the web colour (169, 169, 169).
#[verifier::external_body]
pub(crate) fn rgb565_css_dark_gray() -> (word: u16)
    ensures
        word == rgb565_word(169, 169, 169),
{
    Rgb565::CSS_DARK_GRAY.into_storage()
}

} // verus!
