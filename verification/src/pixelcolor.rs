//! What this crate takes on trust of the pixel formats of `embedded_graphics`.
//!
//! A pixel of one of these formats is opaque here. Each channel getter gets a
//! name for the level it reads, and the bound that the format's bit width puts
//! on that level. Nothing else is assumed of the formats.

use embedded_graphics::pixelcolor::{
    Bgr555, Bgr565, Bgr888, Gray2, Gray4, Gray8, GrayColor, Rgb555, Rgb565, Rgb888, RgbColor,
};
use vstd::prelude::*;

verus! {

/// `embedded_graphics::pixelcolor::Rgb555`, a 15 bit RGB pixel.
#[verifier::external_type_specification]
#[verifier::external_body]
pub struct ExRgb555(Rgb555);

/// The red level that `RgbColor::r` reads from an `Rgb555` pixel.
pub uninterp spec fn rgb555_r(pixel: Rgb555) -> u8;

/// `RgbColor::r` of `Rgb555` returns the pixel's red level. The format keeps
/// it in five bits and the getter masks it to them, so it is at most 31.
pub assume_specification[ <Rgb555 as RgbColor>::r ](pixel: &Rgb555) -> (level: u8)
    ensures
        level == rgb555_r(*pixel),
        level <= 31,
;

/// The green level that `RgbColor::g` reads from an `Rgb555` pixel.
pub uninterp spec fn rgb555_g(pixel: Rgb555) -> u8;

/// `RgbColor::g` of `Rgb555` returns the pixel's green level. The format keeps
/// it in five bits and the getter masks it to them, so it is at most 31.
pub assume_specification[ <Rgb555 as RgbColor>::g ](pixel: &Rgb555) -> (level: u8)
    ensures
        level == rgb555_g(*pixel),
        level <= 31,
;

/// The blue level that `RgbColor::b` reads from an `Rgb555` pixel.
pub uninterp spec fn rgb555_b(pixel: Rgb555) -> u8;

/// `RgbColor::b` of `Rgb555` returns the pixel's blue level. The format keeps
/// it in five bits and the getter masks it to them, so it is at most 31.
pub assume_specification[ <Rgb555 as RgbColor>::b ](pixel: &Rgb555) -> (level: u8)
    ensures
        level == rgb555_b(*pixel),
        level <= 31,
;

/// `embedded_graphics::pixelcolor::Bgr555`, a 15 bit BGR pixel.
#[verifier::external_type_specification]
#[verifier::external_body]
pub struct ExBgr555(Bgr555);

/// The red level that `RgbColor::r` reads from a `Bgr555` pixel.
pub uninterp spec fn bgr555_r(pixel: Bgr555) -> u8;

/// `RgbColor::r` of `Bgr555` returns the pixel's red level. The format keeps
/// it in five bits and the getter masks it to them, so it is at most 31.
pub assume_specification[ <Bgr555 as RgbColor>::r ](pixel: &Bgr555) -> (level: u8)
    ensures
        level == bgr555_r(*pixel),
        level <= 31,
;

/// The green level that `RgbColor::g` reads from a `Bgr555` pixel.
pub uninterp spec fn bgr555_g(pixel: Bgr555) -> u8;

/// `RgbColor::g` of `Bgr555` returns the pixel's green level. The format keeps
/// it in five bits and the getter masks it to them, so it is at most 31.
pub assume_specification[ <Bgr555 as RgbColor>::g ](pixel: &Bgr555) -> (level: u8)
    ensures
        level == bgr555_g(*pixel),
        level <= 31,
;

/// The blue level that `RgbColor::b` reads from a `Bgr555` pixel.
pub uninterp spec fn bgr555_b(pixel: Bgr555) -> u8;

/// `RgbColor::b` of `Bgr555` returns the pixel's blue level. The format keeps
/// it in five bits and the getter masks it to them, so it is at most 31.
pub assume_specification[ <Bgr555 as RgbColor>::b ](pixel: &Bgr555) -> (level: u8)
    ensures
        level == bgr555_b(*pixel),
        level <= 31,
;

/// `embedded_graphics::pixelcolor::Rgb565`, a 16 bit RGB pixel.
#[verifier::external_type_specification]
#[verifier::external_body]
pub struct ExRgb565(Rgb565);

/// The red level that `RgbColor::r` reads from an `Rgb565` pixel.
pub uninterp spec fn rgb565_r(pixel: Rgb565) -> u8;

/// `RgbColor::r` of `Rgb565` returns the pixel's red level. The format keeps
/// it in five bits and the getter masks it to them, so it is at most 31.
pub assume_specification[ <Rgb565 as RgbColor>::r ](pixel: &Rgb565) -> (level: u8)
    ensures
        level == rgb565_r(*pixel),
        level <= 31,
;

/// The green level that `RgbColor::g` reads from an `Rgb565` pixel.
pub uninterp spec fn rgb565_g(pixel: Rgb565) -> u8;

/// `RgbColor::g` of `Rgb565` returns the pixel's green level. The format keeps
/// it in six bits and the getter masks it to them, so it is at most 63.
pub assume_specification[ <Rgb565 as RgbColor>::g ](pixel: &Rgb565) -> (level: u8)
    ensures
        level == rgb565_g(*pixel),
        level <= 63,
;

/// The blue level that `RgbColor::b` reads from an `Rgb565` pixel.
pub uninterp spec fn rgb565_b(pixel: Rgb565) -> u8;

/// `RgbColor::b` of `Rgb565` returns the pixel's blue level. The format keeps
/// it in five bits and the getter masks it to them, so it is at most 31.
pub assume_specification[ <Rgb565 as RgbColor>::b ](pixel: &Rgb565) -> (level: u8)
    ensures
        level == rgb565_b(*pixel),
        level <= 31,
;

/// `embedded_graphics::pixelcolor::Bgr565`, a 16 bit BGR pixel.
#[verifier::external_type_specification]
#[verifier::external_body]
pub struct ExBgr565(Bgr565);

/// The red level that `RgbColor::r` reads from a `Bgr565` pixel.
pub uninterp spec fn bgr565_r(pixel: Bgr565) -> u8;

/// `RgbColor::r` of `Bgr565` returns the pixel's red level. The format keeps
/// it in five bits and the getter masks it to them, so it is at most 31.
pub assume_specification[ <Bgr565 as RgbColor>::r ](pixel: &Bgr565) -> (level: u8)
    ensures
        level == bgr565_r(*pixel),
        level <= 31,
;

/// The green level that `RgbColor::g` reads from a `Bgr565` pixel.
pub uninterp spec fn bgr565_g(pixel: Bgr565) -> u8;

/// `RgbColor::g` of `Bgr565` returns the pixel's green level. The format keeps
/// it in six bits and the getter masks it to them, so it is at most 63.
pub assume_specification[ <Bgr565 as RgbColor>::g ](pixel: &Bgr565) -> (level: u8)
    ensures
        level == bgr565_g(*pixel),
        level <= 63,
;

/// The blue level that `RgbColor::b` reads from a `Bgr565` pixel.
pub uninterp spec fn bgr565_b(pixel: Bgr565) -> u8;

/// `RgbColor::b` of `Bgr565` returns the pixel's blue level. The format keeps
/// it in five bits and the getter masks it to them, so it is at most 31.
pub assume_specification[ <Bgr565 as RgbColor>::b ](pixel: &Bgr565) -> (level: u8)
    ensures
        level == bgr565_b(*pixel),
        level <= 31,
;

/// `embedded_graphics::pixelcolor::Rgb888`, a 24 bit RGB pixel.
#[verifier::external_type_specification]
#[verifier::external_body]
pub struct ExRgb888(Rgb888);

/// The red level that `RgbColor::r` reads from an `Rgb888` pixel.
pub uninterp spec fn rgb888_r(pixel: Rgb888) -> u8;

/// `RgbColor::r` of `Rgb888` returns the pixel's red level, a full byte.
pub assume_specification[ <Rgb888 as RgbColor>::r ](pixel: &Rgb888) -> (level: u8)
    ensures
        level == rgb888_r(*pixel),
;

/// The green level that `RgbColor::g` reads from an `Rgb888` pixel.
pub uninterp spec fn rgb888_g(pixel: Rgb888) -> u8;

/// `RgbColor::g` of `Rgb888` returns the pixel's green level, a full byte.
pub assume_specification[ <Rgb888 as RgbColor>::g ](pixel: &Rgb888) -> (level: u8)
    ensures
        level == rgb888_g(*pixel),
;

/// The blue level that `RgbColor::b` reads from an `Rgb888` pixel.
pub uninterp spec fn rgb888_b(pixel: Rgb888) -> u8;

/// `RgbColor::b` of `Rgb888` returns the pixel's blue level, a full byte.
pub assume_specification[ <Rgb888 as RgbColor>::b ](pixel: &Rgb888) -> (level: u8)
    ensures
        level == rgb888_b(*pixel),
;

/// `embedded_graphics::pixelcolor::Bgr888`, a 24 bit BGR pixel.
#[verifier::external_type_specification]
#[verifier::external_body]
pub struct ExBgr888(Bgr888);

/// The red level that `RgbColor::r` reads from a `Bgr888` pixel.
pub uninterp spec fn bgr888_r(pixel: Bgr888) -> u8;

/// `RgbColor::r` of `Bgr888` returns the pixel's red level, a full byte.
pub assume_specification[ <Bgr888 as RgbColor>::r ](pixel: &Bgr888) -> (level: u8)
    ensures
        level == bgr888_r(*pixel),
;

/// The green level that `RgbColor::g` reads from a `Bgr888` pixel.
pub uninterp spec fn bgr888_g(pixel: Bgr888) -> u8;

/// `RgbColor::g` of `Bgr888` returns the pixel's green level, a full byte.
pub assume_specification[ <Bgr888 as RgbColor>::g ](pixel: &Bgr888) -> (level: u8)
    ensures
        level == bgr888_g(*pixel),
;

/// The blue level that `RgbColor::b` reads from a `Bgr888` pixel.
pub uninterp spec fn bgr888_b(pixel: Bgr888) -> u8;

/// `RgbColor::b` of `Bgr888` returns the pixel's blue level, a full byte.
pub assume_specification[ <Bgr888 as RgbColor>::b ](pixel: &Bgr888) -> (level: u8)
    ensures
        level == bgr888_b(*pixel),
;

/// `embedded_graphics::pixelcolor::Gray2`, a 2 bit grayscale pixel.
#[verifier::external_type_specification]
#[verifier::external_body]
pub struct ExGray2(Gray2);

/// The luma level that `GrayColor::luma` reads from a `Gray2` pixel.
pub uninterp spec fn gray2_luma(pixel: Gray2) -> u8;

/// `GrayColor::luma` of `Gray2` returns the pixel's luma level. The format keeps
/// it in two bits, with the upper bits of the byte at zero, so it is at
/// most 3.
pub assume_specification[ <Gray2 as GrayColor>::luma ](pixel: &Gray2) -> (level: u8)
    ensures
        level == gray2_luma(*pixel),
        level <= 3,
;

/// `embedded_graphics::pixelcolor::Gray4`, a 4 bit grayscale pixel.
#[verifier::external_type_specification]
#[verifier::external_body]
pub struct ExGray4(Gray4);

/// The luma level that `GrayColor::luma` reads from a `Gray4` pixel.
pub uninterp spec fn gray4_luma(pixel: Gray4) -> u8;

/// `GrayColor::luma` of `Gray4` returns the pixel's luma level. The format keeps
/// it in four bits, with the upper bits of the byte at zero, so it is at
/// most 15.
pub assume_specification[ <Gray4 as GrayColor>::luma ](pixel: &Gray4) -> (level: u8)
    ensures
        level == gray4_luma(*pixel),
        level <= 15,
;

/// `embedded_graphics::pixelcolor::Gray8`, a 8 bit grayscale pixel.
#[verifier::external_type_specification]
#[verifier::external_body]
pub struct ExGray8(Gray8);

/// The luma level that `GrayColor::luma` reads from a `Gray8` pixel.
pub uninterp spec fn gray8_luma(pixel: Gray8) -> u8;

/// `GrayColor::luma` of `Gray8` returns the pixel's luma level, a full byte.
pub assume_specification[ <Gray8 as GrayColor>::luma ](pixel: &Gray8) -> (level: u8)
    ensures
        level == gray8_luma(*pixel),
;

} // verus!
