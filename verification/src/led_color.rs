//! The colour of one LED, and how the pixel formats of `embedded_graphics`
//! widen to it.

use crate::pixelcolor::{
    bgr555_b, bgr555_g, bgr555_r, bgr565_b, bgr565_g, bgr565_r, bgr888_b, bgr888_g, bgr888_r,
    gray2_luma, gray4_luma, gray8_luma, rgb555_b, rgb555_g, rgb555_r, rgb565_b, rgb565_g,
    rgb565_r, rgb888_b, rgb888_g, rgb888_r,
};
use embedded_graphics::pixelcolor::{
    Bgr555, Bgr565, Bgr888, Gray2, Gray4, Gray8, GrayColor, Rgb555, Rgb565, Rgb888, RgbColor,
};
use vstd::arithmetic::power2::{lemma2_to64, pow2};
use vstd::prelude::*;
use vstd::std_specs::convert::FromSpecImpl;

verus! {

/// The colour of one LED: a byte each for red, green and blue.
#[derive(Clone, Copy)]
pub struct LedColor {
    pub red: u8,
    pub green: u8,
    pub blue: u8,
}

/// A channel level moved up by `shift` bits inside a byte: the level times two
/// to the `shift`, less whatever passes the top of the byte.
pub open spec fn widened(level: u8, shift: u8) -> u8 {
    ((level as int * pow2(shift as nat)) % 256) as u8
}

/// On a byte, `<<` is `widened`.
pub proof fn lemma_shl_is_widened(level: u8, shift: u8)
    requires
        shift < 8,
    ensures
        level << shift == widened(level, shift),
{
    lemma2_to64();
    assert(level << 0u8 == (level * 1) % 256) by (bit_vector);
    assert(level << 1u8 == (level * 2) % 256) by (bit_vector);
    assert(level << 2u8 == (level * 4) % 256) by (bit_vector);
    assert(level << 3u8 == (level * 8) % 256) by (bit_vector);
    assert(level << 4u8 == (level * 16) % 256) by (bit_vector);
    assert(level << 5u8 == (level * 32) % 256) by (bit_vector);
    assert(level << 6u8 == (level * 64) % 256) by (bit_vector);
    assert(level << 7u8 == (level * 128) % 256) by (bit_vector);
}

/// A level that stays inside the byte loses nothing when it is widened.
pub proof fn lemma_widened_keeps_level(level: u8, shift: u8)
    requires
        level * pow2(shift as nat) < 256,
    ensures
        widened(level, shift) == level * pow2(shift as nat),
{
}

/// Moves a channel level of fewer than eight bits to the top of a byte. Where
/// the level has no more than `8 - shift` bits, none of them is lost.
pub fn widen(level: u8, shift: u8) -> (wide: u8)
    requires
        shift < 8,
    ensures
        wide == widened(level, shift),
        level * pow2(shift as nat) < 256 ==> wide == level * pow2(shift as nat),
{
    proof {
        lemma_shl_is_widened(level, shift);
        if level * pow2(shift as nat) < 256 {
            lemma_widened_keeps_level(level, shift);
        }
    }
    level << shift
}

impl From<Bgr555> for LedColor {
    /// Each channel has five bits and moves up by three. No bit of it is lost.
    fn from(p: Bgr555) -> (color: Self)
        ensures
            color.red == 8 * bgr555_r(p),
            color.green == 8 * bgr555_g(p),
            color.blue == 8 * bgr555_b(p),
    {
        proof {
            lemma2_to64();
        }
        LedColor { red: widen(p.r(), 3), green: widen(p.g(), 3), blue: widen(p.b(), 3) }
    }
}

impl FromSpecImpl<Bgr555> for LedColor {
    open spec fn obeys_from_spec() -> bool {
        true
    }

    open spec fn from_spec(p: Bgr555) -> Self {
        LedColor {
            red: widened(bgr555_r(p), 3),
            green: widened(bgr555_g(p), 3),
            blue: widened(bgr555_b(p), 3),
        }
    }
}

impl From<Bgr565> for LedColor {
    /// Red and blue have five bits and green has six. No bit of them is lost.
    fn from(p: Bgr565) -> (color: Self)
        ensures
            color.red == 8 * bgr565_r(p),
            color.green == 4 * bgr565_g(p),
            color.blue == 8 * bgr565_b(p),
    {
        proof {
            lemma2_to64();
        }
        LedColor { red: widen(p.r(), 3), green: widen(p.g(), 2), blue: widen(p.b(), 3) }
    }
}

impl FromSpecImpl<Bgr565> for LedColor {
    open spec fn obeys_from_spec() -> bool {
        true
    }

    open spec fn from_spec(p: Bgr565) -> Self {
        LedColor {
            red: widened(bgr565_r(p), 3),
            green: widened(bgr565_g(p), 2),
            blue: widened(bgr565_b(p), 3),
        }
    }
}

impl From<Bgr888> for LedColor {
    /// Each channel is a full byte and is taken as it is.
    fn from(p: Bgr888) -> (color: Self) {
        LedColor { red: p.r(), green: p.g(), blue: p.b() }
    }
}

impl FromSpecImpl<Bgr888> for LedColor {
    open spec fn obeys_from_spec() -> bool {
        true
    }

    open spec fn from_spec(p: Bgr888) -> Self {
        LedColor { red: bgr888_r(p), green: bgr888_g(p), blue: bgr888_b(p) }
    }
}

impl From<Gray2> for LedColor {
    /// The two bits of luma move to the top of every channel.
    fn from(p: Gray2) -> (color: Self)
        ensures
            color.red == 64 * gray2_luma(p),
            color.green == color.red,
            color.blue == color.red,
    {
        proof {
            lemma2_to64();
        }
        LedColor {
            red: widen(p.luma(), 6),
            green: widen(p.luma(), 6),
            blue: widen(p.luma(), 6),
        }
    }
}

impl FromSpecImpl<Gray2> for LedColor {
    open spec fn obeys_from_spec() -> bool {
        true
    }

    open spec fn from_spec(p: Gray2) -> Self {
        LedColor {
            red: widened(gray2_luma(p), 6),
            green: widened(gray2_luma(p), 6),
            blue: widened(gray2_luma(p), 6),
        }
    }
}

impl From<Gray4> for LedColor {
    /// The four bits of luma move to the top of every channel.
    fn from(p: Gray4) -> (color: Self)
        ensures
            color.red == 16 * gray4_luma(p),
            color.green == color.red,
            color.blue == color.red,
    {
        proof {
            lemma2_to64();
        }
        LedColor {
            red: widen(p.luma(), 4),
            green: widen(p.luma(), 4),
            blue: widen(p.luma(), 4),
        }
    }
}

impl FromSpecImpl<Gray4> for LedColor {
    open spec fn obeys_from_spec() -> bool {
        true
    }

    open spec fn from_spec(p: Gray4) -> Self {
        LedColor {
            red: widened(gray4_luma(p), 4),
            green: widened(gray4_luma(p), 4),
            blue: widened(gray4_luma(p), 4),
        }
    }
}

impl From<Gray8> for LedColor {
    /// The luma is a full byte and becomes every channel.
    fn from(p: Gray8) -> (color: Self) {
        LedColor { red: p.luma(), green: p.luma(), blue: p.luma() }
    }
}

impl FromSpecImpl<Gray8> for LedColor {
    open spec fn obeys_from_spec() -> bool {
        true
    }

    open spec fn from_spec(p: Gray8) -> Self {
        LedColor { red: gray8_luma(p), green: gray8_luma(p), blue: gray8_luma(p) }
    }
}

impl From<Rgb555> for LedColor {
    /// Each channel has five bits and moves up by three. No bit of it is lost.
    fn from(p: Rgb555) -> (color: Self)
        ensures
            color.red == 8 * rgb555_r(p),
            color.green == 8 * rgb555_g(p),
            color.blue == 8 * rgb555_b(p),
    {
        proof {
            lemma2_to64();
        }
        LedColor { red: widen(p.r(), 3), green: widen(p.g(), 3), blue: widen(p.b(), 3) }
    }
}

impl FromSpecImpl<Rgb555> for LedColor {
    open spec fn obeys_from_spec() -> bool {
        true
    }

    open spec fn from_spec(p: Rgb555) -> Self {
        LedColor {
            red: widened(rgb555_r(p), 3),
            green: widened(rgb555_g(p), 3),
            blue: widened(rgb555_b(p), 3),
        }
    }
}

impl From<Rgb565> for LedColor {
    /// Red and blue have five bits and green has six. No bit of them is lost.
    fn from(p: Rgb565) -> (color: Self)
        ensures
            color.red == 8 * rgb565_r(p),
            color.green == 4 * rgb565_g(p),
            color.blue == 8 * rgb565_b(p),
    {
        proof {
            lemma2_to64();
        }
        LedColor { red: widen(p.r(), 3), green: widen(p.g(), 2), blue: widen(p.b(), 3) }
    }
}

impl FromSpecImpl<Rgb565> for LedColor {
    open spec fn obeys_from_spec() -> bool {
        true
    }

    open spec fn from_spec(p: Rgb565) -> Self {
        LedColor {
            red: widened(rgb565_r(p), 3),
            green: widened(rgb565_g(p), 2),
            blue: widened(rgb565_b(p), 3),
        }
    }
}

impl From<Rgb888> for LedColor {
    /// Each channel is a full byte and is taken as it is.
    fn from(p: Rgb888) -> (color: Self) {
        LedColor { red: p.r(), green: p.g(), blue: p.b() }
    }
}

impl FromSpecImpl<Rgb888> for LedColor {
    open spec fn obeys_from_spec() -> bool {
        true
    }

    open spec fn from_spec(p: Rgb888) -> Self {
        LedColor { red: rgb888_r(p), green: rgb888_g(p), blue: rgb888_b(p) }
    }
}

} // verus!
