//! Conversions from the terminal cell model to what the GPU grid renderer
//! reads: colours packed as `0xRRGGBB`, and text modifiers as a font style
//! and a glyph effect.
use vstd::prelude::*;

use crate::colors::{pack_rgb, red_of, green_of, blue_of, hue_primaries, is_light, TermColor};

verus! {

/// The character a cell's symbol is drawn with: its first character, if it
/// has one.
pub fn first_char(symbol: &str) -> (c: Option<char>)
    ensures
        c == (if symbol@.len() > 0 {
            Some(symbol@[0])
        } else {
            None::<char>
        }),
{
    broadcast use vstd::string::axiom_spec_iter, vstd::string::next_postcondition;

    let mut chars = symbol.chars();
    chars.next()
}

/// Colours packed as `0xRRGGBB` for the grid renderer.
pub trait RatatuiColorToU32 {
    fn to_u32(&self) -> u32;
}

/// The 16-colour VGA-style palette used for indexed colours 0 to 15.
pub open spec fn ansi_palette(i: int) -> (u8, u8, u8) {
    if i == 0 {
        (0, 0, 0)
    } else if i == 1 {
        (128, 0, 0)
    } else if i == 2 {
        (0, 128, 0)
    } else if i == 3 {
        (128, 128, 0)
    } else if i == 4 {
        (0, 0, 128)
    } else if i == 5 {
        (128, 0, 128)
    } else if i == 6 {
        (0, 128, 128)
    } else if i == 7 {
        (192, 192, 192)
    } else if i == 8 {
        (128, 128, 128)
    } else if i == 9 {
        (255, 0, 0)
    } else if i == 10 {
        (0, 255, 0)
    } else if i == 11 {
        (255, 255, 0)
    } else if i == 12 {
        (0, 0, 255)
    } else if i == 13 {
        (255, 0, 255)
    } else if i == 14 {
        (0, 255, 255)
    } else {
        (255, 255, 255)
    }
}

/// The 256-colour palette of the grid renderer: sixteen basic colours, a
/// 6x6x6 cube with channel steps of 51 at 16..=231, and 24 grays from 8 to
/// 238 in steps of 10.
pub open spec fn ansi256_rgb(i: u8) -> (u8, u8, u8) {
    if i < 16 {
        ansi_palette(i as int)
    } else if i < 232 {
        let c = i - 16;
        (((c / 36) * 51) as u8, (((c % 36) / 6) * 51) as u8, ((c % 6) * 51) as u8)
    } else {
        let gray = (8 + (i - 232) * 10) as u8;
        (gray, gray, gray)
    }
}

/// The channels the grid renderer draws a terminal colour with.
pub open spec fn term_color_rgb(c: TermColor) -> (u8, u8, u8) {
    match c {
        TermColor::Rgb(r, g, b) => (r, g, b),
        TermColor::Indexed(i) => ansi256_rgb(i),
        TermColor::Black => (0, 0, 0),
        TermColor::Red => (255, 0, 0),
        TermColor::Green => (0, 255, 0),
        TermColor::Yellow => (255, 255, 0),
        TermColor::Blue => (0, 0, 255),
        TermColor::Magenta => (255, 0, 255),
        TermColor::Cyan => (0, 255, 255),
        TermColor::Gray => (128, 128, 128),
        TermColor::DarkGray => (64, 64, 64),
        TermColor::LightRed => (255, 85, 85),
        TermColor::LightGreen => (85, 255, 85),
        TermColor::LightYellow => (255, 255, 85),
        TermColor::LightBlue => (85, 85, 255),
        TermColor::LightMagenta => (255, 85, 255),
        TermColor::LightCyan => (85, 255, 255),
        TermColor::White => (255, 255, 255),
        TermColor::Reset => (0, 0, 0),
    }
}

/// A terminal colour packed as `0xRRGGBB`.
pub open spec fn term_color_u32(c: TermColor) -> u32 {
    let (r, g, b) = term_color_rgb(c);
    pack_rgb(r as int, g as int, b as int) as u32
}

/// The colour of an entry of the renderer's 256-colour palette.
pub fn ansi256_to_rgb(i: u8) -> (rgb: (u8, u8, u8))
    ensures
        rgb == ansi256_rgb(i),
        i < 16 ==> rgb == seq![
            (0u8, 0u8, 0u8), (128u8, 0u8, 0u8), (0u8, 128u8, 0u8), (128u8, 128u8, 0u8),
            (0u8, 0u8, 128u8), (128u8, 0u8, 128u8), (0u8, 128u8, 128u8), (192u8, 192u8, 192u8),
            (128u8, 128u8, 128u8), (255u8, 0u8, 0u8), (0u8, 255u8, 0u8), (255u8, 255u8, 0u8),
            (0u8, 0u8, 255u8), (255u8, 0u8, 255u8), (0u8, 255u8, 255u8), (255u8, 255u8, 255u8),
        ][i as int],
{
    if i < 16 {
        match i {
            0 => (0, 0, 0),
            1 => (128, 0, 0),
            2 => (0, 128, 0),
            3 => (128, 128, 0),
            4 => (0, 0, 128),
            5 => (128, 0, 128),
            6 => (0, 128, 128),
            7 => (192, 192, 192),
            8 => (128, 128, 128),
            9 => (255, 0, 0),
            10 => (0, 255, 0),
            11 => (255, 255, 0),
            12 => (0, 0, 255),
            13 => (255, 0, 255),
            14 => (0, 255, 255),
            _ => (255, 255, 255),
        }
    } else if i < 232 {
        let i = i - 16;
        let r = (i / 36) * 51;
        let g = ((i % 36) / 6) * 51;
        let b = (i % 6) * 51;
        (r, g, b)
    } else {
        let gray = 8 + (i - 232) * 10;
        (gray, gray, gray)
    }
}

/// Shifting and or-ing three bytes gives their `0xRRGGBB` packing.
proof fn lemma_pack_u8(r: u8, g: u8, b: u8)
    ensures
        ((r as u32) << 16u32) | ((g as u32) << 8u32) | (b as u32) == pack_rgb(
            r as int,
            g as int,
            b as int,
        ),
{
    let (r32, g32, b32) = (r as u32, g as u32, b as u32);
    assert((r32 << 16u32) | (g32 << 8u32) | b32 == r32 * 0x10000 + g32 * 0x100 + b32)
        by (bit_vector)
        requires
            r32 < 256,
            g32 < 256,
            b32 < 256,
    ;
}

impl RatatuiColorToU32 for TermColor {
    fn to_u32(&self) -> (v: u32)
        ensures
            v == term_color_u32(*self),
            v < 0x1000000,
    {
        let (r, g, b) = match self {
            TermColor::Rgb(r, g, b) => (*r, *g, *b),
            TermColor::Indexed(i) => ansi256_to_rgb(*i),
            TermColor::Black => (0, 0, 0),
            TermColor::Red => (255, 0, 0),
            TermColor::Green => (0, 255, 0),
            TermColor::Yellow => (255, 255, 0),
            TermColor::Blue => (0, 0, 255),
            TermColor::Magenta => (255, 0, 255),
            TermColor::Cyan => (0, 255, 255),
            TermColor::Gray => (128, 128, 128),
            TermColor::DarkGray => (64, 64, 64),
            TermColor::LightRed => (255, 85, 85),
            TermColor::LightGreen => (85, 255, 85),
            TermColor::LightYellow => (255, 255, 85),
            TermColor::LightBlue => (85, 85, 255),
            TermColor::LightMagenta => (255, 85, 255),
            TermColor::LightCyan => (85, 255, 255),
            TermColor::White => (255, 255, 255),
            TermColor::Reset => (0, 0, 0),
        };
        proof {
            lemma_pack_u8(r, g, b);
        }
        ((r as u32) << 16) | ((g as u32) << 8) | (b as u32)
    }
}

/// The bit of the bold text modifier.
pub const BOLD: u16 = 0b0000_0000_0001;

/// The bit of the dim text modifier.
pub const DIM: u16 = 0b0000_0000_0010;

/// The bit of the italic text modifier.
pub const ITALIC: u16 = 0b0000_0000_0100;

/// The bit of the underlined text modifier.
pub const UNDERLINED: u16 = 0b0000_0000_1000;

/// The bit of the slow-blink text modifier.
pub const SLOW_BLINK: u16 = 0b0000_0001_0000;

/// The bit of the rapid-blink text modifier.
pub const RAPID_BLINK: u16 = 0b0000_0010_0000;

/// The bit of the reversed text modifier.
pub const REVERSED: u16 = 0b0000_0100_0000;

/// The bit of the hidden text modifier.
pub const HIDDEN: u16 = 0b0000_1000_0000;

/// The bit of the crossed-out text modifier.
pub const CROSSED_OUT: u16 = 0b0001_0000_0000;

/// A set of text modifiers, one bit each.
#[derive(Debug, Clone, Copy, PartialEq, Eq, Structural)]
pub struct Modifier {
    pub bits: u16,
}

/// Whether all bits of `flags` are set in `bits`.
pub open spec fn has_flags(bits: u16, flags: u16) -> bool {
    bits & flags == flags
}

impl Modifier {
    pub fn from_bits(bits: u16) -> (m: Modifier)
        ensures
            m.bits == bits,
    {
        Modifier { bits }
    }

    /// Whether every modifier of `other` is in `self`.
    pub fn contains(&self, other: Modifier) -> (b: bool)
        ensures
            b == has_flags(self.bits, other.bits),
    {
        self.bits & other.bits == other.bits
    }
}

/// The font variant a cell is drawn with.
#[derive(Debug, Clone, Copy, PartialEq, Eq, Structural)]
pub enum FontStyle {
    Normal,
    Bold,
    Italic,
    BoldItalic,
}

/// The line drawn through or under a glyph.
#[derive(Debug, Clone, Copy, PartialEq, Eq, Structural)]
pub enum GlyphEffect {
    NoEffect,
    Underline,
    Strikethrough,
}

/// The font style of a set of modifiers: italic and bold combine.
pub open spec fn font_style_of(bits: u16) -> FontStyle {
    let italic = has_flags(bits, ITALIC);
    let bold = has_flags(bits, BOLD);
    if italic && bold {
        FontStyle::BoldItalic
    } else if italic {
        FontStyle::Italic
    } else if bold {
        FontStyle::Bold
    } else {
        FontStyle::Normal
    }
}

/// The glyph effect of a set of modifiers: crossing out wins over
/// underlining.
pub open spec fn glyph_effect_of(bits: u16) -> GlyphEffect {
    if has_flags(bits, CROSSED_OUT) {
        GlyphEffect::Strikethrough
    } else if has_flags(bits, UNDERLINED) {
        GlyphEffect::Underline
    } else {
        GlyphEffect::NoEffect
    }
}

/// Text modifiers as the grid renderer's font style and glyph effect.
pub trait RatatuiModifierToStyleEffect {
    fn style(&self) -> FontStyle;

    fn effect(&self) -> GlyphEffect;
}

impl RatatuiModifierToStyleEffect for Modifier {
    fn style(&self) -> (s: FontStyle)
        ensures
            s == font_style_of(self.bits),
    {
        let italic = Modifier { bits: ITALIC };
        let bold = Modifier { bits: BOLD };
        if self.contains(italic) && self.contains(bold) {
            FontStyle::BoldItalic
        } else if self.contains(italic) {
            FontStyle::Italic
        } else if self.contains(bold) {
            FontStyle::Bold
        } else {
            FontStyle::Normal
        }
    }

    fn effect(&self) -> (e: GlyphEffect)
        ensures
            e == glyph_effect_of(self.bits),
    {
        if self.contains(Modifier { bits: CROSSED_OUT }) {
            GlyphEffect::Strikethrough
        } else if self.contains(Modifier { bits: UNDERLINED }) {
            GlyphEffect::Underline
        } else {
            GlyphEffect::NoEffect
        }
    }
}

/// A colour packed for the grid renderer is a 24-bit value whose channels
/// read back as the colour's channels.
pub proof fn lemma_color_u32_channels(c: TermColor)
    ensures
        term_color_u32(c) < 0x1000000,
        red_of(term_color_u32(c)) == term_color_rgb(c).0,
        green_of(term_color_u32(c)) == term_color_rgb(c).1,
        blue_of(term_color_u32(c)) == term_color_rgb(c).2,
{
    let (r, g, b) = term_color_rgb(c);
    let (r32, g32, b32) = (r as u32, g as u32, b as u32);
    let v: u32 = (r32 * 0x10000 + g32 * 0x100 + b32) as u32;
    assert(r32 * 0x10000 + g32 * 0x100 + b32 < 0x1000000 && ((v / 0x10000) % 0x100) as u8 == r
        && ((v / 0x100) % 0x100) as u8 == g && (v % 0x100) as u8 == b) by (bit_vector)
        requires
            r32 == r as u32,
            g32 == g as u32,
            b32 == b as u32,
            v == (r32 * 0x10000 + g32 * 0x100 + b32) as u32,
    ;
}

/// In the renderer's sixteen basic colours, bit 0 of the index (modulo 8)
/// is red, bit 1 green and bit 2 blue: a channel is 128 in entries 0 to 6
/// and 255 in entries 9 to 15 where its bit is set, and 0 where it is not.
/// Entry 7 is the gray 192 and entry 8 the gray 128.
pub proof fn lemma_ansi_basic_bits(i: u8)
    requires
        i < 16,
        i != 7,
        i != 8,
    ensures
        ({
            let (r, g, b) = ansi256_rgb(i);
            let level: u8 = if i < 8 { 128 } else { 255 };
            let bits = i % 8;
            &&& r == if bits % 2 == 1 { level } else { 0 }
            &&& g == if (bits / 2) % 2 == 1 { level } else { 0 }
            &&& b == if bits / 4 == 1 { level } else { 0 }
        }),
        ansi256_rgb(7) == (192u8, 192u8, 192u8),
        ansi256_rgb(8) == (128u8, 128u8, 128u8),
{
}

/// The renderer's 6x6x6 colour cube starts black at index 16; one step along
/// an axis (1 for blue, 6 for green, 36 for red) raises that channel alone
/// by 51, up to 255.
pub proof fn lemma_ansi_cube_steps(i: u8)
    requires
        16 <= i < 232,
    ensures
        ansi256_rgb(16) == (0u8, 0u8, 0u8),
        ansi256_rgb(231) == (255u8, 255u8, 255u8),
        (i - 16) % 6 != 5 ==> ({
            let (r, g, b) = ansi256_rgb(i);
            ansi256_rgb((i + 1) as u8) == (r, g, (b + 51) as u8) && b + 51 <= 255
        }),
        ((i - 16) % 36) / 6 != 5 ==> ({
            let (r, g, b) = ansi256_rgb(i);
            ansi256_rgb((i + 6) as u8) == (r, (g + 51) as u8, b) && g + 51 <= 255
        }),
        i - 16 < 180 ==> ({
            let (r, g, b) = ansi256_rgb(i);
            ansi256_rgb((i + 36) as u8) == ((r + 51) as u8, g, b) && r + 51 <= 255
        }),
{
    let c = (i - 16) as int;
    assert(0 <= c / 36 <= 5);
    assert(0 <= (c % 36) / 6 <= 5);
    assert(0 <= c % 6 <= 5);
    if c % 6 != 5 {
        assert((c + 1) / 36 == c / 36 && ((c + 1) % 36) / 6 == (c % 36) / 6 && (c + 1) % 6 == c % 6
            + 1);
    }
    if (c % 36) / 6 != 5 {
        assert((c + 6) / 36 == c / 36 && ((c + 6) % 36) / 6 == (c % 36) / 6 + 1 && (c + 6) % 6 == c
            % 6);
    }
    if c < 180 {
        assert((c + 36) / 36 == c / 36 + 1 && ((c + 36) % 36) / 6 == (c % 36) / 6 && (c + 36) % 6
            == c % 6);
    }
}

/// The renderer's 24 grays run from 8 at index 232 up in steps of 10, the
/// three channels equal.
pub proof fn lemma_ansi_gray_ramp(i: u8)
    requires
        232 <= i < 255,
    ensures
        ansi256_rgb(232) == (8u8, 8u8, 8u8),
        ({
            let (r, g, b) = ansi256_rgb(i);
            r == g && g == b && ansi256_rgb((i + 1) as u8) == ((r + 10) as u8, (g + 10) as u8, (b
                + 10) as u8) && r + 10 <= 255
        }),
{
}

/// The grid renderer draws a hued terminal colour with its name's primaries
/// at 255 and the other channels at 0 in the dark form and 85 in the light
/// form, packed red first: red is `0xFF0000`, blue `0x0000FF`, light red
/// `0xFF5555`.
pub proof fn lemma_gpu_hued_colors(c: TermColor)
    requires
        hue_primaries(c) is Some,
    ensures
        ({
            let (r, g, b) = hue_primaries(c)->0;
            let rest: u8 = if is_light(c) { 85 } else { 0 };
            &&& red_of(term_color_u32(c)) == if r { 255u8 } else { rest }
            &&& green_of(term_color_u32(c)) == if g { 255u8 } else { rest }
            &&& blue_of(term_color_u32(c)) == if b { 255u8 } else { rest }
        }),
{
    lemma_color_u32_channels(c);
}

/// The grid renderer draws the colours without a hue gray, packed with
/// three equal channels: black and the reset colour `0x000000`, dark gray
/// `0x404040`, gray `0x808080`, white `0xFFFFFF`; a 24-bit colour packs its
/// channels red first, and an indexed colour packs its palette entry.
pub proof fn lemma_gpu_unhued_colors(r: u8, g: u8, b: u8, i: u8)
    ensures
        term_color_u32(TermColor::Black) == 0x000000,
        term_color_u32(TermColor::Reset) == 0x000000,
        term_color_u32(TermColor::DarkGray) == 0x404040,
        term_color_u32(TermColor::Gray) == 0x808080,
        term_color_u32(TermColor::White) == 0xFFFFFF,
        term_color_u32(TermColor::Rgb(r, g, b)) == r * 0x10000 + g * 0x100 + b,
        term_color_u32(TermColor::Indexed(i)) == ansi256_rgb(i).0 * 0x10000 + ansi256_rgb(i).1
            * 0x100 + ansi256_rgb(i).2,
{
}

/// The bold modifier is bit 0 (`0x1`) and italic bit 2 (`0x4`): a font style
/// is bold exactly when bit 0 is set and italic exactly when bit 2 is.
pub proof fn lemma_style_bits(bits: u16)
    ensures
        (font_style_of(bits) == FontStyle::Bold || font_style_of(bits) == FontStyle::BoldItalic)
            <==> bits & 0x1 == 0x1,
        (font_style_of(bits) == FontStyle::Italic || font_style_of(bits) == FontStyle::BoldItalic)
            <==> bits & 0x4 == 0x4,
{
}

/// The crossed-out modifier is bit 8 (`0x100`) and underlined bit 3
/// (`0x8`): a glyph is struck through exactly when bit 8 is set, and
/// underlined exactly when bit 3 is set and bit 8 is not.
pub proof fn lemma_effect_bits(bits: u16)
    ensures
        glyph_effect_of(bits) == GlyphEffect::Strikethrough <==> bits & 0x100 == 0x100,
        glyph_effect_of(bits) == GlyphEffect::Underline <==> (bits & 0x8 == 0x8 && bits & 0x100
            != 0x100),
        glyph_effect_of(bits) == GlyphEffect::NoEffect <==> (bits & 0x8 != 0x8 && bits & 0x100
            != 0x100),
{
}

/// A set of modifiers contains another exactly when every bit of the other
/// is set in it: adding the other's bits changes nothing.
pub proof fn lemma_has_flags_is_subset(bits: u16, flags: u16)
    ensures
        has_flags(bits, flags) <==> (bits | flags) == bits,
        has_flags(bits, 0),
        has_flags(bits, bits),
{
    assert((bits & flags == flags) <==> ((bits | flags) == bits)) by (bit_vector);
    assert(bits & 0u16 == 0u16) by (bit_vector);
    assert(bits & bits == bits) by (bit_vector);
}

/// The modifiers are the nine bits from bit 0 up, in the order bold, dim,
/// italic, underlined, slow blink, rapid blink, reversed, hidden, crossed
/// out.
pub proof fn lemma_modifier_bits()
    ensures
        BOLD == 1u16 << 0u16,
        DIM == 1u16 << 1u16,
        ITALIC == 1u16 << 2u16,
        UNDERLINED == 1u16 << 3u16,
        SLOW_BLINK == 1u16 << 4u16,
        RAPID_BLINK == 1u16 << 5u16,
        REVERSED == 1u16 << 6u16,
        HIDDEN == 1u16 << 7u16,
        CROSSED_OUT == 1u16 << 8u16,
{
    assert(1u16 << 0u16 == 1u16) by (bit_vector);
    assert(1u16 << 1u16 == 2u16) by (bit_vector);
    assert(1u16 << 2u16 == 4u16) by (bit_vector);
    assert(1u16 << 3u16 == 8u16) by (bit_vector);
    assert(1u16 << 4u16 == 16u16) by (bit_vector);
    assert(1u16 << 5u16 == 32u16) by (bit_vector);
    assert(1u16 << 6u16 == 64u16) by (bit_vector);
    assert(1u16 << 7u16 == 128u16) by (bit_vector);
    assert(1u16 << 8u16 == 256u16) by (bit_vector);
}

/// The font style depends on the bold and italic modifiers alone.
pub proof fn lemma_style_reads_bold_italic(bits: u16)
    ensures
        font_style_of(bits) == font_style_of(bits & (BOLD | ITALIC)),
{
    assert(1u16 | 4u16 == 5u16) by (bit_vector);
    assert((bits & 4u16 == 4u16) == ((bits & 5u16) & 4u16 == 4u16)) by (bit_vector);
    assert((bits & 1u16 == 1u16) == ((bits & 5u16) & 1u16 == 1u16)) by (bit_vector);
}

/// The glyph effect depends on the crossed-out and underlined modifiers
/// alone, and crossing out hides underlining.
pub proof fn lemma_effect_reads_crossed_underlined(bits: u16)
    ensures
        glyph_effect_of(bits) == glyph_effect_of(bits & (CROSSED_OUT | UNDERLINED)),
        has_flags(bits, CROSSED_OUT) ==> glyph_effect_of(bits) == GlyphEffect::Strikethrough,
{
    assert(256u16 | 8u16 == 264u16) by (bit_vector);
    assert((bits & 256u16 == 256u16) == ((bits & 264u16) & 256u16 == 256u16)) by (bit_vector);
    assert((bits & 8u16 == 8u16) == ((bits & 264u16) & 8u16 == 8u16)) by (bit_vector);
}

} // verus!
