//! Colours: the RGBA colour used by the renderers, the terminal colour model,
//! and the 256-colour xterm palette.
use vstd::prelude::*;

verus! {

/// A colour as four 8-bit channels: red, green, blue, alpha.
#[derive(Debug, Clone, Copy)]
pub struct RaclettuiColor(u8, u8, u8, u8);

impl View for RaclettuiColor {
    type V = (u8, u8, u8, u8);

    closed spec fn view(&self) -> (u8, u8, u8, u8) {
        (self.0, self.1, self.2, self.3)
    }
}

/// The colours a terminal cell can carry: the sixteen named colours, a
/// reset colour, a 24-bit colour and an index into the 256-colour palette.
#[derive(Debug, Clone, Copy, PartialEq, Eq, Structural)]
pub enum TermColor {
    Reset,
    Black,
    Red,
    Green,
    Yellow,
    Blue,
    Magenta,
    Cyan,
    Gray,
    DarkGray,
    LightRed,
    LightGreen,
    LightYellow,
    LightBlue,
    LightMagenta,
    LightCyan,
    White,
    Rgb(u8, u8, u8),
    Indexed(u8),
}

/// `r`, `g`, `b` packed as `0xRRGGBB`.
pub open spec fn pack_rgb(r: int, g: int, b: int) -> int {
    r * 0x10000 + g * 0x100 + b
}

/// The red channel of a value packed as `0xRRGGBB`.
pub open spec fn red_of(v: u32) -> u8 {
    ((v / 0x10000) % 0x100) as u8
}

/// The green channel of a value packed as `0xRRGGBB`.
pub open spec fn green_of(v: u32) -> u8 {
    ((v / 0x100) % 0x100) as u8
}

/// The blue channel of a value packed as `0xRRGGBB`.
pub open spec fn blue_of(v: u32) -> u8 {
    (v % 0x100) as u8
}

/// The xterm colours of the first sixteen palette entries.
pub open spec fn basic_palette(index: int) -> u32 {
    if index == 0 {
        0x000000
    } else if index == 1 {
        0xCD0000
    } else if index == 2 {
        0x00CD00
    } else if index == 3 {
        0xCDCD00
    } else if index == 4 {
        0x0000EE
    } else if index == 5 {
        0xCD00CD
    } else if index == 6 {
        0x00CDCD
    } else if index == 7 {
        0xE5E5E5
    } else if index == 8 {
        0x7F7F7F
    } else if index == 9 {
        0xFF0000
    } else if index == 10 {
        0x00FF00
    } else if index == 11 {
        0xFFFF00
    } else if index == 12 {
        0x5C5CFF
    } else if index == 13 {
        0xFF00FF
    } else if index == 14 {
        0x00FFFF
    } else {
        0xFFFFFF
    }
}

/// The channel value of level `n` (0 to 5) of the 6x6x6 colour cube:
/// 0, 95, 135, 175, 215, 255.
pub open spec fn cube_level(n: int) -> int {
    if n == 0 {
        0
    } else {
        55 + 40 * n
    }
}

/// The xterm 256-colour palette, as `0xRRGGBB`: sixteen basic colours, the
/// 6x6x6 cube at 16..=231, and 24 grays from 8 to 238 in steps of 10.
pub open spec fn xterm_rgb(index: u8) -> u32 {
    if index < 16 {
        basic_palette(index as int)
    } else if index < 232 {
        let c = index - 16;
        pack_rgb(cube_level(c / 36), cube_level((c % 36) / 6), cube_level(c % 6)) as u32
    } else {
        let gray = 8 + (index - 232) * 10;
        pack_rgb(gray, gray, gray) as u32
    }
}

/// The channels, RGBA, that a terminal colour is drawn with.
pub open spec fn term_color_rgba(c: TermColor) -> (u8, u8, u8, u8) {
    match c {
        TermColor::Rgb(r, g, b) => (r, g, b, 255),
        TermColor::Black => (0, 0, 0, 255),
        TermColor::Red => (128, 0, 0, 255),
        TermColor::Green => (0, 128, 0, 255),
        TermColor::Yellow => (128, 128, 0, 255),
        TermColor::Blue => (0, 0, 128, 255),
        TermColor::Magenta => (128, 0, 128, 255),
        TermColor::Cyan => (0, 128, 128, 255),
        TermColor::Gray => (192, 192, 192, 255),
        TermColor::DarkGray => (128, 128, 128, 255),
        TermColor::LightRed => (255, 0, 0, 255),
        TermColor::LightGreen => (0, 255, 0, 255),
        TermColor::LightYellow => (255, 255, 0, 255),
        TermColor::LightBlue => (0, 0, 255, 255),
        TermColor::LightMagenta => (255, 0, 255, 255),
        TermColor::LightCyan => (0, 255, 255, 255),
        TermColor::White => (255, 255, 255, 255),
        TermColor::Indexed(code) => {
            let v = xterm_rgb(code);
            (red_of(v), green_of(v), blue_of(v), 255)
        },
        TermColor::Reset => (255, 255, 255, 255),
    }
}

/// Shifting and or-ing three bytes gives their `0xRRGGBB` packing.
proof fn lemma_pack_bytes(r: u32, g: u32, b: u32)
    requires
        r < 256,
        g < 256,
        b < 256,
    ensures
        r << 16u32 | g << 8u32 | b == r * 0x10000 + g * 0x100 + b,
{
    assert(r << 16u32 | g << 8u32 | b == r * 0x10000 + g * 0x100 + b) by (bit_vector)
        requires
            r < 256,
            g < 256,
            b < 256,
    ;
}

/// Shifting a packed value down and truncating reads its channels back.
proof fn lemma_unpack_bytes(v: u32)
    ensures
        (v >> 16u32) as u8 == red_of(v),
        (v >> 8u32) as u8 == green_of(v),
        v as u8 == blue_of(v),
{
    assert((v >> 16u32) as u8 == ((v / 0x10000) % 0x100) as u8) by (bit_vector);
    assert((v >> 8u32) as u8 == ((v / 0x100) % 0x100) as u8) by (bit_vector);
    assert(v as u8 == (v % 0x100) as u8) by (bit_vector);
}

/// The channel value of cube level `n`.
fn cube_channel(n: u8) -> (v: u32)
    requires
        n <= 5,
    ensures
        v == cube_level(n as int),
        v < 256,
{
    if n == 0 {
        0
    } else {
        55 + 40 * n as u32
    }
}

/// The colour of one of the sixteen basic palette entries.
fn basic_color(index: u8) -> (v: u32)
    requires
        index < 16,
    ensures
        v == basic_palette(index as int),
{
    match index {
        0 => 0x000000,
        1 => 0xCD0000,
        2 => 0x00CD00,
        3 => 0xCDCD00,
        4 => 0x0000EE,
        5 => 0xCD00CD,
        6 => 0x00CDCD,
        7 => 0xE5E5E5,
        8 => 0x7F7F7F,
        9 => 0xFF0000,
        10 => 0x00FF00,
        11 => 0xFFFF00,
        12 => 0x5C5CFF,
        13 => 0xFF00FF,
        14 => 0x00FFFF,
        _ => 0xFFFFFF,
    }
}

impl RaclettuiColor {
    /// A fully transparent black.
    pub fn new() -> (c: Self)
        ensures
            c@ == (0u8, 0u8, 0u8, 0u8),
    {
        Self(0, 0, 0, 0)
    }

    pub fn from_rgba(r: u8, g: u8, b: u8, a: u8) -> (c: Self)
        ensures
            c@ == (r, g, b, a),
    {
        Self(r, g, b, a)
    }

    /// An opaque colour.
    pub fn from_rgb(r: u8, g: u8, b: u8) -> (c: Self)
        ensures
            c@ == (r, g, b, 255u8),
    {
        Self(r, g, b, 255)
    }

    pub fn to_rgba(&self) -> (c: (u8, u8, u8, u8))
        ensures
            c == self@,
    {
        (self.0, self.1, self.2, self.3)
    }

    /// The colour of an entry of the xterm 256-colour palette, as `0xRRGGBB`.
    pub fn indexed_color_to_rgb(index: u8) -> (v: u32)
        ensures
            v == xterm_rgb(index),
            v < 0x1000000,
            index < 16 ==> v == seq![
                0x000000u32, 0xCD0000u32, 0x00CD00u32, 0xCDCD00u32,
                0x0000EEu32, 0xCD00CDu32, 0x00CDCDu32, 0xE5E5E5u32,
                0x7F7F7Fu32, 0xFF0000u32, 0x00FF00u32, 0xFFFF00u32,
                0x5C5CFFu32, 0xFF00FFu32, 0x00FFFFu32, 0xFFFFFFu32,
            ][index as int],
    {
        if index <= 15 {
            basic_color(index)
        } else if index <= 231 {
            let cube_index = index - 16;
            let r = cube_index / 36;
            let g = (cube_index % 36) / 6;
            let b = cube_index % 6;
            let rv = cube_channel(r);
            let gv = cube_channel(g);
            let bv = cube_channel(b);
            proof {
                lemma_pack_bytes(rv, gv, bv);
            }
            rv << 16 | gv << 8 | bv
        } else {
            let gray_index = index - 232;
            let gray = (8 + gray_index * 10) as u32;
            proof {
                lemma_pack_bytes(gray, gray, gray);
            }
            (gray << 16) | (gray << 8) | gray
        }
    }

    /// The colour a terminal colour is drawn with; always opaque.
    pub fn from_term_color(value: TermColor) -> (c: Self)
        ensures
            c@ == term_color_rgba(value),
    {
        let a: u8 = 255;
        match value {
            TermColor::Rgb(r, g, b) => Self(r, g, b, a),
            TermColor::Black => Self(0, 0, 0, a),
            TermColor::Red => Self(128, 0, 0, a),
            TermColor::Green => Self(0, 128, 0, a),
            TermColor::Yellow => Self(128, 128, 0, a),
            TermColor::Blue => Self(0, 0, 128, a),
            TermColor::Magenta => Self(128, 0, 128, a),
            TermColor::Cyan => Self(0, 128, 128, a),
            TermColor::Gray => Self(192, 192, 192, a),
            TermColor::DarkGray => Self(128, 128, 128, a),
            TermColor::LightRed => Self(255, 0, 0, a),
            TermColor::LightGreen => Self(0, 255, 0, a),
            TermColor::LightYellow => Self(255, 255, 0, a),
            TermColor::LightBlue => Self(0, 0, 255, a),
            TermColor::LightMagenta => Self(255, 0, 255, a),
            TermColor::LightCyan => Self(0, 255, 255, a),
            TermColor::White => Self(255, 255, 255, a),
            TermColor::Indexed(code) => {
                let hex = Self::indexed_color_to_rgb(code);
                proof {
                    lemma_unpack_bytes(hex);
                }
                Self((hex >> 16) as u8, (hex >> 8) as u8, hex as u8, a)
            },
            TermColor::Reset => Self(255, 255, 255, a),
        }
    }
}

impl From<TermColor> for RaclettuiColor {
    fn from(value: TermColor) -> (c: Self) {
        Self::from_term_color(value)
    }
}

impl vstd::std_specs::convert::FromSpecImpl<TermColor> for RaclettuiColor {
    open spec fn obeys_from_spec() -> bool {
        true
    }

    closed spec fn from_spec(v: TermColor) -> Self {
        let c = term_color_rgba(v);
        RaclettuiColor(c.0, c.1, c.2, c.3)
    }
}

/// `RaclettuiColor::from` a terminal colour has the channels of
/// `term_color_rgba`.
pub broadcast proof fn lemma_from_term_color_view(v: TermColor)
    ensures
        #[trigger] <RaclettuiColor as vstd::std_specs::convert::FromSpec<TermColor>>::from_spec(v)@
            == term_color_rgba(v),
{
}

/// A 24-bit value is the packing of its three channels.
pub proof fn lemma_channels_repack(v: u32)
    requires
        v < 0x1000000,
    ensures
        pack_rgb(red_of(v) as int, green_of(v) as int, blue_of(v) as int) == v,
{
    assert(((v / 0x10000) % 0x100) * 0x10000 + ((v / 0x100) % 0x100) * 0x100 + v % 0x100 == v)
        by (bit_vector)
        requires
            v < 0x1000000,
    ;
}

/// An indexed terminal colour is drawn opaque, with exactly the channels of
/// its entry in the xterm palette.
pub proof fn lemma_indexed_color_channels(code: u8)
    ensures
        xterm_rgb(code) < 0x1000000,
        term_color_rgba(TermColor::Indexed(code)).3 == 255,
        pack_rgb(
            term_color_rgba(TermColor::Indexed(code)).0 as int,
            term_color_rgba(TermColor::Indexed(code)).1 as int,
            term_color_rgba(TermColor::Indexed(code)).2 as int,
        ) == xterm_rgb(code),
{
    let c = code;
    if c >= 16 && c < 232 {
        let k = c - 16;
        assert(0 <= k / 36 <= 5);
        assert(0 <= (k % 36) / 6 <= 5);
        assert(0 <= k % 6 <= 5);
    }
    lemma_channels_repack(xterm_rgb(code));
}

/// The primaries, red, green and blue, that the name of a hued terminal
/// colour speaks of: red; green; yellow, red and green; blue; magenta, red
/// and blue; cyan, green and blue; each in a dark and a light form. `None`
/// for the colours without a hue.
pub open spec fn hue_primaries(c: TermColor) -> Option<(bool, bool, bool)> {
    match c {
        TermColor::Red => Some((true, false, false)),
        TermColor::LightRed => Some((true, false, false)),
        TermColor::Green => Some((false, true, false)),
        TermColor::LightGreen => Some((false, true, false)),
        TermColor::Yellow => Some((true, true, false)),
        TermColor::LightYellow => Some((true, true, false)),
        TermColor::Blue => Some((false, false, true)),
        TermColor::LightBlue => Some((false, false, true)),
        TermColor::Magenta => Some((true, false, true)),
        TermColor::LightMagenta => Some((true, false, true)),
        TermColor::Cyan => Some((false, true, true)),
        TermColor::LightCyan => Some((false, true, true)),
        _ => None,
    }
}

/// Whether a terminal colour is the light form of a hue.
pub open spec fn is_light(c: TermColor) -> bool {
    match c {
        TermColor::LightRed => true,
        TermColor::LightGreen => true,
        TermColor::LightYellow => true,
        TermColor::LightBlue => true,
        TermColor::LightMagenta => true,
        TermColor::LightCyan => true,
        _ => false,
    }
}

/// A hued terminal colour is drawn with its name's primaries at 128 in its
/// dark form and 255 in its light form, and the other channels at 0: blue
/// is `(0, 0, 128)`, light green `(0, 255, 0)`, yellow `(128, 128, 0)`.
pub proof fn lemma_hued_colors_draw_their_primaries(c: TermColor)
    requires
        hue_primaries(c) is Some,
    ensures
        ({
            let (r, g, b) = hue_primaries(c)->0;
            let level: u8 = if is_light(c) { 255 } else { 128 };
            term_color_rgba(c) == (
                if r { level } else { 0u8 },
                if g { level } else { 0u8 },
                if b { level } else { 0u8 },
                255u8,
            )
        }),
{
}

/// The colours without a hue are drawn gray: black at 0, dark gray at 128,
/// gray at 192, white and the reset colour at 255; a 24-bit colour is drawn
/// with exactly its channels, red first.
pub proof fn lemma_unhued_colors_draw_gray(r: u8, g: u8, b: u8)
    ensures
        term_color_rgba(TermColor::Black) == (0u8, 0u8, 0u8, 255u8),
        term_color_rgba(TermColor::DarkGray) == (128u8, 128u8, 128u8, 255u8),
        term_color_rgba(TermColor::Gray) == (192u8, 192u8, 192u8, 255u8),
        term_color_rgba(TermColor::White) == (255u8, 255u8, 255u8, 255u8),
        term_color_rgba(TermColor::Reset) == (255u8, 255u8, 255u8, 255u8),
        term_color_rgba(TermColor::Rgb(r, g, b)) == (r, g, b, 255u8),
{
}

/// The largest of the three channels of a value packed as `0xRRGGBB`.
pub open spec fn max_channel(v: u32) -> u8 {
    let (r, g, b) = (red_of(v), green_of(v), blue_of(v));
    if r >= g && r >= b {
        r
    } else if g >= b {
        g
    } else {
        b
    }
}

/// In the sixteen basic xterm colours, bit 0 of the index (modulo 8) is
/// red, bit 1 green and bit 2 blue: a channel is the brightest of its
/// colour exactly when its bit is set (bright black, index 8, is a gray
/// with no bit set). Entries 1 to 7 are dim, their brightest channel below
/// 255; entries 9 to 15 are bright, at 255.
pub proof fn lemma_basic_palette_bits(index: u8)
    requires
        index < 16,
        index != 0,
        index != 8,
    ensures
        ({
            let v = xterm_rgb(index);
            let m = max_channel(v);
            let bits = index % 8;
            &&& (red_of(v) == m) <==> bits % 2 == 1
            &&& (green_of(v) == m) <==> (bits / 2) % 2 == 1
            &&& (blue_of(v) == m) <==> bits / 4 == 1
            &&& index < 8 ==> m < 255
            &&& index > 8 ==> m == 255
        }),
        xterm_rgb(0) == 0,
        xterm_rgb(8) == 0x7F7F7F,
{
    let v = xterm_rgb(index);
    assert(red_of(v) == ((v / 0x10000) % 0x100) as u8);
    if index == 1 { assert(v == 0xCD0000); }
    else if index == 2 { assert(v == 0x00CD00); }
    else if index == 3 { assert(v == 0xCDCD00); }
    else if index == 4 { assert(v == 0x0000EE); }
    else if index == 5 { assert(v == 0xCD00CD); }
    else if index == 6 { assert(v == 0x00CDCD); }
    else if index == 7 { assert(v == 0xE5E5E5); }
    else if index == 9 { assert(v == 0xFF0000); }
    else if index == 10 { assert(v == 0x00FF00); }
    else if index == 11 { assert(v == 0xFFFF00); }
    else if index == 12 { assert(v == 0x5C5CFF); }
    else if index == 13 { assert(v == 0xFF00FF); }
    else if index == 14 { assert(v == 0x00FFFF); }
    else { assert(v == 0xFFFFFF); }
}

/// The 6x6x6 colour cube starts black at index 16 and ends white at 231;
/// one step along an axis (1 for blue, 6 for green, 36 for red) raises that
/// channel alone, by 95 from level 0 and by 40 after.
pub proof fn lemma_cube_steps(i: u8)
    requires
        16 <= i < 232,
    ensures
        xterm_rgb(16) == 0,
        xterm_rgb(231) == 0xFFFFFF,
        (i - 16) % 6 != 5 ==> xterm_rgb((i + 1) as u8) == xterm_rgb(i) + (if (i - 16) % 6 == 0 {
            95int
        } else {
            40int
        }),
        ((i - 16) % 36) / 6 != 5 ==> xterm_rgb((i + 6) as u8) == xterm_rgb(i) + 0x100 * (if ((i
            - 16) % 36) / 6 == 0 {
            95int
        } else {
            40int
        }),
        i - 16 < 180 ==> xterm_rgb((i + 36) as u8) == xterm_rgb(i) + 0x10000 * (if (i - 16) / 36
            == 0 {
            95int
        } else {
            40int
        }),
{
    let c = (i - 16) as int;
    assert(0 <= c / 36 <= 5);
    assert(0 <= (c % 36) / 6 <= 5);
    assert(0 <= c % 6 <= 5);
    if c % 6 != 5 {
        assert((c + 1) / 36 == c / 36 && ((c + 1) % 36) / 6 == (c % 36) / 6 && (c + 1) % 6 == c % 6
            + 1);
    }
    if (c % 36) / 6 != 5 {
        assert((c + 6) / 36 == c / 36 && ((c + 6) % 36) / 6 == (c % 36) / 6 + 1 && (c + 6) % 6 == c
            % 6);
    }
    if c < 180 {
        assert((c + 36) / 36 == c / 36 + 1 && ((c + 36) % 36) / 6 == (c % 36) / 6 && (c + 36) % 6
            == c % 6);
    }
}

/// The 24 grays run from `0x080808` at index 232 up in steps of `0x0A0A0A`.
pub proof fn lemma_gray_ramp(i: u8)
    requires
        232 <= i < 255,
    ensures
        xterm_rgb(232) == 0x080808,
        xterm_rgb((i + 1) as u8) == xterm_rgb(i) + 0x0A0A0A,
{
}

/// Every terminal colour is drawn opaque.
pub proof fn lemma_term_colors_opaque(c: TermColor)
    ensures
        term_color_rgba(c).3 == 255,
{
}

} // verus!
