use raclettui::colors::{RaclettuiColor, TermColor};
use raclettui::utils::{
    ansi256_to_rgb, first_char, FontStyle, GlyphEffect, Modifier, RatatuiColorToU32,
    RatatuiModifierToStyleEffect, BOLD, CROSSED_OUT, DIM, ITALIC, UNDERLINED,
};

#[test]
fn rgba_round_trip() {
    assert_eq!(RaclettuiColor::from_rgba(1, 2, 3, 4).to_rgba(), (1, 2, 3, 4));
    assert_eq!(RaclettuiColor::from_rgb(9, 8, 7).to_rgba(), (9, 8, 7, 255));
    assert_eq!(RaclettuiColor::new().to_rgba(), (0, 0, 0, 0));
}

#[test]
fn indexed_basic_colors() {
    assert_eq!(RaclettuiColor::indexed_color_to_rgb(0), 0x000000);
    assert_eq!(RaclettuiColor::indexed_color_to_rgb(1), 0xCD0000);
    assert_eq!(RaclettuiColor::indexed_color_to_rgb(7), 0xE5E5E5);
    assert_eq!(RaclettuiColor::indexed_color_to_rgb(12), 0x5C5CFF);
    assert_eq!(RaclettuiColor::indexed_color_to_rgb(15), 0xFFFFFF);
}

#[test]
fn indexed_color_cube() {
    assert_eq!(RaclettuiColor::indexed_color_to_rgb(16), 0x000000);
    assert_eq!(RaclettuiColor::indexed_color_to_rgb(17), 0x00005F);
    assert_eq!(RaclettuiColor::indexed_color_to_rgb(21), 0x0000FF);
    assert_eq!(RaclettuiColor::indexed_color_to_rgb(59), 0x5F5F5F);
    assert_eq!(RaclettuiColor::indexed_color_to_rgb(196), 0xFF0000);
    assert_eq!(RaclettuiColor::indexed_color_to_rgb(231), 0xFFFFFF);
}

#[test]
fn indexed_grayscale() {
    assert_eq!(RaclettuiColor::indexed_color_to_rgb(232), 0x080808);
    assert_eq!(RaclettuiColor::indexed_color_to_rgb(244), 0x808080);
    assert_eq!(RaclettuiColor::indexed_color_to_rgb(255), 0xEEEEEE);
}

#[test]
fn indexed_palette_is_24_bit() {
    for i in 0..=255u8 {
        assert!(RaclettuiColor::indexed_color_to_rgb(i) < 0x1000000);
    }
}

#[test]
fn term_colors_to_raclettui() {
    assert_eq!(RaclettuiColor::from_term_color(TermColor::Red).to_rgba(), (128, 0, 0, 255));
    assert_eq!(RaclettuiColor::from_term_color(TermColor::Gray).to_rgba(), (192, 192, 192, 255));
    assert_eq!(RaclettuiColor::from_term_color(TermColor::LightCyan).to_rgba(), (0, 255, 255, 255));
    assert_eq!(RaclettuiColor::from_term_color(TermColor::Reset).to_rgba(), (255, 255, 255, 255));
    assert_eq!(RaclettuiColor::from_term_color(TermColor::Rgb(1, 2, 3)).to_rgba(), (1, 2, 3, 255));
    assert_eq!(RaclettuiColor::from(TermColor::Black).to_rgba(), (0, 0, 0, 255));
}

#[test]
fn indexed_term_color_channels() {
    assert_eq!(RaclettuiColor::from_term_color(TermColor::Indexed(196)).to_rgba(), (255, 0, 0, 255));
    assert_eq!(RaclettuiColor::from_term_color(TermColor::Indexed(12)).to_rgba(), (0x5C, 0x5C, 0xFF, 255));
    assert_eq!(RaclettuiColor::from(TermColor::Indexed(59)).to_rgba(), (0x5F, 0x5F, 0x5F, 255));
    for i in 0..=255u8 {
        let (r, g, b, a) = RaclettuiColor::from_term_color(TermColor::Indexed(i)).to_rgba();
        assert_eq!(a, 255);
        assert_eq!(((r as u32) << 16) | ((g as u32) << 8) | b as u32, RaclettuiColor::indexed_color_to_rgb(i));
    }
}

#[test]
fn ansi256_palette() {
    assert_eq!(ansi256_to_rgb(1), (128, 0, 0));
    assert_eq!(ansi256_to_rgb(15), (255, 255, 255));
    assert_eq!(ansi256_to_rgb(21), (0, 0, 255));
    assert_eq!(ansi256_to_rgb(59), (51, 51, 51));
    assert_eq!(ansi256_to_rgb(231), (255, 255, 255));
    assert_eq!(ansi256_to_rgb(244), (128, 128, 128));
}

#[test]
fn term_color_packing() {
    assert_eq!(TermColor::Rgb(0x12, 0x34, 0x56).to_u32(), 0x123456);
    assert_eq!(TermColor::Indexed(196).to_u32(), 0xFF0000);
    assert_eq!(TermColor::Indexed(9).to_u32(), 0xFF0000);
    assert_eq!(TermColor::Indexed(244).to_u32(), 0x808080);
    assert_eq!(TermColor::DarkGray.to_u32(), 0x404040);
    assert_eq!(TermColor::LightMagenta.to_u32(), 0xFF55FF);
    assert_eq!(TermColor::Reset.to_u32(), 0);
}

#[test]
fn modifier_font_style() {
    assert_eq!(Modifier::from_bits(BOLD | ITALIC).style(), FontStyle::BoldItalic);
    assert_eq!(Modifier::from_bits(ITALIC | UNDERLINED).style(), FontStyle::Italic);
    assert_eq!(Modifier::from_bits(BOLD | DIM).style(), FontStyle::Bold);
    assert_eq!(Modifier::from_bits(0).style(), FontStyle::Normal);
    assert_eq!(Modifier::from_bits(DIM | CROSSED_OUT).style(), FontStyle::Normal);
}

#[test]
fn modifier_glyph_effect() {
    assert_eq!(Modifier::from_bits(CROSSED_OUT | UNDERLINED).effect(), GlyphEffect::Strikethrough);
    assert_eq!(Modifier::from_bits(UNDERLINED | BOLD).effect(), GlyphEffect::Underline);
    assert_eq!(Modifier::from_bits(BOLD | ITALIC).effect(), GlyphEffect::NoEffect);
}

#[test]
fn modifier_contains() {
    let m = Modifier::from_bits(BOLD | ITALIC);
    assert!(m.contains(Modifier::from_bits(BOLD)));
    assert!(m.contains(Modifier::from_bits(BOLD | ITALIC)));
    assert!(!m.contains(Modifier::from_bits(BOLD | DIM)));
    assert!(m.contains(Modifier::from_bits(0)));
}

#[test]
fn symbol_first_char() {
    assert_eq!(first_char("ab"), Some('a'));
    assert_eq!(first_char("é!"), Some('é'));
    assert_eq!(first_char(""), None);
}
