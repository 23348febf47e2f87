//! Chrome colours and dimensions come from the prototype, not from code.

use vulcan_ui::design_tokens as token;
use vulcan_ui::tokens::{pixel_text, rgb_of, Palette};

#[test]
fn the_palette_resolves_the_design_system_colours() {
    assert_eq!(Palette::bg(), 0x161826);
    assert_eq!(Palette::surface(), 0x232532);
    assert_eq!(Palette::panel(), 0x292b31);
    assert_eq!(Palette::text(), 0xe9e9ed);
    assert_eq!(Palette::accent(), 0x9184d9);
}

#[test]
fn the_syntax_and_semantic_colours_are_the_manifest_entries() {
    assert_eq!(Palette::syn_keyword(), 0xb5abfc);
    assert_eq!(Palette::syn_type(), 0xd2cefd);
    assert_eq!(Palette::syn_function(), 0xe4e7f5);
    assert_eq!(Palette::syn_identifier(), 0xcfd3e5);
    assert_eq!(Palette::syn_string(), 0xb2b6ca);
    assert_eq!(Palette::syn_punctuation(), 0x9397ab);
    assert_eq!(Palette::syn_comment(), 0x75798c);
    assert_eq!(Palette::line_number(), 0x595d6c);
    assert_eq!(Palette::inlay(), 0xe6e6ea);
    assert_eq!(Palette::go_tint(), 0x8fb3a5);
    assert_eq!(Palette::error(), 0xd4736a);
    assert_eq!(Palette::warning(), 0xc9a96a);
    assert_eq!(Palette::success(), 0x7fa98f);
    assert_eq!(Palette::muted(), 0x75798c);
    assert_eq!(Palette::dim(), 0x595d6c);
    assert_eq!(Palette::divider(), 0x363842);
}

#[test]
fn a_colour_token_is_read_as_hexadecimal() {
    assert_eq!(rgb_of("#9184d9"), 0x9184d9);
    assert_eq!(rgb_of("  #ABCDEF \n"), 0xabcdef);
    assert_eq!(rgb_of("##0a0b0c"), 0x0a0b0c);
    // Only the first six digits are read.
    assert_eq!(rgb_of("#12345678"), 0x123456);
    assert_eq!(rgb_of("#fff"), 0xfff);
    assert_eq!(rgb_of("#+abc"), 0xabc);
}

#[test]
fn a_pixel_length_hands_back_its_number() {
    assert_eq!(pixel_text("46px"), Some("46"));
    assert_eq!(pixel_text(" 12.5px\t"), Some("12.5"));
    assert_eq!(pixel_text("Inter"), None);
    assert_eq!(pixel_text("px"), Some(""));
    assert_eq!(pixel_text(token::CHROME_TOOLBAR), Some("46"));
    assert_eq!(pixel_text(token::CHROME_RAIL_WIDTH), Some("44"));
}
