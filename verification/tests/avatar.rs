//! Reference vectors for avatar generation: known avatars, hashes, colors
//! and the lightness arithmetic.

use radicle_avatar::{Avatar, Color, Emoji, Usage, generate_color, generate_emoji, hash};

#[test]
fn test_avatar() {
    assert_eq!(
        Avatar::from("cloudhead", Usage::Identity),
        Avatar { emoji: "🌻".to_string(), background: Color::new(24, 105, 216) }
    );
}

#[test]
fn test_avatar_hash() {
    assert_eq!(hash("chongo was here!\n\0"), 0xc33b_ce57_bef6_3eaf);
}

#[test]
fn test_avatar_emoji() {
    assert_eq!(generate_emoji("cloudhead", Usage::Identity), Emoji("🌻"));
    assert_eq!(generate_emoji("radicle", Usage::Any), Emoji("☕\u{fe0f}"));
}

#[test]
fn test_avatar_color() {
    assert_eq!(generate_color("cloudhead"), Color::new(40, 121, 232));
    assert_eq!(generate_color("radicle"), Color::new(255, 49, 16));
}

// Lightness is reported as an exact numerator over 765, so 0.0 is 0,
// 1.0 is 765, and 127/255 is 381/765.
#[test]
fn test_avatar_lightness() {
    assert_eq!(Color::new(0, 0, 0).lightness(), 0);
    assert_eq!(Color::new(0xff, 0xff, 0xff).lightness(), 765);
    assert_eq!(Color::new(127, 127, 127).lightness(), 381);
}

// Lightening takes an exact rational amount, so 1.0 is 1/1, -1.0 is -1/1
// and 0.5 is 1/2.
#[test]
fn test_avatar_lighten() {
    assert_eq!(Color::new(0, 0, 0).lighten(1, 1), Color::new(0xff, 0xff, 0xff));
    assert_eq!(Color::new(0xff, 0xff, 0xff).lighten(-1, 1), Color::new(0, 0, 0));
    assert_eq!(Color::new(0xff, 0xff, 0xff).lighten(1, 1), Color::new(0xff, 0xff, 0xff));
    assert_eq!(Color::new(0, 0, 0).lighten(-1, 1), Color::new(0, 0, 0));
    assert_eq!(Color::new(0, 0, 0).lighten(1, 2), Color::new(127, 127, 127));
}

#[test]
fn test_avatar_lighten_clamps_amount() {
    // An amount beyond the range -1..1 is clamped to the range first.
    assert_eq!(Color::new(10, 20, 30).lighten(7, 2), Color::new(0xff, 0xff, 0xff));
    assert_eq!(Color::new(10, 20, 30).lighten(-7, 2), Color::new(0, 0, 0));
}

#[test]
fn test_avatar_hash_empty() {
    // The hash of the empty string is the FNV-1a offset basis.
    assert_eq!(hash(""), 0xcbf2_9ce4_8422_2325);
}

#[test]
fn test_avatar_compressed_color() {
    // "radicle" has a dark raw color: its channel sum 320 is below half of
    // 765, so every channel is lightened by floor((765 - 320) / 24) = 18,
    // saturating at 255.
    assert_eq!(Avatar::from("radicle", Usage::Any).background, Color::new(255, 67, 34));
}
