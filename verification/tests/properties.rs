//! Property tests: determinism, totality over arbitrary Unicode input,
//! bounds safety, and fixture pairs shared with other implementations.

use radicle_avatar::{Avatar, Usage, EMOJIS, EMOJIS_USER};

#[test]
fn test_determinism() {
    for input in ["", "cloudhead", "radicle", "¡Unicode! ☃", "a slightly longer input string"] {
        for usage in [Usage::Any, Usage::Identity] {
            assert_eq!(Avatar::from(input, usage), Avatar::from(input, usage));
        }
    }
}

#[test]
fn test_empty_string_is_valid() {
    let any = Avatar::from("", Usage::Any);
    assert_eq!(any.emoji, "🦒");
    assert_eq!((any.background.r, any.background.g, any.background.b), (131, 217, 178));

    let identity = Avatar::from("", Usage::Identity);
    assert_eq!(identity.emoji, "🖇");
    assert_eq!(
        (identity.background.r, identity.background.g, identity.background.b),
        (131, 217, 178)
    );
}

fn random_unicode_string() -> String {
    let len: usize = rand::random_range(0..=40);
    (0..len)
        .map(|_| loop {
            let scalar: u32 = rand::random_range(0..=0x10ffff);
            if let Some(c) = char::from_u32(scalar) {
                return c;
            }
        })
        .collect()
}

#[test]
fn test_bounds_safety() {
    // For randomly generated strings over the full Unicode scalar range the
    // selected emoji is always a catalog entry (the index never leaves the
    // eligible catalogs) and every channel value is an 8-bit value by type.
    for _ in 0..10_000 {
        let input = random_unicode_string();

        let any = Avatar::from(&input, Usage::Any);
        assert!(EMOJIS.iter().flatten().any(|e| *e == any.emoji));

        let identity = Avatar::from(&input, Usage::Identity);
        assert!(
            EMOJIS.iter().flatten().any(|e| *e == identity.emoji)
                || EMOJIS_USER.iter().flatten().any(|e| *e == identity.emoji)
        );
    }
}

#[test]
fn test_fixture_pairs() {
    // (input, usage) -> (emoji, background) pairs computed independently of
    // this implementation, as a cross-implementation regression fixture.
    let fixtures: Vec<(&str, Usage, &str, (u8, u8, u8))> = vec![
        ("alice", Usage::Identity, "🦨", (63, 160, 101)),
        ("bob", Usage::Any, "🦚", (93, 102, 25)),
        ("0x3ef1Fb1f9C93a4Ad9e58Bcb50C0756a22Ca00d31", Usage::Identity, "🍈", (186, 99, 62)),
        ("rad:git:hnrkemobagsicpf9sr95o3g551otspcd84c9o", Usage::Any, "🧀", (133, 224, 5)),
        ("¡Unicode! ☃", Usage::Identity, "🎥", (57, 198, 146)),
    ];
    for (input, usage, emoji, (r, g, b)) in fixtures {
        let avatar = Avatar::from(input, usage);
        assert_eq!(avatar.emoji, emoji);
        assert_eq!((avatar.background.r, avatar.background.g, avatar.background.b), (r, g, b));
    }
}

#[test]
fn test_catalog_shape() {
    assert_eq!(EMOJIS.iter().flatten().count(), 550);
    assert_eq!(EMOJIS_USER.iter().flatten().count(), 80);
    // The supplementary catalog carries one bare space entry; it is kept
    // as it is for output compatibility.
    assert_eq!(EMOJIS_USER[5][0], " ");
}
