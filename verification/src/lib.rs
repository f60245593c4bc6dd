//! Deterministic avatar derivation.
//!
//! An avatar — an emoji glyph plus an RGB background color — is derived from
//! an arbitrary input string, so that a UI can show a stable, unique-looking
//! visual identifier for an entity without storing an image. The same input
//! always yields the same avatar; different inputs are spread pseudo-randomly
//! but reproducibly over a fixed emoji catalog and the color space.
//!
//! The derivation is a pure function: input string -> 64-bit FNV-1a hash ->
//! {emoji index, raw color} -> {selected emoji, lightness-compressed color}.

use vstd::prelude::*;

pub mod color;
pub mod emoji;
pub mod hash;
pub mod usage;

pub use crate::color::Color;
pub use crate::color::compress_color;
pub use crate::color::generate_color;
pub use crate::emoji::EMOJIS;
pub use crate::emoji::EMOJIS_USER;
pub use crate::emoji::Emoji;
pub use crate::emoji::generate_emoji;
pub use crate::hash::hash;
pub use crate::usage::Usage;

use crate::color::background_color;
use crate::emoji::emoji_for;
use vstd::string::StringSliceAdditionalSpecFns;

verus! {

/// An avatar: an emoji glyph, rendered as its display string, and a
/// background color.
#[derive(Clone, Debug, PartialEq, Eq)]
pub struct Avatar {
    /// The emoji component.
    pub emoji: String,
    /// The background color component.
    pub background: Color,
}

impl Avatar {
    /// Generate an avatar from an input string.
    ///
    /// This is total and pure: every input string and usage mode, the empty
    /// string included, yields the one avatar that the two ensured equations
    /// pin down, the emoji selected by the input's hash and the compressed
    /// hash-derived background color.
    pub fn from(input: &str, usage: Usage) -> (a: Self)
        ensures
            a.emoji@ == emoji_for(input.spec_bytes(), usage)@,
            a.background == background_color(input.spec_bytes()),
    {
        let emoji = generate_emoji(input, usage);
        Self { emoji: emoji.as_str().to_owned(), background: compress_color(generate_color(input)) }
    }
}

/// Avatar generation is deterministic: two avatars that each satisfy the
/// contract of `Avatar::from` for one and the same input byte sequence and
/// usage mode agree on the emoji and on the background color.
pub proof fn lemma_from_deterministic(a1: Avatar, a2: Avatar, bytes: Seq<u8>, usage: Usage)
    requires
        a1.emoji@ == emoji_for(bytes, usage)@,
        a1.background == background_color(bytes),
        a2.emoji@ == emoji_for(bytes, usage)@,
        a2.background == background_color(bytes),
    ensures
        a1.emoji@ == a2.emoji@,
        a1.background == a2.background,
{
}

} // verus!
