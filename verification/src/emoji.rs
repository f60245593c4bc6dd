//! The fixed emoji catalogs and the selection of an emoji from the hash.
//!
//! Two frozen, ordered catalogs exist: a general-purpose catalog and a
//! supplementary catalog of face- and character-like glyphs that is eligible
//! only for identity avatars, indexed logically after the general catalog.
//! The catalogs are reference data: their exact membership and order decide
//! every derived avatar, so they must never be edited or reordered. (The
//! supplementary catalog contains one bare space entry; it is kept as it is
//! for output compatibility.)
//!
//! An entry is a `str`, not a `char`: an emoji can span several Unicode
//! scalars, such as a glyph with a variation selector or a joined sequence.

use vstd::prelude::*;

use crate::hash::fnv1a;
use crate::hash::hash;
use crate::usage::Usage;
use vstd::string::StringSliceAdditionalSpecFns;

verus! {

/// The general-purpose emoji catalog, eligible for every usage: 550
/// entries, stored as 50 rows of 11 and read in row-major order.
pub const EMOJIS: [[&'static str; 11]; 50] = [
    ["👊", "✌️", "🤘", "👌", "👋", "👀", "🧠", "🧶", "🧵", "👠", "🥾"],
    ["🧤", "🧣", "🎩", "🧢", "🎓", "⛑", "👑", "👜", "💼", "🎒", "🧳"],
    ["👓", "🕶", "🥽", "🌂", "🛺", "🪂", "🪐", "🤿", "🪀", "🪁", "🪕"],
    ["🪔", "🪓", "🪑", "🪒", "🐣", "🐥", "🦆", "🦢", "🦉", "🦚", "🦜"],
    ["🦇", "🐺", "🐗", "🐴", "🦄", "🐝", "🐛", "🦋", "🐌", "🐚", "🐞"],
    ["🐜", "🦗", "🕷", "🦂", "🦟", "🦠", "🐢", "🐍", "🦎", "🦖", "🦕"],
    ["🐙", "🦑", "🦐", "🦀", "🐡", "🐠", "🐟", "🐬", "🐳", "🐋", "🦈"],
    ["🐊", "🐅", "🐆", "🦓", "🦍", "🐘", "🦏", "🐪", "🐫", "🦙", "🦒"],
    ["🐃", "🐂", "🐄", "🐎", "🐖", "🐏", "🐑", "🐐", "🦌", "🐕", "🐩"],
    ["🐈", "🐓", "🦃", "🕊", "🐇", "🐁", "🐀", "🐿", "🦔", "🦧", "🦮"],
    ["🐕‍🦺", "🦥", "🦦", "🦨", "🦩", "☃️", "🐉", "🐲", "🌵", "🎄", "🌲"],
    ["🌳", "🌴", "🌿", "☘️", "🍀", "🎍", "🎋", "🍃", "🍂", "🍁", "🍄"],
    ["🌾", "💐", "🌷", "🌹", "🥀", "🌺", "🌸", "🌼", "🌻", "🌞", "🌝"],
    ["🌎", "🌍", "🌏", "💫", "⭐️", "🌟", "✨", "⚡️", "☄️", "💥", "🔥"],
    ["🌈", "☀️", "🌤", "⛅️", "☁️", "🌦", "🌩", "🌨", "❄️", "💨", "💧"],
    ["💦", "☔️", "☂️", "🌊", "🍏", "🍎", "🍐", "🍊", "🍋", "🍌", "🍉"],
    ["🍇", "🍓", "🍈", "🍒", "🍑", "🍍", "🥭", "🥥", "🥝", "🍅", "🍆"],
    ["🥑", "🥦", "🥒", "🥬", "🌶", "🌽", "🥕", "🥔", "🍠", "🥐", "🍞"],
    ["🥖", "🥨", "🥯", "🧀", "🥚", "🍳", "🥞", "🥓", "🥩", "🍗", "🍖"],
    ["🌭", "🍔", "🍟", "🍕", "🥪", "🥙", "🌮", "🌯", "🥗", "🥘", "🥫"],
    ["🍝", "🍜", "🍲", "🍛", "🍣", "🍱", "🥟", "🍤", "🍙", "🍚", "🍘"],
    ["🍥", "🥮", "🥠", "🍢", "🍡", "🍧", "🍨", "🍦", "🥧", "🍰", "🎂"],
    ["🍮", "🍭", "🍬", "🍫", "🍿", "🧂", "🍩", "🍪", "🌰", "🥜", "🍯"],
    ["🥛", "🍼", "☕️", "🍵", "🥤", "🍶", "🍺", "🍻", "🥂", "🍷", "🥃"],
    ["🍸", "🍹", "🍾", "🥄", "🍴", "🍽", "🥣", "🥡", "🥢", "🧄", "🧅"],
    ["🧇", "🧆", "🧈", "🦪", "🧃", "🧉", "🧊", "⚽️", "🏀", "🏈", "⚾️"],
    ["🥎", "🏐", "🏉", "🎾", "🥏", "🎱", "🏓", "🏸", "🥅", "🏒", "🏑"],
    ["🥍", "🏏", "⛳️", "🏹", "🎣", "🥊", "🥋", "🎽", "⛸", "🥌", "🛷"],
    ["🛹", "🎿", "🎪", "🎤", "🎧", "🎹", "🥁", "🎷", "🎺", "🎸", "🎻"],
    ["🎲", "🎯", "🎳", "🎮", "🎰", "🗺", "🗿", "🚗", "🚕", "🚙", "🚌"],
    ["🚎", "🏎", "🚓", "🚑", "🚒", "🚐", "🚚", "🚛", "🚜", "🛴", "🚲"],
    ["🛵", "🏍", "🚨", "🚔", "🚍", "🚘", "🚖", "🚡", "🚠", "🚟", "🚃"],
    ["🚋", "🚞", "🚝", "🚄", "🚅", "🚈", "🚂", "🚆", "🚇", "🚊", "🚉"],
    ["✈️", "🛫", "🛬", "🛩", "💺", "🛰", "🚀", "🛸", "🚁", "🛶", "⛵️"],
    ["🚤", "🛥", "🛳", "⛴", "🚢", "⚓️", "⛽️", "🚧", "🗼", "🏰", "🏯"],
    ["🏟", "🎡", "🎢", "🎠", "⛲️", "⛱", "🏖", "🏝", "🏜", "🌋", "⛰"],
    ["🏔", "🗻", "🏕", "⛺️", "🏠", "🏡", "🏘", "🏚", "🏗", "🏭", "🏢"],
    ["⌚️", "🖲", "🕹", "🗜", "💽", "💾", "💿", "📀", "📼", "📷", "📸"],
    ["📹", "🎥", "📽", "📞", "☎️", "📟", "📠", "📺", "📻", "🎙", "🎚"],
    ["🎛", "⏱", "⏲", "⏰", "🕰", "⌛️", "⏳", "📡", "🔋", "🔌", "💡"],
    ["🔦", "🕯", "💎", "⚖️", "🔧", "🔨", "⚒", "🛠", "⛏", "🔩", "⚙️"],
    ["⛓", "🛡", "🧭", "🧱", "🔮", "🧿", "🧸", "💈", "⚗️", "🔭", "🧰"],
    ["🧲", "🧪", "🧫", "🧬", "🧯", "🔬", "🧴", "🧵", "🧶", "🧷", "🧹"],
    ["🧺", "🧻", "🧼", "🧽", "🛎", "🔑", "🗝", "🚪", "🛋", "🛏", "🛌"],
    ["🖼", "🛍", "🧳", "🛒", "🎁", "🎈", "🎏", "🎀", "🎊", "🎉", "🧨"],
    ["🎎", "🏮", "🎐", "🧧", "✉️", "📨", "📦", "🏷", "📫", "📮", "📯"],
    ["📇", "🗃", "🗳", "🗄", "📋", "📁", "🗂", "🗞", "📰", "📓", "📔"],
    ["📒", "📕", "📗", "📘", "📙", "📚", "📖", "🔖", "🔗", "📎", "🖇"],
    ["📐", "📏", "📌", "📍", "✂️", "🖊", "✒️", "🖍", "📝", "✏️", "❤️"],
    ["🧡", "💛", "💚", "💙", "💜", "🖤", "🔊", "🔔", "📣", "📢", "💠"],
];

/// The supplementary emoji catalog, eligible for identity avatars only: 80
/// entries, stored as 8 rows of 10 and read in row-major order.
pub const EMOJIS_USER: [[&'static str; 10]; 8] = [
    ["😀", "😁", "😂", "🤣", "😃", "😄", "😅", "😆", "😉", "😊"],
    ["😋", "😎", "🙂", "🤗", "🤩", "🤔", "🤨", "😐", "😑", "😶"],
    ["🙄", "😏", "😴", "😌", "😒", "🙃", "😲", "🤯", "😬", "🥵"],
    ["🥶", "😳", "🤪", "🤠", "🤡", "🥳", "🥴", "🥺", "🧐", "🤓"],
    ["😈", "👿", "👹", "👺", "💀", "👻", "👽", "🤖", "😺", "😸"],
    [" ", "😼", "😽", "🐶", "🐱", "🐭", "🐹", "🐰", "🦊", "🦝"],
    ["🐻", "🐼", "🦘", "🦡", "🐨", "🐯", "🦁", "🐮", "🐷", "🐽"],
    ["🐸", "🐵", "🙈", "🙉", "🙊", "🐒", "🐔", "🐧", "🐦", "🐤"],
];

/// An emoji: one entry of a fixed catalog.
#[derive(Clone, Copy, Debug, PartialEq, Eq)]
pub struct Emoji(pub &'static str);

/// The number of entries of the general catalog.
pub const EMOJIS_TOTAL: usize = 550;

/// The number of entries of the supplementary catalog.
pub const EMOJIS_USER_TOTAL: usize = 80;

/// How many catalog entries are eligible under a usage mode: identity
/// avatars draw from both catalogs, any other avatar from the general
/// catalog alone.
pub open spec fn pool_total(usage: Usage) -> int {
    match usage {
        Usage::Any => EMOJIS_TOTAL as int,
        Usage::Identity => EMOJIS_TOTAL as int + EMOJIS_USER_TOTAL as int,
    }
}

/// The catalog index selected by a byte sequence under a usage mode: its
/// hash, reduced modulo the number of eligible entries.
pub open spec fn emoji_index(bytes: Seq<u8>, usage: Usage) -> int {
    fnv1a(bytes) as int % pool_total(usage)
}

/// The catalog entry at an index of the combined catalog: the general
/// catalog first, the supplementary one after it, each read in row-major
/// order.
pub open spec fn emoji_at(ix: int) -> &'static str
    recommends
        0 <= ix < EMOJIS_TOTAL + EMOJIS_USER_TOTAL,
{
    if ix < EMOJIS_TOTAL {
        EMOJIS@[ix / 11]@[ix % 11]
    } else {
        let jx = ix - EMOJIS_TOTAL;
        EMOJIS_USER@[jx / 10]@[jx % 10]
    }
}

/// The emoji selected by a byte sequence under a usage mode.
pub open spec fn emoji_for(bytes: Seq<u8>, usage: Usage) -> &'static str {
    emoji_at(emoji_index(bytes, usage))
}

impl Emoji {
    /// The underlying glyph, as a string slice.
    pub fn as_str(self) -> (s: &'static str)
        ensures
            s@ == self.0@,
    {
        self.0
    }
}

/// Generate an emoji from an input: its hash picks an entry of the eligible
/// catalogs, by modulo against their exact combined size, so the selection
/// can never fall out of range.
pub fn generate_emoji(input: &str, usage: Usage) -> (e: Emoji)
    ensures
        e.0@ == emoji_for(input.spec_bytes(), usage)@,
{
    let h = hash(input);
    match usage {
        Usage::Identity => {
            let ix = (h % ((EMOJIS_TOTAL + EMOJIS_USER_TOTAL) as u64)) as usize;
            if ix < EMOJIS_TOTAL {
                Emoji(EMOJIS[ix / 11][ix % 11])
            } else {
                let jx = ix - EMOJIS_TOTAL;
                Emoji(EMOJIS_USER[jx / 10][jx % 10])
            }
        },
        Usage::Any => {
            let ix = (h % (EMOJIS_TOTAL as u64)) as usize;
            Emoji(EMOJIS[ix / 11][ix % 11])
        },
    }
}

/// The selected catalog index is always within the bounds of the eligible
/// catalogs: below the general catalog size for any-usage avatars, below
/// the combined size for identity avatars.
pub proof fn lemma_emoji_index_in_bounds(bytes: Seq<u8>, usage: Usage)
    ensures
        0 <= emoji_index(bytes, usage) < pool_total(usage),
        pool_total(Usage::Any) == 550,
        pool_total(Usage::Identity) == 630,
{
}

} // verus!
