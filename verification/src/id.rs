use vstd::prelude::*;

verus! {

// Item ids the strategies are written against. Every id listed here is
// expected to be present in the catalog; a lookup that misses is a
// configuration error surfaced as `MarketError::MissingItem`.

pub const ID_LAW_RUNE: u64 = 563;
pub const ID_COSMIC_RUNE: u64 = 564;
pub const ID_BLOOD_RUNE: u64 = 565;
pub const ID_SOUL_RUNE: u64 = 566;
pub const ID_NATURE_RUNE: u64 = 561;
pub const ID_ASTRAL_RUNE: u64 = 9075;

pub const ID_DRAGON_BOLT_UNF: u64 = 21930;
pub const ID_DIAMOND_BOLT_TIPS: u64 = 9192;
pub const ID_DIAMOND_DRAGON_BOLT: u64 = 21946;
pub const ID_DIAMOND_DRAGON_BOLT_E: u64 = 21948;
pub const ID_RUBY_BOLT_TIPS: u64 = 9191;
pub const ID_RUBY_DRAGON_BOLT: u64 = 21944;
pub const ID_RUBY_DRAGON_BOLT_E: u64 = 21945;
pub const ID_DRAGONSTONE_BOLT_TIPS: u64 = 9193;
pub const ID_DRAGONSTONE_DRAGON_BOLT: u64 = 21950;
pub const ID_DRAGONSTONE_DRAGON_BOLT_E: u64 = 21952;
pub const ID_OPAL_BOLT_TIPS: u64 = 45;
pub const ID_OPAL_DRAGON_BOLT: u64 = 21932;
pub const ID_OPAL_DRAGON_BOLT_E: u64 = 21934;

pub const ID_CLAY: u64 = 434;
pub const ID_SOFT_CLAY: u64 = 1761;

pub const ID_BLACK_DRAGONHIDE: u64 = 1747;
pub const ID_BLACK_DRAGON_LEATHER: u64 = 2509;
pub const ID_RED_DRAGONHIDE: u64 = 1749;
pub const ID_RED_DRAGON_LEATHER: u64 = 2507;

pub const ID_MAHOGANY_LOG: u64 = 6332;
pub const ID_MAHOGANY_PLANK: u64 = 8782;
pub const ID_TEAK_LOG: u64 = 6333;
pub const ID_TEAK_PLANK: u64 = 8780;

} // verus!
