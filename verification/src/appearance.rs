//! Physical-trait enumerations: closed sets of mutually exclusive values for
//! a character's sex, hair color, eye color and skin color.
//!
//! Each enumeration maps a sampling index to a variant through `from_index`.
//! The mapping is a bijection between `[0, variant_count)` and the variants,
//! so an index drawn uniformly from that range selects every variant with
//! equal probability.

use vstd::prelude::*;

verus! {

/// Character sex: male or female.
#[derive(Clone, Copy, Debug, PartialEq, Eq, Structural)]
pub enum Sex {
    Male,
    Female,
}

impl Sex {
    /// The number of sex variants.
    pub open spec fn variant_count() -> int {
        2
    }

    /// The sampling index that selects this sex.
    pub open spec fn index_of(self) -> int {
        match self {
            Sex::Male => 0,
            Sex::Female => 1,
        }
    }

    /// The sex selected by a sampling index: `0` selects `Male`; any other
    /// index selects `Female`.
    pub open spec fn spec_from_index(i: int) -> Sex {
        if i == 0 {
            Sex::Male
        } else {
            Sex::Female
        }
    }

    /// Maps a sampling index to a sex, exactly as [`Sex::spec_from_index`]
    /// says.
    pub fn from_index(i: u32) -> (s: Sex)
        ensures
            s == Sex::spec_from_index(i as int),
    {
        match i {
            0 => Sex::Male,
            _ => Sex::Female,
        }
    }
}

/// Character hair color choices.
#[derive(Clone, Copy, Debug, PartialEq, Eq, Structural)]
pub enum HairColor {
    Black,
    Brown,
    Red,
    Blonde,
    Blue,
    Pink,
    Purple,
}

impl HairColor {
    /// The number of hair color variants.
    pub open spec fn variant_count() -> int {
        7
    }

    /// The sampling index that selects this hair color.
    pub open spec fn index_of(self) -> int {
        match self {
            HairColor::Black => 0,
            HairColor::Brown => 1,
            HairColor::Red => 2,
            HairColor::Blonde => 3,
            HairColor::Blue => 4,
            HairColor::Pink => 5,
            HairColor::Purple => 6,
        }
    }

    /// The hair color selected by a sampling index, in declaration order;
    /// any index past the last variant falls back to the last variant.
    pub open spec fn spec_from_index(i: int) -> HairColor {
        if i == 0 {
            HairColor::Black
        } else if i == 1 {
            HairColor::Brown
        } else if i == 2 {
            HairColor::Red
        } else if i == 3 {
            HairColor::Blonde
        } else if i == 4 {
            HairColor::Blue
        } else if i == 5 {
            HairColor::Pink
        } else {
            HairColor::Purple
        }
    }

    /// Maps a sampling index to a hair color, exactly as
    /// [`HairColor::spec_from_index`] says.
    pub fn from_index(i: u32) -> (h: HairColor)
        ensures
            h == HairColor::spec_from_index(i as int),
    {
        match i {
            0 => HairColor::Black,
            1 => HairColor::Brown,
            2 => HairColor::Red,
            3 => HairColor::Blonde,
            4 => HairColor::Blue,
            5 => HairColor::Pink,
            _ => HairColor::Purple,
        }
    }
}

/// Character eye color choices.
#[derive(Clone, Copy, Debug, PartialEq, Eq, Structural)]
pub enum EyeColor {
    Blue,
    Green,
    Hazel,
    Brown,
}

impl EyeColor {
    /// The number of eye color variants.
    pub open spec fn variant_count() -> int {
        4
    }

    /// The sampling index that selects this eye color.
    pub open spec fn index_of(self) -> int {
        match self {
            EyeColor::Blue => 0,
            EyeColor::Green => 1,
            EyeColor::Hazel => 2,
            EyeColor::Brown => 3,
        }
    }

    /// The eye color selected by a sampling index, in declaration order;
    /// any index past the last variant falls back to the last variant.
    pub open spec fn spec_from_index(i: int) -> EyeColor {
        if i == 0 {
            EyeColor::Blue
        } else if i == 1 {
            EyeColor::Green
        } else if i == 2 {
            EyeColor::Hazel
        } else {
            EyeColor::Brown
        }
    }

    /// Maps a sampling index to an eye color, exactly as
    /// [`EyeColor::spec_from_index`] says.
    pub fn from_index(i: u32) -> (e: EyeColor)
        ensures
            e == EyeColor::spec_from_index(i as int),
    {
        match i {
            0 => EyeColor::Blue,
            1 => EyeColor::Green,
            2 => EyeColor::Hazel,
            _ => EyeColor::Brown,
        }
    }
}

/// Character skin color choices.
#[derive(Clone, Copy, Debug, PartialEq, Eq, Structural)]
pub enum SkinColor {
    Light,
    Medium,
    Dark,
}

impl SkinColor {
    /// The number of skin color variants.
    pub open spec fn variant_count() -> int {
        3
    }

    /// The sampling index that selects this skin color.
    pub open spec fn index_of(self) -> int {
        match self {
            SkinColor::Light => 0,
            SkinColor::Medium => 1,
            SkinColor::Dark => 2,
        }
    }

    /// The skin color selected by a sampling index, in declaration order;
    /// any index past the last variant falls back to the last variant.
    pub open spec fn spec_from_index(i: int) -> SkinColor {
        if i == 0 {
            SkinColor::Light
        } else if i == 1 {
            SkinColor::Medium
        } else {
            SkinColor::Dark
        }
    }

    /// Maps a sampling index to a skin color, exactly as
    /// [`SkinColor::spec_from_index`] says.
    pub fn from_index(i: u32) -> (k: SkinColor)
        ensures
            k == SkinColor::spec_from_index(i as int),
    {
        match i {
            0 => SkinColor::Light,
            1 => SkinColor::Medium,
            _ => SkinColor::Dark,
        }
    }
}

/// Uniform sex sampling: the index mapping is a bijection between
/// `[0, variant_count)` and the sex variants, so a uniformly drawn index
/// selects every sex with equal probability.
pub proof fn lemma_sex_sampling_uniform()
    ensures
        forall|i: int|
            0 <= i < Sex::variant_count() ==> (#[trigger] Sex::spec_from_index(i)).index_of()
                == i,
        forall|s: Sex|
            0 <= #[trigger] s.index_of() < Sex::variant_count() && Sex::spec_from_index(
                s.index_of(),
            ) == s,
{
}

/// Uniform hair color sampling: the index mapping is a bijection between
/// `[0, variant_count)` and the hair color variants, so a uniformly drawn
/// index selects every hair color with equal probability.
pub proof fn lemma_hair_color_sampling_uniform()
    ensures
        forall|i: int|
            0 <= i < HairColor::variant_count() ==> (#[trigger] HairColor::spec_from_index(
                i,
            )).index_of() == i,
        forall|h: HairColor|
            0 <= #[trigger] h.index_of() < HairColor::variant_count() && HairColor::spec_from_index(
                h.index_of(),
            ) == h,
{
}

/// Uniform eye color sampling: the index mapping is a bijection between
/// `[0, variant_count)` and the eye color variants, so a uniformly drawn
/// index selects every eye color with equal probability.
pub proof fn lemma_eye_color_sampling_uniform()
    ensures
        forall|i: int|
            0 <= i < EyeColor::variant_count() ==> (#[trigger] EyeColor::spec_from_index(
                i,
            )).index_of() == i,
        forall|e: EyeColor|
            0 <= #[trigger] e.index_of() < EyeColor::variant_count() && EyeColor::spec_from_index(
                e.index_of(),
            ) == e,
{
}

/// Uniform skin color sampling: the index mapping is a bijection between
/// `[0, variant_count)` and the skin color variants, so a uniformly drawn
/// index selects every skin color with equal probability.
pub proof fn lemma_skin_color_sampling_uniform()
    ensures
        forall|i: int|
            0 <= i < SkinColor::variant_count() ==> (#[trigger] SkinColor::spec_from_index(
                i,
            )).index_of() == i,
        forall|k: SkinColor|
            0 <= #[trigger] k.index_of() < SkinColor::variant_count() && SkinColor::spec_from_index(
                k.index_of(),
            ) == k,
{
}

} // verus!
