//! Character classes and the per-class growth of the primary attributes.

use vstd::prelude::*;

verus! {

/// Fixed-point gain of a class's favoured primary attribute per level.
pub const PRIMARY_GAIN_MAJOR: u32 = 2000;

/// Fixed-point gain of each of the other two primary attributes per level.
pub const PRIMARY_GAIN_MINOR: u32 = 1000;

/// Character class choices.
///
/// Mercenary favours strength, Hacker favours intelligence, and Rogue
/// favours dexterity: on each level the favoured attribute grows by
/// [`PRIMARY_GAIN_MAJOR`] and the other two by [`PRIMARY_GAIN_MINOR`].
#[derive(Clone, Copy, Debug, PartialEq, Eq, Structural)]
pub enum Class {
    Mercenary,
    Hacker,
    Rogue,
}

/// Fixed-point strength gain of one leveling transition for `class`.
pub open spec fn strength_gain(class: Class) -> int {
    match class {
        Class::Mercenary => PRIMARY_GAIN_MAJOR as int,
        Class::Hacker => PRIMARY_GAIN_MINOR as int,
        Class::Rogue => PRIMARY_GAIN_MINOR as int,
    }
}

/// Fixed-point intelligence gain of one leveling transition for `class`.
pub open spec fn intelligence_gain(class: Class) -> int {
    match class {
        Class::Mercenary => PRIMARY_GAIN_MINOR as int,
        Class::Hacker => PRIMARY_GAIN_MAJOR as int,
        Class::Rogue => PRIMARY_GAIN_MINOR as int,
    }
}

/// Fixed-point dexterity gain of one leveling transition for `class`.
pub open spec fn dexterity_gain(class: Class) -> int {
    match class {
        Class::Mercenary => PRIMARY_GAIN_MINOR as int,
        Class::Hacker => PRIMARY_GAIN_MINOR as int,
        Class::Rogue => PRIMARY_GAIN_MAJOR as int,
    }
}

impl Class {
    /// The number of class variants.
    pub open spec fn variant_count() -> int {
        3
    }

    /// The sampling index that selects this class.
    pub open spec fn index_of(self) -> int {
        match self {
            Class::Mercenary => 0,
            Class::Hacker => 1,
            Class::Rogue => 2,
        }
    }

    /// The class selected by a sampling index: indices `0`, `1` and `2`
    /// select `Mercenary`, `Hacker` and `Rogue` in turn; any larger index
    /// falls back to the last variant.
    pub open spec fn spec_from_index(i: int) -> Class {
        if i == 0 {
            Class::Mercenary
        } else if i == 1 {
            Class::Hacker
        } else {
            Class::Rogue
        }
    }

    /// Maps a sampling index to a class, exactly as [`Class::spec_from_index`]
    /// says.
    pub fn from_index(i: u32) -> (c: Class)
        ensures
            c == Class::spec_from_index(i as int),
    {
        match i {
            0 => Class::Mercenary,
            1 => Class::Hacker,
            _ => Class::Rogue,
        }
    }

    /// Returns the per-level gains of strength, intelligence and dexterity
    /// for this class, exactly as the growth spec functions say.
    pub fn gains(&self) -> (g: (u32, u32, u32))
        ensures
            g.0 == strength_gain(*self),
            g.1 == intelligence_gain(*self),
            g.2 == dexterity_gain(*self),
    {
        match self {
            Class::Mercenary => (PRIMARY_GAIN_MAJOR, PRIMARY_GAIN_MINOR, PRIMARY_GAIN_MINOR),
            Class::Hacker => (PRIMARY_GAIN_MINOR, PRIMARY_GAIN_MAJOR, PRIMARY_GAIN_MINOR),
            Class::Rogue => (PRIMARY_GAIN_MINOR, PRIMARY_GAIN_MINOR, PRIMARY_GAIN_MAJOR),
        }
    }
}

/// Uniform class sampling: the index mapping is a bijection between
/// `[0, variant_count)` and the class variants, so a uniformly drawn index
/// selects every class with equal probability.
pub proof fn lemma_class_sampling_uniform()
    ensures
        forall|i: int|
            0 <= i < Class::variant_count() ==> (#[trigger] Class::spec_from_index(i)).index_of()
                == i,
        forall|c: Class|
            0 <= #[trigger] c.index_of() < Class::variant_count() && Class::spec_from_index(
                c.index_of(),
            ) == c,
{
}

} // verus!
