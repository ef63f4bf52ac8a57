//! The character aggregate: immutable identity traits plus one owned stat
//! block, and the randomized factory that draws the physical traits.

use crate::appearance::EyeColor;
use crate::appearance::HairColor;
use crate::appearance::Sex;
use crate::appearance::SkinColor;
use crate::class::Class;
use crate::class::dexterity_gain;
use crate::class::intelligence_gain;
use crate::class::strength_gain;
use crate::stats::Stats;
use rand::Rng;
use vstd::prelude::*;

verus! {

/// Draws an index uniformly from `[0, n)`.
///
/// Relies on rand::Rng::gen_range over `0..n`: it returns a value of the
/// range, drawn uniformly, and panics only when the range is empty, which
/// the precondition rules out. Which index comes back is left open: two
/// calls on the same bound may differ.
#[verifier::external_body]
fn sample_index(n: u32) -> (r: u32)
    requires
        0 < n,
    ensures
        r < n,
{
    rand::thread_rng().gen_range(0..n)
}

/// A playable character.
///
/// The name, class, sex and physical traits are fixed at construction; only
/// the owned stat block changes, and only through the leveling transitions
/// [`Character::level_up`] and [`Character::try_level_up`].
pub struct Character {
    pub name: String,
    pub class: Class,
    pub sex: Sex,
    pub hair_color: HairColor,
    pub eye_color: EyeColor,
    pub skin_color: SkinColor,
    pub stats: Stats,
}

impl Character {
    /// Returns a new character with the given identity traits and a fresh
    /// stat block at level 0 with default primaries.
    pub fn new(
        name: &str,
        class: Class,
        sex: Sex,
        hair_color: HairColor,
        eye_color: EyeColor,
        skin_color: SkinColor,
    ) -> (c: Character)
        ensures
            c.name@ == name@,
            c.class == class,
            c.sex == sex,
            c.hair_color == hair_color,
            c.eye_color == eye_color,
            c.skin_color == skin_color,
            c.stats.is_fresh(),
    {
        Character {
            name: name.to_owned(),
            class,
            sex,
            hair_color,
            eye_color,
            skin_color,
            stats: Stats::new(),
        }
    }

    /// Returns a character with uniformly random physical traits and a fresh
    /// stat block. Class randomization is the caller's policy: pass
    /// `Some(class)` to fix the class, or `None` to draw it uniformly like
    /// the physical traits.
    pub fn random(name: &str, class: Option<Class>) -> (c: Character)
        ensures
            c.name@ == name@,
            class matches Some(cl) ==> c.class == cl,
            c.stats.is_fresh(),
    {
        let sex = Sex::from_index(sample_index(2));
        let hair_color = HairColor::from_index(sample_index(7));
        let eye_color = EyeColor::from_index(sample_index(4));
        let skin_color = SkinColor::from_index(sample_index(3));
        let class = match class {
            Some(cl) => cl,
            None => Class::from_index(sample_index(3)),
        };
        Character::new(name, class, sex, hair_color, eye_color, skin_color)
    }

    /// Advances this character by one level: pure delegation to the stat
    /// block's leveling transition with the character's own class. The
    /// identity traits stay as they are.
    pub fn level_up(&mut self)
        requires
            old(self).stats.can_level_up(old(self).class),
        ensures
            final(self).name == old(self).name,
            final(self).class == old(self).class,
            final(self).sex == old(self).sex,
            final(self).hair_color == old(self).hair_color,
            final(self).eye_color == old(self).eye_color,
            final(self).skin_color == old(self).skin_color,
            final(self).stats.level == old(self).stats.level + 1,
            final(self).stats.experience == 0,
            final(self).stats.strength == old(self).stats.strength + strength_gain(
                old(self).class,
            ),
            final(self).stats.intelligence == old(self).stats.intelligence + intelligence_gain(
                old(self).class,
            ),
            final(self).stats.dexterity == old(self).stats.dexterity + dexterity_gain(
                old(self).class,
            ),
            final(self).stats.is_derived(),
    {
        let class = self.class;
        self.stats.level_up(&class);
    }

    /// The checked level advance: applies one full leveling transition and
    /// returns `true` when it stays within `u32`, and otherwise returns
    /// `false` and leaves the character untouched.
    pub fn try_level_up(&mut self) -> (ok: bool)
        ensures
            ok == old(self).stats.can_level_up(old(self).class),
            final(self).name == old(self).name,
            final(self).class == old(self).class,
            final(self).sex == old(self).sex,
            final(self).hair_color == old(self).hair_color,
            final(self).eye_color == old(self).eye_color,
            final(self).skin_color == old(self).skin_color,
            ok ==> final(self).stats.level == old(self).stats.level + 1,
            ok ==> final(self).stats.experience == 0,
            ok ==> final(self).stats.strength == old(self).stats.strength + strength_gain(
                old(self).class,
            ),
            ok ==> final(self).stats.intelligence == old(self).stats.intelligence
                + intelligence_gain(old(self).class),
            ok ==> final(self).stats.dexterity == old(self).stats.dexterity + dexterity_gain(
                old(self).class,
            ),
            ok ==> final(self).stats.is_derived(),
            !ok ==> final(self).stats == old(self).stats,
    {
        let class = self.class;
        self.stats.try_level_up(&class)
    }
}

impl Clone for Character {
    /// Returns an independent copy: the clone owns a stat block of its own,
    /// equal to this character's, so leveling one never touches the other.
    fn clone(&self) -> (c: Self)
        ensures
            c == *self,
    {
        Character {
            name: self.name.clone(),
            class: self.class,
            sex: self.sex,
            hair_color: self.hair_color,
            eye_color: self.eye_color,
            skin_color: self.skin_color,
            stats: self.stats,
        }
    }
}

} // verus!
