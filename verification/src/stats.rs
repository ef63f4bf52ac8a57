//! The stat block: primary attributes, level, and the derivation engine that
//! computes the ten secondary combat stats from them.
//!
//! All stats use a fixed-point scale: the stored integer is the displayed
//! value multiplied by 1000, so one-thousandth precision is kept without
//! floating-point arithmetic.
//!
//! Every derived stat is a pure function of the current primaries and level,
//! applied identically at every level including level 0. Leveling is the only
//! mutator: it raises the level by one, resets experience, grows the
//! primaries per class, and recomputes every derived stat. Arithmetic is
//! unchecked but proved in bounds: each mutator requires enough headroom in
//! `u32` for the values it produces, so no operation can wrap or panic.

use crate::class::Class;
use crate::class::dexterity_gain;
use crate::class::intelligence_gain;
use crate::class::strength_gain;
use vstd::prelude::*;

verus! {

/// Fixed-point strength, intelligence and dexterity of a fresh stat block.
pub const BASE_PRIMARY: u32 = 5000;

/// Fixed-point hit points at level 0.
pub const STARTING_HP: u32 = 100000;

/// Fixed-point hit-point growth per level.
pub const HP_GROWTH_PER_LEVEL: u32 = 5000;

/// Fixed-point damage before the strength contribution.
pub const STARTING_DAMAGE: u32 = 10000;

/// Fraction of strength that counts as defense.
pub const DEFENSE_RATIO: u32 = 4;

/// Fixed-point action points at level 0.
pub const STARTING_AP: u32 = 20000;

/// Fixed-point action-point growth per level.
pub const AP_GROWTH_PER_LEVEL: u32 = 2000;

/// Fraction of intelligence that counts as tech defense.
pub const TECH_DEFENSE_RATIO: u32 = 4;

/// Fraction of intelligence that counts as tech critical chance.
pub const TECH_CRITICAL_RATIO: u32 = 4;

/// Fixed-point tech damage before the intelligence contribution.
pub const TECH_STARTING_DAMAGE: u32 = 10000;

/// Fixed-point hit chance before the dexterity contribution.
pub const STARTING_HIT_CHANCE: u32 = 50000;

/// Numerator of the dexterity-proportional hit-chance growth.
pub const HIT_CHANCE_GROWTH_NUMERATOR: u32 = 7;

/// Denominator of the dexterity-proportional hit-chance growth.
pub const HIT_CHANCE_GROWTH_DENOMINATOR: u32 = 100;

/// Fraction of dexterity that counts as critical chance.
pub const CRITICAL_CHANCE_RATIO: u32 = 4;

/// Fraction of dexterity that counts as dodge chance.
pub const DODGE_CHANCE_RATIO: u32 = 4;

/// Hit points as a function of level.
pub open spec fn hp_formula(level: int) -> int {
    STARTING_HP + HP_GROWTH_PER_LEVEL * level
}

/// Defense as a function of strength.
pub open spec fn defense_formula(strength: int) -> int {
    strength / (DEFENSE_RATIO as int)
}

/// Damage as a function of strength.
pub open spec fn damage_formula(strength: int) -> int {
    STARTING_DAMAGE + strength
}

/// Action points as a function of level.
pub open spec fn ap_formula(level: int) -> int {
    STARTING_AP + AP_GROWTH_PER_LEVEL * level
}

/// Tech defense as a function of intelligence.
pub open spec fn tech_defense_formula(intelligence: int) -> int {
    intelligence / (TECH_DEFENSE_RATIO as int)
}

/// Tech damage as a function of intelligence.
pub open spec fn tech_damage_formula(intelligence: int) -> int {
    TECH_STARTING_DAMAGE + intelligence
}

/// Tech critical chance as a function of intelligence.
pub open spec fn tech_critical_formula(intelligence: int) -> int {
    intelligence / (TECH_CRITICAL_RATIO as int)
}

/// Hit chance as a function of dexterity.
pub open spec fn hit_chance_formula(dexterity: int) -> int {
    STARTING_HIT_CHANCE + (HIT_CHANCE_GROWTH_NUMERATOR * dexterity) / (
    HIT_CHANCE_GROWTH_DENOMINATOR as int)
}

/// Critical chance as a function of dexterity.
pub open spec fn critical_chance_formula(dexterity: int) -> int {
    dexterity / (CRITICAL_CHANCE_RATIO as int)
}

/// Dodge chance as a function of dexterity.
pub open spec fn dodge_chance_formula(dexterity: int) -> int {
    dexterity / (DODGE_CHANCE_RATIO as int)
}

/// Character stats.
///
/// `level`, `experience`, `strength`, `intelligence` and `dexterity` are the
/// primary fields; the other ten are derived from the primaries and the
/// level, and are never consistent when mutated directly.
#[derive(Clone, Copy, Debug, PartialEq, Eq, Structural)]
pub struct Stats {
    // primary stats
    pub level: u32,
    pub experience: u32,
    pub strength: u32,
    pub intelligence: u32,
    pub dexterity: u32,
    // strength stats
    pub hp: u32,
    pub defense: u32,
    pub damage: u32,
    // intelligence stats
    pub ap: u32,
    pub tech_defense: u32,
    pub tech_damage: u32,
    pub tech_critical: u32,
    // dexterity stats
    pub hit_chance: u32,
    pub critical_chance: u32,
    pub dodge_chance: u32,
}

/// Every derived stat that the given primaries and level produce fits in
/// `u32`. The division-based stats are bounded by their primary, so only the
/// additive formulas need a bound of their own.
pub open spec fn derivable(level: int, strength: int, intelligence: int, dexterity: int) -> bool {
    &&& hp_formula(level) <= u32::MAX
    &&& damage_formula(strength) <= u32::MAX
    &&& ap_formula(level) <= u32::MAX
    &&& tech_damage_formula(intelligence) <= u32::MAX
    &&& hit_chance_formula(dexterity) <= u32::MAX
}

impl Stats {
    /// The derived stats of the given primaries and level fit in `u32`.
    pub open spec fn derivable(self) -> bool {
        derivable(
            self.level as int,
            self.strength as int,
            self.intelligence as int,
            self.dexterity as int,
        )
    }

    /// Every derived field equals its formula applied to the current
    /// primaries and level: the stat block is internally consistent.
    pub open spec fn is_derived(self) -> bool {
        &&& self.hp == hp_formula(self.level as int)
        &&& self.defense == defense_formula(self.strength as int)
        &&& self.damage == damage_formula(self.strength as int)
        &&& self.ap == ap_formula(self.level as int)
        &&& self.tech_defense == tech_defense_formula(self.intelligence as int)
        &&& self.tech_damage == tech_damage_formula(self.intelligence as int)
        &&& self.tech_critical == tech_critical_formula(self.intelligence as int)
        &&& self.hit_chance == hit_chance_formula(self.dexterity as int)
        &&& self.critical_chance == critical_chance_formula(self.dexterity as int)
        &&& self.dodge_chance == dodge_chance_formula(self.dexterity as int)
    }

    /// A fresh stat block: level 0, no experience, default primaries, and
    /// derived fields consistent with them.
    pub open spec fn is_fresh(self) -> bool {
        &&& self.level == 0
        &&& self.experience == 0
        &&& self.strength == BASE_PRIMARY
        &&& self.intelligence == BASE_PRIMARY
        &&& self.dexterity == BASE_PRIMARY
        &&& self.is_derived()
    }

    /// One leveling transition for `class` stays within `u32`: the level,
    /// the grown primaries and every derived stat they produce all fit.
    pub open spec fn can_level_up(self, class: Class) -> bool {
        &&& self.level + 1 <= u32::MAX
        &&& self.strength + strength_gain(class) <= u32::MAX
        &&& self.intelligence + intelligence_gain(class) <= u32::MAX
        &&& self.dexterity + dexterity_gain(class) <= u32::MAX
        &&& derivable(
            self.level + 1,
            self.strength + strength_gain(class),
            self.intelligence + intelligence_gain(class),
            self.dexterity + dexterity_gain(class),
        )
    }

    /// Returns a fresh stat block, exactly as [`Stats::default`] does.
    pub fn new() -> (s: Stats)
        ensures
            s.is_fresh(),
    {
        Stats::default()
    }

    /// The leveling transition: raises `level` by one, resets `experience`
    /// to 0 whatever it held before, grows the primaries by the gains of
    /// `class`, and recomputes every derived stat. This is the only mutator
    /// of a stat block.
    pub fn level_up(&mut self, class: &Class)
        requires
            old(self).can_level_up(*class),
        ensures
            final(self).level == old(self).level + 1,
            final(self).experience == 0,
            final(self).strength == old(self).strength + strength_gain(*class),
            final(self).intelligence == old(self).intelligence + intelligence_gain(*class),
            final(self).dexterity == old(self).dexterity + dexterity_gain(*class),
            final(self).is_derived(),
    {
        self.level = self.level + 1;
        self.experience = 0;

        // increase primary stats per class
        let (strength_up, intelligence_up, dexterity_up) = class.gains();
        self.strength = self.strength + strength_up;
        self.intelligence = self.intelligence + intelligence_up;
        self.dexterity = self.dexterity + dexterity_up;

        // recalculate secondary stats
        self.update();
    }

    /// The checked leveling transition. When one transition for `class`
    /// stays within `u32` it is fully applied, as [`Stats::level_up`] does,
    /// and the call returns `true`; when any value would overflow, nothing
    /// is applied and the call returns `false`.
    pub fn try_level_up(&mut self, class: &Class) -> (ok: bool)
        ensures
            ok == old(self).can_level_up(*class),
            ok ==> final(self).level == old(self).level + 1,
            ok ==> final(self).experience == 0,
            ok ==> final(self).strength == old(self).strength + strength_gain(*class),
            ok ==> final(self).intelligence == old(self).intelligence + intelligence_gain(*class),
            ok ==> final(self).dexterity == old(self).dexterity + dexterity_gain(*class),
            ok ==> final(self).is_derived(),
            !ok ==> *final(self) == *old(self),
    {
        let (strength_up, intelligence_up, dexterity_up) = class.gains();
        if !(self.level < u32::MAX && self.strength <= u32::MAX - strength_up
            && self.intelligence <= u32::MAX - intelligence_up && self.dexterity <= u32::MAX
            - dexterity_up) {
            return false;
        }
        let level = (self.level as u64) + 1;
        let strength = (self.strength as u64) + (strength_up as u64);
        let intelligence = (self.intelligence as u64) + (intelligence_up as u64);
        let dexterity = (self.dexterity as u64) + (dexterity_up as u64);
        let limit = u32::MAX as u64;
        proof {
            assert((HP_GROWTH_PER_LEVEL as u64) * level <= 5000 * 0xffff_ffff) by (nonlinear_arith)
                requires
                    HP_GROWTH_PER_LEVEL as u64 == 5000,
                    level <= 0xffff_ffff,
            ;
            assert((AP_GROWTH_PER_LEVEL as u64) * level <= 2000 * 0xffff_ffff) by (nonlinear_arith)
                requires
                    AP_GROWTH_PER_LEVEL as u64 == 2000,
                    level <= 0xffff_ffff,
            ;
            assert((HIT_CHANCE_GROWTH_NUMERATOR as u64) * dexterity <= 7 * 0x1_0000_0000)
                by (nonlinear_arith)
                requires
                    HIT_CHANCE_GROWTH_NUMERATOR as u64 == 7,
                    dexterity <= 0x1_0000_0000,
            ;
        }
        let hp_fits = (STARTING_HP as u64) + (HP_GROWTH_PER_LEVEL as u64) * level <= limit;
        let damage_fits = (STARTING_DAMAGE as u64) + strength <= limit;
        let ap_fits = (STARTING_AP as u64) + (AP_GROWTH_PER_LEVEL as u64) * level <= limit;
        let tech_damage_fits = (TECH_STARTING_DAMAGE as u64) + intelligence <= limit;
        let hit_chance_fits = (STARTING_HIT_CHANCE as u64) + ((HIT_CHANCE_GROWTH_NUMERATOR as u64)
            * dexterity) / (HIT_CHANCE_GROWTH_DENOMINATOR as u64) <= limit;
        if hp_fits && damage_fits && ap_fits && tech_damage_fits && hit_chance_fits {
            self.level_up(class);
            true
        } else {
            false
        }
    }

    /// Recomputes every derived stat from the current primaries and level,
    /// which it leaves untouched. The same formulas apply at every level,
    /// including level 0.
    pub fn update(&mut self)
        requires
            old(self).derivable(),
        ensures
            final(self).level == old(self).level,
            final(self).experience == old(self).experience,
            final(self).strength == old(self).strength,
            final(self).intelligence == old(self).intelligence,
            final(self).dexterity == old(self).dexterity,
            final(self).is_derived(),
    {
        let level = self.level as u64;
        let strength = self.strength as u64;
        let intelligence = self.intelligence as u64;
        let dexterity = self.dexterity as u64;

        // strength stats
        let hp: u64 = (STARTING_HP as u64) + (HP_GROWTH_PER_LEVEL as u64) * level;
        self.hp = hp as u32;
        self.defense = self.strength / DEFENSE_RATIO;
        let damage: u64 = (STARTING_DAMAGE as u64) + strength;
        self.damage = damage as u32;

        // intelligence stats
        let ap: u64 = (STARTING_AP as u64) + (AP_GROWTH_PER_LEVEL as u64) * level;
        self.ap = ap as u32;
        self.tech_defense = self.intelligence / TECH_DEFENSE_RATIO;
        let tech_damage: u64 = (TECH_STARTING_DAMAGE as u64) + intelligence;
        self.tech_damage = tech_damage as u32;
        self.tech_critical = self.intelligence / TECH_CRITICAL_RATIO;

        // dexterity stats
        let hit_chance: u64 = (STARTING_HIT_CHANCE as u64) + ((HIT_CHANCE_GROWTH_NUMERATOR as u64)
            * dexterity) / (HIT_CHANCE_GROWTH_DENOMINATOR as u64);
        self.hit_chance = hit_chance as u32;
        self.critical_chance = self.dexterity / CRITICAL_CHANCE_RATIO;
        self.dodge_chance = self.dexterity / DODGE_CHANCE_RATIO;
    }
}

impl Default for Stats {
    /// Returns a fresh stat block: level 0, no experience, all primaries at
    /// [`BASE_PRIMARY`], and every derived stat computed from that state.
    fn default() -> (s: Stats)
        ensures
            s.is_fresh(),
    {
        let mut s = Stats {
            level: 0,
            experience: 0,
            strength: BASE_PRIMARY,
            intelligence: BASE_PRIMARY,
            dexterity: BASE_PRIMARY,
            hp: 0,
            defense: 0,
            damage: 0,
            ap: 0,
            tech_defense: 0,
            tech_damage: 0,
            tech_critical: 0,
            hit_chance: 0,
            critical_chance: 0,
            dodge_chance: 0,
        };
        s.update();
        s
    }
}

/// Determinism of derivation: the derived stats are a function of the
/// primaries and the level alone, so two consistent stat blocks that agree
/// on level, strength, intelligence and dexterity agree on every derived
/// stat.
pub proof fn lemma_derivation_deterministic(a: Stats, b: Stats)
    requires
        a.is_derived(),
        b.is_derived(),
        a.level == b.level,
        a.strength == b.strength,
        a.intelligence == b.intelligence,
        a.dexterity == b.dexterity,
    ensures
        a.hp == b.hp,
        a.defense == b.defense,
        a.damage == b.damage,
        a.ap == b.ap,
        a.tech_defense == b.tech_defense,
        a.tech_damage == b.tech_damage,
        a.tech_critical == b.tech_critical,
        a.hit_chance == b.hit_chance,
        a.critical_chance == b.critical_chance,
        a.dodge_chance == b.dodge_chance,
{
}

/// Idempotence of derivation: recomputing the derived stats of a consistent
/// stat block changes nothing. Any outcome that the contract of
/// [`Stats::update`] allows on a consistent block — same primaries, same
/// experience, derived fields consistent — is that block itself.
pub proof fn lemma_derivation_idempotent(s: Stats, t: Stats)
    requires
        s.is_derived(),
        t.is_derived(),
        t.level == s.level,
        t.experience == s.experience,
        t.strength == s.strength,
        t.intelligence == s.intelligence,
        t.dexterity == s.dexterity,
    ensures
        t == s,
{
    lemma_derivation_deterministic(s, t);
}


} // verus!
