//! Character data model and stat-progression engine for a role-playing game.
//!
//! A character couples immutable identity traits (name, class, sex, physical
//! appearance) with a mutable stat block. The stat block holds three primary
//! attributes (strength, intelligence, dexterity) in a fixed-point scale
//! (stored value = displayed value x 1000) plus the character level, and ten
//! secondary combat stats that are always a pure function of the primaries
//! and the level. Leveling advances the primaries per class and recomputes
//! every derived stat.

pub mod appearance;
pub mod character;
pub mod class;
pub mod stats;

pub use appearance::EyeColor;
pub use appearance::HairColor;
pub use appearance::Sex;
pub use appearance::SkinColor;
pub use character::Character;
pub use class::Class;
pub use stats::Stats;
