use character_core::Character;
use character_core::Class;
use character_core::EyeColor;
use character_core::HairColor;
use character_core::Sex;
use character_core::SkinColor;

#[test]
fn test_level_up() {
    let mut c = Character::new(
        "Test Character",
        Class::Mercenary,
        Sex::Male,
        HairColor::Brown,
        EyeColor::Hazel,
        SkinColor::Light,
    );
    c.level_up();

    {
        let s = &c.stats;
        assert_eq!(s.level, 1);
        assert_eq!(s.experience, 0);
        assert_eq!(s.strength, 7000);
        assert_eq!(s.intelligence, 6000);
        assert_eq!(s.dexterity, 6000);
        assert_eq!(s.hp, 105000);
        assert_eq!(s.defense, 1750);
        assert_eq!(s.damage, 17000);
        assert_eq!(s.ap, 22000);
        assert_eq!(s.tech_damage, 16000);
        assert_eq!(s.tech_defense, 1500);
        assert_eq!(s.tech_critical, 1500);
        assert_eq!(s.hit_chance, 50420);
        assert_eq!(s.critical_chance, 1500);
        assert_eq!(s.dodge_chance, 1500);
    }

    // level up to 100
    for _ in 0..99 {
        c.level_up();
    }

    {
        let s = &c.stats;
        assert_eq!(s.level, 100);
        assert_eq!(s.experience, 0);
        assert_eq!(s.strength, 205000);
        assert_eq!(s.intelligence, 105000);
        assert_eq!(s.dexterity, 105000);
        assert_eq!(s.hp, 600000);
        assert_eq!(s.defense, 51250);
        assert_eq!(s.damage, 215000);
        assert_eq!(s.ap, 220000);
        assert_eq!(s.tech_damage, 115000);
        assert_eq!(s.tech_defense, 26250);
        assert_eq!(s.tech_critical, 26250);
        assert_eq!(s.hit_chance, 57350);
        assert_eq!(s.critical_chance, 26250);
        assert_eq!(s.dodge_chance, 26250);
    }
}

// construction fixes the identity traits and yields fresh level-0 stats
#[test]
fn test_new_character() {
    let c = Character::new(
        "Aki",
        Class::Hacker,
        Sex::Female,
        HairColor::Pink,
        EyeColor::Green,
        SkinColor::Medium,
    );
    assert_eq!(c.name, "Aki");
    assert_eq!(c.class, Class::Hacker);
    assert_eq!(c.sex, Sex::Female);
    assert_eq!(c.hair_color, HairColor::Pink);
    assert_eq!(c.eye_color, EyeColor::Green);
    assert_eq!(c.skin_color, SkinColor::Medium);
    assert_eq!(c.stats, character_core::Stats::new());
}

// a cloned character owns an independent stat block
#[test]
fn test_clone_independence() {
    let original = Character::new(
        "Twin",
        Class::Rogue,
        Sex::Female,
        HairColor::Blue,
        EyeColor::Brown,
        SkinColor::Dark,
    );
    let mut copy = original.clone();
    assert_eq!(copy.name, original.name);
    assert_eq!(copy.stats, original.stats);

    copy.level_up();
    copy.level_up();

    assert_eq!(copy.stats.level, 2);
    assert_eq!(original.stats.level, 0);
    assert_eq!(original.stats.dexterity, 5000);
    assert_eq!(original.stats, character_core::Stats::new());
}

// the index-to-variant mappings used by random construction
#[test]
fn test_from_index_mappings() {
    assert_eq!(Sex::from_index(0), Sex::Male);
    assert_eq!(Sex::from_index(1), Sex::Female);

    assert_eq!(HairColor::from_index(0), HairColor::Black);
    assert_eq!(HairColor::from_index(1), HairColor::Brown);
    assert_eq!(HairColor::from_index(2), HairColor::Red);
    assert_eq!(HairColor::from_index(3), HairColor::Blonde);
    assert_eq!(HairColor::from_index(4), HairColor::Blue);
    assert_eq!(HairColor::from_index(5), HairColor::Pink);
    assert_eq!(HairColor::from_index(6), HairColor::Purple);

    assert_eq!(EyeColor::from_index(0), EyeColor::Blue);
    assert_eq!(EyeColor::from_index(1), EyeColor::Green);
    assert_eq!(EyeColor::from_index(2), EyeColor::Hazel);
    assert_eq!(EyeColor::from_index(3), EyeColor::Brown);

    assert_eq!(SkinColor::from_index(0), SkinColor::Light);
    assert_eq!(SkinColor::from_index(1), SkinColor::Medium);
    assert_eq!(SkinColor::from_index(2), SkinColor::Dark);

    assert_eq!(Class::from_index(0), Class::Mercenary);
    assert_eq!(Class::from_index(1), Class::Hacker);
    assert_eq!(Class::from_index(2), Class::Rogue);
}

// random construction keeps a caller-fixed class and yields fresh stats
#[test]
fn test_random_fixed_class() {
    for _ in 0..50 {
        let c = Character::random("NPC", Some(Class::Mercenary));
        assert_eq!(c.name, "NPC");
        assert_eq!(c.class, Class::Mercenary);
        assert_eq!(c.stats, character_core::Stats::new());
    }
}

// each variant must land within 20% of its expected share
fn check_uniform(counts: &[u32], samples: u32) {
    let expected = samples / counts.len() as u32;
    let slack = expected / 5;
    for &count in counts {
        assert!(count >= expected - slack, "count {count} far below expected {expected}");
        assert!(count <= expected + slack, "count {count} far above expected {expected}");
    }
}

// every variant's empirical frequency converges to 1/N under random sampling
#[test]
fn test_random_sampling_uniformity() {
    let samples: u32 = 21000;
    let mut sex_counts = [0u32; 2];
    let mut hair_counts = [0u32; 7];
    let mut eye_counts = [0u32; 4];
    let mut skin_counts = [0u32; 3];
    let mut class_counts = [0u32; 3];

    for _ in 0..samples {
        let c = Character::random("Sample", None);
        match c.sex {
            Sex::Male => sex_counts[0] += 1,
            Sex::Female => sex_counts[1] += 1,
        }
        match c.hair_color {
            HairColor::Black => hair_counts[0] += 1,
            HairColor::Brown => hair_counts[1] += 1,
            HairColor::Red => hair_counts[2] += 1,
            HairColor::Blonde => hair_counts[3] += 1,
            HairColor::Blue => hair_counts[4] += 1,
            HairColor::Pink => hair_counts[5] += 1,
            HairColor::Purple => hair_counts[6] += 1,
        }
        match c.eye_color {
            EyeColor::Blue => eye_counts[0] += 1,
            EyeColor::Green => eye_counts[1] += 1,
            EyeColor::Hazel => eye_counts[2] += 1,
            EyeColor::Brown => eye_counts[3] += 1,
        }
        match c.skin_color {
            SkinColor::Light => skin_counts[0] += 1,
            SkinColor::Medium => skin_counts[1] += 1,
            SkinColor::Dark => skin_counts[2] += 1,
        }
        match c.class {
            Class::Mercenary => class_counts[0] += 1,
            Class::Hacker => class_counts[1] += 1,
            Class::Rogue => class_counts[2] += 1,
        }
    }

    check_uniform(&sex_counts, samples);
    check_uniform(&hair_counts, samples);
    check_uniform(&eye_counts, samples);
    check_uniform(&skin_counts, samples);
    check_uniform(&class_counts, samples);
}

// the checked level advance reports success and failure on the character too
#[test]
fn test_character_try_level_up() {
    let mut c = Character::new(
        "Edge",
        Class::Mercenary,
        Sex::Male,
        HairColor::Black,
        EyeColor::Blue,
        SkinColor::Light,
    );
    assert!(c.try_level_up());
    assert_eq!(c.stats.level, 1);
    assert_eq!(c.stats.strength, 7000);

    c.stats.strength = u32::MAX - 500;
    let before = c.stats;
    assert!(!c.try_level_up());
    assert_eq!(c.stats, before);
    assert_eq!(c.name, "Edge");
}
