use poe2_drpc::class::{resolve_class_name, resolve_lowercase, CharacterClass, ClassAscendency};
use std::str::FromStr;

const CLASSES: [CharacterClass; 6] = [
    CharacterClass::Mercenary,
    CharacterClass::Monk,
    CharacterClass::Ranger,
    CharacterClass::Sorceress,
    CharacterClass::Warrior,
    CharacterClass::Witch,
];

const ASCENDENCIES: [ClassAscendency; 12] = [
    ClassAscendency::Witchhunter,
    ClassAscendency::GemlingLegionnaire,
    ClassAscendency::AcolyteOfChayula,
    ClassAscendency::Invoker,
    ClassAscendency::Deadeye,
    ClassAscendency::Pathfinder,
    ClassAscendency::Chronomancer,
    ClassAscendency::Stormweaver,
    ClassAscendency::Titan,
    ClassAscendency::Warbringer,
    ClassAscendency::BloodMage,
    ClassAscendency::Infernalist,
];

#[test]
fn class_parses_in_any_case() {
    assert_eq!(CharacterClass::from_str("witch"), Ok(CharacterClass::Witch));
    assert_eq!(CharacterClass::from_str("WITCH"), Ok(CharacterClass::Witch));
    assert_eq!(CharacterClass::from_str("Mercenary"), Ok(CharacterClass::Mercenary));
    assert_eq!(CharacterClass::from_str("mOnK"), Ok(CharacterClass::Monk));
    assert_eq!(CharacterClass::from_str("Ranger"), Ok(CharacterClass::Ranger));
    assert_eq!(CharacterClass::from_str("Sorceress"), Ok(CharacterClass::Sorceress));
    assert_eq!(CharacterClass::from_str("Warrior"), Ok(CharacterClass::Warrior));
}

#[test]
fn class_parse_follows_unicode_lowercase() {
    // U+212A KELVIN SIGN lowers to an ordinary k.
    assert_eq!(CharacterClass::from_str("mon\u{212A}"), Ok(CharacterClass::Monk));
}

#[test]
fn class_parse_rejects_other_names() {
    assert_eq!(CharacterClass::from_str(""), Err(()));
    assert_eq!(CharacterClass::from_str("witch "), Err(()));
    assert_eq!(CharacterClass::from_str("Stormweaver"), Err(()));
    assert_eq!(CharacterClass::from_str("Templar"), Err(()));
}

#[test]
fn class_parse_works_through_str_parse() {
    assert_eq!("Witch".parse::<CharacterClass>(), Ok(CharacterClass::Witch));
    assert_eq!("blood mage".parse::<ClassAscendency>(), Ok(ClassAscendency::BloodMage));
}

#[test]
fn ascendency_parses_in_any_case_with_spaces() {
    assert_eq!(ClassAscendency::from_str("stormweaver"), Ok(ClassAscendency::Stormweaver));
    assert_eq!(ClassAscendency::from_str("STORMWEAVER"), Ok(ClassAscendency::Stormweaver));
    assert_eq!(
        ClassAscendency::from_str("Gemling Legionnaire"),
        Ok(ClassAscendency::GemlingLegionnaire)
    );
    assert_eq!(
        ClassAscendency::from_str("Acolyte of Chayula"),
        Ok(ClassAscendency::AcolyteOfChayula)
    );
    assert_eq!(ClassAscendency::from_str("Blood Mage"), Ok(ClassAscendency::BloodMage));
}

#[test]
fn ascendency_parse_counts_spaces() {
    assert_eq!(ClassAscendency::from_str("BloodMage"), Err(()));
    assert_eq!(ClassAscendency::from_str("Blood  Mage"), Err(()));
    assert_eq!(ClassAscendency::from_str("GemlingLegionnaire"), Err(()));
    assert_eq!(ClassAscendency::from_str("Witch"), Err(()));
    assert_eq!(ClassAscendency::from_str(""), Err(()));
}

#[test]
fn every_display_name_parses_back() {
    for class in CLASSES {
        assert_eq!(CharacterClass::from_str(class.display_name()), Ok(class));
        assert_eq!(CharacterClass::from_str(&class.to_string()), Ok(class));
    }
    for ascendency in ASCENDENCIES {
        assert_eq!(ClassAscendency::from_str(ascendency.display_name()), Ok(ascendency));
        assert_eq!(ClassAscendency::from_str(&ascendency.to_string()), Ok(ascendency));
    }
}

#[test]
fn lowercase_lookup_is_exact() {
    assert_eq!(CharacterClass::from_lowercase("witch"), Some(CharacterClass::Witch));
    assert_eq!(CharacterClass::from_lowercase("Witch"), None);
    assert_eq!(ClassAscendency::from_lowercase("titan"), Some(ClassAscendency::Titan));
    assert_eq!(ClassAscendency::from_lowercase("Titan"), None);
}

#[test]
fn display_names_are_canonical() {
    assert_eq!(CharacterClass::Mercenary.to_string(), "Mercenary");
    assert_eq!(CharacterClass::Monk.to_string(), "Monk");
    assert_eq!(CharacterClass::Ranger.to_string(), "Ranger");
    assert_eq!(CharacterClass::Sorceress.to_string(), "Sorceress");
    assert_eq!(CharacterClass::Warrior.to_string(), "Warrior");
    assert_eq!(CharacterClass::Witch.to_string(), "Witch");
    assert_eq!(ClassAscendency::GemlingLegionnaire.to_string(), "Gemling Legionnaire");
    assert_eq!(ClassAscendency::AcolyteOfChayula.to_string(), "Acolyte of Chayula");
    assert_eq!(ClassAscendency::BloodMage.to_string(), "Blood Mage");
    assert_eq!(ClassAscendency::Witchhunter.display_name(), "Witchhunter");
    assert_eq!(ClassAscendency::Infernalist.display_name(), "Infernalist");
}

#[test]
fn icon_keys_of_classes() {
    assert_eq!(CharacterClass::Mercenary.get_discord_image_name(), "mercenary");
    assert_eq!(CharacterClass::Monk.get_discord_image_name(), "monk");
    assert_eq!(CharacterClass::Ranger.get_discord_image_name(), "ranger");
    assert_eq!(CharacterClass::Sorceress.get_discord_image_name(), "sorceress");
    assert_eq!(CharacterClass::Warrior.get_discord_image_name(), "warrior");
    assert_eq!(CharacterClass::Witch.get_discord_image_name(), "witch");
}

#[test]
fn icon_keys_of_ascendencies() {
    assert_eq!(ClassAscendency::Witchhunter.get_discord_image_name(), "mercenary_witchhunter");
    assert_eq!(
        ClassAscendency::GemlingLegionnaire.get_discord_image_name(),
        "mercenary_gemling_legionnaire"
    );
    assert_eq!(
        ClassAscendency::AcolyteOfChayula.get_discord_image_name(),
        "monk_acolyte_of_chayula"
    );
    assert_eq!(ClassAscendency::Invoker.get_discord_image_name(), "monk_invoker");
    assert_eq!(ClassAscendency::Deadeye.get_discord_image_name(), "ranger_deadeye");
    assert_eq!(ClassAscendency::Pathfinder.get_discord_image_name(), "ranger_pathfinder");
    assert_eq!(ClassAscendency::Chronomancer.get_discord_image_name(), "sorceress_chronomancer");
    assert_eq!(ClassAscendency::Stormweaver.get_discord_image_name(), "sorceress_stormweaver");
    assert_eq!(ClassAscendency::Titan.get_discord_image_name(), "warrior_titan");
    assert_eq!(ClassAscendency::Warbringer.get_discord_image_name(), "warrior_warbringer");
    assert_eq!(ClassAscendency::BloodMage.get_discord_image_name(), "witch_blood_mage");
    assert_eq!(ClassAscendency::Infernalist.get_discord_image_name(), "witch_infernalist");
}

#[test]
fn icon_keys_are_all_different() {
    let mut keys: Vec<&str> = Vec::new();
    for class in CLASSES {
        keys.push(class.get_discord_image_name());
    }
    for ascendency in ASCENDENCIES {
        keys.push(ascendency.get_discord_image_name());
    }
    for i in 0..keys.len() {
        for j in 0..i {
            assert_ne!(keys[i], keys[j]);
        }
    }
}

#[test]
fn every_class_has_its_two_ascendencies() {
    assert_eq!(
        CharacterClass::Mercenary.get_ascendencies(),
        Some([ClassAscendency::Witchhunter, ClassAscendency::GemlingLegionnaire])
    );
    assert_eq!(
        CharacterClass::Monk.get_ascendencies(),
        Some([ClassAscendency::AcolyteOfChayula, ClassAscendency::Invoker])
    );
    assert_eq!(
        CharacterClass::Ranger.get_ascendencies(),
        Some([ClassAscendency::Deadeye, ClassAscendency::Pathfinder])
    );
    assert_eq!(
        CharacterClass::Sorceress.get_ascendencies(),
        Some([ClassAscendency::Chronomancer, ClassAscendency::Stormweaver])
    );
    assert_eq!(
        CharacterClass::Warrior.get_ascendencies(),
        Some([ClassAscendency::Titan, ClassAscendency::Warbringer])
    );
    assert_eq!(
        CharacterClass::Witch.get_ascendencies(),
        Some([ClassAscendency::BloodMage, ClassAscendency::Infernalist])
    );
}

#[test]
fn ascendencies_partition_the_classes() {
    for ascendency in ASCENDENCIES {
        let mut owners = 0;
        for class in CLASSES {
            let both = class.get_ascendencies().unwrap();
            assert_ne!(both[0], both[1]);
            if both.contains(&ascendency) {
                owners += 1;
                assert_eq!(ascendency.get_class(), class);
            }
        }
        assert_eq!(owners, 1);
    }
}

#[test]
fn name_resolution_prefers_ascendency() {
    assert_eq!(
        resolve_class_name("Stormweaver"),
        Some((CharacterClass::Sorceress, Some(ClassAscendency::Stormweaver)))
    );
    assert_eq!(resolve_class_name("Sorceress"), Some((CharacterClass::Sorceress, None)));
    assert_eq!(resolve_class_name("WITCHHUNTER").unwrap().0, CharacterClass::Mercenary);
    assert_eq!(resolve_class_name("Duelist"), None);
    assert_eq!(resolve_lowercase("titan"), Some((CharacterClass::Warrior, Some(ClassAscendency::Titan))));
    assert_eq!(resolve_lowercase("Titan"), None);
}
