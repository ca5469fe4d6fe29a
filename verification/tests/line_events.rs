use poe2_drpc::capture::LineCaptures;
use poe2_drpc::class::{CharacterClass, ClassAscendency};
use poe2_drpc::event::{AreaChange, ClassInfo, LineError, MapChangeInfo};
use poe2_drpc::translations::Translations;

fn unix_seconds() -> i64 {
    let since = std::time::SystemTime::now().duration_since(std::time::UNIX_EPOCH).unwrap();
    since.as_secs() as i64
}

fn caps(groups: &[Option<&str>]) -> LineCaptures {
    LineCaptures::new(groups.iter().map(|g| g.map(|s| s.to_string())).collect())
}

fn level_up(username: &str, class: &str, level: &str) -> LineCaptures {
    caps(&[Some("whole match"), Some(username), Some(class), Some(level)])
}

fn area(level: &str, key: &str, seed: &str) -> LineCaptures {
    caps(&[Some("whole match"), Some(level), Some(key), Some(seed)])
}

fn ogham() -> Translations {
    let mut t = Translations::new();
    t.insert("G1_town".to_string(), "Ogham".to_string());
    t
}

#[test]
fn captures_hand_out_their_groups() {
    let c = caps(&[Some("ab"), Some("a"), None, Some("b")]);
    assert_eq!(c.len(), 4);
    assert_eq!(c.get(0), Some("ab"));
    assert_eq!(c.get(1), Some("a"));
    assert_eq!(c.get(2), None);
    assert_eq!(c.get(3), Some("b"));
    assert_eq!(c.get(4), None);
    assert_eq!(c.text(1), "a");
    assert_eq!(c.text(2), "");
    assert_eq!(c.text(99), "");
}

#[test]
fn level_up_with_ascendency() {
    let info = ClassInfo::parse(&level_up("Alice", "Stormweaver", "80")).unwrap();
    assert_eq!(info.class, CharacterClass::Sorceress);
    assert_eq!(info.ascendency, Some(ClassAscendency::Stormweaver));
    assert_eq!(info.username, "Alice");
    assert_eq!(info.level, 80);
}

#[test]
fn level_up_with_base_class() {
    let info = ClassInfo::parse(&level_up("Alice", "Sorceress", "10")).unwrap();
    assert_eq!(
        info,
        ClassInfo {
            class: CharacterClass::Sorceress,
            ascendency: None,
            username: "Alice".to_string(),
            level: 10,
        }
    );
}

#[test]
fn level_up_with_unknown_class_is_malformed() {
    assert_eq!(ClassInfo::parse(&level_up("Alice", "Duelist", "10")), Err(LineError::UnknownClass));
    assert_eq!(ClassInfo::parse(&level_up("Alice", "", "10")), Err(LineError::UnknownClass));
}

#[test]
fn level_up_with_bad_level_is_malformed() {
    assert_eq!(ClassInfo::parse(&level_up("Alice", "Witch", "65536")), Err(LineError::BadNumber));
    assert_eq!(ClassInfo::parse(&level_up("Alice", "Witch", "x")), Err(LineError::BadNumber));
    assert_eq!(ClassInfo::parse(&level_up("Alice", "Witch", "")), Err(LineError::BadNumber));
    // The level is looked at before the class.
    assert_eq!(ClassInfo::parse(&level_up("Alice", "Duelist", "x")), Err(LineError::BadNumber));
}

#[test]
fn level_up_with_missing_groups() {
    // A group that took no part counts as empty text or as zero.
    let info = ClassInfo::parse(&caps(&[Some("m"), None, Some("Witch"), None])).unwrap();
    assert_eq!(info.username, "");
    assert_eq!(info.level, 0);
    assert_eq!(info.class, CharacterClass::Witch);
    assert_eq!(ClassInfo::parse(&caps(&[Some("m")])), Err(LineError::UnknownClass));
}

#[test]
fn blacklisted_user_yields_no_class_state() {
    let blacklist = vec!["Bob".to_string()];
    assert_eq!(ClassInfo::parse_from_capture(&level_up("Bob", "Witch", "5"), &blacklist), None);
    let alice = ClassInfo::parse_from_capture(&level_up("Alice", "Witch", "5"), &blacklist).unwrap();
    assert_eq!(alice.username, "Alice");
    assert_eq!(alice.class, CharacterClass::Witch);
    assert_eq!(alice.ascendency, None);
    assert_eq!(alice.level, 5);
}

#[test]
fn parse_from_capture_drops_malformed_lines() {
    assert_eq!(ClassInfo::parse_from_capture(&level_up("Alice", "Duelist", "5"), &[]), None);
    assert_eq!(ClassInfo::parse_from_capture(&level_up("Alice", "Witch", "70000"), &[]), None);
    assert!(ClassInfo::parse_from_capture(&level_up("Alice", "Witch", "5"), &[]).is_some());
}

#[test]
fn blacklist_is_case_sensitive() {
    let blacklist = vec!["bob".to_string()];
    assert!(ClassInfo::parse_from_capture(&level_up("Bob", "Witch", "5"), &blacklist).is_some());
}

#[test]
fn area_with_translated_name() {
    let a = AreaChange::parse(&area("3", "G1_town", "12345"), &ogham()).unwrap();
    assert_eq!(a, AreaChange { level: 3, name: "Ogham".to_string(), seed: 12345 });
}

#[test]
fn area_with_cruel_name() {
    let a = AreaChange::parse(&area("45", "C_G1_town", "1"), &ogham()).unwrap();
    assert_eq!(a.name, "Cruel Ogham");
    assert_eq!(a.level, 45);
}

#[test]
fn area_with_unknown_key_keeps_the_key() {
    let a = AreaChange::parse(&area("1", "G2_2", "18446744073709551615"), &ogham()).unwrap();
    assert_eq!(a.name, "G2_2");
    assert_eq!(a.seed, u64::MAX);
    let c = AreaChange::parse(&area("1", "C_G2_2", "0"), &ogham()).unwrap();
    assert_eq!(c.name, "C_G2_2");
}

#[test]
fn area_with_bad_numbers_is_malformed() {
    assert_eq!(AreaChange::parse(&area("65536", "G1_town", "1"), &ogham()), Err(LineError::BadNumber));
    assert_eq!(
        AreaChange::parse(&area("1", "G1_town", "18446744073709551616"), &ogham()),
        Err(LineError::BadNumber)
    );
    assert_eq!(AreaChange::parse(&area("one", "G1_town", "1"), &ogham()), Err(LineError::BadNumber));
}

#[test]
fn area_state_carries_the_time_given() {
    let state = MapChangeInfo::parse_at(&area("3", "G1_town", "7"), &ogham(), 1_700_000_000).unwrap();
    assert_eq!(
        state,
        MapChangeInfo { level: 3, name: "Ogham".to_string(), seed: 7, ts: 1_700_000_000 }
    );
    assert_eq!(
        MapChangeInfo::parse_at(&area("x", "G1_town", "7"), &ogham(), 5),
        Err(LineError::BadNumber)
    );
    let observed = MapChangeInfo::observed(
        AreaChange { level: 1, name: "n".to_string(), seed: 2 },
        -3,
    );
    assert_eq!(observed, MapChangeInfo { level: 1, name: "n".to_string(), seed: 2, ts: -3 });
}

#[test]
fn area_state_observed_now_carries_the_wall_clock() {
    let before = unix_seconds();
    let state = MapChangeInfo::parse_from_captures(&area("3", "G1_town", "7"), &ogham()).unwrap();
    let after = unix_seconds();
    assert_eq!(state.level, 3);
    assert_eq!(state.name, "Ogham");
    assert_eq!(state.seed, 7);
    assert!(before <= state.ts && state.ts <= after);
    // Later than the start of 2020.
    assert!(state.ts > 1_577_836_800);
    assert_eq!(MapChangeInfo::parse_from_captures(&area("3", "G1_town", "x"), &ogham()), None);
}

#[test]
fn duplicates_are_equal() {
    let info = ClassInfo {
        class: CharacterClass::Monk,
        ascendency: Some(ClassAscendency::Invoker),
        username: "A".to_string(),
        level: 2,
    };
    assert_eq!(info.duplicate(), info);
    let state = MapChangeInfo { level: 1, name: "n".to_string(), seed: 2, ts: 3 };
    assert_eq!(state.duplicate(), state);
}
