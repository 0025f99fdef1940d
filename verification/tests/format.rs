use faf_replay::format::{ends_with, get_replay_type, ReplayType};

#[test]
fn raw_suffix_is_forged_alliance() {
    assert_eq!(get_replay_type("game.scfareplay"), ReplayType::ForgedAlliance);
    assert_eq!(get_replay_type("/home/user/replays/1234.scfareplay"), ReplayType::ForgedAlliance);
    assert_eq!(get_replay_type(".scfareplay"), ReplayType::ForgedAlliance);
}

#[test]
fn legacy_suffix_is_faf_legacy() {
    assert_eq!(get_replay_type("game.fafreplay"), ReplayType::FafLegacy);
    assert_eq!(get_replay_type("C:\\replays\\1234.fafreplay"), ReplayType::FafLegacy);
    assert_eq!(get_replay_type(".fafreplay"), ReplayType::FafLegacy);
}

#[test]
fn other_names_are_unknown() {
    assert_eq!(get_replay_type(""), ReplayType::Unknown);
    assert_eq!(get_replay_type("game"), ReplayType::Unknown);
    assert_eq!(get_replay_type("game.replay"), ReplayType::Unknown);
    assert_eq!(get_replay_type("scfareplay"), ReplayType::Unknown);
    assert_eq!(get_replay_type("fafreplay"), ReplayType::Unknown);
}

#[test]
fn suffix_in_front_or_in_the_middle_does_not_count() {
    assert_eq!(get_replay_type("game.scfareplayX"), ReplayType::Unknown);
    assert_eq!(get_replay_type("game.fafreplay.bak"), ReplayType::Unknown);
    assert_eq!(get_replay_type(".scfareplay/game"), ReplayType::Unknown);
}

#[test]
fn suffix_is_case_sensitive() {
    assert_eq!(get_replay_type("game.SCFAREPLAY"), ReplayType::Unknown);
    assert_eq!(get_replay_type("game.FafReplay"), ReplayType::Unknown);
    assert_eq!(get_replay_type("game.scfareplaY"), ReplayType::Unknown);
}

#[test]
fn last_suffix_decides() {
    assert_eq!(get_replay_type("a.fafreplay.scfareplay"), ReplayType::ForgedAlliance);
    assert_eq!(get_replay_type("a.scfareplay.fafreplay"), ReplayType::FafLegacy);
}

#[test]
fn names_outside_ascii_are_classified_by_characters() {
    assert_eq!(get_replay_type("wiederholung-ä.scfareplay"), ReplayType::ForgedAlliance);
    assert_eq!(get_replay_type("重播.fafreplay"), ReplayType::FafLegacy);
    assert_eq!(get_replay_type("重播.fafreplaý"), ReplayType::Unknown);
}

#[test]
fn ends_with_compares_the_tail() {
    assert!(ends_with("abc", "bc"));
    assert!(ends_with("abc", "abc"));
    assert!(ends_with("abc", ""));
    assert!(ends_with("", ""));
    assert!(!ends_with("abc", "ab"));
    assert!(!ends_with("bc", "abc"));
    assert!(!ends_with("", "a"));
}
