use meccable::{address_matches, parse_action, ReplAction};

#[test]
fn console_words() {
    assert_eq!(parse_action(b"quit"), ReplAction::Quit);
    assert_eq!(parse_action(b"awake"), ReplAction::Awake);
    assert_eq!(parse_action(b"servomove"), ReplAction::ServoMove);
    assert_eq!(parse_action(b"sm"), ReplAction::ServoMove);
    assert_eq!(parse_action(b"servocolor"), ReplAction::ServoColor);
    assert_eq!(parse_action(b"sc"), ReplAction::ServoColor);
    assert_eq!(parse_action(b"eyecolor"), ReplAction::EyeColor);
    assert_eq!(parse_action(b"ec"), ReplAction::EyeColor);
    assert_eq!(parse_action(b"chestlight"), ReplAction::ChestLight);
    assert_eq!(parse_action(b"cl"), ReplAction::ChestLight);
    assert_eq!(parse_action(b"move"), ReplAction::Move);
}

#[test]
fn console_unknown_words() {
    assert_eq!(parse_action(b""), ReplAction::Unknown);
    assert_eq!(parse_action(b"Quit"), ReplAction::Unknown);
    assert_eq!(parse_action(b"mov"), ReplAction::Unknown);
    assert_eq!(parse_action(b"moves"), ReplAction::Unknown);
}

#[test]
fn address_match_ignores_case() {
    assert!(address_matches("C4:BE:84:D4:68:1B", "c4:be:84:d4:68:1b"));
    assert!(address_matches("c4:be:84:d4:68:1b", "C4:bE:84:D4:68:1b"));
    assert!(!address_matches("c4:be:84:d4:68:1b", "c4:be:84:d4:68:1c"));
    assert!(!address_matches("c4:be:84:d4:68:1b", "c4:be:84:d4:68:1"));
    assert!(!address_matches("c4:be:84:d4:68:1b", "c4:be:84:d4:68:1bb"));
    assert!(address_matches("", ""));
}
