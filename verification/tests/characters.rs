use game_server::characters::{
    char_create_check, char_delete_check, deletion_reply, init_position, name_check,
    CharacterCreationFailReason, DeletionReply,
};
use game_server::items::GamePoint;

#[test]
fn names_longer_than_sixteen_bytes_are_refused_first() {
    assert_eq!(char_create_check("Alice", false), Ok(()));
    assert_eq!(char_create_check("ABCDEFGHIJKLMNOP", false), Ok(()));
    assert_eq!(char_create_check("ABCDEFGHIJKLMNOPQ", true), Err(CharacterCreationFailReason::SixteenEngChars));
    // eight two-byte letters are sixteen bytes, nine are too many
    assert_eq!(char_create_check("ДДДДДДДД", false), Ok(()));
    assert_eq!(char_create_check("ДДДДДДДДД", false), Err(CharacterCreationFailReason::SixteenEngChars));
    assert_eq!(char_create_check("Alice", true), Err(CharacterCreationFailReason::TooManyCharacters));
}

#[test]
fn taken_names_and_failed_lookups() {
    let found = Some(vec!["Alice".to_string(), "Bob".to_string()]);
    assert_eq!(name_check(&found, &"Bob".to_string()), Err(CharacterCreationFailReason::NameAlreadyExists));
    assert_eq!(name_check(&found, &"bob".to_string()), Ok(()));
    assert_eq!(name_check(&None, &"Bob".to_string()), Err(CharacterCreationFailReason::CreationFailed));
}

#[test]
fn new_characters_start_at_a_born_point() {
    let points = vec![GamePoint { x: 1, y: 2, z: 3 }, GamePoint { x: -4, y: 5, z: 6 }];
    for _ in 0..20 {
        assert!(points.contains(&init_position(&points)));
    }
}

#[test]
fn deletions() {
    assert!(char_delete_check(0, 1));
    assert!(!char_delete_check(1, 1));
    assert_eq!(deletion_reply(true, true, true, true), DeletionReply::Deleted);
    assert_eq!(deletion_reply(true, false, true, true), DeletionReply::Failed);
}
