use robrix_sync::avatar::{avatar_from_first_grapheme, avatar_from_room_name, room_avatar, room_avatar_update};
use robrix_sync::rooms_list::{RoomPreviewAvatar, RoomsListUpdate};

fn text(avatar: RoomPreviewAvatar) -> String {
    match avatar {
        RoomPreviewAvatar::Text(text) => text,
        RoomPreviewAvatar::Image(_) => panic!("a text avatar was expected"),
    }
}

#[test]
fn first_character_of_a_plain_name() {
    assert_eq!(text(avatar_from_room_name("Rust")), "R");
}

#[test]
fn single_character_name_is_its_own_avatar() {
    assert_eq!(text(avatar_from_room_name("x")), "x");
}

#[test]
fn empty_name_gives_empty_text() {
    assert_eq!(text(avatar_from_room_name("")), "");
}

#[test]
fn combining_marks_stay_with_their_letter() {
    assert_eq!(text(avatar_from_room_name("a\u{310}e\u{301}")), "a\u{310}");
}

#[test]
fn flags_are_one_character() {
    assert_eq!(text(avatar_from_room_name("\u{1F1F7}\u{1F1FA}\u{1F1F8}\u{1F1F9}")), "\u{1F1F7}\u{1F1FA}");
}

#[test]
fn line_break_is_one_character() {
    assert_eq!(text(avatar_from_room_name("\r\nroom")), "\r\n");
}

#[test]
fn avatar_text_is_a_start_of_the_name() {
    for name in ["General", "#rust", " spaced", "\u{e9}t\u{e9}", "\u{1F468}\u{200D}\u{1F469}\u{200D}\u{1F467} family"] {
        let avatar = text(avatar_from_room_name(name));
        assert!(!avatar.is_empty());
        assert!(name.starts_with(&avatar));
    }
}

#[test]
fn avatar_of_a_given_cluster() {
    assert_eq!(text(avatar_from_first_grapheme(Some("ab"))), "ab");
    assert_eq!(text(avatar_from_first_grapheme(None)), "");
}

#[test]
fn fetched_picture_is_preferred() {
    let fetched: Result<Option<Vec<u8>>, ()> = Ok(Some(vec![1, 2, 3]));
    match room_avatar(fetched, &Some("Rust".to_string())) {
        RoomPreviewAvatar::Image(bytes) => assert_eq!(bytes, vec![1, 2, 3]),
        RoomPreviewAvatar::Text(_) => panic!("a picture was expected"),
    }
}

#[test]
fn missing_picture_falls_back_to_the_name() {
    let fetched: Result<Option<Vec<u8>>, ()> = Ok(None);
    assert_eq!(text(room_avatar(fetched, &Some("Rust".to_string()))), "R");
}

#[test]
fn failed_fetch_falls_back_to_the_name() {
    let fetched: Result<Option<Vec<u8>>, &str> = Err("timeout");
    assert_eq!(text(room_avatar(fetched, &Some("Rust".to_string()))), "R");
}

#[test]
fn nameless_room_without_picture_has_an_empty_avatar() {
    let fetched: Result<Option<Vec<u8>>, ()> = Ok(None);
    assert_eq!(text(room_avatar(fetched, &None)), "");
}

#[test]
fn avatar_update_names_the_room() {
    let fetched: Result<Option<Vec<u8>>, ()> = Err(());
    match room_avatar_update("!a:b".to_string(), fetched, &Some("Verus".to_string())) {
        RoomsListUpdate::UpdateRoomAvatar { room_id, avatar } => {
            assert_eq!(room_id, "!a:b");
            assert_eq!(text(avatar), "V");
        }
        _ => panic!("an update of the avatar was expected"),
    }
}

#[test]
fn avatar_text_is_its_own_avatar() {
    for name in ["General", "a\u{310}e\u{301}", "\r\nroom", "\u{1F1F7}\u{1F1FA}\u{1F1F8}", "\u{1F468}\u{200D}\u{1F469}!"] {
        let avatar = text(avatar_from_room_name(name));
        assert_eq!(text(avatar_from_room_name(&avatar)), avatar);
    }
}

#[test]
fn text_behind_a_second_character_does_not_matter() {
    for name in ["ab", "a\u{310}e", "\u{1F1F7}\u{1F1FA}\u{1F1F8}", "\u{1F468}\u{200D}\u{1F469}!"] {
        let avatar = text(avatar_from_room_name(name));
        assert!(avatar.len() < name.len());
        for more in ["", "\u{301}", "\u{200D}\u{1F467}", "\u{1F1F9}", "\n"] {
            assert_eq!(text(avatar_from_room_name(&format!("{}{}", name, more))), avatar);
        }
    }
}
