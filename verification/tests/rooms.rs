use crossbeam_channel::Receiver;
use robrix_sync::channel::{update_channel, UpdateReceiver, UpdateSender};
use robrix_sync::registry::{take_timeline_update_receiver, AllRoomInfo};
use robrix_sync::room_update::{add_new_room, on_room_update, EventContent, LatestEvent, MissingPart, RoomAction, RoomState};
use robrix_sync::rooms_list::{RoomPreviewAvatar, RoomsListUpdate};
use robrix_sync::timeline::TimelineUpdate;

type Rooms = AllRoomInfo<&'static str, u32, u8>;

fn id(name: &str) -> String {
    format!("!{}:example.org", name)
}

fn event(timestamp: u64, text: &str, content: EventContent) -> Option<LatestEvent> {
    Some(LatestEvent { timestamp, text_preview: text.to_string(), content })
}

fn room(name: Option<&str>, latest_event: Option<LatestEvent>) -> RoomState<&'static str> {
    RoomState { room_name: name.map(|n| n.to_string()), timeline: "timeline", latest_event }
}

fn update(rooms: &mut Rooms, name: &str, state: RoomState<&'static str>) -> Vec<RoomAction<&'static str, u32>> {
    match on_room_update(rooms, id(name), Ok(state)) {
        Ok(actions) => actions,
        Err(_) => panic!("the room was found"),
    }
}

fn timestamp(rooms: &Rooms, name: &str) -> Option<u64> {
    rooms.get(&id(name)).map(|info| info.latest_event_timestamp)
}

#[test]
fn new_room_is_introduced() {
    let mut rooms = Rooms::new();
    let actions = update(&mut rooms, "a", room(Some("Rust"), event(7, "hello", EventContent::Other)));
    assert_eq!(actions.len(), 3);
    match &actions[0] {
        RoomAction::SubscribeToTimeline { room_id, timeline, .. } => {
            assert_eq!(*room_id, id("a"));
            assert_eq!(**timeline, "timeline");
        }
        _ => panic!("a subscription was expected"),
    }
    match &actions[1] {
        RoomAction::UpdateRoomsList(RoomsListUpdate::AddRoom(entry)) => {
            assert_eq!(entry.room_id, Some(id("a")));
            assert_eq!(entry.latest, Some((7, "hello".to_string())));
            assert_eq!(entry.room_name, Some("Rust".to_string()));
            assert!(matches!(&entry.avatar, RoomPreviewAvatar::Text(text) if text == "R"));
        }
        _ => panic!("a new line was expected"),
    }
    match &actions[2] {
        RoomAction::FetchAvatar { room_id, room_name } => {
            assert_eq!(*room_id, id("a"));
            assert_eq!(*room_name, Some("Rust".to_string()));
        }
        _ => panic!("the avatar was expected"),
    }
    assert_eq!(timestamp(&rooms, "a"), Some(7));
}

#[test]
fn new_room_without_name_or_event() {
    let mut rooms = Rooms::new();
    let actions = update(&mut rooms, "a", room(None, None));
    match &actions[1] {
        RoomAction::UpdateRoomsList(RoomsListUpdate::AddRoom(entry)) => {
            assert_eq!(entry.latest, None);
            assert_eq!(entry.room_name, None);
            assert!(matches!(&entry.avatar, RoomPreviewAvatar::Text(text) if text.is_empty()));
        }
        _ => panic!("a new line was expected"),
    }
    assert_eq!(timestamp(&rooms, "a"), Some(0));
}

#[test]
fn newer_event_of_a_known_room_is_shown() {
    let mut rooms = Rooms::new();
    update(&mut rooms, "a", room(Some("Rust"), event(7, "hello", EventContent::Other)));
    let actions = update(&mut rooms, "a", room(Some("Rust"), event(8, "again", EventContent::Other)));
    assert_eq!(actions.len(), 1);
    match &actions[0] {
        RoomAction::UpdateRoomsList(RoomsListUpdate::UpdateLatestEvent {
            room_id,
            timestamp,
            latest_message_text,
        }) => {
            assert_eq!(*room_id, id("a"));
            assert_eq!(*timestamp, 8);
            assert_eq!(latest_message_text, "again");
        }
        _ => panic!("the latest event was expected"),
    }
    assert_eq!(timestamp(&rooms, "a"), Some(8));
}

#[test]
fn renamed_room() {
    let mut rooms = Rooms::new();
    update(&mut rooms, "a", room(Some("Rust"), None));
    let renamed = event(5, "renamed", EventContent::RoomName("Verus".to_string()));
    let actions = update(&mut rooms, "a", room(Some("Rust"), renamed));
    assert_eq!(actions.len(), 2);
    assert!(matches!(
        &actions[0],
        RoomAction::UpdateRoomsList(RoomsListUpdate::UpdateLatestEvent { timestamp: 5, .. })
    ));
    match &actions[1] {
        RoomAction::UpdateRoomsList(RoomsListUpdate::UpdateRoomName { room_id, room_name }) => {
            assert_eq!(*room_id, id("a"));
            assert_eq!(room_name, "Verus");
        }
        _ => panic!("the name was expected"),
    }
}

#[test]
fn changed_avatar_is_fetched_after_the_event() {
    let mut rooms = Rooms::new();
    update(&mut rooms, "a", room(Some("Rust"), None));
    let actions = update(&mut rooms, "a", room(Some("Rust"), event(5, "picture", EventContent::RoomAvatar)));
    assert_eq!(actions.len(), 2);
    assert!(matches!(
        &actions[0],
        RoomAction::UpdateRoomsList(RoomsListUpdate::UpdateLatestEvent { timestamp: 5, .. })
    ));
    assert!(matches!(&actions[1], RoomAction::FetchAvatar { .. }));
}

#[test]
fn events_that_are_not_newer_are_ignored() {
    let mut rooms = Rooms::new();
    update(&mut rooms, "a", room(Some("Rust"), event(7, "hello", EventContent::Other)));
    let same = event(7, "same time", EventContent::RoomName("Other".to_string()));
    assert!(update(&mut rooms, "a", room(Some("Rust"), same)).is_empty());
    assert!(update(&mut rooms, "a", room(Some("Rust"), event(3, "old", EventContent::RoomAvatar))).is_empty());
    assert!(update(&mut rooms, "a", room(Some("Rust"), None)).is_empty());
    assert_eq!(timestamp(&rooms, "a"), Some(7));
}

#[test]
fn event_of_time_zero_is_not_newer_than_none() {
    let mut rooms = Rooms::new();
    update(&mut rooms, "a", room(None, None));
    assert!(update(&mut rooms, "a", room(None, event(0, "epoch", EventContent::Other))).is_empty());
}

#[test]
fn repeated_update_is_ignored() {
    let mut rooms = Rooms::new();
    update(&mut rooms, "a", room(None, event(4, "hi", EventContent::RoomAvatar)));
    assert!(update(&mut rooms, "a", room(None, event(4, "hi", EventContent::RoomAvatar))).is_empty());
}

#[test]
fn rooms_do_not_affect_each_other() {
    let mut rooms = Rooms::new();
    update(&mut rooms, "a", room(None, event(4, "hi", EventContent::Other)));
    assert_eq!(update(&mut rooms, "b", room(None, event(2, "ho", EventContent::Other))).len(), 3);
    assert_eq!(update(&mut rooms, "b", room(None, event(3, "ho", EventContent::Other))).len(), 1);
    assert_eq!(timestamp(&rooms, "a"), Some(4));
    assert_eq!(timestamp(&rooms, "b"), Some(3));
    assert_eq!(timestamp(&rooms, "c"), None);
}

#[test]
fn missing_parts_change_nothing() {
    for missing in [MissingPart::Room, MissingPart::SyncRoom, MissingPart::Timeline] {
        let mut rooms = Rooms::new();
        let outcome = on_room_update(&mut rooms, id("a"), Err(missing));
        assert!(matches!(outcome, Err(reported) if reported == missing));
        assert_eq!(timestamp(&rooms, "a"), None);
    }
}

#[test]
fn receiver_can_be_taken_once() {
    let mut rooms = Rooms::new();
    assert!(take_timeline_update_receiver(&mut rooms, &id("a")).is_none());
    update(&mut rooms, "a", room(None, None));
    update(&mut rooms, "b", room(None, None));
    assert!(take_timeline_update_receiver(&mut rooms, &id("a")).is_some());
    assert!(take_timeline_update_receiver(&mut rooms, &id("a")).is_none());
    update(&mut rooms, "a", room(None, event(1, "later", EventContent::Other)));
    assert!(take_timeline_update_receiver(&mut rooms, &id("a")).is_none());
    assert!(take_timeline_update_receiver(&mut rooms, &id("b")).is_some());
}

#[test]
fn subscriber_feeds_the_receiver_of_its_room() {
    let mut rooms = Rooms::new();
    let mut actions = update(&mut rooms, "a", room(None, None));
    update(&mut rooms, "b", room(None, None));
    let sender = match actions.remove(0) {
        RoomAction::SubscribeToTimeline { sender, .. } => sender,
        _ => panic!("a subscription was expected"),
    };
    // Updates sent before and after the receiver is taken come out of it in order.
    assert!(sender.as_half().send(TimelineUpdate::RoomMembersFetched).is_ok());
    let other: Receiver<TimelineUpdate<u32>> =
        take_timeline_update_receiver(&mut rooms, &id("b")).unwrap().into_half();
    let receiver: Receiver<TimelineUpdate<u32>> =
        take_timeline_update_receiver(&mut rooms, &id("a")).unwrap().into_half();
    let kept = rooms.get(&id("a")).unwrap().timeline_update_sender.clone();
    assert!(kept.as_half().send(TimelineUpdate::PaginationIdle).is_ok());
    assert!(matches!(receiver.try_recv(), Ok(TimelineUpdate::RoomMembersFetched)));
    assert!(matches!(receiver.try_recv(), Ok(TimelineUpdate::PaginationIdle)));
    assert!(receiver.try_recv().is_err());
    assert!(other.try_recv().is_err());
    assert!(sender.as_half().same_channel(kept.as_half()));
    let others = &rooms.get(&id("b")).unwrap().timeline_update_sender;
    assert!(!sender.as_half().same_channel(others.as_half()));
}

#[test]
fn room_is_stored_with_the_channel_it_is_given() {
    let mut rooms = Rooms::new();
    let (sender, receiver) = update_channel(&rooms);
    let given = sender.clone();
    let actions = add_new_room(&mut rooms, id("a"), room(Some("Rust"), None), sender, receiver);
    assert_eq!(actions.len(), 3);
    assert!(given.as_half().send(TimelineUpdate::TimelineStartReached).is_ok());
    let taken = take_timeline_update_receiver(&mut rooms, &id("a")).unwrap().into_half();
    assert!(matches!(taken.try_recv(), Ok(TimelineUpdate::TimelineStartReached)));
}

#[test]
fn redacted_name_does_not_rename_the_room() {
    let mut rooms = Rooms::new();
    update(&mut rooms, "a", room(Some("Rust"), None));
    let actions = update(&mut rooms, "a", room(Some("Rust"), event(5, "redacted", EventContent::RedactedRoomName)));
    assert_eq!(actions.len(), 1);
    assert!(matches!(
        &actions[0],
        RoomAction::UpdateRoomsList(RoomsListUpdate::UpdateLatestEvent { timestamp: 5, .. })
    ));
}

#[test]
fn channels_and_rooms_can_move_between_threads() {
    fn movable<T: Send>(_: &T) {}
    let rooms = Rooms::new();
    let (sender, receiver): (UpdateSender<u32>, UpdateReceiver<u32>) = update_channel(&rooms);
    movable(&sender);
    movable(&receiver);
    movable(&rooms);
}
