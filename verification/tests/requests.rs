use robrix_sync::registry::{take_timeline_update_receiver, AllRoomInfo};
use robrix_sync::room_update::{on_room_update, RoomState};
use robrix_sync::timeline::TimelineUpdate;
use robrix_sync::worker::{
    on_pagination_status, worker_step, BackPaginationStatus, MatrixRequest, SkipReason, StatusAction, WorkerAction,
};

type Rooms = AllRoomInfo<u64, u32, u8>;
type Request = MatrixRequest<&'static str, fn(u8) -> u8, u16>;
type Action = WorkerAction<u64, u32, &'static str, fn(u8) -> u8, u16>;

fn rooms_with(name: &str) -> Rooms {
    let mut rooms = Rooms::new();
    let state = RoomState { room_name: None, timeline: 77, latest_event: None };
    assert!(on_room_update(&mut rooms, name.to_string(), Ok(state)).is_ok());
    rooms
}

fn paginate(name: &str) -> Option<Request> {
    Some(Request::PaginateRoomTimeline { room_id: name.to_string(), batch_size: 50, max_events: 20 })
}

#[test]
fn first_pagination_also_follows_the_status() {
    let mut rooms = rooms_with("a");
    let action: Action = worker_step(&rooms, true, paginate("a"));
    match action {
        WorkerAction::Paginate { room_id, timeline, batch_size, max_events, watch_status } => {
            assert_eq!(room_id, "a");
            assert_eq!(*timeline, 77);
            assert_eq!(batch_size, 50);
            assert_eq!(max_events, 20);
            let receiver = take_timeline_update_receiver(&mut rooms, &room_id).unwrap().into_half();
            assert!(watch_status.unwrap().as_half().send(TimelineUpdate::PaginationIdle).is_ok());
            assert!(matches!(receiver.try_recv(), Ok(TimelineUpdate::PaginationIdle)));
        }
        _ => panic!("a pagination was expected"),
    }
}

#[test]
fn status_is_followed_once_per_room() {
    let mut rooms = rooms_with("a");
    rooms.set_pagination_status_task(&"a".to_string(), 3);
    let action: Action = worker_step(&rooms, true, paginate("a"));
    assert!(matches!(action, WorkerAction::Paginate { watch_status: None, .. }));
    assert_eq!(rooms.get(&"a".to_string()).unwrap().pagination_status_task, Some(3));
}

#[test]
fn pagination_of_an_unknown_room_is_skipped() {
    let action: Action = worker_step(&rooms_with("a"), true, paginate("b"));
    assert!(matches!(action, WorkerAction::Skip(SkipReason::UnknownRoom)));
}

#[test]
fn members_of_a_known_room_are_fetched() {
    let mut rooms = rooms_with("a");
    let action: Action = worker_step(&rooms, false, Some(Request::FetchRoomMembers { room_id: "a".to_string() }));
    match action {
        WorkerAction::FetchMembers { room_id, timeline, sender, update } => {
            assert_eq!(room_id, "a");
            assert_eq!(*timeline, 77);
            let receiver = take_timeline_update_receiver(&mut rooms, &room_id).unwrap().into_half();
            assert!(sender.as_half().send(update).is_ok());
            assert!(matches!(receiver.try_recv(), Ok(TimelineUpdate::RoomMembersFetched)));
        }
        _ => panic!("members were expected"),
    }
}

#[test]
fn members_of_an_unknown_room_are_skipped() {
    let action: Action =
        worker_step(&rooms_with("a"), true, Some(Request::FetchRoomMembers { room_id: "b".to_string() }));
    assert!(matches!(action, WorkerAction::Skip(SkipReason::UnknownRoom)));
}

#[test]
fn media_needs_a_client() {
    fn next(n: u8) -> u8 {
        n + 1
    }
    let request = || {
        Some(Request::FetchMedia { media_request: "mxc://a/b", on_fetched: next as fn(u8) -> u8, destination: 9 })
    };
    let action: Action = worker_step(&Rooms::new(), false, request());
    assert!(matches!(action, WorkerAction::Skip(SkipReason::NoClient)));
    let action: Action = worker_step(&Rooms::new(), true, request());
    match action {
        WorkerAction::FetchMedia { media_request, on_fetched, destination } => {
            assert_eq!(media_request, "mxc://a/b");
            assert_eq!(on_fetched(1), 2);
            assert_eq!(destination, 9);
        }
        _ => panic!("media were expected"),
    }
}

#[test]
fn worker_stops_when_requests_end() {
    let action: Action = worker_step(&Rooms::new(), true, None);
    match action {
        WorkerAction::Stop { error } => assert_eq!(error, "async_worker task ended unexpectedly"),
        _ => panic!("an end was expected"),
    }
}

#[test]
fn no_request_stops_the_worker() {
    let rooms = rooms_with("a");
    let requests = vec![
        paginate("a"),
        paginate("b"),
        Some(Request::FetchRoomMembers { room_id: "a".to_string() }),
        Some(Request::FetchRoomMembers { room_id: "b".to_string() }),
    ];
    for request in requests {
        let action: Action = worker_step(&rooms, false, request);
        assert!(!matches!(action, WorkerAction::Stop { .. }));
    }
    let action: Action = worker_step(&rooms, false, None);
    assert!(matches!(action, WorkerAction::Stop { .. }));
}

#[test]
fn pagination_statuses() {
    assert!(matches!(
        on_pagination_status::<u32>(Some(BackPaginationStatus::Idle)),
        StatusAction::Send { update: TimelineUpdate::PaginationIdle, last: false }
    ));
    assert!(matches!(
        on_pagination_status::<u32>(Some(BackPaginationStatus::TimelineStartReached)),
        StatusAction::Send { update: TimelineUpdate::TimelineStartReached, last: true }
    ));
    assert!(matches!(on_pagination_status::<u32>(Some(BackPaginationStatus::Paginating)), StatusAction::Wait));
    assert!(matches!(on_pagination_status::<u32>(None), StatusAction::Wait));
}
