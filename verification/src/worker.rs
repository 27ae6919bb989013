//! The worker that serves requests of the user interface, one after the other.

use std::sync::Arc;

use vstd::prelude::*;

use crate::channel::UpdateSender;
use crate::registry::{pagination_task_set, rooms_kept, AllRoomInfo, Rooms};
use crate::timeline::TimelineUpdate;

verus! {

/// The set of requests for async work that can be made to the worker thread.
pub enum MatrixRequest<M, F, D> {
    /// Request to paginate (backwards fetch) the older events of a room's timeline.
    PaginateRoomTimeline { room_id: String, batch_size: u16, max_events: u16 },
    /// Request to fetch profile information for all members of a room.
    /// This can be *very* slow depending on the number of members in the room.
    FetchRoomMembers { room_id: String },
    /// Request to fetch media from the server.
    /// Upon completion of the async media request, the `on_fetched` function
    /// will be invoked with the `destination` and the result of the media fetch.
    FetchMedia { media_request: M, on_fetched: F, destination: D },
}

/// Why a request is not served.
#[derive(Clone, Copy, Debug, PartialEq, Eq, Structural)]
pub enum SkipReason {
    /// The room that the request names is not known.
    UnknownRoom,
    /// There is no logged-in client yet.
    NoClient,
}

/// What the worker is to do next. Every action but `Stop` is started, and the
/// worker waits for the next request without waiting for it to end.
#[verifier::reject_recursive_types(I)]
pub enum WorkerAction<T, I, M, F, D> {
    /// Fetch older events of a timeline, `batch_size` at a time, until there are
    /// `max_events`. Where `watch_status` holds a sender, first start a task that
    /// follows the timeline's back-pagination status and feeds the sender, and
    /// note the task with the room.
    Paginate {
        room_id: String,
        timeline: Arc<T>,
        batch_size: u16,
        max_events: u16,
        watch_status: Option<UpdateSender<I>>,
    },
    /// Fetch the members of a timeline's room, then send `update` to `sender`
    /// and wake the user interface.
    FetchMembers {
        room_id: String,
        timeline: Arc<T>,
        sender: UpdateSender<I>,
        update: TimelineUpdate<I>,
    },
    /// Fetch media, then call `on_fetched` with `destination`, the request and
    /// the result.
    FetchMedia { media_request: M, on_fetched: F, destination: D },
    /// Nothing.
    Skip(SkipReason),
    /// End with an error.
    Stop { error: String },
}

/// The sender for a task that follows a room's back-pagination status, where no
/// such task was started yet.
pub open spec fn status_watch<T, I, J>(rooms: Rooms<T, I, J>, id: Seq<char>) -> Option<
    UpdateSender<I>,
> {
    if rooms[id].pagination_status_task is None {
        Some(rooms[id].timeline_update_sender)
    } else {
        None
    }
}

/// Whether an action is the answer to a request, or to there being no more of
/// them (`None`).
pub open spec fn is_answer<T, I, J, M, F, D>(
    rooms: Rooms<T, I, J>,
    client_ready: bool,
    request: Option<MatrixRequest<M, F, D>>,
    action: WorkerAction<T, I, M, F, D>,
) -> bool {
    match request {
        Some(MatrixRequest::PaginateRoomTimeline { room_id, batch_size, max_events }) => if rooms.contains_key(room_id@) {
            action == (WorkerAction::<T, I, M, F, D>::Paginate {
                room_id,
                timeline: rooms[room_id@].timeline,
                batch_size,
                max_events,
                watch_status: status_watch(rooms, room_id@),
            })
        } else {
            action == WorkerAction::<T, I, M, F, D>::Skip(SkipReason::UnknownRoom)
        },
        Some(MatrixRequest::FetchRoomMembers { room_id }) => if rooms.contains_key(room_id@) {
            action == (WorkerAction::<T, I, M, F, D>::FetchMembers {
                room_id,
                timeline: rooms[room_id@].timeline,
                sender: rooms[room_id@].timeline_update_sender,
                update: TimelineUpdate::RoomMembersFetched,
            })
        } else {
            action == WorkerAction::<T, I, M, F, D>::Skip(SkipReason::UnknownRoom)
        },
        Some(MatrixRequest::FetchMedia { media_request, on_fetched, destination }) => if client_ready {
            action == (WorkerAction::<T, I, M, F, D>::FetchMedia {
                media_request,
                on_fetched,
                destination,
            })
        } else {
            action == WorkerAction::<T, I, M, F, D>::Skip(SkipReason::NoClient)
        },
        None => action matches WorkerAction::Stop { error } && error@
            == "async_worker task ended unexpectedly"@,
    }
}

/// Decides what to do about the next request, or about there being no more of
/// them (`None`). Media can be fetched once there is a logged-in client.
pub fn worker_step<T, I, J, M, F, D>(
    all_room_info: &AllRoomInfo<T, I, J>,
    client_ready: bool,
    request: Option<MatrixRequest<M, F, D>>,
) -> (action: WorkerAction<T, I, M, F, D>)
    requires
        all_room_info.wf(),
    ensures
        is_answer(all_room_info@, client_ready, request, action),
{
    match request {
        Some(MatrixRequest::PaginateRoomTimeline { room_id, batch_size, max_events }) => {
            match all_room_info.get(&room_id) {
                Some(room_info) => {
                    let watch_status = if room_info.pagination_status_task.is_none() {
                        Some(room_info.timeline_update_sender.clone())
                    } else {
                        None
                    };
                    WorkerAction::Paginate {
                        timeline: room_info.timeline.clone(),
                        room_id,
                        batch_size,
                        max_events,
                        watch_status,
                    }
                },
                None => WorkerAction::Skip(SkipReason::UnknownRoom),
            }
        },
        Some(MatrixRequest::FetchRoomMembers { room_id }) => {
            match all_room_info.get(&room_id) {
                Some(room_info) => WorkerAction::FetchMembers {
                    timeline: room_info.timeline.clone(),
                    sender: room_info.timeline_update_sender.clone(),
                    room_id,
                    update: TimelineUpdate::RoomMembersFetched,
                },
                None => WorkerAction::Skip(SkipReason::UnknownRoom),
            }
        },
        Some(MatrixRequest::FetchMedia { media_request, on_fetched, destination }) => {
            if client_ready {
                WorkerAction::FetchMedia { media_request, on_fetched, destination }
            } else {
                WorkerAction::Skip(SkipReason::NoClient)
            }
        },
        None => WorkerAction::Stop { error: "async_worker task ended unexpectedly".to_string() },
    }
}

/// A room's back-pagination status is followed by one task: once a task was
/// noted, no later request asks for another.
pub proof fn law_one_status_task<T, I, J>(
    rooms: Rooms<T, I, J>,
    id: Seq<char>,
    task: J,
    later: Rooms<T, I, J>,
)
    requires
        rooms.contains_key(id),
        rooms_kept(pagination_task_set(rooms, id, task), later),
    ensures
        later.contains_key(id),
        status_watch(later, id) is None,
{
    assert(pagination_task_set(rooms, id, task).contains_key(id));
}

/// Whether the worker, which was handed `received` one after the other, took
/// `actions`: it goes on until it stops. The known rooms, and whether there is a
/// client, are what they are when each is handed over.
pub open spec fn is_worker_run<T, I, J, M, F, D>(
    rooms: Seq<Rooms<T, I, J>>,
    client_ready: Seq<bool>,
    received: Seq<Option<MatrixRequest<M, F, D>>>,
    actions: Seq<WorkerAction<T, I, M, F, D>>,
) -> bool {
    &&& actions.len() <= received.len()
    &&& forall|i: int|
        0 <= i < actions.len() ==> is_answer(
            rooms[i],
            client_ready[i],
            received[i],
            #[trigger] actions[i],
        )
    &&& actions.len() < received.len() ==> actions.len() > 0 && actions.last() is Stop
    &&& forall|i: int| 0 <= i < actions.len() - 1 ==> !(#[trigger] actions[i] is Stop)
}

/// Every request is answered, in order, and none stops the worker; it stops only
/// once there are no more of them, and then with an error.
pub proof fn law_only_the_end_stops_the_worker<T, I, J, M, F, D>(
    rooms: Seq<Rooms<T, I, J>>,
    client_ready: Seq<bool>,
    requests: Seq<MatrixRequest<M, F, D>>,
    actions: Seq<WorkerAction<T, I, M, F, D>>,
)
    requires
        is_worker_run(
            rooms,
            client_ready,
            requests.map_values(|request: MatrixRequest<M, F, D>| Some(request)).push(None),
            actions,
        ),
    ensures
        actions.len() == requests.len() + 1,
        forall|i: int|
            0 <= i < requests.len() ==> !(#[trigger] actions[i] is Stop) && is_answer(
                rooms[i],
                client_ready[i],
                Some(requests[i]),
                actions[i],
            ),
        actions.last() matches WorkerAction::Stop { error } && error@
            == "async_worker task ended unexpectedly"@,
{
    let received = requests.map_values(|request: MatrixRequest<M, F, D>| Some(request)).push(None);
    if actions.len() < received.len() {
        let last = actions.len() - 1;
        assert(is_answer(rooms[last], client_ready[last], received[last], actions[last]));
        assert(received[last] == Some(requests[last]));
    }
    let end = actions.len() - 1;
    assert(is_answer(rooms[end], client_ready[end], received[end], actions[end]));
    assert forall|i: int| 0 <= i < requests.len() implies !(#[trigger] actions[i] is Stop)
        && is_answer(rooms[i], client_ready[i], Some(requests[i]), actions[i]) by {
        assert(received[i] == Some(requests[i]));
    }
}

/// Whether a timeline is being paginated backwards.
#[derive(Clone, Copy, Debug, PartialEq, Eq, Structural)]
pub enum BackPaginationStatus {
    /// No older events are being fetched.
    Idle,
    /// Older events are being fetched.
    Paginating,
    /// There are no older events.
    TimelineStartReached,
}

/// What the task that follows a back-pagination status is to do.
pub enum StatusAction<I> {
    /// Wait for the next status.
    Wait,
    /// Send an update to the view of the timeline, wake the user interface, and
    /// wait for the next status, or end where `last` holds.
    Send { update: TimelineUpdate<I>, last: bool },
}

/// Decides what to do about the next back-pagination status. Where there is no
/// further one (`None`), the task goes on waiting.
pub fn on_pagination_status<I>(status: Option<BackPaginationStatus>) -> (action: StatusAction<I>)
    ensures
        match status {
            Some(BackPaginationStatus::Idle) => action == (StatusAction::<I>::Send {
                update: TimelineUpdate::PaginationIdle,
                last: false,
            }),
            Some(BackPaginationStatus::TimelineStartReached) => action == (StatusAction::<I>::Send {
                update: TimelineUpdate::TimelineStartReached,
                last: true,
            }),
            Some(BackPaginationStatus::Paginating) => action is Wait,
            None => action is Wait,
        },
{
    match status {
        Some(BackPaginationStatus::Idle) => StatusAction::Send {
            update: TimelineUpdate::PaginationIdle,
            last: false,
        },
        Some(BackPaginationStatus::TimelineStartReached) => StatusAction::Send {
            update: TimelineUpdate::TimelineStartReached,
            last: true,
        },
        _ => StatusAction::Wait,
    }
}

} // verus!
