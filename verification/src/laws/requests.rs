//! Laws of the worker and of the tasks that follow a back-pagination status.

use vstd::prelude::*;

use crate::channel::UpdateReceiver;
use crate::registry::{take_timeline_update_receiver, AllRoomInfo};
use crate::timeline::TimelineUpdate;
use crate::worker::{
    on_pagination_status, worker_step, BackPaginationStatus, MatrixRequest, SkipReason, StatusAction, WorkerAction,
};

verus! {

/// The worker can be handed any request at any time.
pub proof fn law_worker_takes_any_request<T, I, J, M, F, D>(
    rooms: AllRoomInfo<T, I, J>,
    client_ready: bool,
    request: Option<MatrixRequest<M, F, D>>,
)
    requires
        rooms.wf(),
    ensures
        call_requires(
            worker_step::<T, I, J, M, F, D>,
            (&rooms, client_ready, request),
        ),
{
}

/// A known room's timeline is paginated just as asked for, whether or not there
/// is a client.
pub proof fn law_known_room_is_paginated<T, I, J, M, F, D>(
    rooms: AllRoomInfo<T, I, J>,
    client_ready: bool,
    room_id: String,
    batch_size: u16,
    max_events: u16,
    action: WorkerAction<T, I, M, F, D>,
)
    requires
        rooms@.contains_key(room_id@),
        call_ensures(
            worker_step::<T, I, J, M, F, D>,
            (
                &rooms,
                client_ready,
                Some(MatrixRequest::PaginateRoomTimeline { room_id, batch_size, max_events }),
            ),
            action,
        ),
    ensures
        action matches WorkerAction::Paginate {
            room_id: named,
            timeline,
            batch_size: size,
            max_events: most,
            ..
        } && named@ == room_id@ && timeline == rooms@[room_id@].timeline && size
            == batch_size && most == max_events,
{
}

/// The first pagination of a room asks for its status to be followed, and for
/// the status to be sent where the room's other updates go, whether or not the
/// receiver was taken already.
pub proof fn law_first_pagination_watches_status<T, I, J, M, F, D>(
    rooms: AllRoomInfo<T, I, J>,
    client_ready: bool,
    room_id: String,
    batch_size: u16,
    max_events: u16,
    action: WorkerAction<T, I, M, F, D>,
)
    requires
        rooms@.contains_key(room_id@),
        rooms@[room_id@].pagination_status_task is None,
        call_ensures(
            worker_step::<T, I, J, M, F, D>,
            (
                &rooms,
                client_ready,
                Some(MatrixRequest::PaginateRoomTimeline { room_id, batch_size, max_events }),
            ),
            action,
        ),
    ensures
        action matches WorkerAction::Paginate { watch_status: Some(sender), .. } && sender
            == rooms@[room_id@].timeline_update_sender,
{
}

/// A pagination of a room whose status is followed does not ask for that again.
pub proof fn law_followed_status_is_not_watched_again<T, I, J, M, F, D>(
    rooms: AllRoomInfo<T, I, J>,
    client_ready: bool,
    room_id: String,
    batch_size: u16,
    max_events: u16,
    action: WorkerAction<T, I, M, F, D>,
)
    requires
        rooms@.contains_key(room_id@),
        rooms@[room_id@].pagination_status_task is Some,
        call_ensures(
            worker_step::<T, I, J, M, F, D>,
            (
                &rooms,
                client_ready,
                Some(MatrixRequest::PaginateRoomTimeline { room_id, batch_size, max_events }),
            ),
            action,
        ),
    ensures
        action matches WorkerAction::Paginate { watch_status: None, .. },
{
}

/// Once the task that follows a room's status is noted, a pagination of that room
/// asks for no other; what it asks for other rooms stays as it was.
pub proof fn law_noted_task_is_the_only_one<T, I, J, M, F, D>(
    rooms: &mut AllRoomInfo<T, I, J>,
    noted_id: String,
    task: J,
    before: AllRoomInfo<T, I, J>,
    after: AllRoomInfo<T, I, J>,
    client_ready: bool,
    room_id: String,
    batch_size: u16,
    max_events: u16,
    action_before: WorkerAction<T, I, M, F, D>,
    action_after: WorkerAction<T, I, M, F, D>,
)
    requires
        old(rooms).wf(),
        old(rooms)@.contains_key(noted_id@),
        call_ensures(
            AllRoomInfo::<T, I, J>::set_pagination_status_task,
            (rooms, &noted_id, task),
            (),
        ),
        before == *old(rooms),
        after == *final(rooms),
        before@.contains_key(room_id@),
        call_ensures(
            worker_step::<T, I, J, M, F, D>,
            (
                &before,
                client_ready,
                Some(MatrixRequest::PaginateRoomTimeline { room_id, batch_size, max_events }),
            ),
            action_before,
        ),
        call_ensures(
            worker_step::<T, I, J, M, F, D>,
            (
                &after,
                client_ready,
                Some(MatrixRequest::PaginateRoomTimeline { room_id, batch_size, max_events }),
            ),
            action_after,
        ),
    ensures
        room_id@ == noted_id@ ==> (action_after matches WorkerAction::Paginate {
            watch_status: None,
            ..
        }),
        room_id@ != noted_id@ ==> action_after == action_before,
{
}

/// That a view has taken the receiver of a room makes no difference to the
/// worker.
pub proof fn law_taking_receiver_leaves_the_worker<T, I, J, M, F, D>(
    rooms: &mut AllRoomInfo<T, I, J>,
    taken_id: String,
    receiver: Option<UpdateReceiver<I>>,
    before: AllRoomInfo<T, I, J>,
    after: AllRoomInfo<T, I, J>,
    client_ready: bool,
    request: MatrixRequest<M, F, D>,
    action_before: WorkerAction<T, I, M, F, D>,
    action_after: WorkerAction<T, I, M, F, D>,
)
    requires
        old(rooms).wf(),
        call_ensures(
            take_timeline_update_receiver::<T, I, J>,
            (rooms, &taken_id),
            receiver,
        ),
        before == *old(rooms),
        after == *final(rooms),
        call_ensures(
            worker_step::<T, I, J, M, F, D>,
            (&before, client_ready, Some(request)),
            action_before,
        ),
        call_ensures(
            worker_step::<T, I, J, M, F, D>,
            (&after, client_ready, Some(request)),
            action_after,
        ),
    ensures
        action_after == action_before,
{
}

/// A known room's members are fetched, and the view of this room is told, whether
/// or not there is a client.
pub proof fn law_known_room_members_are_fetched<T, I, J, M, F, D>(
    rooms: AllRoomInfo<T, I, J>,
    client_ready: bool,
    room_id: String,
    action: WorkerAction<T, I, M, F, D>,
)
    requires
        rooms@.contains_key(room_id@),
        call_ensures(
            worker_step::<T, I, J, M, F, D>,
            (&rooms, client_ready, Some(MatrixRequest::FetchRoomMembers { room_id })),
            action,
        ),
    ensures
        action matches WorkerAction::FetchMembers { room_id: named, timeline, sender, update }
            && named@ == room_id@ && timeline == rooms@[room_id@].timeline && sender
            == rooms@[room_id@].timeline_update_sender && update is RoomMembersFetched,
{
}

/// A request about a room that is not known is skipped for that reason.
pub proof fn law_unknown_room_is_skipped<T, I, J, M, F, D>(
    rooms: AllRoomInfo<T, I, J>,
    client_ready: bool,
    room_id: String,
    request: MatrixRequest<M, F, D>,
    action: WorkerAction<T, I, M, F, D>,
)
    requires
        !rooms@.contains_key(room_id@),
        match request {
            MatrixRequest::PaginateRoomTimeline { room_id: named, .. } => named == room_id,
            MatrixRequest::FetchRoomMembers { room_id: named } => named == room_id,
            MatrixRequest::FetchMedia { .. } => false,
        },
        call_ensures(
            worker_step::<T, I, J, M, F, D>,
            (&rooms, client_ready, Some(request)),
            action,
        ),
    ensures
        action matches WorkerAction::Skip(SkipReason::UnknownRoom),
{
}

/// Media is fetched just as asked for once there is a client, and skipped for
/// want of one before, whatever rooms are known.
pub proof fn law_media_needs_a_client<T, I, J, M, F, D>(
    rooms: AllRoomInfo<T, I, J>,
    client_ready: bool,
    media_request: M,
    on_fetched: F,
    destination: D,
    action: WorkerAction<T, I, M, F, D>,
)
    requires
        call_ensures(
            worker_step::<T, I, J, M, F, D>,
            (
                &rooms,
                client_ready,
                Some(MatrixRequest::FetchMedia { media_request, on_fetched, destination }),
            ),
            action,
        ),
    ensures
        client_ready ==> action == (WorkerAction::<T, I, M, F, D>::FetchMedia {
            media_request,
            on_fetched,
            destination,
        }),
        !client_ready ==> (action matches WorkerAction::Skip(SkipReason::NoClient)),
{
}

/// The end of the requests stops the worker with an error that says so.
pub proof fn law_end_of_requests_is_an_error<T, I, J, M, F, D>(
    rooms: AllRoomInfo<T, I, J>,
    client_ready: bool,
    action: WorkerAction<T, I, M, F, D>,
)
    requires
        call_ensures(
            worker_step::<T, I, J, M, F, D>,
            (&rooms, client_ready, None),
            action,
        ),
    ensures
        action matches WorkerAction::Stop { error } && error@
            == "async_worker task ended unexpectedly"@,
{
}

/// A view is told of a pagination that has become idle, each time, and of the
/// start of the timeline, after which there is nothing more to tell. All else
/// is waited through.
pub proof fn law_status_is_told<I>(status: Option<BackPaginationStatus>, action: StatusAction<I>)
    requires
        call_ensures(on_pagination_status::<I>, (status,), action),
    ensures
        action is Wait <==> status is None || status == Some(BackPaginationStatus::Paginating),
        status == Some(BackPaginationStatus::Idle) ==> (action matches StatusAction::Send {
            update: TimelineUpdate::PaginationIdle,
            last: false,
        }),
        status == Some(BackPaginationStatus::TimelineStartReached) ==> (action
            matches StatusAction::Send { update: TimelineUpdate::TimelineStartReached, last: true }),
{
}

} // verus!
