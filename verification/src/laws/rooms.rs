//! Laws of the known rooms and of their updates.

use vstd::prelude::*;

use crate::avatar::leading_grapheme;
use crate::channel::{UpdateReceiver, UpdateSender};
use crate::registry::{take_timeline_update_receiver, AllRoomInfo, RoomInfo};
use crate::room_update::{
    action_views, add_new_room, on_room_update, EventContent, MissingPart, RoomAction, RoomState,
};
use crate::rooms_list::{RoomPreviewAvatar, RoomsListUpdate};

verus! {

/// Each action of a list has its contents in the list of contents.
proof fn lemma_contents<T, I>(actions: Seq<RoomAction<T, I>>)
    ensures
        action_views(actions).len() == actions.len(),
        forall|i: int|
            0 <= i < actions.len() ==> #[trigger] action_views(actions)[i] == actions[i]@,
{
}

/// To begin with, no room is found.
pub proof fn law_new_knows_no_room<T, I, J>(
    rooms: AllRoomInfo<T, I, J>,
    room_id: String,
    found: Option<&RoomInfo<T, I, J>>,
)
    requires
        call_ensures(AllRoomInfo::<T, I, J>::new, (), rooms),
        call_ensures(AllRoomInfo::<T, I, J>::get, (&rooms, &room_id), found),
    ensures
        rooms.wf(),
        found is None,
{
}

/// What is found under an identifier is the room of that identifier.
pub proof fn law_found_room_is_the_one_asked_for<T, I, J>(
    rooms: AllRoomInfo<T, I, J>,
    room_id: String,
    found: Option<&RoomInfo<T, I, J>>,
)
    requires
        rooms.wf(),
        call_ensures(AllRoomInfo::<T, I, J>::get, (&rooms, &room_id), found),
    ensures
        found is Some <==> rooms@.contains_key(room_id@),
        found matches Some(info) ==> info.room_id@ == room_id@ && *info == rooms@[room_id@],
{
    if rooms@.contains_key(room_id@) {
        rooms.law_kept_under_own_id(room_id@);
    }
}

/// Every room can be asked for, updated, and have its receiver taken, at any time.
pub proof fn law_rooms_can_always_be_used<T, I, J>(
    rooms: &mut AllRoomInfo<T, I, J>,
    room_id: String,
    found: Result<RoomState<T>, MissingPart>,
)
    requires
        old(rooms).wf(),
    ensures
        call_requires(AllRoomInfo::<T, I, J>::get, (&*old(rooms), &room_id)),
        call_requires(on_room_update::<T, I, J>, (rooms, room_id, found)),
        call_requires(take_timeline_update_receiver::<T, I, J>, (rooms, &room_id)),
{
}

/// A receiver that a room still has is that of the channel which the room's
/// sender feeds, and no two rooms feed one channel.
pub proof fn law_channel_belongs_to_one_room<T, I, J>(
    rooms: AllRoomInfo<T, I, J>,
    id: Seq<char>,
    other: Seq<char>,
)
    requires
        rooms.wf(),
        rooms@.contains_key(id),
        rooms@.contains_key(other),
        other != id,
    ensures
        rooms@[id].timeline_update_receiver matches Some(receiver) ==> receiver.channel()
            == rooms@[id].timeline_update_sender.channel(),
        rooms@[id].timeline_update_sender.channel()
            != rooms@[other].timeline_update_sender.channel(),
{
    rooms.law_channels_tied();
}

/// Taking hands out the receiver that the room has, and no other; of a room that
/// is not known there is none.
pub proof fn law_taking_hands_out_the_receiver<T, I, J>(
    rooms: &mut AllRoomInfo<T, I, J>,
    room_id: String,
    receiver: Option<UpdateReceiver<I>>,
)
    requires
        old(rooms).wf(),
        call_ensures(
            take_timeline_update_receiver::<T, I, J>,
            (rooms, &room_id),
            receiver,
        ),
    ensures
        old(rooms)@.contains_key(room_id@) ==> receiver
            == old(rooms)@[room_id@].timeline_update_receiver,
        !old(rooms)@.contains_key(room_id@) ==> receiver is None,
        receiver matches Some(taken) ==> taken.channel()
            == old(rooms)@[room_id@].timeline_update_sender.channel(),
{
}

/// Taking a receiver takes that away from the room, and changes nothing else.
pub proof fn law_taking_changes_the_receiver_alone<T, I, J>(
    rooms: &mut AllRoomInfo<T, I, J>,
    room_id: String,
    receiver: Option<UpdateReceiver<I>>,
    id: Seq<char>,
)
    requires
        old(rooms).wf(),
        call_ensures(
            take_timeline_update_receiver::<T, I, J>,
            (rooms, &room_id),
            receiver,
        ),
    ensures
        final(rooms).wf(),
        final(rooms)@.contains_key(id) == old(rooms)@.contains_key(id),
        old(rooms)@.contains_key(id) && id != room_id@ ==> final(rooms)@[id]
            == old(rooms)@[id],
        old(rooms)@.contains_key(id) && id == room_id@ ==> {
            let before = old(rooms)@[id];
            let after = final(rooms)@[id];
            &&& after.timeline_update_receiver is None
            &&& after.room_id == before.room_id
            &&& after.latest_event_timestamp == before.latest_event_timestamp
            &&& after.timeline == before.timeline
            &&& after.timeline_update_sender == before.timeline_update_sender
            &&& after.pagination_status_task == before.pagination_status_task
        },
{
}

/// A receiver is handed out once: taking it again, straight away, gives none.
pub proof fn law_taking_again_gives_none<T, I, J>(
    rooms: &mut AllRoomInfo<T, I, J>,
    receiver: Option<UpdateReceiver<I>>,
    then: &mut AllRoomInfo<T, I, J>,
    again: Option<UpdateReceiver<I>>,
    room_id: String,
)
    requires
        old(rooms).wf(),
        call_ensures(
            take_timeline_update_receiver::<T, I, J>,
            (rooms, &room_id),
            receiver,
        ),
        *old(then) == *final(rooms),
        call_ensures(take_timeline_update_receiver::<T, I, J>, (then, &room_id), again),
    ensures
        again is None,
        final(then)@ =~= old(then)@,
{
}

/// A task can be noted with a known room that has none; it is then the task of
/// this room, and nothing else changes.
pub proof fn law_noting_changes_the_task_alone<T, I, J>(
    rooms: &mut AllRoomInfo<T, I, J>,
    room_id: String,
    task: J,
    id: Seq<char>,
)
    requires
        old(rooms).wf(),
        old(rooms)@.contains_key(room_id@),
        old(rooms)@[room_id@].pagination_status_task is None,
        call_ensures(
            AllRoomInfo::<T, I, J>::set_pagination_status_task,
            (rooms, &room_id, task),
            (),
        ),
    ensures
        call_requires(
            AllRoomInfo::<T, I, J>::set_pagination_status_task,
            (rooms, &room_id, task),
        ),
        final(rooms).wf(),
        final(rooms)@.contains_key(id) == old(rooms)@.contains_key(id),
        old(rooms)@.contains_key(id) && id != room_id@ ==> final(rooms)@[id]
            == old(rooms)@[id],
        id == room_id@ ==> {
            let before = old(rooms)@[id];
            let after = final(rooms)@[id];
            &&& after.pagination_status_task == Some(task)
            &&& after.room_id == before.room_id
            &&& after.latest_event_timestamp == before.latest_event_timestamp
            &&& after.timeline == before.timeline
            &&& after.timeline_update_sender == before.timeline_update_sender
            &&& after.timeline_update_receiver == before.timeline_update_receiver
        },
{
}

/// An update of which a part is missing is passed over: the missing part is
/// told, and no room changes.
pub proof fn law_missing_part_is_told<T, I, J>(
    rooms: &mut AllRoomInfo<T, I, J>,
    room_id: String,
    missing: MissingPart,
    outcome: Result<Vec<RoomAction<T, I>>, MissingPart>,
)
    requires
        old(rooms).wf(),
        call_ensures(
            on_room_update::<T, I, J>,
            (rooms, room_id, Err(missing)),
            outcome,
        ),
    ensures
        outcome matches Err(told) && told == missing,
        final(rooms)@ == old(rooms)@,
{
}

/// After an update of which no part is missing, the room can be found, under its
/// identifier; no room is lost, and no other room comes or changes.
pub proof fn law_updated_room_is_known<T, I, J>(
    rooms: &mut AllRoomInfo<T, I, J>,
    room_id: String,
    room: RoomState<T>,
    outcome: Result<Vec<RoomAction<T, I>>, MissingPart>,
    after: AllRoomInfo<T, I, J>,
    found: Option<&RoomInfo<T, I, J>>,
    other: Seq<char>,
)
    requires
        old(rooms).wf(),
        call_ensures(on_room_update::<T, I, J>, (rooms, room_id, Ok(room)), outcome),
        after == *final(rooms),
        call_ensures(AllRoomInfo::<T, I, J>::get, (&after, &room_id), found),
    ensures
        outcome is Ok,
        after.wf(),
        found matches Some(info) && info.room_id@ == room_id@,
        other != room_id@ ==> after@.contains_key(other) == old(rooms)@.contains_key(other),
        other != room_id@ && after@.contains_key(other) ==> after@[other] == old(rooms)@[other],
{
    after.law_kept_under_own_id(room_id@);
}

/// Where the latest event of a known room is not newer than the one known, or
/// there is none, the update leads to nothing.
pub proof fn law_seen_events_lead_to_nothing<T, I, J>(
    rooms: &mut AllRoomInfo<T, I, J>,
    room_id: String,
    room: RoomState<T>,
    outcome: Result<Vec<RoomAction<T, I>>, MissingPart>,
)
    requires
        old(rooms).wf(),
        old(rooms)@.contains_key(room_id@),
        room.latest_event matches Some(event) ==> event.timestamp
            <= old(rooms)@[room_id@].latest_event_timestamp,
        call_ensures(on_room_update::<T, I, J>, (rooms, room_id, Ok(room)), outcome),
    ensures
        outcome matches Ok(actions) && actions@.len() == 0,
        final(rooms)@ == old(rooms)@,
{
    lemma_contents(outcome->Ok_0@);
}

/// A newer event of a known room is shown, first of all, as the latest: its time
/// and its text, whatever it tells and whatever the room is called.
pub proof fn law_newer_event_is_shown<T, I, J>(
    rooms: &mut AllRoomInfo<T, I, J>,
    room_id: String,
    room: RoomState<T>,
    outcome: Result<Vec<RoomAction<T, I>>, MissingPart>,
)
    requires
        old(rooms).wf(),
        old(rooms)@.contains_key(room_id@),
        room.latest_event matches Some(event) && event.timestamp
            > old(rooms)@[room_id@].latest_event_timestamp,
        call_ensures(on_room_update::<T, I, J>, (rooms, room_id, Ok(room)), outcome),
    ensures
        outcome matches Ok(actions) && actions@.len() > 0,
        outcome matches Ok(actions) && actions@[0] matches RoomAction::UpdateRoomsList(
            RoomsListUpdate::UpdateLatestEvent { room_id: shown_id, timestamp, latest_message_text },
        ) && shown_id@ == room_id@ && timestamp == room.latest_event->0.timestamp
            && latest_message_text@ == room.latest_event->0.text_preview@,
{
    lemma_contents(outcome->Ok_0@);
    assert(action_views(outcome->Ok_0@)[0] == outcome->Ok_0@[0]@);
}

/// The time of a newer event is noted with the room; nothing else that is known
/// about the room changes.
pub proof fn law_newer_event_is_noted<T, I, J>(
    rooms: &mut AllRoomInfo<T, I, J>,
    room_id: String,
    room: RoomState<T>,
    outcome: Result<Vec<RoomAction<T, I>>, MissingPart>,
)
    requires
        old(rooms).wf(),
        old(rooms)@.contains_key(room_id@),
        room.latest_event matches Some(event) && event.timestamp
            > old(rooms)@[room_id@].latest_event_timestamp,
        call_ensures(on_room_update::<T, I, J>, (rooms, room_id, Ok(room)), outcome),
    ensures
        final(rooms)@.contains_key(room_id@),
        final(rooms)@[room_id@].latest_event_timestamp == room.latest_event->0.timestamp,
        final(rooms)@[room_id@].room_id == old(rooms)@[room_id@].room_id,
        final(rooms)@[room_id@].timeline == old(rooms)@[room_id@].timeline,
        final(rooms)@[room_id@].timeline_update_sender
            == old(rooms)@[room_id@].timeline_update_sender,
        final(rooms)@[room_id@].timeline_update_receiver
            == old(rooms)@[room_id@].timeline_update_receiver,
        final(rooms)@[room_id@].pagination_status_task
            == old(rooms)@[room_id@].pagination_status_task,
{
}

/// A newer event that gives a known room a name renames it in the list, whether
/// or not the room has a displayable name, and leads to nothing further.
pub proof fn law_new_name_is_shown<T, I, J>(
    rooms: &mut AllRoomInfo<T, I, J>,
    room_id: String,
    room: RoomState<T>,
    new_name: String,
    outcome: Result<Vec<RoomAction<T, I>>, MissingPart>,
)
    requires
        old(rooms).wf(),
        old(rooms)@.contains_key(room_id@),
        room.latest_event matches Some(event) && event.timestamp
            > old(rooms)@[room_id@].latest_event_timestamp && event.content
            == EventContent::RoomName(new_name),
        call_ensures(on_room_update::<T, I, J>, (rooms, room_id, Ok(room)), outcome),
    ensures
        outcome matches Ok(actions) && actions@.len() == 2,
        outcome matches Ok(actions) && actions@[1] matches RoomAction::UpdateRoomsList(
            RoomsListUpdate::UpdateRoomName { room_id: shown_id, room_name },
        ) && shown_id@ == room_id@ && room_name@ == new_name@,
{
    lemma_contents(outcome->Ok_0@);
    assert(action_views(outcome->Ok_0@)[1] == outcome->Ok_0@[1]@);
}

/// A newer event that changes the avatar of a known room has the avatar fetched,
/// whether or not the room has a displayable name, and leads to nothing further.
pub proof fn law_new_avatar_is_fetched<T, I, J>(
    rooms: &mut AllRoomInfo<T, I, J>,
    room_id: String,
    room: RoomState<T>,
    outcome: Result<Vec<RoomAction<T, I>>, MissingPart>,
)
    requires
        old(rooms).wf(),
        old(rooms)@.contains_key(room_id@),
        room.latest_event matches Some(event) && event.timestamp
            > old(rooms)@[room_id@].latest_event_timestamp && event.content is RoomAvatar,
        call_ensures(on_room_update::<T, I, J>, (rooms, room_id, Ok(room)), outcome),
    ensures
        outcome matches Ok(actions) && actions@.len() == 2,
        outcome matches Ok(actions) && actions@[1] matches RoomAction::FetchAvatar {
            room_id: named,
            room_name,
        } && named@ == room_id@ && room_name is Some == room.room_name is Some && (room_name is Some
            ==> room_name->0@ == room.room_name->0@),
{
    lemma_contents(outcome->Ok_0@);
    assert(action_views(outcome->Ok_0@)[1] == outcome->Ok_0@[1]@);
}

/// A newer event of a known room that gives neither a name nor an avatar is
/// shown as the latest, and leads to nothing further.
pub proof fn law_other_events_are_only_shown<T, I, J>(
    rooms: &mut AllRoomInfo<T, I, J>,
    room_id: String,
    room: RoomState<T>,
    outcome: Result<Vec<RoomAction<T, I>>, MissingPart>,
)
    requires
        old(rooms).wf(),
        old(rooms)@.contains_key(room_id@),
        room.latest_event matches Some(event) && event.timestamp
            > old(rooms)@[room_id@].latest_event_timestamp && !(event.content is RoomName)
            && !(event.content is RoomAvatar),
        call_ensures(on_room_update::<T, I, J>, (rooms, room_id, Ok(room)), outcome),
    ensures
        outcome matches Ok(actions) && actions@.len() == 1,
{
    lemma_contents(outcome->Ok_0@);
}

/// The first update of a room makes it known by the time of its latest event, or
/// zero, with its timeline and a channel of its own, whose receiver can be taken,
/// and no task.
pub proof fn law_new_room_is_noted<T, I, J>(
    rooms: &mut AllRoomInfo<T, I, J>,
    room_id: String,
    room: RoomState<T>,
    outcome: Result<Vec<RoomAction<T, I>>, MissingPart>,
    other: Seq<char>,
)
    requires
        old(rooms).wf(),
        !old(rooms)@.contains_key(room_id@),
        call_ensures(on_room_update::<T, I, J>, (rooms, room_id, Ok(room)), outcome),
    ensures
        final(rooms)@.contains_key(room_id@),
        final(rooms)@[room_id@].room_id@ == room_id@,
        room.latest_event matches Some(event) ==> final(rooms)@[room_id@].latest_event_timestamp
            == event.timestamp,
        room.latest_event is None ==> final(rooms)@[room_id@].latest_event_timestamp == 0,
        *final(rooms)@[room_id@].timeline == room.timeline,
        final(rooms)@[room_id@].timeline_update_receiver matches Some(receiver)
            && receiver.channel() == final(rooms)@[room_id@].timeline_update_sender.channel(),
        final(rooms)@[room_id@].pagination_status_task is None,
        old(rooms)@.contains_key(other) ==> final(rooms)@[room_id@].timeline_update_sender.channel()
            != old(rooms)@[other].timeline_update_sender.channel(),
{
}

/// The first update of a room leads to three things: the subscriber of its
/// timeline is started, with the timeline and the sender that are noted; the room
/// is listed; and its avatar is fetched.
pub proof fn law_new_room_appears<T, I, J>(
    rooms: &mut AllRoomInfo<T, I, J>,
    room_id: String,
    room: RoomState<T>,
    outcome: Result<Vec<RoomAction<T, I>>, MissingPart>,
)
    requires
        old(rooms).wf(),
        !old(rooms)@.contains_key(room_id@),
        call_ensures(on_room_update::<T, I, J>, (rooms, room_id, Ok(room)), outcome),
    ensures
        outcome matches Ok(actions) && actions@.len() == 3,
        outcome matches Ok(actions) && actions@[0] matches RoomAction::SubscribeToTimeline {
            room_id: named,
            timeline,
            sender,
        } && named@ == room_id@ && *timeline == room.timeline && timeline
            == final(rooms)@[room_id@].timeline && sender
            == final(rooms)@[room_id@].timeline_update_sender,
        outcome matches Ok(actions) && actions@[1] matches RoomAction::UpdateRoomsList(
            RoomsListUpdate::AddRoom(_),
        ),
        outcome matches Ok(actions) && actions@[2] matches RoomAction::FetchAvatar {
            room_id: named,
            room_name,
        } && named@ == room_id@ && room_name is Some == room.room_name is Some && (room_name is Some
            ==> room_name->0@ == room.room_name->0@),
{
    let actions = outcome->Ok_0@;
    lemma_contents(actions);
    assert(action_views(actions)[0] == actions[0]@);
    assert(action_views(actions)[1] == actions[1]@);
    assert(action_views(actions)[2] == actions[2]@);
}

/// A new room is listed with the time and the text of its latest event, exactly
/// where there is such an event, whether or not the room has a name; and with
/// its name, exactly where it has one.
pub proof fn law_new_room_is_listed<T, I, J>(
    rooms: &mut AllRoomInfo<T, I, J>,
    room_id: String,
    room: RoomState<T>,
    outcome: Result<Vec<RoomAction<T, I>>, MissingPart>,
)
    requires
        old(rooms).wf(),
        !old(rooms)@.contains_key(room_id@),
        call_ensures(on_room_update::<T, I, J>, (rooms, room_id, Ok(room)), outcome),
    ensures
        outcome matches Ok(actions) && actions@[1] matches RoomAction::UpdateRoomsList(
            RoomsListUpdate::AddRoom(entry),
        ) && entry.room_id is Some && entry.room_id->0@ == room_id@ && match (
            room.latest_event,
            entry.latest,
        ) {
            (Some(event), Some((timestamp, text))) => timestamp == event.timestamp && text@
                == event.text_preview@,
            (None, None) => true,
            _ => false,
        } && entry.room_name is Some == room.room_name is Some && (entry.room_name is Some
            ==> entry.room_name->0@ == room.room_name->0@),
{
    let actions = outcome->Ok_0@;
    lemma_contents(actions);
    assert(action_views(actions)[1] == actions[1]@);
}

/// A new room is listed with a text avatar, the first grapheme cluster of its
/// name, until its avatar is fetched; without a name the text is empty.
pub proof fn law_new_room_has_text_avatar<T, I, J>(
    rooms: &mut AllRoomInfo<T, I, J>,
    room_id: String,
    room: RoomState<T>,
    outcome: Result<Vec<RoomAction<T, I>>, MissingPart>,
)
    requires
        old(rooms).wf(),
        !old(rooms)@.contains_key(room_id@),
        call_ensures(on_room_update::<T, I, J>, (rooms, room_id, Ok(room)), outcome),
    ensures
        outcome matches Ok(actions) && actions@[1] matches RoomAction::UpdateRoomsList(
            RoomsListUpdate::AddRoom(entry),
        ) && entry.avatar matches RoomPreviewAvatar::Text(text) && if room.room_name is Some
            && room.room_name->0@.len() > 0 {
            text@ == leading_grapheme(room.room_name->0@)->0
        } else {
            text@.len() == 0
        },
{
    let actions = outcome->Ok_0@;
    lemma_contents(actions);
    assert(action_views(actions)[1] == actions[1]@);
}

/// The latest time that is known of a room does not go back, whatever update of
/// whatever room comes.
pub proof fn law_latest_time_does_not_go_back<T, I, J>(
    rooms: &mut AllRoomInfo<T, I, J>,
    room_id: String,
    found: Result<RoomState<T>, MissingPart>,
    outcome: Result<Vec<RoomAction<T, I>>, MissingPart>,
    id: Seq<char>,
)
    requires
        old(rooms).wf(),
        old(rooms)@.contains_key(id),
        call_ensures(on_room_update::<T, I, J>, (rooms, room_id, found), outcome),
    ensures
        final(rooms)@.contains_key(id),
        final(rooms)@[id].latest_event_timestamp >= old(rooms)@[id].latest_event_timestamp,
{
}

/// The same update, straight after itself, leads to nothing.
pub proof fn law_update_again_leads_to_nothing<T, I, J>(
    rooms: &mut AllRoomInfo<T, I, J>,
    outcome: Result<Vec<RoomAction<T, I>>, MissingPart>,
    then: &mut AllRoomInfo<T, I, J>,
    again: Result<Vec<RoomAction<T, I>>, MissingPart>,
    room_id: String,
    room: RoomState<T>,
)
    requires
        old(rooms).wf(),
        call_ensures(on_room_update::<T, I, J>, (rooms, room_id, Ok(room)), outcome),
        *old(then) == *final(rooms),
        call_ensures(on_room_update::<T, I, J>, (then, room_id, Ok(room)), again),
    ensures
        again matches Ok(actions) && actions@.len() == 0,
        final(then)@ == old(then)@,
{
    lemma_contents(again->Ok_0@);
}

/// The receiver that can be taken once a room has appeared gets what the
/// subscriber of this room's timeline sends.
pub proof fn law_taken_receiver_hears_the_subscriber<T, I, J>(
    rooms: &mut AllRoomInfo<T, I, J>,
    outcome: Result<Vec<RoomAction<T, I>>, MissingPart>,
    then: &mut AllRoomInfo<T, I, J>,
    taken: Option<UpdateReceiver<I>>,
    room_id: String,
    room: RoomState<T>,
)
    requires
        old(rooms).wf(),
        !old(rooms)@.contains_key(room_id@),
        call_ensures(on_room_update::<T, I, J>, (rooms, room_id, Ok(room)), outcome),
        *old(then) == *final(rooms),
        call_ensures(take_timeline_update_receiver::<T, I, J>, (then, &room_id), taken),
    ensures
        taken matches Some(receiver) && outcome matches Ok(actions) && actions@[0]
            matches RoomAction::SubscribeToTimeline { sender, .. } && sender.channel()
            == receiver.channel(),
{
    lemma_contents(outcome->Ok_0@);
    assert(action_views(outcome->Ok_0@)[0] == outcome->Ok_0@[0]@);
}

/// A room that is added with given halves of a channel is known with just these,
/// and its subscriber is started with the sender.
pub proof fn law_added_room_uses_its_channel<T, I, J>(
    rooms: &mut AllRoomInfo<T, I, J>,
    room_id: String,
    room: RoomState<T>,
    sender: UpdateSender<I>,
    receiver: UpdateReceiver<I>,
    actions: Vec<RoomAction<T, I>>,
    other: Seq<char>,
)
    requires
        old(rooms).wf(),
        !old(rooms)@.contains_key(room_id@),
        call_ensures(
            add_new_room::<T, I, J>,
            (rooms, room_id, room, sender, receiver),
            actions,
        ),
    ensures
        final(rooms).wf(),
        final(rooms)@.contains_key(room_id@),
        final(rooms)@[room_id@].room_id@ == room_id@,
        final(rooms)@[room_id@].timeline_update_sender == sender,
        final(rooms)@[room_id@].timeline_update_receiver == Some(receiver),
        *final(rooms)@[room_id@].timeline == room.timeline,
        final(rooms)@[room_id@].pagination_status_task is None,
        room.latest_event matches Some(event) ==> final(rooms)@[room_id@].latest_event_timestamp
            == event.timestamp,
        room.latest_event is None ==> final(rooms)@[room_id@].latest_event_timestamp == 0,
        other != room_id@ ==> final(rooms)@.contains_key(other) == old(rooms)@.contains_key(other),
        old(rooms)@.contains_key(other) ==> final(rooms)@[other] == old(rooms)@[other],
        actions@.len() == 3,
        actions@[0] matches RoomAction::SubscribeToTimeline {
            room_id: named,
            timeline,
            sender: fed,
        } && named@ == room_id@ && *timeline == room.timeline && fed == sender,
{
    lemma_contents(actions@);
    assert(action_views(actions@)[0] == actions@[0]@);
}

/// A room that is added with given halves of a channel is listed, and has its
/// avatar fetched, as one is whose channel was made for it.
pub proof fn law_added_room_appears<T, I, J>(
    rooms: &mut AllRoomInfo<T, I, J>,
    room_id: String,
    room: RoomState<T>,
    sender: UpdateSender<I>,
    receiver: UpdateReceiver<I>,
    actions: Vec<RoomAction<T, I>>,
)
    requires
        old(rooms).wf(),
        !old(rooms)@.contains_key(room_id@),
        call_ensures(
            add_new_room::<T, I, J>,
            (rooms, room_id, room, sender, receiver),
            actions,
        ),
    ensures
        actions@.len() == 3,
        actions@[1] matches RoomAction::UpdateRoomsList(RoomsListUpdate::AddRoom(entry))
            && entry.room_id is Some && entry.room_id->0@ == room_id@ && match (
            room.latest_event,
            entry.latest,
        ) {
            (Some(event), Some((timestamp, text))) => timestamp == event.timestamp && text@
                == event.text_preview@,
            (None, None) => true,
            _ => false,
        } && entry.room_name is Some == room.room_name is Some && (entry.room_name is Some
            ==> entry.room_name->0@ == room.room_name->0@),
        actions@[1] matches RoomAction::UpdateRoomsList(RoomsListUpdate::AddRoom(entry))
            && entry.avatar matches RoomPreviewAvatar::Text(text) && if room.room_name is Some
            && room.room_name->0@.len() > 0 {
            text@ == leading_grapheme(room.room_name->0@)->0
        } else {
            text@.len() == 0
        },
        actions@[2] matches RoomAction::FetchAvatar { room_id: named, room_name } && named@
            == room_id@ && room_name is Some == room.room_name is Some && (room_name is Some
            ==> room_name->0@ == room.room_name->0@),
{
    lemma_contents(actions@);
    assert(action_views(actions@)[1] == actions@[1]@);
    assert(action_views(actions@)[2] == actions@[2]@);
}

} // verus!
