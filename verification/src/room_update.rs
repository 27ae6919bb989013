//! What follows from an update of a room that the server sent.

use std::sync::Arc;

use vstd::prelude::*;

use crate::avatar::{avatar_from_room_name, name_avatar, name_or_empty};
use crate::channel::{update_channel, UpdateReceiver, UpdateSender};
use crate::registry::{channels_tied, receiver_left, rooms_kept, AllRoomInfo, RoomInfo, Rooms};
use crate::rooms_list::{text_view, RoomPreviewEntry, RoomPreviewEntryView, RoomsListUpdate, RoomsListUpdateView};

verus! {

/// What an event tells about the room that it belongs to.
pub enum EventContent {
    /// The room was given this name.
    RoomName(String),
    /// The room was given a name, which has been redacted.
    RedactedRoomName,
    /// The room was given another avatar, or none.
    RoomAvatar,
    /// Anything else.
    Other,
}

/// The latest event of a room's timeline.
pub struct LatestEvent {
    /// When the event was sent, in milliseconds since the Unix epoch.
    pub timestamp: u64,
    /// The text that stands for the event in the list of rooms.
    pub text_preview: String,
    /// What the event tells about the room.
    pub content: EventContent,
}

/// What is found of a room that has an update.
pub struct RoomState<T> {
    /// The displayable name of the room, where it has one.
    pub room_name: Option<String>,
    /// The room's timeline.
    pub timeline: T,
    /// The latest event of the timeline, where there is one.
    pub latest_event: Option<LatestEvent>,
}

/// What could not be found of a room that has an update.
#[derive(Clone, Copy, Debug, PartialEq, Eq, Structural)]
pub enum MissingPart {
    /// The client does not know the room.
    Room,
    /// The sync does not know the room.
    SyncRoom,
    /// The room has no timeline.
    Timeline,
}

/// What is to be done about an update of a room.
#[verifier::reject_recursive_types(I)]
pub enum RoomAction<T, I> {
    /// Tell the list of rooms.
    UpdateRoomsList(RoomsListUpdate),
    /// Start the subscriber of a room's timeline, which feeds `sender`.
    SubscribeToTimeline {
        room_id: String,
        timeline: Arc<T>,
        sender: UpdateSender<I>,
    },
    /// Fetch the avatar of a room, and tell the list of rooms about it then.
    FetchAvatar { room_id: String, room_name: Option<String> },
}

/// The contents of a [`RoomAction`].
#[verifier::reject_recursive_types(I)]
pub enum RoomActionView<T, I> {
    UpdateRoomsList(RoomsListUpdateView),
    SubscribeToTimeline {
        room_id: Seq<char>,
        timeline: Arc<T>,
        sender: UpdateSender<I>,
    },
    FetchAvatar { room_id: Seq<char>, room_name: Option<Seq<char>> },
}

impl<T, I> View for RoomAction<T, I> {
    type V = RoomActionView<T, I>;

    open spec fn view(&self) -> RoomActionView<T, I> {
        match self {
            RoomAction::UpdateRoomsList(update) => RoomActionView::UpdateRoomsList(update@),
            RoomAction::SubscribeToTimeline { room_id, timeline, sender } => {
                RoomActionView::SubscribeToTimeline {
                    room_id: room_id@,
                    timeline: *timeline,
                    sender: *sender,
                }
            },
            RoomAction::FetchAvatar { room_id, room_name } => {
                RoomActionView::FetchAvatar { room_id: room_id@, room_name: text_view(*room_name) }
            },
        }
    }
}

/// The contents of a list of actions.
pub open spec fn action_views<T, I>(actions: Seq<RoomAction<T, I>>) -> Seq<RoomActionView<T, I>> {
    actions.map_values(|action: RoomAction<T, I>| action@)
}

/// Whether the latest event of a room is newer than one of the time `seen`.
pub open spec fn is_newer<T>(room: RoomState<T>, seen: u64) -> bool {
    room.latest_event matches Some(event) && event.timestamp > seen
}

/// What an event of a known room leads to, besides showing it as the latest: a
/// name that was redacted does not rename the room.
pub open spec fn content_actions<T, I>(
    id: Seq<char>,
    room_name: Option<Seq<char>>,
    content: EventContent,
) -> Seq<RoomActionView<T, I>> {
    match content {
        EventContent::RoomName(new_name) => seq![
            RoomActionView::UpdateRoomsList(
                RoomsListUpdateView::UpdateRoomName { room_id: id, room_name: new_name@ },
            ),
        ],
        EventContent::RoomAvatar => seq![RoomActionView::FetchAvatar { room_id: id, room_name }],
        EventContent::RedactedRoomName => Seq::empty(),
        EventContent::Other => Seq::empty(),
    }
}

/// What an update of a known room leads to, where the latest event known so far
/// is of the time `seen`: nothing, unless there is a newer event.
pub open spec fn known_room_actions<T, I>(
    id: Seq<char>,
    room: RoomState<T>,
    seen: u64,
) -> Seq<RoomActionView<T, I>> {
    match room.latest_event {
        Some(event) if event.timestamp > seen => seq![
            RoomActionView::UpdateRoomsList(
                RoomsListUpdateView::UpdateLatestEvent {
                    room_id: id,
                    timestamp: event.timestamp,
                    latest_message_text: event.text_preview@,
                },
            ),
        ] + content_actions(id, text_view(room.room_name), event.content),
        _ => Seq::empty(),
    }
}

/// The line that shows a room that was not listed.
pub open spec fn new_room_entry<T>(id: Seq<char>, room: RoomState<T>) -> RoomPreviewEntryView {
    RoomPreviewEntryView {
        room_id: Some(id),
        latest: match room.latest_event {
            Some(event) => Some((event.timestamp, event.text_preview@)),
            None => None,
        },
        avatar: name_avatar(name_or_empty(text_view(room.room_name))),
        room_name: text_view(room.room_name),
    }
}

/// What an update of a room that was not known leads to, once it is known as
/// `info`.
pub open spec fn new_room_actions<T, I, J>(
    id: Seq<char>,
    room: RoomState<T>,
    info: RoomInfo<T, I, J>,
) -> Seq<RoomActionView<T, I>> {
    seq![
        RoomActionView::SubscribeToTimeline {
            room_id: id,
            timeline: info.timeline,
            sender: info.timeline_update_sender,
        },
        RoomActionView::UpdateRoomsList(RoomsListUpdateView::AddRoom(new_room_entry(id, room))),
        RoomActionView::FetchAvatar { room_id: id, room_name: text_view(room.room_name) },
    ]
}

/// Whether `info` is what is known about a room from its first update.
pub open spec fn is_new_room_info<T, I, J>(
    info: RoomInfo<T, I, J>,
    id: Seq<char>,
    room: RoomState<T>,
) -> bool {
    &&& info.room_id@ == id
    &&& info.latest_event_timestamp == match room.latest_event {
        Some(event) => event.timestamp,
        None => 0,
    }
    &&& *info.timeline == room.timeline
    &&& info.timeline_update_receiver matches Some(receiver)
    &&& receiver.channel() == info.timeline_update_sender.channel()
    &&& info.pagination_status_task is None
}

/// Whether a sender feeds the channel of none of the rooms.
pub open spec fn feeds_no_room<T, I, J>(rooms: Rooms<T, I, J>, sender: UpdateSender<I>) -> bool {
    forall|id: Seq<char>| #[trigger]
        rooms.contains_key(id) ==> rooms[id].timeline_update_sender.channel() != sender.channel()
}

/// What an update of a room makes of the known rooms, and what it leads to.
pub open spec fn room_updated<T, I, J>(
    before: Rooms<T, I, J>,
    after: Rooms<T, I, J>,
    id: Seq<char>,
    room: RoomState<T>,
    actions: Seq<RoomActionView<T, I>>,
) -> bool {
    if before.contains_key(id) {
        let seen = before[id].latest_event_timestamp;
        &&& after == if is_newer(room, seen) {
            before.insert(
                id,
                RoomInfo {
                    latest_event_timestamp: room.latest_event->0.timestamp,
                    ..before[id]
                },
            )
        } else {
            before
        }
        &&& actions == known_room_actions::<T, I>(id, room, seen)
    } else {
        &&& after == before.insert(id, after[id])
        &&& is_new_room_info(after[id], id, room)
        &&& feeds_no_room(before, after[id].timeline_update_sender)
        &&& actions == new_room_actions(id, room, after[id])
    }
}

/// Takes in an update of a known room: returns what the latest event leads to,
/// where it is newer than those seen so far.
fn update_known_room<T, I, J>(
    all_room_info: &mut AllRoomInfo<T, I, J>,
    room_id: &String,
    room: RoomState<T>,
    seen: u64,
) -> (actions: Vec<RoomAction<T, I>>)
    requires
        old(all_room_info).wf(),
        old(all_room_info)@.contains_key(room_id@),
        old(all_room_info)@[room_id@].latest_event_timestamp == seen,
    ensures
        final(all_room_info).wf(),
        room_updated(
            old(all_room_info)@,
            final(all_room_info)@,
            room_id@,
            room,
            action_views(actions@),
        ),
{
    let mut actions: Vec<RoomAction<T, I>> = Vec::new();
    if let Some(event) = room.latest_event {
        if event.timestamp > seen {
            all_room_info.set_latest_event_timestamp(room_id, event.timestamp);
            actions.push(
                RoomAction::UpdateRoomsList(
                    RoomsListUpdate::UpdateLatestEvent {
                        room_id: room_id.clone(),
                        timestamp: event.timestamp,
                        latest_message_text: event.text_preview,
                    },
                ),
            );
            match event.content {
                EventContent::RoomName(new_name) => {
                    actions.push(
                        RoomAction::UpdateRoomsList(
                            RoomsListUpdate::UpdateRoomName {
                                room_id: room_id.clone(),
                                room_name: new_name,
                            },
                        ),
                    );
                },
                EventContent::RoomAvatar => {
                    actions.push(
                        RoomAction::FetchAvatar {
                            room_id: room_id.clone(),
                            room_name: room.room_name,
                        },
                    );
                },
                EventContent::RedactedRoomName => {},
                EventContent::Other => {},
            }
        }
    }
    assert(action_views(actions@) =~= known_room_actions::<T, I>(room_id@, room, seen));
    actions
}

/// Takes in the first update of a room, whose timeline updates are to go through
/// a channel of its own: returns what makes the room appear.
pub fn add_new_room<T, I, J>(
    all_room_info: &mut AllRoomInfo<T, I, J>,
    room_id: String,
    room: RoomState<T>,
    timeline_update_sender: UpdateSender<I>,
    timeline_update_receiver: UpdateReceiver<I>,
) -> (actions: Vec<RoomAction<T, I>>)
    requires
        old(all_room_info).wf(),
        !old(all_room_info)@.contains_key(room_id@),
        timeline_update_receiver.channel() == timeline_update_sender.channel(),
        feeds_no_room(old(all_room_info)@, timeline_update_sender),
    ensures
        final(all_room_info).wf(),
        final(all_room_info)@[room_id@].timeline_update_sender == timeline_update_sender,
        final(all_room_info)@[room_id@].timeline_update_receiver == Some(timeline_update_receiver),
        room_updated(
            old(all_room_info)@,
            final(all_room_info)@,
            room_id@,
            room,
            action_views(actions@),
        ),
{
    let timeline = Arc::new(room.timeline);
    let avatar = match &room.room_name {
        Some(name) => avatar_from_room_name(name.as_str()),
        None => avatar_from_room_name(""),
    };
    proof {
        reveal_strlit("");
        assert(""@ =~= Seq::<char>::empty());
    }
    let (timestamp, latest) = match room.latest_event {
        Some(event) => (event.timestamp, Some((event.timestamp, event.text_preview))),
        None => (0u64, None),
    };
    let mut actions: Vec<RoomAction<T, I>> = Vec::new();
    actions.push(
        RoomAction::SubscribeToTimeline {
            room_id: room_id.clone(),
            timeline: timeline.clone(),
            sender: timeline_update_sender.clone(),
        },
    );
    actions.push(
        RoomAction::UpdateRoomsList(
            RoomsListUpdate::AddRoom(
                RoomPreviewEntry {
                    room_id: Some(room_id.clone()),
                    latest,
                    avatar,
                    room_name: room.room_name.clone(),
                },
            ),
        ),
    );
    actions.push(
        RoomAction::FetchAvatar { room_id: room_id.clone(), room_name: room.room_name },
    );
    all_room_info.add(
        RoomInfo {
            room_id,
            latest_event_timestamp: timestamp,
            timeline,
            timeline_update_sender,
            timeline_update_receiver: Some(timeline_update_receiver),
            pagination_status_task: None,
        },
    );
    assert(action_views(actions@) =~= new_room_actions(
        room_id@,
        room,
        all_room_info@[room_id@],
    ));
    actions
}

/// Takes in an update of a room. Where a part of the room could not be found,
/// the update is passed over.
pub fn on_room_update<T, I, J>(
    all_room_info: &mut AllRoomInfo<T, I, J>,
    room_id: String,
    found: Result<RoomState<T>, MissingPart>,
) -> (outcome: Result<Vec<RoomAction<T, I>>, MissingPart>)
    requires
        old(all_room_info).wf(),
    ensures
        final(all_room_info).wf(),
        match found {
            Ok(room) => outcome matches Ok(actions) && room_updated(
                old(all_room_info)@,
                final(all_room_info)@,
                room_id@,
                room,
                action_views(actions@),
            ),
            Err(missing) => final(all_room_info)@ == old(all_room_info)@ && outcome
                == Err::<Vec<RoomAction<T, I>>, MissingPart>(missing),
        },
{
    let room = match found {
        Ok(room) => room,
        Err(missing) => return Err(missing),
    };
    let seen = match all_room_info.get(&room_id) {
        Some(info) => Some(info.latest_event_timestamp),
        None => None,
    };
    match seen {
        Some(timestamp) => Ok(update_known_room(all_room_info, &room_id, room, timestamp)),
        None => {
            let (sender, receiver) = update_channel(all_room_info);
            Ok(add_new_room(all_room_info, room_id, room, sender, receiver))
        },
    }
}

/// Whether an action makes a room appear: it adds the room to the list of rooms,
/// or starts the subscriber of its timeline.
pub open spec fn introduces_room<T, I>(action: RoomActionView<T, I>) -> bool {
    match action {
        RoomActionView::UpdateRoomsList(update) => update is AddRoom,
        RoomActionView::SubscribeToTimeline { .. } => true,
        RoomActionView::FetchAvatar { .. } => false,
    }
}

/// Whether an action shows an event of the time `timestamp` as the latest of a
/// listed room.
pub open spec fn shows_event_of<T, I>(action: RoomActionView<T, I>, timestamp: u64) -> bool {
    action matches RoomActionView::UpdateRoomsList(update) && update
        matches RoomsListUpdateView::UpdateLatestEvent { timestamp: shown, .. } && shown
        == timestamp
}

/// An update of a room keeps all rooms.
pub proof fn law_update_keeps_rooms<T, I, J>(
    before: Rooms<T, I, J>,
    after: Rooms<T, I, J>,
    id: Seq<char>,
    room: RoomState<T>,
    actions: Seq<RoomActionView<T, I>>,
)
    requires
        room_updated(before, after, id, room, actions),
    ensures
        rooms_kept(before, after),
        after.contains_key(id),
{
}

/// An update of a room changes nothing about other rooms.
pub proof fn law_update_leaves_others<T, I, J>(
    before: Rooms<T, I, J>,
    after: Rooms<T, I, J>,
    id: Seq<char>,
    room: RoomState<T>,
    actions: Seq<RoomActionView<T, I>>,
    other: Seq<char>,
)
    requires
        room_updated(before, after, id, room, actions),
        other != id,
    ensures
        after.contains_key(other) == before.contains_key(other),
        before.contains_key(other) ==> after[other] == before[other],
{
}

/// A room that has just become known has a receiver to take.
pub proof fn law_new_room_has_receiver<T, I, J>(
    before: Rooms<T, I, J>,
    after: Rooms<T, I, J>,
    id: Seq<char>,
    room: RoomState<T>,
    actions: Seq<RoomActionView<T, I>>,
)
    requires
        room_updated(before, after, id, room, actions),
        !before.contains_key(id),
    ensures
        receiver_left(after, id) is Some,
{
}

/// An update of a room leaves the channels as they should be.
pub proof fn law_update_keeps_channels<T, I, J>(
    before: Rooms<T, I, J>,
    after: Rooms<T, I, J>,
    id: Seq<char>,
    room: RoomState<T>,
    actions: Seq<RoomActionView<T, I>>,
)
    requires
        channels_tied(before),
        room_updated(before, after, id, room, actions),
    ensures
        channels_tied(after),
{
}

/// The receiver that a view of a timeline can take, at any time after the room
/// became known, is that of the channel which the subscriber of this timeline
/// was started with, and of no other room's channel.
pub proof fn law_receiver_is_fed_by_subscriber<T, I, J>(
    before: Rooms<T, I, J>,
    after: Rooms<T, I, J>,
    id: Seq<char>,
    room: RoomState<T>,
    actions: Seq<RoomActionView<T, I>>,
    later: Rooms<T, I, J>,
    other: Seq<char>,
)
    requires
        room_updated(before, after, id, room, actions),
        !before.contains_key(id),
        rooms_kept(after, later),
        channels_tied(later),
        receiver_left(later, id) is Some,
    ensures
        actions[0] matches RoomActionView::SubscribeToTimeline { room_id, timeline, sender }
            && room_id == id && timeline == later[id].timeline && sender
            == later[id].timeline_update_sender && sender.channel() == receiver_left(
            later,
            id,
        )->0.channel(),
        later.contains_key(other) && other != id
            ==> later[other].timeline_update_sender.channel() != receiver_left(
            later,
            id,
        )->0.channel(),
{
    assert(after.contains_key(id));
    assert(later.contains_key(id));
}

/// A room is introduced by its first update and by no later one, whatever
/// happens to the rooms in between.
pub proof fn law_room_introduced_once<T, I, J>(
    before: Rooms<T, I, J>,
    after: Rooms<T, I, J>,
    id: Seq<char>,
    room: RoomState<T>,
    actions: Seq<RoomActionView<T, I>>,
    later: Rooms<T, I, J>,
    later_after: Rooms<T, I, J>,
    later_room: RoomState<T>,
    later_actions: Seq<RoomActionView<T, I>>,
)
    requires
        room_updated(before, after, id, room, actions),
        rooms_kept(after, later),
        room_updated(later, later_after, id, later_room, later_actions),
    ensures
        forall|i: int| 0 <= i < later_actions.len() ==> !introduces_room(#[trigger] later_actions[i]),
{
    assert(after.contains_key(id));
    assert(later.contains_key(id));
}

/// The events that are shown as the latest of a listed room are ever newer:
/// one that an update shows is newer than each that an earlier one showed.
pub proof fn law_shown_events_advance<T, I, J>(
    before: Rooms<T, I, J>,
    after: Rooms<T, I, J>,
    id: Seq<char>,
    room: RoomState<T>,
    actions: Seq<RoomActionView<T, I>>,
    later: Rooms<T, I, J>,
    later_after: Rooms<T, I, J>,
    later_room: RoomState<T>,
    later_actions: Seq<RoomActionView<T, I>>,
    i: int,
    shown: u64,
    j: int,
    later_shown: u64,
)
    requires
        room_updated(before, after, id, room, actions),
        rooms_kept(after, later),
        room_updated(later, later_after, id, later_room, later_actions),
        0 <= i < actions.len(),
        shows_event_of(actions[i], shown),
        0 <= j < later_actions.len(),
        shows_event_of(later_actions[j], later_shown),
    ensures
        shown < later_shown,
{
    assert(after.contains_key(id));
    assert(later.contains_key(id));
}

/// The same update again changes nothing and leads to nothing.
pub proof fn law_repeated_update_is_ignored<T, I, J>(
    before: Rooms<T, I, J>,
    after: Rooms<T, I, J>,
    id: Seq<char>,
    room: RoomState<T>,
    actions: Seq<RoomActionView<T, I>>,
    again: Rooms<T, I, J>,
    again_actions: Seq<RoomActionView<T, I>>,
)
    requires
        room_updated(before, after, id, room, actions),
        room_updated(after, again, id, room, again_actions),
    ensures
        again == after,
        again_actions.len() == 0,
{
}

/// The avatar of a room is fetched last, so that the list of rooms hears of the
/// room before it hears of its avatar.
pub proof fn law_avatar_comes_last<T, I, J>(
    before: Rooms<T, I, J>,
    after: Rooms<T, I, J>,
    id: Seq<char>,
    room: RoomState<T>,
    actions: Seq<RoomActionView<T, I>>,
    i: int,
)
    requires
        room_updated(before, after, id, room, actions),
        0 <= i < actions.len(),
        actions[i] is FetchAvatar,
    ensures
        i == actions.len() - 1,
        !before.contains_key(id) ==> exists|k: int|
            0 <= k < i && #[trigger] actions[k] == RoomActionView::<T, I>::UpdateRoomsList(
                RoomsListUpdateView::AddRoom(new_room_entry(id, room)),
            ),
{
    if !before.contains_key(id) {
        assert(actions[1] == RoomActionView::<T, I>::UpdateRoomsList(
            RoomsListUpdateView::AddRoom(new_room_entry(id, room)),
        ));
    }
}

} // verus!
