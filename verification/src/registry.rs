//! The rooms that the client knows about.

use std::sync::Arc;

use vstd::prelude::*;

use crate::channel::{UpdateReceiver, UpdateSender};

verus! {

/// Info about a room that our client currently knows about.
#[verifier::reject_recursive_types(I)]
pub struct RoomInfo<T, I, J> {
    /// The room's identifier.
    pub room_id: String,
    /// The timestamp of the latest event that we've seen for this room, in
    /// milliseconds since the Unix epoch; zero where none was seen.
    pub latest_event_timestamp: u64,
    /// A reference to this room's timeline of events.
    pub timeline: Arc<T>,
    /// An instance of the clone-able sender that can be used to send updates to
    /// this room's timeline.
    pub timeline_update_sender: UpdateSender<I>,
    /// The single receiver that can receive updates to this room's timeline,
    /// until a view of the timeline takes it: that of the channel which
    /// `timeline_update_sender` feeds.
    pub timeline_update_receiver: Option<UpdateReceiver<I>>,
    /// The task that is subscribed to the timeline's back-pagination status.
    pub pagination_status_task: Option<J>,
}

/// Information about all of the rooms we currently know about: at most one
/// [`RoomInfo`] for each room identifier.
#[verifier::reject_recursive_types(I)]
pub struct AllRoomInfo<T, I, J> {
    rooms: Vec<RoomInfo<T, I, J>>,
}

/// The known rooms by their identifiers.
pub type Rooms<T, I, J> = Map<Seq<char>, RoomInfo<T, I, J>>;

impl<T, I, J> View for AllRoomInfo<T, I, J> {
    type V = Rooms<T, I, J>;

    closed spec fn view(&self) -> Rooms<T, I, J> {
        Map::new(|id: Seq<char>| self.lists(id), |id: Seq<char>| self.rooms@[self.position(id)])
    }
}

/// Whether the channels are as they should be: a receiver that is still there
/// is that of the channel which the room's sender feeds, and no two rooms share a
/// channel.
pub open spec fn channels_tied<T, I, J>(rooms: Rooms<T, I, J>) -> bool {
    &&& forall|id: Seq<char>| #[trigger]
        rooms.contains_key(id) ==> (rooms[id].timeline_update_receiver matches Some(receiver)
            ==> receiver.channel() == rooms[id].timeline_update_sender.channel())
    &&& forall|one: Seq<char>, other: Seq<char>| #[trigger]
        rooms.contains_key(one) && #[trigger] rooms.contains_key(other) && one != other
            ==> rooms[one].timeline_update_sender.channel()
            != rooms[other].timeline_update_sender.channel()
}

impl<T, I, J> AllRoomInfo<T, I, J> {
    /// Each room is listed once, and its channel is its own.
    pub closed spec fn wf(self) -> bool {
        self.lists_once() && channels_tied(self@)
    }

    spec fn lists_once(self) -> bool {
        forall|i: int, j: int|
            0 <= i < j < self.rooms@.len() ==> (#[trigger] self.rooms@[i]).room_id@ != (
            #[trigger] self.rooms@[j]).room_id@
    }

    spec fn lists(self, id: Seq<char>) -> bool {
        exists|i: int| 0 <= i < self.rooms@.len() && (#[trigger] self.rooms@[i]).room_id@ == id
    }

    spec fn position(self, id: Seq<char>) -> int {
        choose|i: int| 0 <= i < self.rooms@.len() && (#[trigger] self.rooms@[i]).room_id@ == id
    }

    proof fn lemma_at(self, i: int)
        requires
            self.lists_once(),
            0 <= i < self.rooms@.len(),
        ensures
            self@.contains_key(self.rooms@[i].room_id@),
            self@[self.rooms@[i].room_id@] == self.rooms@[i],
    {
        let id = self.rooms@[i].room_id@;
        assert(self.lists(id));
        assert(self.position(id) == i);
    }

    /// Every room is kept under its own identifier.
    pub proof fn law_kept_under_own_id(self, id: Seq<char>)
        requires
            self.wf(),
            self@.contains_key(id),
        ensures
            self@[id].room_id@ == id,
    {
    }

    /// The channels of the known rooms are as they should be.
    pub proof fn law_channels_tied(self)
        requires
            self.wf(),
        ensures
            channels_tied(self@),
    {
    }

    /// Knows no room.
    pub fn new() -> (all_room_info: Self)
        ensures
            all_room_info.wf(),
            all_room_info@ == Map::<Seq<char>, RoomInfo<T, I, J>>::empty(),
    {
        let all_room_info = AllRoomInfo { rooms: Vec::new() };
        assert(all_room_info@ =~= Map::<Seq<char>, RoomInfo<T, I, J>>::empty());
        all_room_info
    }

    fn find(&self, room_id: &String) -> (found: Option<usize>)
        requires
            self.wf(),
        ensures
            match found {
                Some(i) => i < self.rooms@.len() && self.rooms@[i as int].room_id@ == room_id@
                    && self@.contains_key(room_id@) && self@[room_id@] == self.rooms@[i as int],
                None => !self@.contains_key(room_id@),
            },
    {
        let mut i: usize = 0;
        while i < self.rooms.len()
            invariant
                0 <= i <= self.rooms.len(),
                self.wf(),
                forall|j: int| 0 <= j < i ==> (#[trigger] self.rooms@[j]).room_id@ != room_id@,
            decreases self.rooms.len() - i,
        {
            if self.rooms[i].room_id == *room_id {
                proof {
                    self.lemma_at(i as int);
                }
                return Some(i);
            }
            i += 1;
        }
        None
    }

    /// What is known about a room.
    pub fn get(&self, room_id: &String) -> (room_info: Option<&RoomInfo<T, I, J>>)
        requires
            self.wf(),
        ensures
            match room_info {
                Some(info) => self@.contains_key(room_id@) && *info == self@[room_id@],
                None => !self@.contains_key(room_id@),
            },
    {
        match self.find(room_id) {
            Some(i) => Some(&self.rooms[i]),
            None => None,
        }
    }

    /// Rewriting one entry, but for its identifier and its channel, rewrites that
    /// room alone.
    proof fn lemma_entry_changed(self, before: Self, i: int)
        requires
            before.wf(),
            0 <= i < before.rooms@.len(),
            self.rooms@ == before.rooms@.update(i, self.rooms@[i]),
            self.rooms@[i].room_id@ == before.rooms@[i].room_id@,
            self.rooms@[i].timeline_update_sender == before.rooms@[i].timeline_update_sender,
            self.rooms@[i].timeline_update_receiver is None
                || self.rooms@[i].timeline_update_receiver
                == before.rooms@[i].timeline_update_receiver,
        ensures
            self.wf(),
            self@ == before@.insert(before.rooms@[i].room_id@, self.rooms@[i]),
    {
        let id = before.rooms@[i].room_id@;
        assert(self.lists_once());
        assert forall|other: Seq<char>| self@.contains_key(other) == before@.insert(
            id,
            self.rooms@[i],
        ).contains_key(other) by {
            if before.lists(other) {
                let k = before.position(other);
                assert(self.rooms@[k].room_id@ == other);
            }
            if self.lists(other) {
                let k = self.position(other);
                assert(before.rooms@[k].room_id@ == other);
            }
            before.lemma_at(i);
        }
        assert forall|other: Seq<char>| #[trigger] self@.contains_key(other) implies self@[other]
            == before@.insert(id, self.rooms@[i])[other] by {
            let k = self.position(other);
            assert(before.rooms@[k].room_id@ == other);
            self.lemma_at(k);
            before.lemma_at(k);
        }
        assert(self@ =~= before@.insert(id, self.rooms@[i]));
        before.lemma_at(i);
        assert(channels_tied(self@));
    }

    /// Takes note of the timestamp of a newer event of a known room.
    pub(crate) fn set_latest_event_timestamp(&mut self, room_id: &String, timestamp: u64)
        requires
            old(self).wf(),
            old(self)@.contains_key(room_id@),
        ensures
            final(self).wf(),
            final(self)@ == old(self)@.insert(
                room_id@,
                (RoomInfo { latest_event_timestamp: timestamp, ..old(self)@[room_id@] }),
            ),
    {
        if let Some(i) = self.find(room_id) {
            self.rooms[i].latest_event_timestamp = timestamp;
            proof {
                self.lemma_entry_changed(*old(self), i as int);
            }
        }
    }

    /// Adds a room that was not known.
    pub(crate) fn add(&mut self, room_info: RoomInfo<T, I, J>)
        requires
            old(self).wf(),
            !old(self)@.contains_key(room_info.room_id@),
            room_info.timeline_update_receiver matches Some(receiver) ==> receiver.channel()
                == room_info.timeline_update_sender.channel(),
            forall|id: Seq<char>| #[trigger]
                old(self)@.contains_key(id) ==> old(self)@[id].timeline_update_sender.channel()
                    != room_info.timeline_update_sender.channel(),
        ensures
            final(self).wf(),
            final(self)@ == old(self)@.insert(room_info.room_id@, room_info),
    {
        let ghost id = room_info.room_id@;
        self.rooms.push(room_info);
        proof {
            let n = old(self).rooms@.len() as int;
            assert forall|i: int| 0 <= i < n implies (#[trigger] old(self).rooms@[i]).room_id@
                != id by {
                old(self).lemma_at(i);
            }
            assert(self.lists_once());
            assert forall|other: Seq<char>| self@.contains_key(other) == old(self)@.insert(
                id,
                room_info,
            ).contains_key(other) by {
                if old(self).lists(other) {
                    assert(self.rooms@[old(self).position(other)].room_id@ == other);
                }
                if self.lists(other) && other != id {
                    assert(old(self).rooms@[self.position(other)].room_id@ == other);
                }
                assert(self.rooms@[n].room_id@ == id);
            }
            assert forall|other: Seq<char>| #[trigger] self@.contains_key(other) implies self@[other]
                == old(self)@.insert(id, room_info)[other] by {
                let k = self.position(other);
                self.lemma_at(k);
                if k < n {
                    old(self).lemma_at(k);
                }
            }
            assert(self@ =~= old(self)@.insert(id, room_info));
            assert(channels_tied(self@));
        }
    }

    /// Takes note of the task that was started to follow the back-pagination
    /// status of a room's timeline.
    pub fn set_pagination_status_task(&mut self, room_id: &String, task: J)
        requires
            old(self).wf(),
            old(self)@.contains_key(room_id@),
            old(self)@[room_id@].pagination_status_task is None,
        ensures
            final(self).wf(),
            final(self)@ == pagination_task_set(old(self)@, room_id@, task),
    {
        if let Some(i) = self.find(room_id) {
            self.rooms[i].pagination_status_task = Some(task);
            proof {
                self.lemma_entry_changed(*old(self), i as int);
            }
        }
    }
}

/// The rooms once the task that follows a room's back-pagination status is
/// noted.
pub open spec fn pagination_task_set<T, I, J>(
    rooms: Rooms<T, I, J>,
    id: Seq<char>,
    task: J,
) -> Rooms<T, I, J> {
    rooms.insert(id, RoomInfo { pagination_status_task: Some(task), ..rooms[id] })
}

/// The receiver that can still be taken for a room.
pub open spec fn receiver_left<T, I, J>(rooms: Rooms<T, I, J>, id: Seq<char>) -> Option<
    UpdateReceiver<I>,
> {
    if rooms.contains_key(id) {
        rooms[id].timeline_update_receiver
    } else {
        None
    }
}

/// The rooms once the receiver of one of them has been taken.
pub open spec fn receiver_taken<T, I, J>(rooms: Rooms<T, I, J>, id: Seq<char>) -> Rooms<T, I, J> {
    if rooms.contains_key(id) {
        rooms.insert(id, RoomInfo { timeline_update_receiver: None, ..rooms[id] })
    } else {
        rooms
    }
}

/// Returns the timeline update receiver for the given room, if one exists.
///
/// This will only succeed once per room, as only a single channel receiver can exist.
pub fn take_timeline_update_receiver<T, I, J>(
    all_room_info: &mut AllRoomInfo<T, I, J>,
    room_id: &String,
) -> (receiver: Option<UpdateReceiver<I>>)
    requires
        old(all_room_info).wf(),
    ensures
        final(all_room_info).wf(),
        receiver == receiver_left(old(all_room_info)@, room_id@),
        receiver matches Some(taken) ==> taken.channel() == old(
            all_room_info,
        )@[room_id@].timeline_update_sender.channel(),
        final(all_room_info)@ == receiver_taken(old(all_room_info)@, room_id@),
{
    match all_room_info.find(room_id) {
        Some(i) => {
            let receiver = all_room_info.rooms[i].timeline_update_receiver.take();
            proof {
                all_room_info.lemma_entry_changed(*old(all_room_info), i as int);
            }
            receiver
        },
        None => None,
    }
}

/// What may become of a known room: it stays known, with its timeline and its
/// channel; its latest timestamp does not go back; a receiver that was taken does
/// not come back; a task that was started is not forgotten or started again.
pub open spec fn room_kept<T, I, J>(before: RoomInfo<T, I, J>, after: RoomInfo<T, I, J>) -> bool {
    &&& after.room_id@ == before.room_id@
    &&& after.timeline == before.timeline
    &&& after.timeline_update_sender == before.timeline_update_sender
    &&& after.latest_event_timestamp >= before.latest_event_timestamp
    &&& after.timeline_update_receiver is None || after.timeline_update_receiver
        == before.timeline_update_receiver
    &&& before.pagination_status_task is None || after.pagination_status_task
        == before.pagination_status_task
}

/// What may become of the known rooms: each is kept, others may be added.
pub open spec fn rooms_kept<T, I, J>(before: Rooms<T, I, J>, after: Rooms<T, I, J>) -> bool {
    forall|id: Seq<char>| #[trigger]
        before.contains_key(id) ==> after.contains_key(id) && room_kept(before[id], after[id])
}

/// Rooms that are kept by one step and by the next are kept by both.
pub proof fn law_rooms_kept_on<T, I, J>(
    first: Rooms<T, I, J>,
    second: Rooms<T, I, J>,
    third: Rooms<T, I, J>,
)
    requires
        rooms_kept(first, second),
        rooms_kept(second, third),
    ensures
        rooms_kept(first, third),
{
    assert forall|id: Seq<char>| #[trigger] first.contains_key(id) implies third.contains_key(id)
        && room_kept(first[id], third[id]) by {
        assert(second.contains_key(id));
    }
}

/// Taking a receiver keeps all rooms.
pub proof fn law_taking_keeps_rooms<T, I, J>(rooms: Rooms<T, I, J>, id: Seq<char>)
    ensures
        rooms_kept(rooms, receiver_taken(rooms, id)),
{
}

/// Taking note of the first status task of a room keeps all rooms.
pub proof fn law_noting_task_keeps_rooms<T, I, J>(rooms: Rooms<T, I, J>, id: Seq<char>, task: J)
    requires
        rooms.contains_key(id),
        rooms[id].pagination_status_task is None,
    ensures
        rooms_kept(rooms, pagination_task_set(rooms, id, task)),
{
}

/// Taking a receiver leaves the channels as they should be.
pub proof fn law_taking_keeps_channels<T, I, J>(rooms: Rooms<T, I, J>, id: Seq<char>)
    requires
        channels_tied(rooms),
    ensures
        channels_tied(receiver_taken(rooms, id)),
{
}

/// Taking note of a status task leaves the channels as they should be.
pub proof fn law_noting_task_keeps_channels<T, I, J>(rooms: Rooms<T, I, J>, id: Seq<char>, task: J)
    requires
        rooms.contains_key(id),
        channels_tied(rooms),
    ensures
        channels_tied(pagination_task_set(rooms, id, task)),
{
}

/// Taking the receiver of a known room succeeds at most once: whatever happens
/// to the rooms afterwards, there is none left to take.
pub proof fn law_receiver_taken_once<T, I, J>(
    rooms: Rooms<T, I, J>,
    later: Rooms<T, I, J>,
    id: Seq<char>,
)
    requires
        rooms.contains_key(id),
        rooms_kept(receiver_taken(rooms, id), later),
    ensures
        receiver_left(later, id) is None,
{
    assert(receiver_taken(rooms, id).contains_key(id));
}

} // verus!
