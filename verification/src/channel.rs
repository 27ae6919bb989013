//! The channels that updates of timelines go through.

use crossbeam_channel::{Receiver, Sender};
use vstd::prelude::*;

use crate::registry::AllRoomInfo;
use crate::timeline::TimelineUpdate;

verus! {

/// The sending half of a channel of the crate `crossbeam_channel`. A value of it
/// stands for the channel that it feeds.
#[verifier::external_type_specification]
#[verifier::external_body]
#[verifier::reject_recursive_types(T)]
pub struct ExSender<T>(Sender<T>);

/// The receiving half of a channel of the crate `crossbeam_channel`.
#[verifier::external_type_specification]
#[verifier::external_body]
#[verifier::reject_recursive_types(T)]
pub struct ExReceiver<T>(Receiver<T>);

/// `Sender::clone` of the crate `crossbeam_channel`: the copy feeds the channel
/// that the original feeds.
pub assume_specification<T>[ <Sender<T> as Clone>::clone ](sender: &Sender<T>) -> (copy: Sender<T>)
    ensures
        copy == *sender,
;

/// The half of a channel that updates of a timeline are sent on.
#[verifier::reject_recursive_types(I)]
pub struct UpdateSender<I> {
    half: Sender<TimelineUpdate<I>>,
    channel: Ghost<int>,
}

/// The half of a channel that updates of a timeline come out of. There is one
/// for each channel.
#[verifier::reject_recursive_types(I)]
pub struct UpdateReceiver<I> {
    half: Receiver<TimelineUpdate<I>>,
    channel: Ghost<int>,
}

impl<I> UpdateSender<I> {
    /// The channel that is fed.
    pub closed spec fn channel(self) -> int {
        self.channel@
    }

    /// The half itself.
    pub closed spec fn half(self) -> Sender<TimelineUpdate<I>> {
        self.half
    }

    /// Returns the half itself, to send updates on.
    pub fn as_half(&self) -> (half: &Sender<TimelineUpdate<I>>)
        ensures
            *half == self.half(),
    {
        &self.half
    }
}

impl<I> Clone for UpdateSender<I> {
    /// Returns another sender of the same channel.
    fn clone(&self) -> (copy: Self)
        ensures
            copy == *self,
    {
        UpdateSender { half: self.half.clone(), channel: self.channel }
    }
}

impl<I> UpdateReceiver<I> {
    /// The channel whose updates come out.
    pub closed spec fn channel(self) -> int {
        self.channel@
    }

    /// The half itself.
    pub closed spec fn half(self) -> Receiver<TimelineUpdate<I>> {
        self.half
    }

    /// Returns the half itself, to receive updates from.
    pub fn into_half(self) -> (half: Receiver<TimelineUpdate<I>>)
        ensures
            half == self.half(),
    {
        self.half
    }
}

/// Makes a channel that holds any number of updates, by
/// `crossbeam_channel::unbounded`.
///
/// Taken on trust: what is sent on the one half comes out of the other, so the
/// two halves belong to one channel; and the channel is new, so it is none of
/// those that the senders of the known rooms keep alive.
#[verifier::external_body]
fn unbounded_channel<T, I, J>(_known: &AllRoomInfo<T, I, J>) -> (halves: (
    UpdateSender<I>,
    UpdateReceiver<I>,
))
    ensures
        halves.0.channel() == halves.1.channel(),
        forall|id: Seq<char>| #[trigger]
            _known@.contains_key(id) ==> _known@[id].timeline_update_sender.channel()
                != halves.0.channel(),
{
    let (sender, receiver) = crossbeam_channel::unbounded();
    let channel: Ghost<int> = Ghost(arbitrary());
    (UpdateSender { half: sender, channel }, UpdateReceiver { half: receiver, channel })
}

/// Makes a channel for the updates of a room that is not among the known ones.
pub fn update_channel<T, I, J>(known: &AllRoomInfo<T, I, J>) -> (halves: (
    UpdateSender<I>,
    UpdateReceiver<I>,
))
    ensures
        halves.0.channel() == halves.1.channel(),
        forall|id: Seq<char>| #[trigger]
            known@.contains_key(id) ==> known@[id].timeline_update_sender.channel()
                != halves.0.channel(),
{
    unbounded_channel(known)
}

} // verus!
