//! Laws of the subscriber of a timeline.

use std::sync::Arc;

use vstd::prelude::*;

use crate::timeline::{
    batch_applied, check_batch, law_batch_length, law_batches_fit_together, law_batches_join,
    length_after_batch, SubscriberAction, TimelineDiff, TimelineSubscriber, TimelineUpdate,
};

verus! {

/// A subscriber starts as a mirror of the items it is given, and hands on these
/// very items, without waking the user interface.
pub proof fn law_start_hands_on_the_items<I>(
    items: Vec<Arc<I>>,
    started: (TimelineSubscriber<I>, SubscriberAction<I>),
)
    requires
        call_ensures(TimelineSubscriber::<I>::start, (items,), started),
    ensures
        started.0@.len() == items@.len(),
        forall|k: int| 0 <= k < items@.len() ==> #[trigger] started.0@[k] == items@[k],
        started.1 matches SubscriberAction::Send {
            update: TimelineUpdate::NewItems(sent),
            signal_ui: false,
        } && sent@ =~= items@,
{
}

/// The length that a subscriber gives is that of the mirrored list.
pub proof fn law_len_is_the_number_of_items<I>(subscriber: TimelineSubscriber<I>, len: usize)
    requires
        call_ensures(TimelineSubscriber::<I>::len, (&subscriber,), len),
    ensures
        len as int == subscriber@.len(),
{
}

/// After every batch the whole mirrored list is handed on, and the user
/// interface is woken.
pub proof fn law_every_batch_is_followed_by_all_items<I>(
    subscriber: &mut TimelineSubscriber<I>,
    batch: Vec<TimelineDiff<I>>,
    action: SubscriberAction<I>,
)
    requires
        call_ensures(TimelineSubscriber::<I>::step, (subscriber, Some(batch)), action),
    ensures
        action matches SubscriberAction::Send {
            update: TimelineUpdate::NewItems(sent),
            signal_ui: true,
        } && sent@ =~= final(subscriber)@,
{
}

/// The end of the changes stops the subscriber and leaves the mirrored list.
pub proof fn law_end_stops_the_subscriber<I>(
    subscriber: &mut TimelineSubscriber<I>,
    action: SubscriberAction<I>,
)
    requires
        call_ensures(TimelineSubscriber::<I>::step, (subscriber, None), action),
    ensures
        action is Stop,
        final(subscriber)@ == old(subscriber)@,
{
}

/// An empty batch leaves the mirrored list.
pub proof fn law_empty_batch_changes_nothing<I>(
    subscriber: &mut TimelineSubscriber<I>,
    batch: Vec<TimelineDiff<I>>,
    action: SubscriberAction<I>,
)
    requires
        batch@.len() == 0,
        call_ensures(TimelineSubscriber::<I>::step, (subscriber, Some(batch)), action),
    ensures
        final(subscriber)@ == old(subscriber)@,
{
}

/// A batch can be split anywhere: two batches, one after the other, leave the
/// items that one batch of all their changes leaves.
pub proof fn law_batch_can_be_split<I>(
    first: &mut TimelineSubscriber<I>,
    first_batch: Vec<TimelineDiff<I>>,
    first_action: SubscriberAction<I>,
    second: &mut TimelineSubscriber<I>,
    second_batch: Vec<TimelineDiff<I>>,
    second_action: SubscriberAction<I>,
    whole: &mut TimelineSubscriber<I>,
    whole_batch: Vec<TimelineDiff<I>>,
    whole_action: SubscriberAction<I>,
)
    requires
        call_ensures(TimelineSubscriber::<I>::step, (first, Some(first_batch)), first_action),
        call_ensures(TimelineSubscriber::<I>::step, (second, Some(second_batch)), second_action),
        call_ensures(TimelineSubscriber::<I>::step, (whole, Some(whole_batch)), whole_action),
        old(second)@ == final(first)@,
        old(whole)@ == old(first)@,
        whole_batch@ == first_batch@ + second_batch@,
    ensures
        final(whole)@ == final(second)@,
{
    law_batches_join(old(first)@, first_batch@, second_batch@);
}

/// Items appended come after those already there.
pub proof fn law_append<I>(
    subscriber: &mut TimelineSubscriber<I>,
    batch: Vec<TimelineDiff<I>>,
    values: Vec<Arc<I>>,
    action: SubscriberAction<I>,
)
    requires
        batch@ == seq![TimelineDiff::Append { values }],
        call_ensures(TimelineSubscriber::<I>::step, (subscriber, Some(batch)), action),
    ensures
        final(subscriber)@.len() == old(subscriber)@.len() + values@.len(),
        forall|k: int|
            0 <= k < old(subscriber)@.len() ==> #[trigger] final(subscriber)@[k] == old(
                subscriber,
            )@[k],
        forall|k: int|
            0 <= k < values@.len() ==> final(subscriber)@[old(subscriber)@.len() + k]
                == #[trigger] values@[k],
{
    reveal_with_fuel(batch_applied, 2);
    assert(batch@.drop_last() =~= Seq::empty());
}

/// Clearing leaves no items.
pub proof fn law_clear<I>(
    subscriber: &mut TimelineSubscriber<I>,
    batch: Vec<TimelineDiff<I>>,
    action: SubscriberAction<I>,
)
    requires
        batch@ == seq![TimelineDiff::<I>::Clear],
        call_ensures(TimelineSubscriber::<I>::step, (subscriber, Some(batch)), action),
    ensures
        final(subscriber)@.len() == 0,
{
    reveal_with_fuel(batch_applied, 2);
    assert(batch@.drop_last() =~= Seq::empty());
}

/// An item pushed at the start comes first; the others move back by one.
pub proof fn law_push_front<I>(
    subscriber: &mut TimelineSubscriber<I>,
    batch: Vec<TimelineDiff<I>>,
    value: Arc<I>,
    action: SubscriberAction<I>,
)
    requires
        batch@ == seq![TimelineDiff::PushFront { value }],
        call_ensures(TimelineSubscriber::<I>::step, (subscriber, Some(batch)), action),
    ensures
        final(subscriber)@.len() == old(subscriber)@.len() + 1,
        final(subscriber)@[0] == value,
        forall|k: int|
            0 <= k < old(subscriber)@.len() ==> final(subscriber)@[k + 1] == #[trigger] old(
                subscriber,
            )@[k],
{
    reveal_with_fuel(batch_applied, 2);
    assert(batch@.drop_last() =~= Seq::empty());
}

/// An item pushed at the end comes last; the others stay.
pub proof fn law_push_back<I>(
    subscriber: &mut TimelineSubscriber<I>,
    batch: Vec<TimelineDiff<I>>,
    value: Arc<I>,
    action: SubscriberAction<I>,
)
    requires
        batch@ == seq![TimelineDiff::PushBack { value }],
        call_ensures(TimelineSubscriber::<I>::step, (subscriber, Some(batch)), action),
    ensures
        final(subscriber)@.len() == old(subscriber)@.len() + 1,
        final(subscriber)@[old(subscriber)@.len() as int] == value,
        forall|k: int|
            0 <= k < old(subscriber)@.len() ==> #[trigger] final(subscriber)@[k] == old(
                subscriber,
            )@[k],
{
    reveal_with_fuel(batch_applied, 2);
    assert(batch@.drop_last() =~= Seq::empty());
}

/// Popping at the start takes the first item out, if there is one.
pub proof fn law_pop_front<I>(
    subscriber: &mut TimelineSubscriber<I>,
    batch: Vec<TimelineDiff<I>>,
    action: SubscriberAction<I>,
)
    requires
        batch@ == seq![TimelineDiff::<I>::PopFront],
        call_ensures(TimelineSubscriber::<I>::step, (subscriber, Some(batch)), action),
    ensures
        old(subscriber)@.len() == 0 ==> final(subscriber)@.len() == 0,
        old(subscriber)@.len() > 0 ==> final(subscriber)@.len() == old(subscriber)@.len() - 1,
        forall|k: int|
            0 <= k < final(subscriber)@.len() ==> #[trigger] final(subscriber)@[k] == old(
                subscriber,
            )@[k + 1],
{
    reveal_with_fuel(batch_applied, 2);
    assert(batch@.drop_last() =~= Seq::empty());
}

/// Popping at the end takes the last item out, if there is one.
pub proof fn law_pop_back<I>(
    subscriber: &mut TimelineSubscriber<I>,
    batch: Vec<TimelineDiff<I>>,
    action: SubscriberAction<I>,
)
    requires
        batch@ == seq![TimelineDiff::<I>::PopBack],
        call_ensures(TimelineSubscriber::<I>::step, (subscriber, Some(batch)), action),
    ensures
        old(subscriber)@.len() == 0 ==> final(subscriber)@.len() == 0,
        old(subscriber)@.len() > 0 ==> final(subscriber)@.len() == old(subscriber)@.len() - 1,
        forall|k: int|
            0 <= k < final(subscriber)@.len() ==> #[trigger] final(subscriber)@[k] == old(
                subscriber,
            )@[k],
{
    reveal_with_fuel(batch_applied, 2);
    assert(batch@.drop_last() =~= Seq::empty());
}

/// An item inserted stands at its index, which may be the end of the list; those
/// before it stay, those from there on move back by one.
pub proof fn law_insert<I>(
    subscriber: &mut TimelineSubscriber<I>,
    batch: Vec<TimelineDiff<I>>,
    index: usize,
    value: Arc<I>,
    action: SubscriberAction<I>,
)
    requires
        batch@ == seq![TimelineDiff::Insert { index, value }],
        index <= old(subscriber)@.len(),
        call_ensures(TimelineSubscriber::<I>::step, (subscriber, Some(batch)), action),
    ensures
        final(subscriber)@.len() == old(subscriber)@.len() + 1,
        final(subscriber)@[index as int] == value,
        forall|k: int|
            0 <= k < index ==> #[trigger] final(subscriber)@[k] == old(subscriber)@[k],
        forall|k: int|
            index <= k < old(subscriber)@.len() ==> final(subscriber)@[k + 1] == #[trigger] old(
                subscriber,
            )@[k],
{
    reveal_with_fuel(batch_applied, 2);
    assert(batch@.drop_last() =~= Seq::empty());
}

/// A replaced item gives way to the new one, wherever it stands, the last place
/// included; every other item stays.
pub proof fn law_replace<I>(
    subscriber: &mut TimelineSubscriber<I>,
    batch: Vec<TimelineDiff<I>>,
    index: usize,
    value: Arc<I>,
    action: SubscriberAction<I>,
)
    requires
        batch@ == seq![TimelineDiff::Replace { index, value }],
        index < old(subscriber)@.len(),
        call_ensures(TimelineSubscriber::<I>::step, (subscriber, Some(batch)), action),
    ensures
        final(subscriber)@.len() == old(subscriber)@.len(),
        final(subscriber)@[index as int] == value,
        forall|k: int|
            0 <= k < old(subscriber)@.len() && k != index ==> #[trigger] final(subscriber)@[k]
                == old(subscriber)@[k],
{
    reveal_with_fuel(batch_applied, 2);
    assert(batch@.drop_last() =~= Seq::empty());
}

/// A removed item is gone; those after it move up by one.
pub proof fn law_remove<I>(
    subscriber: &mut TimelineSubscriber<I>,
    batch: Vec<TimelineDiff<I>>,
    index: usize,
    action: SubscriberAction<I>,
)
    requires
        batch@ == seq![TimelineDiff::<I>::Remove { index }],
        index < old(subscriber)@.len(),
        call_ensures(TimelineSubscriber::<I>::step, (subscriber, Some(batch)), action),
    ensures
        final(subscriber)@.len() == old(subscriber)@.len() - 1,
        forall|k: int|
            0 <= k < index ==> #[trigger] final(subscriber)@[k] == old(subscriber)@[k],
        forall|k: int|
            index <= k < final(subscriber)@.len() ==> #[trigger] final(subscriber)@[k] == old(
                subscriber,
            )@[k + 1],
{
    reveal_with_fuel(batch_applied, 2);
    assert(batch@.drop_last() =~= Seq::empty());
}

/// Truncating keeps the first items, as many as asked for or as there are.
pub proof fn law_truncate<I>(
    subscriber: &mut TimelineSubscriber<I>,
    batch: Vec<TimelineDiff<I>>,
    length: usize,
    action: SubscriberAction<I>,
)
    requires
        batch@ == seq![TimelineDiff::<I>::Truncate { length }],
        call_ensures(TimelineSubscriber::<I>::step, (subscriber, Some(batch)), action),
    ensures
        length <= old(subscriber)@.len() ==> final(subscriber)@.len() == length,
        length >= old(subscriber)@.len() ==> final(subscriber)@.len() == old(subscriber)@.len(),
        forall|k: int|
            0 <= k < final(subscriber)@.len() ==> #[trigger] final(subscriber)@[k] == old(
                subscriber,
            )@[k],
{
    reveal_with_fuel(batch_applied, 2);
    assert(batch@.drop_last() =~= Seq::empty());
}

/// Resetting leaves the given items and no others.
pub proof fn law_reset<I>(
    subscriber: &mut TimelineSubscriber<I>,
    batch: Vec<TimelineDiff<I>>,
    values: Vec<Arc<I>>,
    action: SubscriberAction<I>,
)
    requires
        batch@ == seq![TimelineDiff::Reset { values }],
        call_ensures(TimelineSubscriber::<I>::step, (subscriber, Some(batch)), action),
    ensures
        final(subscriber)@ =~= values@,
{
    reveal_with_fuel(batch_applied, 2);
    assert(batch@.drop_last() =~= Seq::empty());
}

/// A single change is found to fit exactly where it names no position past the
/// end: an insertion may come at the end, a replacement and a removal need an
/// item, and the others always fit.
pub proof fn law_single_change_fits<I>(
    len: usize,
    batch: Vec<TimelineDiff<I>>,
    diff: TimelineDiff<I>,
    fits: bool,
)
    requires
        batch@ == seq![diff],
        call_ensures(check_batch::<I>, (len, &batch), fits),
    ensures
        diff matches TimelineDiff::Insert { index, .. } ==> fits == (index <= len),
        diff matches TimelineDiff::Replace { index, .. } ==> fits == (index < len),
        diff matches TimelineDiff::Remove { index } ==> fits == (index < len),
        !(diff is Insert || diff is Replace || diff is Remove) ==> fits,
{
    let only = batch@;
    assert(only.take(0) =~= Seq::empty());
    assert(length_after_batch(len as nat, only.take(0)) == len);
    if diff.fits(len as nat) {
        assert forall|i: int| 0 <= i < only.len() implies (#[trigger] only[i]).fits(
            length_after_batch(len as nat, only.take(i)),
        ) by {
            assert(i == 0);
        }
    } else {
        assert(!only[0].fits(length_after_batch(len as nat, only.take(0))));
    }
}

/// An empty batch fits.
pub proof fn law_empty_batch_fits<I>(len: usize, batch: Vec<TimelineDiff<I>>, fits: bool)
    requires
        batch@.len() == 0,
        call_ensures(check_batch::<I>, (len, &batch), fits),
    ensures
        fits,
{
}

/// A batch fits exactly where its start fits, and its rest fits the list that a
/// subscriber holds after the start.
pub proof fn law_fitting_can_be_split<I>(
    len: usize,
    first_batch: Vec<TimelineDiff<I>>,
    first_fits: bool,
    subscriber: &mut TimelineSubscriber<I>,
    action: SubscriberAction<I>,
    len_after: usize,
    second_batch: Vec<TimelineDiff<I>>,
    second_fits: bool,
    whole_batch: Vec<TimelineDiff<I>>,
    whole_fits: bool,
)
    requires
        call_ensures(check_batch::<I>, (len, &first_batch), first_fits),
        call_ensures(check_batch::<I>, (len_after, &second_batch), second_fits),
        call_ensures(check_batch::<I>, (len, &whole_batch), whole_fits),
        call_ensures(TimelineSubscriber::<I>::step, (subscriber, Some(first_batch)), action),
        old(subscriber)@.len() == len,
        final(subscriber)@.len() == len_after,
        whole_batch@ == first_batch@ + second_batch@,
    ensures
        whole_fits ==> first_fits,
        first_fits ==> whole_fits == second_fits,
{
    law_batches_fit_together(len as nat, first_batch@, second_batch@);
    if first_fits {
        law_batch_length(old(subscriber)@, first_batch@);
    }
}

/// A batch that was found to fit can be handed to the subscriber, and so can the
/// end of the changes.
pub proof fn law_fitting_batch_is_accepted<I>(
    subscriber: &mut TimelineSubscriber<I>,
    len: usize,
    batch: Vec<TimelineDiff<I>>,
)
    requires
        call_ensures(TimelineSubscriber::<I>::len, (&*old(subscriber),), len),
        call_ensures(check_batch::<I>, (len, &batch), true),
    ensures
        call_requires(TimelineSubscriber::<I>::step, (subscriber, Some(batch))),
        call_requires(TimelineSubscriber::<I>::step, (subscriber, None)),
{
}

} // verus!
