//! A mirror of a room's timeline, kept up to date by batches of changes.

use std::sync::Arc;

use eyeball_im::VectorDiff;
use vstd::prelude::*;

verus! {

/// What a view of a room's timeline is told about.
pub enum TimelineUpdate<I> {
    /// The items of the timeline, oldest first.
    NewItems(Vec<Arc<I>>),
    /// Older events are no longer being fetched.
    PaginationIdle,
    /// There are no events older than those already fetched.
    TimelineStartReached,
    /// The profiles of the room's members have been fetched.
    RoomMembersFetched,
}

/// The contents of a [`TimelineUpdate`].
pub enum TimelineUpdateView<I> {
    NewItems(Seq<Arc<I>>),
    PaginationIdle,
    TimelineStartReached,
    RoomMembersFetched,
}

impl<I> View for TimelineUpdate<I> {
    type V = TimelineUpdateView<I>;

    open spec fn view(&self) -> TimelineUpdateView<I> {
        match self {
            TimelineUpdate::NewItems(items) => TimelineUpdateView::NewItems(items@),
            TimelineUpdate::PaginationIdle => TimelineUpdateView::PaginationIdle,
            TimelineUpdate::TimelineStartReached => TimelineUpdateView::TimelineStartReached,
            TimelineUpdate::RoomMembersFetched => TimelineUpdateView::RoomMembersFetched,
        }
    }
}

/// One change of a list of timeline items.
pub enum TimelineDiff<I> {
    /// Items were added at the end.
    Append { values: Vec<Arc<I>> },
    /// All items were removed.
    Clear,
    /// An item was added at the start.
    PushFront { value: Arc<I> },
    /// An item was added at the end.
    PushBack { value: Arc<I> },
    /// The first item was removed, if there was one.
    PopFront,
    /// The last item was removed, if there was one.
    PopBack,
    /// An item was inserted; those from `index` on moved back by one.
    Insert { index: usize, value: Arc<I> },
    /// The item at `index` was replaced.
    Replace { index: usize, value: Arc<I> },
    /// The item at `index` was removed.
    Remove { index: usize },
    /// Only the first `length` items remain.
    Truncate { length: usize },
    /// The whole list was replaced.
    Reset { values: Vec<Arc<I>> },
}

impl<I> TimelineDiff<I> {
    /// Whether the change can be made to a list of `len` items: it names no
    /// position past the end.
    pub open spec fn fits(self, len: nat) -> bool {
        match self {
            TimelineDiff::Insert { index, .. } => index <= len,
            TimelineDiff::Replace { index, .. } => index < len,
            TimelineDiff::Remove { index } => index < len,
            _ => true,
        }
    }

    /// The list of items after the change.
    pub open spec fn applied_to(self, items: Seq<Arc<I>>) -> Seq<Arc<I>> {
        match self {
            TimelineDiff::Append { values } => items + values@,
            TimelineDiff::Clear => Seq::empty(),
            TimelineDiff::PushFront { value } => seq![value] + items,
            TimelineDiff::PushBack { value } => items.push(value),
            TimelineDiff::PopFront => if items.len() > 0 { items.skip(1) } else { items },
            TimelineDiff::PopBack => if items.len() > 0 { items.drop_last() } else { items },
            TimelineDiff::Insert { index, value } => items.insert(index as int, value),
            TimelineDiff::Replace { index, value } => items.update(index as int, value),
            TimelineDiff::Remove { index } => items.remove(index as int),
            TimelineDiff::Truncate { length } => if length < items.len() {
                items.take(length as int)
            } else {
                items
            },
            TimelineDiff::Reset { values } => values@,
        }
    }

    /// The length of the list after the change.
    pub open spec fn length_after(self, len: nat) -> nat {
        match self {
            TimelineDiff::Append { values } => len + values@.len(),
            TimelineDiff::Clear => 0,
            TimelineDiff::PushFront { .. } => len + 1,
            TimelineDiff::PushBack { .. } => len + 1,
            TimelineDiff::PopFront => if len > 0 { (len - 1) as nat } else { 0 },
            TimelineDiff::PopBack => if len > 0 { (len - 1) as nat } else { 0 },
            TimelineDiff::Insert { .. } => len + 1,
            TimelineDiff::Replace { .. } => len,
            TimelineDiff::Remove { .. } => (len - 1) as nat,
            TimelineDiff::Truncate { length } => if length < len { length as nat } else { len },
            TimelineDiff::Reset { values } => values@.len(),
        }
    }
}

/// Makes one change to a list of items, by `VectorDiff::apply` of the crate
/// `eyeball_im` on a `Vector` of the crate `imbl`.
///
/// Taken on trust: the vector holds the items of the list in order, and `apply`
/// makes the change that its variant describes. An index past the end, on which
/// `apply` panics, is left out.
#[verifier::external_body]
fn apply_diff<I>(items: Vec<Arc<I>>, diff: TimelineDiff<I>) -> (changed: Vec<Arc<I>>)
    requires
        diff.fits(items@.len()),
    ensures
        changed@ == diff.applied_to(items@),
{
    let mut vector = imbl::Vector::from(items);
    (match diff {
        TimelineDiff::Append { values } => VectorDiff::Append { values: values.into() },
        TimelineDiff::Clear => VectorDiff::Clear,
        TimelineDiff::PushFront { value } => VectorDiff::PushFront { value },
        TimelineDiff::PushBack { value } => VectorDiff::PushBack { value },
        TimelineDiff::PopFront => VectorDiff::PopFront,
        TimelineDiff::PopBack => VectorDiff::PopBack,
        TimelineDiff::Insert { index, value } => VectorDiff::Insert { index, value },
        TimelineDiff::Replace { index, value } => VectorDiff::Set { index, value },
        TimelineDiff::Remove { index } => VectorDiff::Remove { index },
        TimelineDiff::Truncate { length } => VectorDiff::Truncate { length },
        TimelineDiff::Reset { values } => VectorDiff::Reset { values: values.into() },
    }).apply(&mut vector);
    vector.into_iter().collect()
}

/// The list of items after a batch of changes, made in order.
pub open spec fn batch_applied<I>(items: Seq<Arc<I>>, batch: Seq<TimelineDiff<I>>) -> Seq<Arc<I>>
    decreases batch.len(),
{
    if batch.len() == 0 {
        items
    } else {
        batch.last().applied_to(batch_applied(items, batch.drop_last()))
    }
}

/// The length of a list of `len` items after a batch of changes.
pub open spec fn length_after_batch<I>(len: nat, batch: Seq<TimelineDiff<I>>) -> nat
    decreases batch.len(),
{
    if batch.len() == 0 {
        len
    } else {
        batch.last().length_after(length_after_batch(len, batch.drop_last()))
    }
}

/// Whether each change of a batch can be made to what the ones before it leave
/// of a list of `len` items.
pub open spec fn batch_fits<I>(len: nat, batch: Seq<TimelineDiff<I>>) -> bool {
    forall|i: int|
        0 <= i < batch.len() ==> (#[trigger] batch[i]).fits(length_after_batch(len, batch.take(i)))
}

/// A change that fits leaves a list of the length that `length_after` gives.
proof fn lemma_length_after<I>(items: Seq<Arc<I>>, diff: TimelineDiff<I>)
    requires
        diff.fits(items.len()),
    ensures
        diff.applied_to(items).len() == diff.length_after(items.len()),
{
}

/// A batch that fits leaves a list of the length that `length_after_batch` gives.
pub proof fn law_batch_length<I>(items: Seq<Arc<I>>, batch: Seq<TimelineDiff<I>>)
    requires
        batch_fits(items.len(), batch),
    ensures
        batch_applied(items, batch).len() == length_after_batch(items.len(), batch),
    decreases batch.len(),
{
    if batch.len() > 0 {
        let start = batch.drop_last();
        assert(batch.take(batch.len() - 1) =~= start);
        assert(batch[batch.len() - 1].fits(length_after_batch(items.len(), start)));
        lemma_fits_start(items.len(), batch, batch.len() - 1);
        law_batch_length(items, start);
        lemma_length_after(batch_applied(items, start), batch.last());
    }
}

/// The start of a batch that fits, fits.
proof fn lemma_fits_start<I>(len: nat, batch: Seq<TimelineDiff<I>>, n: int)
    requires
        0 <= n <= batch.len(),
        batch_fits(len, batch),
    ensures
        batch_fits(len, batch.take(n)),
{
    assert forall|i: int| 0 <= i < n implies (#[trigger] batch.take(n)[i]).fits(
        length_after_batch(len, batch.take(n).take(i)),
    ) by {
        assert(batch.take(n).take(i) =~= batch.take(i));
        assert(batch[i].fits(length_after_batch(len, batch.take(i))));
    }
}

/// Two batches, one after the other, leave the items that one batch of all
/// their changes leaves: how changes are grouped into batches does not matter.
pub proof fn law_batches_join<I>(
    items: Seq<Arc<I>>,
    first: Seq<TimelineDiff<I>>,
    second: Seq<TimelineDiff<I>>,
)
    ensures
        batch_applied(batch_applied(items, first), second) == batch_applied(items, first + second),
    decreases second.len(),
{
    if second.len() == 0 {
        assert(first + second =~= first);
    } else {
        law_batches_join(items, first, second.drop_last());
        assert((first + second).drop_last() =~= first + second.drop_last());
    }
}

/// One batch fits if and only if its start fits, and its rest fits what the
/// start leaves: how changes are grouped into batches does not matter for this
/// either.
pub proof fn law_batches_fit_together<I>(
    len: nat,
    first: Seq<TimelineDiff<I>>,
    second: Seq<TimelineDiff<I>>,
)
    ensures
        batch_fits(len, first + second) <==> batch_fits(len, first) && batch_fits(
            length_after_batch(len, first),
            second,
        ),
{
    let all = first + second;
    let middle = length_after_batch(len, first);
    if batch_fits(len, all) {
        lemma_fits_start(len, all, first.len() as int);
        assert(all.take(first.len() as int) =~= first);
        assert forall|i: int| 0 <= i < second.len() implies (#[trigger] second[i]).fits(
            length_after_batch(middle, second.take(i)),
        ) by {
            assert(all[first.len() + i].fits(length_after_batch(len, all.take(first.len() + i))));
            assert(all.take(first.len() + i) =~= first + second.take(i));
            lemma_lengths_join(len, first, second.take(i));
        }
    }
    if batch_fits(len, first) && batch_fits(middle, second) {
        assert forall|i: int| 0 <= i < all.len() implies (#[trigger] all[i]).fits(
            length_after_batch(len, all.take(i)),
        ) by {
            if i < first.len() {
                assert(all.take(i) =~= first.take(i));
                assert(first[i].fits(length_after_batch(len, first.take(i))));
            } else {
                let k = i - first.len();
                assert(all.take(i) =~= first + second.take(k));
                assert(second[k].fits(length_after_batch(middle, second.take(k))));
                lemma_lengths_join(len, first, second.take(k));
            }
        }
    }
}

/// The lengths that two batches leave, one after the other, and together.
proof fn lemma_lengths_join<I>(len: nat, first: Seq<TimelineDiff<I>>, second: Seq<TimelineDiff<I>>)
    ensures
        length_after_batch(length_after_batch(len, first), second) == length_after_batch(
            len,
            first + second,
        ),
    decreases second.len(),
{
    if second.len() == 0 {
        assert(first + second =~= first);
    } else {
        lemma_lengths_join(len, first, second.drop_last());
        assert((first + second).drop_last() =~= first + second.drop_last());
    }
}

/// After a change that resets or clears the list, what it held before no longer
/// matters.
pub proof fn law_reset_forgets<I>(
    left: Seq<Arc<I>>,
    right: Seq<Arc<I>>,
    reset: TimelineDiff<I>,
    rest: Seq<TimelineDiff<I>>,
)
    requires
        reset is Reset || reset is Clear,
    ensures
        batch_applied(left, seq![reset] + rest) == batch_applied(right, seq![reset] + rest),
{
    law_batches_join(left, seq![reset], rest);
    law_batches_join(right, seq![reset], rest);
    let only = seq![reset];
    assert(only.last() == reset && only.drop_last().len() == 0);
    assert(batch_applied(left, only) == reset.applied_to(batch_applied(left, only.drop_last())));
    assert(batch_applied(right, only) == reset.applied_to(batch_applied(right, only.drop_last())));
}

/// Whether a batch of changes can be made to a list of `len` items.
pub fn check_batch<I>(len: usize, batch: &Vec<TimelineDiff<I>>) -> (fits: bool)
    ensures
        fits == batch_fits(len as nat, batch@),
{
    let mut length: u128 = len as u128;
    let mut i: usize = 0;
    while i < batch.len()
        invariant
            0 <= i <= batch.len(),
            length == length_after_batch(len as nat, batch@.take(i as int)),
            length <= (i + 1) * 0x1_0000_0000_0000_0000,
            batch_fits(len as nat, batch@.take(i as int)),
        decreases batch.len() - i,
    {
        let ghost done = batch@.take(i as int);
        let diff = &batch[i];
        proof {
            assert(batch@.take(i + 1).drop_last() =~= done);
            assert(batch@.take(i + 1).last() == *diff);
            assert((i + 2) * 0x1_0000_0000_0000_0000 == (i + 1) * 0x1_0000_0000_0000_0000
                + 0x1_0000_0000_0000_0000);
        }
        let fits = match diff {
            TimelineDiff::Insert { index, .. } => *index as u128 <= length,
            TimelineDiff::Replace { index, .. } => (*index as u128) < length,
            TimelineDiff::Remove { index } => (*index as u128) < length,
            _ => true,
        };
        if !fits {
            proof {
                assert(!batch[i as int].fits(length_after_batch(len as nat, batch@.take(i as int))));
            }
            return false;
        }
        length = match diff {
            TimelineDiff::Append { values } => length + values.len() as u128,
            TimelineDiff::Clear => 0,
            TimelineDiff::PushFront { .. } => length + 1,
            TimelineDiff::PushBack { .. } => length + 1,
            TimelineDiff::PopFront => if length > 0 { length - 1 } else { 0 },
            TimelineDiff::PopBack => if length > 0 { length - 1 } else { 0 },
            TimelineDiff::Insert { .. } => length + 1,
            TimelineDiff::Replace { .. } => length,
            TimelineDiff::Remove { .. } => length - 1,
            TimelineDiff::Truncate { length: kept } => if (*kept as u128) < length {
                *kept as u128
            } else {
                length
            },
            TimelineDiff::Reset { values } => values.len() as u128,
        };
        proof {
            assert forall|j: int| 0 <= j < i + 1 implies (#[trigger] batch@.take(i + 1)[j]).fits(
                length_after_batch(len as nat, batch@.take(i + 1).take(j)),
            ) by {
                assert(batch@.take(i + 1).take(j) =~= batch@.take(j));
                if j < i {
                    assert(done[j].fits(length_after_batch(len as nat, done.take(j))));
                    assert(done.take(j) =~= batch@.take(j));
                }
            }
        }
        i += 1;
    }
    assert(batch@.take(i as int) =~= batch@);
    true
}

/// Returns a list that shares the items of `items`.
fn share_items<I>(items: &Vec<Arc<I>>) -> (shared: Vec<Arc<I>>)
    ensures
        shared@ == items@,
{
    let mut shared: Vec<Arc<I>> = Vec::with_capacity(items.len());
    let mut i: usize = 0;
    while i < items.len()
        invariant
            0 <= i <= items.len(),
            shared@ == items@.take(i as int),
        decreases items.len() - i,
    {
        shared.push(items[i].clone());
        assert(items@.take(i + 1) =~= items@.take(i as int).push(items@[i as int]));
        i += 1;
    }
    assert(items@.take(i as int) =~= items@);
    shared
}

/// What the subscriber of a timeline is to do next.
pub enum SubscriberAction<I> {
    /// Hand an update to the view of the timeline, and then, where `signal_ui`
    /// holds, wake the user interface.
    Send { update: TimelineUpdate<I>, signal_ui: bool },
    /// End: the timeline gives no further changes.
    Stop,
}

/// A subscriber of a room's timeline: it mirrors the timeline's items.
pub struct TimelineSubscriber<I> {
    items: Vec<Arc<I>>,
}

impl<I> View for TimelineSubscriber<I> {
    type V = Seq<Arc<I>>;

    closed spec fn view(&self) -> Seq<Arc<I>> {
        self.items@
    }
}

impl<I> TimelineSubscriber<I> {
    /// Starts from the items that the timeline holds at first, which are handed
    /// on at once.
    pub fn start(items: Vec<Arc<I>>) -> (started: (Self, SubscriberAction<I>))
        ensures
            started.0@ == items@,
            started.1 matches SubscriberAction::Send { update, signal_ui } && update@
                == TimelineUpdateView::NewItems(items@) && !signal_ui,
    {
        let update = TimelineUpdate::NewItems(share_items(&items));
        (TimelineSubscriber { items }, SubscriberAction::Send { update, signal_ui: false })
    }

    /// The number of items in the mirrored timeline.
    pub fn len(&self) -> (len: usize)
        ensures
            len == self@.len(),
    {
        self.items.len()
    }

    /// Takes the next batch of changes, or `None` once the timeline gives no
    /// more. Each batch, an empty one too, is followed by the whole list of
    /// items.
    pub fn step(&mut self, batch: Option<Vec<TimelineDiff<I>>>) -> (action: SubscriberAction<I>)
        requires
            batch matches Some(diffs) ==> batch_fits(old(self)@.len(), diffs@),
        ensures
            match batch {
                Some(diffs) => {
                    &&& final(self)@ == batch_applied(old(self)@, diffs@)
                    &&& action matches SubscriberAction::Send { update, signal_ui } && update@
                        == TimelineUpdateView::NewItems(final(self)@) && signal_ui
                },
                None => final(self)@ == old(self)@ && action is Stop,
            },
    {
        let diffs = match batch {
            Some(diffs) => diffs,
            None => return SubscriberAction::Stop,
        };
        let ghost before = self.items@;
        let ghost all = diffs@;
        let mut items: Vec<Arc<I>> = Vec::new();
        std::mem::swap(&mut items, &mut self.items);
        assert(all.take(0) =~= Seq::empty());
        for diff in remaining: diffs
            invariant
                remaining.seq() == all,
                items@ == batch_applied(before, all.take(remaining.index())),
                batch_fits(before.len(), all),
        {
            proof {
                let done = remaining.index();
                lemma_fits_start(before.len(), all, done);
                law_batch_length(before, all.take(done));
                assert(all[done].fits(length_after_batch(before.len(), all.take(done))));
                assert(all.take(done + 1).drop_last() =~= all.take(done));
                assert(all.take(done + 1).last() == diff);
            }
            items = apply_diff(items, diff);
        }
        assert(all.take(all.len() as int) =~= all);
        let update = TimelineUpdate::NewItems(share_items(&items));
        self.items = items;
        SubscriberAction::Send { update, signal_ui: true }
    }
}

} // verus!
