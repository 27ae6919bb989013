use std::sync::Arc;

use robrix_sync::timeline::{check_batch, SubscriberAction, TimelineDiff, TimelineSubscriber, TimelineUpdate};

type Diff = TimelineDiff<u32>;

fn arcs(items: &[u32]) -> Vec<Arc<u32>> {
    items.iter().map(|item| Arc::new(*item)).collect()
}

/// The items that were sent, and whether the user interface is woken.
fn sent(action: SubscriberAction<u32>) -> (Vec<u32>, bool) {
    match action {
        SubscriberAction::Send { update: TimelineUpdate::NewItems(items), signal_ui } => {
            (items.iter().map(|item| **item).collect(), signal_ui)
        }
        _ => panic!("items were expected"),
    }
}

/// The items after a batch of changes of `start`.
fn after(start: &[u32], batch: Vec<Diff>) -> Vec<u32> {
    let (mut subscriber, _) = TimelineSubscriber::start(arcs(start));
    assert!(check_batch(subscriber.len(), &batch));
    let (items, signal_ui) = sent(subscriber.step(Some(batch)));
    assert!(signal_ui);
    assert_eq!(subscriber.len(), items.len());
    items
}

#[test]
fn initial_items_are_sent_without_a_signal() {
    let (_, action) = TimelineSubscriber::start(arcs(&[1, 2]));
    assert_eq!(sent(action), (vec![1, 2], false));
}

#[test]
fn append_adds_at_the_end() {
    assert_eq!(after(&[1], vec![Diff::Append { values: arcs(&[2, 3]) }]), vec![1, 2, 3]);
}

#[test]
fn clear_removes_all() {
    assert_eq!(after(&[1, 2], vec![Diff::Clear]), Vec::<u32>::new());
}

#[test]
fn push_front_and_back() {
    let batch = vec![Diff::PushFront { value: Arc::new(0) }, Diff::PushBack { value: Arc::new(9) }];
    assert_eq!(after(&[5], batch), vec![0, 5, 9]);
}

#[test]
fn pop_front_and_back() {
    assert_eq!(after(&[1, 2, 3], vec![Diff::PopFront]), vec![2, 3]);
    assert_eq!(after(&[1, 2, 3], vec![Diff::PopBack]), vec![1, 2]);
}

#[test]
fn pops_of_an_empty_list_do_nothing() {
    assert_eq!(after(&[], vec![Diff::PopFront, Diff::PopBack]), Vec::<u32>::new());
}

#[test]
fn insert_moves_the_rest_back() {
    assert_eq!(after(&[1, 3], vec![Diff::Insert { index: 1, value: Arc::new(2) }]), vec![1, 2, 3]);
    assert_eq!(after(&[1, 3], vec![Diff::Insert { index: 2, value: Arc::new(4) }]), vec![1, 3, 4]);
    assert_eq!(after(&[1, 3], vec![Diff::Insert { index: 0, value: Arc::new(0) }]), vec![0, 1, 3]);
}

#[test]
fn replace_changes_one_item() {
    assert_eq!(after(&[1, 2, 3], vec![Diff::Replace { index: 1, value: Arc::new(7) }]), vec![1, 7, 3]);
}

#[test]
fn remove_takes_one_item_out() {
    assert_eq!(after(&[1, 2, 3], vec![Diff::Remove { index: 1 }]), vec![1, 3]);
}

#[test]
fn truncate_keeps_the_start() {
    assert_eq!(after(&[1, 2, 3], vec![Diff::Truncate { length: 1 }]), vec![1]);
    assert_eq!(after(&[1, 2, 3], vec![Diff::Truncate { length: 3 }]), vec![1, 2, 3]);
    assert_eq!(after(&[1, 2, 3], vec![Diff::Truncate { length: 8 }]), vec![1, 2, 3]);
}

#[test]
fn reset_replaces_the_list() {
    assert_eq!(after(&[1, 2, 3], vec![Diff::Reset { values: arcs(&[8]) }]), vec![8]);
}

#[test]
fn reset_forgets_what_came_before() {
    let batch = || vec![Diff::Reset { values: arcs(&[8, 9]) }, Diff::PopFront];
    assert_eq!(after(&[1, 2, 3], batch()), after(&[], batch()));
}

#[test]
fn long_lists_keep_their_order() {
    let start: Vec<u32> = (0..1000).collect();
    let mut expected = start.clone();
    expected.remove(500);
    expected.insert(300, 7000);
    let batch = vec![Diff::Remove { index: 500 }, Diff::Insert { index: 300, value: Arc::new(7000) }];
    assert_eq!(after(&start, batch), expected);
}

#[test]
fn empty_batch_sends_the_items_again() {
    assert_eq!(after(&[1, 2], vec![]), vec![1, 2]);
}

#[test]
fn grouping_into_batches_does_not_matter() {
    let (mut subscriber, _) = TimelineSubscriber::start(arcs(&[1, 2, 3]));
    sent(subscriber.step(Some(vec![Diff::PopFront])));
    let (apart, _) = sent(subscriber.step(Some(vec![Diff::PushBack { value: Arc::new(4) }])));
    let together = after(&[1, 2, 3], vec![Diff::PopFront, Diff::PushBack { value: Arc::new(4) }]);
    assert_eq!(apart, together);
    assert_eq!(together, vec![2, 3, 4]);
}

#[test]
fn subscriber_stops_at_the_end() {
    let (mut subscriber, _) = TimelineSubscriber::start(arcs(&[1]));
    assert!(matches!(subscriber.step(None), SubscriberAction::Stop));
    assert_eq!(subscriber.len(), 1);
}

#[test]
fn batches_past_the_end_do_not_fit() {
    assert!(!check_batch(2, &vec![Diff::Insert { index: 3, value: Arc::new(0) }]));
    assert!(check_batch(2, &vec![Diff::Insert { index: 2, value: Arc::new(0) }]));
    assert!(!check_batch(2, &vec![Diff::Replace { index: 2, value: Arc::new(0) }]));
    assert!(!check_batch(0, &vec![Diff::Remove { index: 0 }]));
    assert!(!check_batch(2, &vec![Diff::PopBack, Diff::Remove { index: 1 }]));
    assert!(check_batch(0, &vec![Diff::Append { values: arcs(&[1, 2]) }, Diff::Remove { index: 1 }]));
}

#[test]
fn batches_fit_together_or_apart() {
    let first = vec![Diff::PopBack, Diff::PopBack];
    let second = vec![Diff::Remove { index: 0 }];
    let together = vec![Diff::PopBack, Diff::PopBack, Diff::Remove { index: 0 }];
    assert!(check_batch(3, &first) && check_batch(1, &second));
    assert!(check_batch(3, &together));
    assert!(!check_batch(0, &second));
    assert!(!check_batch(2, &together));
}
