use pdcst::queue::{
    move_down_position, move_up_position, nearest_legal_position, plan_auto_enqueue,
    EnqueueDecision, QueueEntry, QueueItem, QueueOrdering, QueuePriority,
};

#[test]
fn empty_queue_takes_the_start_position() {
    let a = 1u128;
    assert_eq!(nearest_legal_position(&[], a, 0, 0, true), 0);
    assert_eq!(nearest_legal_position(&[], a, 0, 0, false), 0);
}

#[test]
fn push_backs_off_from_a_same_podcast_tail() {
    let a = 1u128;
    let b = 2u128;
    let subs = [a, a, b];
    assert_eq!(nearest_legal_position(&subs, b, 3, 0, false), 1);
}

#[test]
fn push_at_tail_is_legal_when_different() {
    let a = 1u128;
    let b = 2u128;
    let subs = [a, b];
    assert_eq!(nearest_legal_position(&subs, a, 2, 0, false), 2);
}

#[test]
fn unshift_skips_forward_past_same_podcast() {
    let a = 1u128;
    let b = 2u128;
    let subs = [a, b];
    assert_eq!(nearest_legal_position(&subs, a, 0, 0, true), 2);
}

#[test]
fn floor_protects_the_current_head() {
    let a = 1u128;
    let b = 2u128;
    let subs = [a, a];
    let pos = nearest_legal_position(&subs, b, 1, 1, true);
    assert!(pos >= 1, "never inserts before the protected head");
    assert_eq!(pos, 1);
}

#[test]
fn no_legal_position_falls_back_to_start() {
    let a = 1u128;
    assert_eq!(nearest_legal_position(&[a], a, 1, 0, false), 1);
    assert_eq!(nearest_legal_position(&[a], a, 0, 0, true), 0);
}

fn entry(episode_id: u128, subscription_id: u128) -> QueueEntry {
    QueueEntry {
        episode_id,
        subscription_id,
    }
}

#[test]
fn auto_enqueue_respects_depth_and_duplicates() {
    let q = vec![entry(10, 1), entry(11, 2)];
    assert_eq!(
        plan_auto_enqueue(&q, 12, 3, None, false, 2, true),
        EnqueueDecision::QueueFull
    );
    assert_eq!(
        plan_auto_enqueue(&q, 11, 2, None, false, 0, true),
        EnqueueDecision::AlreadyQueued
    );
    assert_eq!(
        plan_auto_enqueue(&q, 12, 3, None, false, 0, false),
        EnqueueDecision::InsertAt(2)
    );
}

#[test]
fn auto_enqueue_never_displaces_the_playing_head() {
    let q = vec![entry(10, 1), entry(11, 2)];
    // Head 10 is playing: unshift lands below it.
    assert_eq!(
        plan_auto_enqueue(&q, 12, 3, Some(10), true, 0, false),
        EnqueueDecision::InsertAt(1)
    );
    // Not playing: unshift goes to the very top.
    assert_eq!(
        plan_auto_enqueue(&q, 12, 3, Some(99), true, 0, false),
        EnqueueDecision::InsertAt(0)
    );
}

#[test]
fn auto_enqueue_interleaves() {
    // [a, a, b]; pushing another b backs off to sit between the two shows.
    let q = vec![entry(10, 1), entry(11, 1), entry(12, 2)];
    assert_eq!(
        plan_auto_enqueue(&q, 13, 2, None, false, 20, true),
        EnqueueDecision::InsertAt(1)
    );
    // Unshifting an `a` skips past the run of `a`s.
    let q = vec![entry(10, 1), entry(11, 2)];
    assert_eq!(
        plan_auto_enqueue(&q, 13, 1, None, true, 20, true),
        EnqueueDecision::InsertAt(2)
    );
}

#[test]
fn moving_up_and_down() {
    let ids = [5u128, 6, 7];
    assert_eq!(move_up_position(&ids, 6), Some(0));
    assert_eq!(move_up_position(&ids, 5), None);
    assert_eq!(move_up_position(&ids, 9), None);
    assert_eq!(move_down_position(&ids, 6), Some(2));
    assert_eq!(move_down_position(&ids, 7), None);
    assert_eq!(move_down_position(&ids, 9), None);
}

fn item(id: u128, position: i64, priority: QueuePriority, added_at: i128) -> QueueItem {
    QueueItem {
        id,
        episode_id: id + 100,
        position,
        priority,
        added_at,
    }
}

fn ids(items: &[QueueItem]) -> Vec<u128> {
    items.iter().map(|i| i.id).collect()
}

#[test]
fn orderings_sort_stably() {
    let base = vec![
        item(1, 2, QueuePriority::Low, 30),
        item(2, 0, QueuePriority::High, 10),
        item(3, 1, QueuePriority::Low, 20),
        item(4, 3, QueuePriority::High, 10),
    ];
    let mut v = base.clone();
    QueueOrdering::Manual.sort(&mut v);
    assert_eq!(ids(&v), vec![2, 3, 1, 4]);
    let mut v = base.clone();
    QueueOrdering::DateAscending.sort(&mut v);
    assert_eq!(ids(&v), vec![2, 4, 3, 1]);
    let mut v = base.clone();
    QueueOrdering::DateDescending.sort(&mut v);
    assert_eq!(ids(&v), vec![1, 3, 2, 4]);
    let mut v = base.clone();
    QueueOrdering::Priority.sort(&mut v);
    assert_eq!(ids(&v), vec![2, 4, 1, 3]);
}

#[test]
fn ordering_labels() {
    assert_eq!(QueueOrdering::Manual.as_str(), "Manual");
    assert_eq!(QueueOrdering::DateAscending.as_str(), "Date (Oldest First)");
    assert_eq!(QueueOrdering::DateDescending.as_str(), "Date (Newest First)");
    assert_eq!(QueueOrdering::Priority.as_str(), "Priority");
}

#[test]
fn queue_priority_labels_round_trip() {
    for p in [QueuePriority::High, QueuePriority::Medium, QueuePriority::Low] {
        assert_eq!(QueuePriority::parse_label(p.as_str()), p);
    }
    assert_eq!(QueuePriority::parse_label("urgent"), QueuePriority::Medium);
}

#[test]
fn new_queue_items_get_fresh_ids_and_the_current_time() {
    let a = QueueItem::new(7, 3);
    let b = QueueItem::new(7, 3);
    assert_eq!(a.episode_id, 7);
    assert_eq!(a.position, 3);
    assert_eq!(a.priority, QueuePriority::Medium);
    assert_ne!(a.id, b.id);
    // Queued after 2020-01-01.
    assert!(a.added_at > 1_577_836_800_000_000_000);
    assert!(b.added_at >= a.added_at);
}
