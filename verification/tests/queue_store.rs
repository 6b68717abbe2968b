use pdcst::queue::{plan_auto_enqueue, EnqueueDecision, QueueEntry, QueueItem};
use pdcst::queue_store::QueueManager;

fn ids(q: &QueueManager) -> Vec<u128> {
    q.episode_ids()
}

fn positions(q: &QueueManager) -> Vec<i64> {
    q.get_queue().iter().map(|i| i.position).collect()
}

#[test]
fn adding_appends_at_the_end() {
    let mut q = QueueManager::new();
    assert!(q.get_next().is_none());
    let a = q.add_episode(10);
    assert_eq!(a.position, 0);
    let b = q.add_episode(20);
    assert_eq!(b.position, 1);
    assert_eq!(ids(&q), vec![10, 20]);
    assert_eq!(q.get_next().map(|i| i.episode_id), Some(10));
    assert_ne!(a.id, b.id);
}

#[test]
fn inserting_shifts_later_items_down() {
    let mut q = QueueManager::new();
    q.add_episode(1);
    q.add_episode(2);
    q.add_episode(3);
    q.insert_at(QueueItem::new(9, 1), 1);
    assert_eq!(ids(&q), vec![1, 9, 2, 3]);
    assert_eq!(positions(&q), vec![0, 1, 2, 3]);
    q.insert_at(QueueItem::new(8, 0), 4);
    assert_eq!(ids(&q), vec![1, 9, 2, 3, 8]);
    assert_eq!(q.get_queue()[4].position, 4);
}

#[test]
fn removing_renumbers_the_rest() {
    let mut q = QueueManager::new();
    for e in [1, 2, 3, 2] {
        q.add_episode(e);
    }
    q.remove_episode(2);
    assert_eq!(ids(&q), vec![1, 3]);
    assert_eq!(positions(&q), vec![0, 1]);
    q.remove_episode(42);
    assert_eq!(ids(&q), vec![1, 3]);
    let before = q.get_queue().clone();
    q.add_episode(7);
    q.remove_episode(7);
    assert_eq!(q.get_queue(), &before, "adding then removing restores the queue");
}

#[test]
fn moving_swaps_with_a_neighbour() {
    let mut q = QueueManager::new();
    for e in [1, 2, 3] {
        q.add_episode(e);
    }
    assert!(!q.move_up(1), "already first");
    assert!(!q.move_down(3), "already last");
    assert!(!q.move_up(99));
    assert!(q.move_up(3));
    assert_eq!(ids(&q), vec![1, 3, 2]);
    assert_eq!(positions(&q), vec![0, 1, 2]);
    assert!(q.move_down(3));
    assert_eq!(ids(&q), vec![1, 2, 3]);
    q.clear();
    assert_eq!(q.len(), 0);
}

#[test]
fn auto_enqueue_plan_applies_to_the_queue() {
    let mut q = QueueManager::new();
    q.add_episode(100);
    q.add_episode(101);
    let entries = vec![
        QueueEntry { episode_id: 100, subscription_id: 1 },
        QueueEntry { episode_id: 101, subscription_id: 2 },
    ];
    // Newest to the top, but the playing head stays put.
    match plan_auto_enqueue(&entries, 102, 3, Some(100), true, 0, false) {
        EnqueueDecision::InsertAt(p) => {
            assert_eq!(p, 1);
            q.insert_at(QueueItem::new(102, p as i64), p);
        }
        other => panic!("unexpected {other:?}"),
    }
    assert_eq!(ids(&q), vec![100, 102, 101]);
}

#[test]
fn advancing_drops_the_finished_episode() {
    let mut q = QueueManager::new();
    for e in [5, 6, 7] {
        q.add_episode(e);
    }
    assert_eq!(q.advance(5).map(|i| i.episode_id), Some(6));
    assert_eq!(q.advance(42).map(|i| i.episode_id), Some(6), "an unqueued episode leaves the queue as is");
    q.advance(6);
    assert_eq!(q.advance(7), None);
}
