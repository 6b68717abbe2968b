//! Up Next: the ordered queue of episodes to play.
//!
//! The queue is a list of items kept in play order with contiguous positions
//! `0..n`: every edit (append, insert at a position, remove, move one place)
//! renumbers so that an item's position is its index. Which episode an item
//! stands for, and where auto-enqueue inserts, is decided elsewhere
//! (`queue::plan_auto_enqueue`); marking episodes played and loading their
//! records is the caller's.
use crate::queue::{index_of, move_down_position, move_up_position, QueueItem};
use vstd::prelude::*;

verus! {

/// `s` with each item's position set to its index.
pub open spec fn renumbered(s: Seq<QueueItem>) -> Seq<QueueItem> {
    Seq::new(s.len(), |i: int| QueueItem { position: i as i64, ..s[i] })
}

/// Every item's position is its index.
pub open spec fn contiguous(s: Seq<QueueItem>) -> bool {
    forall|i: int| 0 <= i < s.len() ==> #[trigger] s[i].position == i
}

/// The episode ids of `s`, in order.
pub open spec fn episode_ids(s: Seq<QueueItem>) -> Seq<u128> {
    s.map_values(|x: QueueItem| x.episode_id)
}

/// `s` without the items for `episode_id`.
pub open spec fn without_episode(s: Seq<QueueItem>, episode_id: u128) -> Seq<QueueItem> {
    s.filter(|x: QueueItem| x.episode_id != episode_id)
}

/// The queue.
pub struct QueueManager {
    items: Vec<QueueItem>,
}

impl View for QueueManager {
    type V = Seq<QueueItem>;

    closed spec fn view(&self) -> Seq<QueueItem> {
        self.items@
    }
}

impl QueueManager {
    /// The queue's well-formedness: contiguous positions, and few enough items
    /// that every position fits in `i64`.
    pub open spec fn wf(&self) -> bool {
        &&& contiguous(self@)
        &&& self@.len() < i64::MAX
    }

    /// An empty queue.
    pub fn new() -> (q: QueueManager)
        ensures
            q@ == Seq::<QueueItem>::empty(),
            q.wf(),
    {
        QueueManager { items: Vec::new() }
    }

    /// The items in play order.
    pub fn get_queue(&self) -> (r: &Vec<QueueItem>)
        ensures
            r@ == self@,
    {
        &self.items
    }

    pub fn len(&self) -> (n: usize)
        ensures
            n == self@.len(),
    {
        self.items.len()
    }

    /// The item to play next: the head.
    pub fn get_next(&self) -> (r: Option<QueueItem>)
        ensures
            r == if self@.len() > 0 {
                Some(self@[0])
            } else {
                None::<QueueItem>
            },
    {
        if self.items.len() > 0 {
            Some(self.items[0])
        } else {
            None
        }
    }

    /// The episode ids in play order.
    pub fn episode_ids(&self) -> (ids: Vec<u128>)
        ensures
            ids@ == episode_ids(self@),
    {
        let mut ids: Vec<u128> = Vec::new();
        let mut i: usize = 0;
        while i < self.items.len()
            invariant
                0 <= i <= self@.len(),
                self@ == self.items@,
                ids@ == episode_ids(self@.take(i as int)),
            decreases self@.len() - i,
        {
            ids.push(self.items[i].episode_id);
            i = i + 1;
            assert(episode_ids(self@.take(i as int)) =~= episode_ids(self@.take(i - 1)).push(
                self@[i - 1].episode_id,
            ));
        }
        assert(self@.take(self@.len() as int) =~= self@);
        ids
    }

    /// Queue `episode_id` at the end.
    pub fn add_episode(&mut self, episode_id: u128) -> (item: QueueItem)
        requires
            old(self).wf(),
            old(self)@.len() + 1 < i64::MAX,
        ensures
            final(self).wf(),
            item.episode_id == episode_id,
            item.position == old(self)@.len(),
            final(self)@ == old(self)@.push(item),
    {
        let position = self.items.len() as i64;
        let item = QueueItem::new(episode_id, position);
        self.items.push(item);
        item
    }

    /// Insert `item` at `position`, shifting the items at or after it down one
    /// place, so the queue stays contiguous.
    pub fn insert_at(&mut self, item: QueueItem, position: usize)
        requires
            old(self).wf(),
            old(self)@.len() + 1 < i64::MAX,
            position <= old(self)@.len(),
        ensures
            final(self).wf(),
            final(self)@ == renumbered(old(self)@.insert(position as int, item)),
    {
        let n = self.items.len();
        let ghost target = renumbered(self@.insert(position as int, item));
        let mut out: Vec<QueueItem> = Vec::new();
        let mut k: usize = 0;
        while k < n
            invariant
                n == self@.len(),
                self@ == self.items@,
                position <= n,
                n + 1 < i64::MAX,
                0 <= k <= n,
                target == renumbered(self@.insert(position as int, item)),
                out@ == target.take(if k > position { k + 1 } else { k as int }),
            decreases n - k,
        {
            if k == position {
                out.push(QueueItem { position: k as i64, ..item });
                assert(out@ =~= target.take(k + 1));
            }
            let p = out.len() as i64;
            out.push(QueueItem { position: p, ..self.items[k] });
            k = k + 1;
            assert(out@ =~= target.take(if k > position { k + 1 } else { k as int }));
        }
        if position == n {
            out.push(QueueItem { position: n as i64, ..item });
        }
        assert(out@ =~= target);
        self.items = out;
    }

    /// Remove every item for `episode_id` and renumber the rest. A no-op when
    /// the episode is not queued.
    pub fn remove_episode(&mut self, episode_id: u128)
        requires
            old(self).wf(),
        ensures
            final(self).wf(),
            final(self)@ == renumbered(without_episode(old(self)@, episode_id)),
    {
        let ghost kept = without_episode(self@, episode_id);
        let mut out: Vec<QueueItem> = Vec::new();
        let mut i: usize = 0;
        while i < self.items.len()
            invariant
                0 <= i <= self@.len(),
                self@ == self.items@,
                self@.len() < i64::MAX,
                kept == without_episode(self@, episode_id),
                out@ == renumbered(without_episode(self@.take(i as int), episode_id)),
                out@.len() <= i,
            decreases self@.len() - i,
        {
            let it = self.items[i];
            proof {
                reveal(Seq::filter);
                assert(self@.take(i + 1).drop_last() =~= self@.take(i as int));
            }
            if it.episode_id != episode_id {
                let p = out.len() as i64;
                out.push(QueueItem { position: p, ..it });
            }
            i = i + 1;
            assert(out@ =~= renumbered(without_episode(self@.take(i as int), episode_id)));
        }
        assert(self@.take(self@.len() as int) =~= self@);
        proof {
            self@.lemma_filter_len(|x: QueueItem| x.episode_id != episode_id);
        }
        self.items = out;
    }

    /// Move `episode_id` one place towards the head, swapping it with the item
    /// before it. A no-op when it is not queued or already first.
    pub fn move_up(&mut self, episode_id: u128) -> (moved: bool)
        requires
            old(self).wf(),
        ensures
            final(self).wf(),
            moved == exists|i: int| index_of(episode_ids(old(self)@), episode_id, i) && i > 0,
            moved ==> exists|i: int|
                index_of(episode_ids(old(self)@), episode_id, i) && i > 0 && final(self)@
                    == swapped(old(self)@, i - 1),
            !moved ==> final(self)@ == old(self)@,
    {
        let ids = self.episode_ids();
        match move_up_position(ids.as_slice(), episode_id) {
            Some(p) => {
                let ghost i = choose|i: int| index_of(ids@, episode_id, i) && i > 0 && p == i - 1;
                let j = p as usize;
                self.swap_with_next(j);
                assert(index_of(episode_ids(old(self)@), episode_id, i));
                true
            },
            None => false,
        }
    }

    /// Move `episode_id` one place towards the tail, swapping it with the item
    /// after it. A no-op when it is not queued or already last.
    pub fn move_down(&mut self, episode_id: u128) -> (moved: bool)
        requires
            old(self).wf(),
        ensures
            final(self).wf(),
            moved == exists|i: int|
                index_of(episode_ids(old(self)@), episode_id, i) && i < old(self)@.len() - 1,
            moved ==> exists|i: int|
                index_of(episode_ids(old(self)@), episode_id, i) && i < old(self)@.len() - 1
                    && final(self)@ == swapped(old(self)@, i),
            !moved ==> final(self)@ == old(self)@,
    {
        let ids = self.episode_ids();
        match move_down_position(ids.as_slice(), episode_id) {
            Some(p) => {
                let ghost i = choose|i: int|
                    index_of(ids@, episode_id, i) && i < ids@.len() - 1 && p == i + 1;
                let j = (p - 1) as usize;
                self.swap_with_next(j);
                assert(index_of(episode_ids(old(self)@), episode_id, i));
                true
            },
            None => false,
        }
    }

    /// Swap the items at `j` and `j + 1`, keeping positions contiguous.
    fn swap_with_next(&mut self, j: usize)
        requires
            old(self).wf(),
            j + 1 < old(self)@.len(),
        ensures
            final(self).wf(),
            final(self)@ == swapped(old(self)@, j as int),
    {
        assert(self.items@ == self@);
        let n = self.items.len();
        assert(j + 1 < n);
        let a = self.items[j];
        let b = self.items[j + 1];
        self.items.set(j, QueueItem { position: j as i64, ..b });
        self.items.set(j + 1, QueueItem { position: (j + 1) as i64, ..a });
    }

    /// Advance past `finished_episode_id`: drop it from the queue (a no-op if
    /// it was not queued, e.g. played from the Episodes view) and return the
    /// item to play next. Marking it played is the caller's.
    pub fn advance(&mut self, finished_episode_id: u128) -> (next: Option<QueueItem>)
        requires
            old(self).wf(),
        ensures
            final(self).wf(),
            final(self)@ == renumbered(without_episode(old(self)@, finished_episode_id)),
            next == if final(self)@.len() > 0 {
                Some(final(self)@[0])
            } else {
                None::<QueueItem>
            },
    {
        self.remove_episode(finished_episode_id);
        self.get_next()
    }

    /// Empty the queue.
    pub fn clear(&mut self)
        ensures
            final(self)@ == Seq::<QueueItem>::empty(),
            final(self).wf(),
    {
        self.items = Vec::new();
    }
}

/// `s` with the items at `j` and `j + 1` exchanged, positions kept in order.
pub open spec fn swapped(s: Seq<QueueItem>, j: int) -> Seq<QueueItem> {
    s.update(j, QueueItem { position: j as i64, ..s[j + 1] }).update(
        j + 1,
        QueueItem { position: (j + 1) as i64, ..s[j] },
    )
}

// ---------------------------------------------------------------------------
// Laws.

/// Filtering out an episode that nothing stands for changes nothing.
proof fn lemma_without_absent(s: Seq<QueueItem>, episode_id: u128)
    requires
        forall|i: int| 0 <= i < s.len() ==> #[trigger] s[i].episode_id != episode_id,
    ensures
        without_episode(s, episode_id) == s,
    decreases s.len(),
{
    reveal(Seq::filter);
    if s.len() > 0 {
        lemma_without_absent(s.drop_last(), episode_id);
        assert(s.drop_last().push(s.last()) =~= s);
    }
}

/// Renumbering a contiguous queue changes nothing.
proof fn lemma_renumber_contiguous(s: Seq<QueueItem>)
    requires
        contiguous(s),
        s.len() < i64::MAX,
    ensures
        renumbered(s) == s,
{
    assert forall|i: int| 0 <= i < s.len() implies #[trigger] renumbered(s)[i] == s[i] by {
        assert(s[i].position == i);
        assert((i as i64) as int == i);
    }
    assert(renumbered(s) =~= s);
}

/// Queuing an episode and then removing it restores the queue.
pub proof fn lemma_add_then_remove(s: Seq<QueueItem>, item: QueueItem)
    requires
        contiguous(s),
        s.len() + 1 < i64::MAX,
        forall|i: int| 0 <= i < s.len() ==> #[trigger] s[i].episode_id != item.episode_id,
    ensures
        renumbered(without_episode(s.push(item), item.episode_id)) == s,
        renumbered(without_episode(renumbered(s.insert(0, item)), item.episode_id)) == s,
{
    let keep = |x: QueueItem| x.episode_id != item.episode_id;
    s.lemma_filter_push(item, keep);
    lemma_without_absent(s, item.episode_id);
    lemma_renumber_contiguous(s);
    let t = renumbered(s.insert(0, item));
    assert(t == seq![QueueItem { position: 0, ..item }] + renumbered_from(s, 1));
    lemma_without_prepend(renumbered_from(s, 1), QueueItem { position: 0, ..item }, item.episode_id);
    lemma_without_absent(renumbered_from(s, 1), item.episode_id);
    assert(renumbered(renumbered_from(s, 1)) =~= s);
}

/// `s` with positions counted from `k`.
spec fn renumbered_from(s: Seq<QueueItem>, k: int) -> Seq<QueueItem> {
    Seq::new(s.len(), |i: int| QueueItem { position: (i + k) as i64, ..s[i] })
}

proof fn lemma_without_prepend(s: Seq<QueueItem>, x: QueueItem, episode_id: u128)
    requires
        x.episode_id == episode_id,
    ensures
        without_episode(seq![x] + s, episode_id) == without_episode(s, episode_id),
{
    let keep = |y: QueueItem| y.episode_id != episode_id;
    s.lemma_filter_prepend(x, keep);
    assert(seq![x] + s =~= s.insert(0, x));
}

/// Removing an episode leaves none of its items, and keeps the others in
/// order.
pub proof fn lemma_remove_removes(s: Seq<QueueItem>, episode_id: u128, i: int)
    requires
        0 <= i < renumbered(without_episode(s, episode_id)).len(),
    ensures
        renumbered(without_episode(s, episode_id))[i].episode_id != episode_id,
        without_episode(s, episode_id).len() <= s.len(),
{
    let keep = |x: QueueItem| x.episode_id != episode_id;
    s.lemma_filter_pred(keep, i);
    s.lemma_filter_len(keep);
}

/// Inserting places the episode at the requested position and keeps every
/// other item, in order, around it.
pub proof fn lemma_insert_places(s: Seq<QueueItem>, item: QueueItem, p: int)
    requires
        0 <= p <= s.len(),
        s.len() + 1 < i64::MAX,
    ensures
        episode_ids(renumbered(s.insert(p, item))) == episode_ids(s).insert(p, item.episode_id),
        contiguous(renumbered(s.insert(p, item))),
{
    let t = renumbered(s.insert(p, item));
    assert forall|i: int| 0 <= i < t.len() implies #[trigger] t[i].position == i by {
        assert((i as i64) as int == i);
    }
    assert(episode_ids(t) =~= episode_ids(s).insert(p, item.episode_id));
}

/// Moving an item one place and back restores the queue.
pub proof fn lemma_swap_twice(s: Seq<QueueItem>, j: int)
    requires
        contiguous(s),
        s.len() < i64::MAX,
        0 <= j,
        j + 1 < s.len(),
    ensures
        swapped(swapped(s, j), j) == s,
        contiguous(swapped(s, j)),
{
    let t = swapped(s, j);
    assert((j as i64) as int == j);
    assert(((j + 1) as i64) as int == j + 1);
    assert forall|i: int| 0 <= i < t.len() implies #[trigger] t[i].position == i by {
        if i != j && i != j + 1 {
            assert(t[i] == s[i]);
        }
    }
    assert(s[j].position == j && s[j + 1].position == j + 1);
    assert(swapped(t, j)[j] == s[j]);
    assert(swapped(t, j)[j + 1] == s[j + 1]);
    assert(swapped(t, j) =~= s);
}

} // verus!
