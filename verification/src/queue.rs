//! The Up Next queue: items, orderings, and the auto-enqueue placement rules
//! (smart interleave, protecting the playing head, the depth cap).
use crate::models::str_equal;
use vstd::prelude::*;

verus! {

#[derive(Debug, Clone, Copy, PartialEq, Eq, Structural)]
pub enum QueuePriority {
    High,
    Medium,
    Low,
}

impl QueuePriority {
    pub open spec fn label(self) -> Seq<char> {
        match self {
            QueuePriority::High => "High"@,
            QueuePriority::Medium => "Medium"@,
            QueuePriority::Low => "Low"@,
        }
    }

    /// Sort rank: High first, Low last.
    pub open spec fn rank(self) -> int {
        match self {
            QueuePriority::High => 0,
            QueuePriority::Medium => 1,
            QueuePriority::Low => 2,
        }
    }

    /// The priority a stored label reads as: `High`, `Low`, anything else
    /// `Medium`.
    pub open spec fn parsed(s: Seq<char>) -> QueuePriority {
        if s == "High"@ {
            QueuePriority::High
        } else if s == "Low"@ {
            QueuePriority::Low
        } else {
            QueuePriority::Medium
        }
    }

    /// Reading back a stored label gives the priority that was stored.
    pub proof fn lemma_label_round_trip(p: QueuePriority)
        ensures
            QueuePriority::parsed(p.label()) == p,
    {
        reveal_strlit("High");
        reveal_strlit("Medium");
        reveal_strlit("Low");
        assert("High"@[0] != "Low"@[0]);
        assert("Medium"@[0] != "Low"@[0]);
        assert("Medium"@[0] != "High"@[0]);
    }

    pub fn as_str(&self) -> (s: &'static str)
        ensures
            s@ == self.label(),
    {
        match self {
            QueuePriority::High => "High",
            QueuePriority::Medium => "Medium",
            QueuePriority::Low => "Low",
        }
    }

    /// Parses a stored label; anything unrecognised reads as `Medium`.
    pub fn parse_label(s: &str) -> (p: QueuePriority)
        ensures
            p == QueuePriority::parsed(s@),
    {
        proof {
            reveal_strlit("High");
            reveal_strlit("Low");
            assert("High"@[0] != "Low"@[0]);
        }
        if str_equal(s, "High") {
            QueuePriority::High
        } else if str_equal(s, "Low") {
            QueuePriority::Low
        } else {
            QueuePriority::Medium
        }
    }
}

/// A fresh random identifier (`Uuid::new_v4`, as its 128-bit value).
#[verifier::external_body]
pub(crate) fn new_id() -> (id: u128) {
    uuid::Uuid::new_v4().as_u128()
}

/// The current wall-clock time (`chrono::Utc::now`), as whole seconds since
/// the Unix epoch and the nanoseconds within that second. `Utc::now` stops
/// with a panic on a clock set before the epoch, so a returned time is never
/// before it.
#[verifier::external_body]
pub(crate) fn utc_now() -> (t: (i64, u32))
    ensures
        t.0 >= 0,
        t.1 < 2_000_000_000,
{
    let now = chrono::Utc::now();
    (chrono::DateTime::timestamp(&now), chrono::Timelike::nanosecond(&now))
}

/// One entry of the queue.
#[derive(Debug, Clone, Copy, PartialEq, Eq, Structural)]
pub struct QueueItem {
    pub id: u128,
    pub episode_id: u128,
    pub position: i64,
    pub priority: QueuePriority,
    /// When the item was queued, in nanoseconds since the Unix epoch.
    pub added_at: i128,
}

impl QueueItem {
    /// A new item for `episode_id` at `position`, with a fresh id, medium
    /// priority, and the current time.
    pub fn new(episode_id: u128, position: i64) -> (item: QueueItem)
        ensures
            item.episode_id == episode_id,
            item.position == position,
            item.priority == QueuePriority::Medium,
    {
        let (secs, nanos) = utc_now();
        let added_at = (secs as i128) * 1_000_000_000 + (nanos as i128);
        QueueItem { id: new_id(), episode_id, position, priority: QueuePriority::Medium, added_at }
    }
}


// ---------------------------------------------------------------------------
// Orderings.

#[derive(Debug, Clone, Copy, PartialEq, Eq, Structural)]
pub enum QueueOrdering {
    Manual,
    DateAscending,
    DateDescending,
    Priority,
}

/// The value an ordering sorts items by, ascending.
pub open spec fn sort_key(ordering: QueueOrdering, item: QueueItem) -> int {
    match ordering {
        QueueOrdering::Manual => item.position as int,
        QueueOrdering::DateAscending => item.added_at as int,
        QueueOrdering::DateDescending => -(item.added_at as int),
        QueueOrdering::Priority => item.priority.rank(),
    }
}

pub open spec fn sorted_by_key(ordering: QueueOrdering, s: Seq<QueueItem>) -> bool {
    forall|i: int, j: int|
        0 <= i < j < s.len() ==> sort_key(ordering, s[i]) <= sort_key(ordering, s[j])
}

/// The items of `s` whose key is `k`, in their order in `s`.
pub open spec fn with_key(ordering: QueueOrdering, s: Seq<QueueItem>, k: int) -> Seq<QueueItem> {
    s.filter(|x: QueueItem| sort_key(ordering, x) == k)
}

/// `out` is the stable sort of `inp`: ordered by key, and the items of each key
/// keep their relative order.
pub open spec fn is_stable_sort_of(ordering: QueueOrdering, out: Seq<QueueItem>, inp: Seq<QueueItem>) -> bool {
    &&& sorted_by_key(ordering, out)
    &&& forall|k: int| #[trigger] with_key(ordering, out, k) == with_key(ordering, inp, k)
}

/// Whether `a` sorts no later than `b`.
fn key_le(ordering: QueueOrdering, a: &QueueItem, b: &QueueItem) -> (r: bool)
    ensures
        r == (sort_key(ordering, *a) <= sort_key(ordering, *b)),
{
    match ordering {
        QueueOrdering::Manual => a.position <= b.position,
        QueueOrdering::DateAscending => a.added_at <= b.added_at,
        QueueOrdering::DateDescending => a.added_at >= b.added_at,
        QueueOrdering::Priority => {
            let ra: u8 = match a.priority {
                QueuePriority::High => 0,
                QueuePriority::Medium => 1,
                QueuePriority::Low => 2,
            };
            let rb: u8 = match b.priority {
                QueuePriority::High => 0,
                QueuePriority::Medium => 1,
                QueuePriority::Low => 2,
            };
            ra <= rb
        },
    }
}

proof fn lemma_with_key_none(ordering: QueueOrdering, s: Seq<QueueItem>, k: int)
    requires
        forall|i: int| 0 <= i < s.len() ==> sort_key(ordering, #[trigger] s[i]) != k,
    ensures
        with_key(ordering, s, k) == Seq::<QueueItem>::empty(),
    decreases s.len(),
{
    reveal(Seq::filter);
    if s.len() > 0 {
        lemma_with_key_none(ordering, s.drop_last(), k);
    }
}

proof fn lemma_with_key_push(ordering: QueueOrdering, s: Seq<QueueItem>, x: QueueItem, k: int)
    ensures
        with_key(ordering, s.push(x), k) == if sort_key(ordering, x) == k {
            with_key(ordering, s, k).push(x)
        } else {
            with_key(ordering, s, k)
        },
{
    reveal(Seq::filter);
    assert(s.push(x).drop_last() == s);
}

proof fn lemma_with_key_insert(ordering: QueueOrdering, s: Seq<QueueItem>, p: int, x: QueueItem, k: int)
    requires
        0 <= p <= s.len(),
        forall|q: int| p <= q < s.len() ==> sort_key(ordering, #[trigger] s[q]) > sort_key(ordering, x),
    ensures
        with_key(ordering, s.insert(p, x), k) == if sort_key(ordering, x) == k {
            with_key(ordering, s, k).push(x)
        } else {
            with_key(ordering, s, k)
        },
{
    let pred = |y: QueueItem| sort_key(ordering, y) == k;
    let a = s.take(p);
    let b = s.skip(p);
    assert(s == a + b);
    assert(s.insert(p, x) == a.push(x) + b);
    Seq::filter_distributes_over_add(a, b, pred);
    Seq::filter_distributes_over_add(a.push(x), b, pred);
    lemma_with_key_push(ordering, a, x, k);
    if sort_key(ordering, x) == k {
        assert forall|i: int| 0 <= i < b.len() implies sort_key(ordering, #[trigger] b[i]) != k by {
            assert(b[i] == s[p + i]);
        }
        lemma_with_key_none(ordering, b, k);
        assert(with_key(ordering, s, k) == with_key(ordering, a, k) + Seq::<QueueItem>::empty());
        assert(with_key(ordering, a, k) + Seq::<QueueItem>::empty() == with_key(ordering, a, k));
        assert(with_key(ordering, a, k).push(x) + Seq::<QueueItem>::empty() == with_key(ordering, a, k).push(x));
    }
}

impl QueueOrdering {
    pub open spec fn label(self) -> Seq<char> {
        match self {
            QueueOrdering::Manual => "Manual"@,
            QueueOrdering::DateAscending => "Date (Oldest First)"@,
            QueueOrdering::DateDescending => "Date (Newest First)"@,
            QueueOrdering::Priority => "Priority"@,
        }
    }

    pub fn as_str(&self) -> (s: &'static str)
        ensures
            s@ == self.label(),
    {
        match self {
            QueueOrdering::Manual => "Manual",
            QueueOrdering::DateAscending => "Date (Oldest First)",
            QueueOrdering::DateDescending => "Date (Newest First)",
            QueueOrdering::Priority => "Priority",
        }
    }

    /// Stable sort of the items by this ordering: position (manual), date
    /// added (oldest or newest first), or priority (High first).
    pub fn sort(&self, items: &mut Vec<QueueItem>)
        ensures
            is_stable_sort_of(*self, final(items)@, old(items)@),
    {
        let ordering = *self;
        let n = items.len();
        let mut out: Vec<QueueItem> = Vec::new();
        let mut i: usize = 0;
        assert forall|k: int| #[trigger] with_key(ordering, out@, k) == with_key(ordering, items@.take(0), k) by {
            reveal(Seq::filter);
            assert(out@.len() == 0);
            assert(items@.take(0).len() == 0);
        }
        while i < n
            invariant
                0 <= i <= n,
                n == items@.len(),
                items@ == old(items)@,
                sorted_by_key(ordering, out@),
                forall|k: int| #[trigger] with_key(ordering, out@, k) == with_key(ordering, items@.take(i as int), k),
            decreases n - i,
        {
            let x = items[i];
            let mut p: usize = 0;
            while p < out.len() && key_le(ordering, &out[p], &x)
                invariant
                    0 <= p <= out@.len(),
                    forall|q: int| 0 <= q < p ==> sort_key(ordering, #[trigger] out@[q]) <= sort_key(ordering, x),
                decreases out@.len() - p,
            {
                p = p + 1;
            }
            let ghost before = out@;
            proof {
                assert forall|q: int| p <= q < before.len() implies sort_key(ordering, #[trigger] before[q]) > sort_key(ordering, x) by {
                    assert(sort_key(ordering, before[p as int]) > sort_key(ordering, x));
                    assert(sort_key(ordering, before[p as int]) <= sort_key(ordering, before[q]));
                }
            }
            out.insert(p, x);
            proof {
                assert(items@.take(i + 1) == items@.take(i as int).push(x));
                assert forall|k: int| #[trigger] with_key(ordering, out@, k) == with_key(ordering, items@.take(i + 1), k) by {
                    lemma_with_key_insert(ordering, before, p as int, x, k);
                    lemma_with_key_push(ordering, items@.take(i as int), x, k);
                }
                assert forall|a: int, b: int| 0 <= a < b < out@.len() implies sort_key(ordering, out@[a]) <= sort_key(ordering, out@[b]) by {
                    if a < p && b < p {
                        assert(out@[a] == before[a]);
                        assert(out@[b] == before[b]);
                    } else if a < p && b == p {
                        assert(out@[a] == before[a]);
                    } else if a < p {
                        assert(out@[a] == before[a]);
                        assert(out@[b] == before[b - 1]);
                    } else if a == p {
                        assert(out@[b] == before[b - 1]);
                    } else {
                        assert(out@[a] == before[a - 1]);
                        assert(out@[b] == before[b - 1]);
                    }
                }
            }
            i = i + 1;
        }
        assert(items@.take(n as int) == items@);
        *items = out;
    }
}


// ---------------------------------------------------------------------------
// Smart interleave.

/// Inserting an episode of podcast `sub` at position `p` of a queue whose
/// items belong to `subs` is legal: at or above `floor`, and not next to
/// another episode of the same podcast.
pub open spec fn legal_position(subs: Seq<u128>, sub: u128, floor: int, p: int) -> bool {
    &&& p >= floor
    &&& (p == 0 || subs[p - 1] != sub)
    &&& (p >= subs.len() || subs[p] != sub)
}

/// The nearest legal insert position: searching upward from `start` to the end
/// of the queue when `to_top`, downward from `min(start, len)` to `floor`
/// otherwise; `start` itself when nothing in that range is legal.
pub open spec fn is_nearest_legal(subs: Seq<u128>, sub: u128, start: int, floor: int, to_top: bool, r: int) -> bool {
    if to_top {
        if exists|p: int| start <= p <= subs.len() && legal_position(subs, sub, floor, p) {
            &&& start <= r <= subs.len()
            &&& legal_position(subs, sub, floor, r)
            &&& forall|q: int| start <= q < r ==> !legal_position(subs, sub, floor, q)
        } else {
            r == start
        }
    } else {
        let hi = if start < subs.len() {
            start
        } else {
            subs.len() as int
        };
        if exists|p: int| floor <= p <= hi && legal_position(subs, sub, floor, p) {
            &&& floor <= r <= hi
            &&& legal_position(subs, sub, floor, r)
            &&& forall|q: int| r < q <= hi ==> !legal_position(subs, sub, floor, q)
        } else {
            r == start
        }
    }
}

fn is_legal(subs: &[u128], sub: u128, floor: usize, p: usize) -> (r: bool)
    requires
        p <= subs@.len(),
    ensures
        r == legal_position(subs@, sub, floor as int, p as int),
{
    let left_ok = p == 0 || subs[p - 1] != sub;
    let right_ok = p >= subs.len() || subs[p] != sub;
    p >= floor && left_ok && right_ok
}

/// Find the nearest legal insert position for an episode of podcast `sub`
/// into a queue whose items belong to `subs` (in order). "Legal" means the
/// insertion does not put two episodes of the same podcast adjacent, and
/// positions below `floor` (which protect the playing head) are off-limits.
pub fn nearest_legal_position(subs: &[u128], sub: u128, start: usize, floor: usize, to_top: bool) -> (r: usize)
    ensures
        is_nearest_legal(subs@, sub, start as int, floor as int, to_top, r as int),
{
    let len = subs.len();
    if to_top {
        if start > len {
            return start;
        }
        let mut p = start;
        loop
            invariant
                to_top,
                len == subs@.len(),
                start <= p <= len,
                forall|q: int| start <= q < p ==> !legal_position(subs@, sub, floor as int, q),
            decreases len - p,
        {
            if is_legal(subs, sub, floor, p) {
                assert(legal_position(subs@, sub, floor as int, p as int));
                return p;
            }
            if p == len {
                assert forall|q: int| start <= q <= len implies !legal_position(subs@, sub, floor as int, q) by {
                }
                return start;
            }
            p = p + 1;
        }
    } else {
        let hi = if start < len { start } else { len };
        if floor > hi {
            return start;
        }
        let mut p = hi;
        loop
            invariant
                !to_top,
                len == subs@.len(),
                hi <= len,
                hi == if start < len { start } else { len },
                floor <= p <= hi,
                forall|q: int| p < q <= hi ==> !legal_position(subs@, sub, floor as int, q),
            decreases p,
        {
            if is_legal(subs, sub, floor, p) {
                assert(legal_position(subs@, sub, floor as int, p as int));
                return p;
            }
            if p == floor {
                assert forall|q: int| floor <= q <= hi implies !legal_position(subs@, sub, floor as int, q) by {
                }
                return start;
            }
            p = p - 1;
        }
    }
}


// ---------------------------------------------------------------------------
// Queue edits.

/// A queued episode and the podcast it belongs to.
#[derive(Debug, Clone, Copy, PartialEq, Eq, Structural)]
pub struct QueueEntry {
    pub episode_id: u128,
    pub subscription_id: u128,
}

pub open spec fn subs_of(entries: Seq<QueueEntry>) -> Seq<u128> {
    entries.map_values(|e: QueueEntry| e.subscription_id)
}

/// What auto-enqueue does with a newly published episode.
#[derive(Debug, Clone, Copy, PartialEq, Eq, Structural)]
pub enum EnqueueDecision {
    /// The queue already holds `max_depth` items.
    QueueFull,
    /// The episode is already in the queue.
    AlreadyQueued,
    /// Insert it at this position, shifting later items down.
    InsertAt(usize),
}

/// Positions below the floor are protected: the head is off-limits while it is
/// the episode the player has loaded.
pub open spec fn protected_floor(entries: Seq<QueueEntry>, playing: Option<u128>) -> int {
    if entries.len() > 0 && playing == Some(entries[0].episode_id) {
        1
    } else {
        0
    }
}

/// The auto-enqueue rule: skip when the queue is at its depth cap (0 means
/// unlimited) or already holds the episode; otherwise insert at the top (just
/// below a protected head) or the bottom, moved to the nearest position that
/// keeps episodes of one podcast apart when interleaving.
pub open spec fn enqueue_decision(
    entries: Seq<QueueEntry>,
    episode_id: u128,
    subscription_id: u128,
    playing: Option<u128>,
    to_top: bool,
    max_depth: usize,
    interleave: bool,
    d: EnqueueDecision,
) -> bool {
    if max_depth > 0 && entries.len() >= max_depth {
        d == EnqueueDecision::QueueFull
    } else if exists|i: int| 0 <= i < entries.len() && entries[i].episode_id == episode_id {
        d == EnqueueDecision::AlreadyQueued
    } else {
        let floor = protected_floor(entries, playing);
        let start = if to_top {
            floor
        } else {
            entries.len() as int
        };
        d matches EnqueueDecision::InsertAt(p) && if interleave {
            is_nearest_legal(subs_of(entries), subscription_id, start, floor, to_top, p as int)
        } else {
            p == start
        }
    }
}

/// Decide where (and whether) to auto-add a newly published episode to the
/// queue. `playing` is the episode the player last had loaded; the queue head
/// is never displaced while it is that episode.
pub fn plan_auto_enqueue(
    entries: &Vec<QueueEntry>,
    episode_id: u128,
    subscription_id: u128,
    playing: Option<u128>,
    to_top: bool,
    max_depth: usize,
    interleave: bool,
) -> (d: EnqueueDecision)
    ensures
        enqueue_decision(
            entries@,
            episode_id,
            subscription_id,
            playing,
            to_top,
            max_depth,
            interleave,
            d,
        ),
{
    let len = entries.len();
    if max_depth > 0 && len >= max_depth {
        return EnqueueDecision::QueueFull;
    }
    let mut subs: Vec<u128> = Vec::new();
    let mut i: usize = 0;
    while i < len
        invariant
            len == entries@.len(),
            !(max_depth > 0 && len >= max_depth),
            0 <= i <= len,
            subs@ == subs_of(entries@.take(i as int)),
            forall|k: int| 0 <= k < i ==> entries@[k].episode_id != episode_id,
        decreases len - i,
    {
        if entries[i].episode_id == episode_id {
            assert(entries@[i as int].episode_id == episode_id);
            return EnqueueDecision::AlreadyQueued;
        }
        subs.push(entries[i].subscription_id);
        i = i + 1;
        assert(subs_of(entries@.take(i as int)) == subs_of(entries@.take(i - 1)).push(entries@[i - 1].subscription_id));
    }
    assert(entries@.take(len as int) == entries@);
    let protect_head = len > 0 && match playing {
        Some(p) => p == entries[0].episode_id,
        None => false,
    };
    let floor: usize = if protect_head { 1 } else { 0 };
    let start = if to_top { floor } else { len };
    let position = if interleave {
        nearest_legal_position(subs.as_slice(), subscription_id, start, floor, to_top)
    } else {
        start
    };
    EnqueueDecision::InsertAt(position)
}

/// The position of the first item for `episode_id`, if queued.
pub open spec fn index_of(ids: Seq<u128>, episode_id: u128, i: int) -> bool {
    0 <= i < ids.len() && ids[i] == episode_id && forall|k: int| 0 <= k < i ==> ids[k] != episode_id
}

fn find_episode(ids: &[u128], episode_id: u128) -> (r: Option<usize>)
    ensures
        match r {
            Some(i) => index_of(ids@, episode_id, i as int),
            None => forall|k: int| 0 <= k < ids@.len() ==> ids@[k] != episode_id,
        },
{
    let mut i: usize = 0;
    while i < ids.len()
        invariant
            0 <= i <= ids@.len(),
            forall|k: int| 0 <= k < i ==> ids@[k] != episode_id,
        decreases ids@.len() - i,
    {
        if ids[i] == episode_id {
            return Some(i);
        }
        i = i + 1;
    }
    None
}

/// The new position when moving an episode one place up the queue: `None`
/// when it is not queued or already first.
pub fn move_up_position(ids: &[u128], episode_id: u128) -> (r: Option<i64>)
    requires
        ids@.len() <= i64::MAX,
    ensures
        match r {
            Some(p) => exists|i: int| index_of(ids@, episode_id, i) && i > 0 && p == i - 1,
            None => forall|i: int| index_of(ids@, episode_id, i) ==> i == 0,
        },
{
    match find_episode(ids, episode_id) {
        Some(i) => {
            if i > 0 {
                assert(index_of(ids@, episode_id, i as int));
                Some(i as i64 - 1)
            } else {
                proof {
                    assert forall|j: int| index_of(ids@, episode_id, j) implies j == 0 by {
                        if j > 0 {
                            assert(ids@[0] != episode_id);
                        }
                    }
                }
                None
            }
        },
        None => None,
    }
}

/// The new position when moving an episode one place down the queue: `None`
/// when it is not queued or already last.
pub fn move_down_position(ids: &[u128], episode_id: u128) -> (r: Option<i64>)
    requires
        ids@.len() <= i64::MAX,
    ensures
        match r {
            Some(p) => exists|i: int| index_of(ids@, episode_id, i) && i < ids@.len() - 1 && p == i + 1,
            None => forall|i: int| index_of(ids@, episode_id, i) ==> i == ids@.len() - 1,
        },
{
    match find_episode(ids, episode_id) {
        Some(i) => {
            if i < ids.len() - 1 {
                assert(index_of(ids@, episode_id, i as int));
                Some(i as i64 + 1)
            } else {
                proof {
                    assert forall|j: int| index_of(ids@, episode_id, j) implies j == ids@.len() - 1 by {
                        if j != i {
                            if j < i {
                                assert(ids@[j] == episode_id);
                            } else {
                                assert(ids@[i as int] == episode_id);
                            }
                        }
                    }
                }
                None
            }
        },
        None => None,
    }
}


// ---------------------------------------------------------------------------
// Laws.

/// Auto-enqueue keeps its promises: it never exceeds the depth cap, never
/// queues an episode twice, never inserts above the episode being played
/// (the protected head), always inserts within the queue, and when
/// interleaving finds a spot not next to the same podcast, takes it.
pub proof fn lemma_auto_enqueue_promises(
    entries: Seq<QueueEntry>,
    episode_id: u128,
    subscription_id: u128,
    playing: Option<u128>,
    to_top: bool,
    max_depth: usize,
    interleave: bool,
    d: EnqueueDecision,
)
    requires
        enqueue_decision(entries, episode_id, subscription_id, playing, to_top, max_depth, interleave, d),
    ensures
        d matches EnqueueDecision::InsertAt(_) ==> max_depth == 0 || entries.len() < max_depth,
        d matches EnqueueDecision::InsertAt(_) ==> forall|i: int| 0 <= i < entries.len() ==> #[trigger] entries[i].episode_id != episode_id,
        d matches EnqueueDecision::InsertAt(p) ==> protected_floor(entries, playing) <= p <= entries.len(),
        d matches EnqueueDecision::InsertAt(p) ==> (playing matches Some(e) && entries.len() > 0 && entries[0].episode_id == e) ==> p >= 1,
        d matches EnqueueDecision::InsertAt(p) ==> (interleave && (exists|q: int| 0 <= q <= entries.len() && legal_position(subs_of(entries), subscription_id, protected_floor(entries, playing), q))
            ==> legal_position(subs_of(entries), subscription_id, protected_floor(entries, playing), p as int)),
{
    let floor = protected_floor(entries, playing);
    let subs = subs_of(entries);
    if d matches EnqueueDecision::InsertAt(p) {
        if interleave {
            if exists|q: int| 0 <= q <= entries.len() && legal_position(subs, subscription_id, floor, q) {
                let q = choose|q: int| 0 <= q <= entries.len() && legal_position(subs, subscription_id, floor, q);
                if to_top {
                    assert(floor <= q);
                    assert(legal_position(subs, subscription_id, floor, q));
                } else {
                    assert(legal_position(subs, subscription_id, floor, q));
                }
            }
        }
    }
}

/// Sorting by date puts items oldest first (`DateAscending`) or newest first
/// (`DateDescending`), and the manual order follows the items' positions.
pub proof fn lemma_sort_orders(ordering: QueueOrdering, out: Seq<QueueItem>, inp: Seq<QueueItem>)
    requires
        is_stable_sort_of(ordering, out, inp),
    ensures
        ordering == QueueOrdering::DateAscending ==> forall|i: int, j: int|
            0 <= i < j < out.len() ==> (#[trigger] out[i]).added_at <= (#[trigger] out[j]).added_at,
        ordering == QueueOrdering::DateDescending ==> forall|i: int, j: int|
            0 <= i < j < out.len() ==> (#[trigger] out[i]).added_at >= (#[trigger] out[j]).added_at,
        ordering == QueueOrdering::Manual ==> forall|i: int, j: int|
            0 <= i < j < out.len() ==> (#[trigger] out[i]).position <= (#[trigger] out[j]).position,
{
    assert forall|i: int, j: int| 0 <= i < j < out.len() implies sort_key(ordering, #[trigger] out[i])
        <= sort_key(ordering, #[trigger] out[j]) by {
    }
}

/// Sorting by priority puts every High item before every Medium one and
/// every Medium item before every Low one.
pub proof fn lemma_priority_sort_high_first(out: Seq<QueueItem>, inp: Seq<QueueItem>)
    requires
        is_stable_sort_of(QueueOrdering::Priority, out, inp),
    ensures
        forall|i: int, j: int| 0 <= i < j < out.len() && (#[trigger] out[i]).priority == QueuePriority::Low
            ==> (#[trigger] out[j]).priority == QueuePriority::Low,
        forall|i: int, j: int| 0 <= i < j < out.len() && (#[trigger] out[i]).priority == QueuePriority::Medium
            ==> (#[trigger] out[j]).priority != QueuePriority::High,
{
    assert forall|i: int, j: int| 0 <= i < j < out.len() && (#[trigger] out[i]).priority == QueuePriority::Low
        implies (#[trigger] out[j]).priority == QueuePriority::Low by {
        assert(sort_key(QueueOrdering::Priority, out[i]) <= sort_key(QueueOrdering::Priority, out[j]));
    }
    assert forall|i: int, j: int| 0 <= i < j < out.len() && (#[trigger] out[i]).priority == QueuePriority::Medium
        implies (#[trigger] out[j]).priority != QueuePriority::High by {
        assert(sort_key(QueueOrdering::Priority, out[i]) <= sort_key(QueueOrdering::Priority, out[j]));
    }
}

/// Sorting keeps every item: each key holds as many items after as before,
/// in the same order.
pub proof fn lemma_sort_keeps_items(ordering: QueueOrdering, out: Seq<QueueItem>, inp: Seq<QueueItem>, x: QueueItem)
    requires
        is_stable_sort_of(ordering, out, inp),
    ensures
        with_key(ordering, out, sort_key(ordering, x)) == with_key(ordering, inp, sort_key(ordering, x)),
        inp.contains(x) ==> out.contains(x),
{
    let k = sort_key(ordering, x);
    let pred = |y: QueueItem| sort_key(ordering, y) == k;
    assert(with_key(ordering, out, k) == with_key(ordering, inp, k));
    if inp.contains(x) {
        let i = choose|i: int| 0 <= i < inp.len() && inp[i] == x;
        inp.lemma_filter_contains(pred, i);
        assert(inp.filter(pred).contains(x));
        let j = choose|j: int| 0 <= j < inp.filter(pred).len() && inp.filter(pred)[j] == x;
        out.lemma_filter_contains_rev(pred, x);
    }
}

} // verus!
