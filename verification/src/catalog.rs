//! The episode catalogue kept between refreshes: which fetched episodes are
//! new (an episode is known by its guid), the orders episodes are listed in
//! (newest first on a feed's page, least recently played first when the
//! cache is swept), and the counts a subscription row shows.
use crate::feed::ingest_decision;
use crate::models::{str_equal, DownloadStatus, Episode, Subscription};
use crate::opml::clone_opt;
use crate::search::opt_view;
use vstd::prelude::*;

verus! {

// ---------------------------------------------------------------------------
// Orders.

/// An order in which episodes are listed.
#[derive(Debug, Clone, Copy, PartialEq, Eq, Structural)]
pub enum EpisodeOrder {
    /// Latest publication first: a feed's episode list.
    NewestFirst,
    /// Oldest activity first (last played, else added): eviction order.
    LeastRecentlyPlayed,
}

/// When an episode was last touched: last played, else when it was added.
pub open spec fn activity(e: Episode) -> int {
    match e.last_played_at {
        Some(t) => t as int,
        None => e.created_at as int,
    }
}

/// The key an order sorts by, ascending.
pub open spec fn order_key(order: EpisodeOrder, e: Episode) -> int {
    match order {
        EpisodeOrder::NewestFirst => -(e.published_at as int),
        EpisodeOrder::LeastRecentlyPlayed => activity(e),
    }
}

pub open spec fn in_order(order: EpisodeOrder, s: Seq<Episode>) -> bool {
    forall|i: int, j: int| 0 <= i < j < s.len() ==> order_key(order, s[i]) <= order_key(order, s[j])
}

/// The episodes of `s` whose key is `k`, in their order in `s`.
pub open spec fn with_order_key(order: EpisodeOrder, s: Seq<Episode>, k: int) -> Seq<Episode> {
    s.filter(|e: Episode| order_key(order, e) == k)
}

/// `out` lists `inp` in `order`, episodes with equal keys keeping their
/// relative order.
pub open spec fn is_listing_of(order: EpisodeOrder, out: Seq<Episode>, inp: Seq<Episode>) -> bool {
    &&& in_order(order, out)
    &&& forall|k: int| #[trigger] with_order_key(order, out, k) == with_order_key(order, inp, k)
}

fn order_le(order: EpisodeOrder, a: &Episode, b: &Episode) -> (r: bool)
    ensures
        r == (order_key(order, *a) <= order_key(order, *b)),
{
    match order {
        EpisodeOrder::NewestFirst => a.published_at >= b.published_at,
        EpisodeOrder::LeastRecentlyPlayed => {
            let ka = match a.last_played_at {
                Some(t) => t,
                None => a.created_at,
            };
            let kb = match b.last_played_at {
                Some(t) => t,
                None => b.created_at,
            };
            ka <= kb
        },
    }
}

proof fn lemma_key_none(order: EpisodeOrder, s: Seq<Episode>, k: int)
    requires
        forall|i: int| 0 <= i < s.len() ==> order_key(order, #[trigger] s[i]) != k,
    ensures
        with_order_key(order, s, k) == Seq::<Episode>::empty(),
    decreases s.len(),
{
    reveal(Seq::filter);
    if s.len() > 0 {
        lemma_key_none(order, s.drop_last(), k);
    }
}

proof fn lemma_key_push(order: EpisodeOrder, s: Seq<Episode>, x: Episode, k: int)
    ensures
        with_order_key(order, s.push(x), k) == if order_key(order, x) == k {
            with_order_key(order, s, k).push(x)
        } else {
            with_order_key(order, s, k)
        },
{
    reveal(Seq::filter);
    assert(s.push(x).drop_last() == s);
}

proof fn lemma_key_insert(order: EpisodeOrder, s: Seq<Episode>, p: int, x: Episode, k: int)
    requires
        0 <= p <= s.len(),
        forall|q: int| p <= q < s.len() ==> order_key(order, #[trigger] s[q]) > order_key(order, x),
    ensures
        with_order_key(order, s.insert(p, x), k) == if order_key(order, x) == k {
            with_order_key(order, s, k).push(x)
        } else {
            with_order_key(order, s, k)
        },
{
    let pred = |y: Episode| order_key(order, y) == k;
    let a = s.take(p);
    let b = s.skip(p);
    assert(s == a + b);
    assert(s.insert(p, x) == a.push(x) + b);
    Seq::filter_distributes_over_add(a, b, pred);
    Seq::filter_distributes_over_add(a.push(x), b, pred);
    lemma_key_push(order, a, x, k);
    if order_key(order, x) == k {
        assert forall|i: int| 0 <= i < b.len() implies order_key(order, #[trigger] b[i]) != k by {
            assert(b[i] == s[p + i]);
        }
        lemma_key_none(order, b, k);
        assert(with_order_key(order, s, k) == with_order_key(order, a, k) + Seq::<Episode>::empty());
        assert(with_order_key(order, a, k) + Seq::<Episode>::empty() == with_order_key(order, a, k));
        assert(with_order_key(order, a, k).push(x) + Seq::<Episode>::empty() == with_order_key(
            order,
            a,
            k,
        ).push(x));
    }
}

/// List the episodes in `order`, stably.
pub fn sort_episodes(order: EpisodeOrder, episodes: &mut Vec<Episode>)
    ensures
        is_listing_of(order, final(episodes)@, old(episodes)@),
{
    let ghost inp = episodes@;
    let n = episodes.len();
    let mut out: Vec<Episode> = Vec::new();
    let mut i: usize = 0;
    assert forall|k: int| #[trigger] with_order_key(order, out@, k) == with_order_key(order, inp.take(0), k) by {
        reveal(Seq::filter);
        assert(inp.take(0).len() == 0);
    }
    while i < n
        invariant
            0 <= i <= n,
            n == inp.len(),
            episodes@ == inp.skip(i as int),
            in_order(order, out@),
            forall|k: int| #[trigger] with_order_key(order, out@, k) == with_order_key(order, inp.take(i as int), k),
        decreases n - i,
    {
        assert(episodes@[0] == inp[i as int]);
        let x = episodes.remove(0);
        assert(episodes@ == inp.skip(i + 1));
        let mut p: usize = 0;
        while p < out.len() && order_le(order, &out[p], &x)
            invariant
                0 <= p <= out@.len(),
                forall|q: int| 0 <= q < p ==> order_key(order, #[trigger] out@[q]) <= order_key(order, x),
            decreases out@.len() - p,
        {
            p = p + 1;
        }
        let ghost before = out@;
        proof {
            assert forall|q: int| p <= q < before.len() implies order_key(order, #[trigger] before[q]) > order_key(order, x) by {
                assert(order_key(order, before[p as int]) > order_key(order, x));
                assert(order_key(order, before[p as int]) <= order_key(order, before[q]));
            }
        }
        out.insert(p, x);
        proof {
            assert(inp.take(i + 1) == inp.take(i as int).push(x));
            assert forall|k: int| #[trigger] with_order_key(order, out@, k) == with_order_key(order, inp.take(i + 1), k) by {
                lemma_key_insert(order, before, p as int, x, k);
                lemma_key_push(order, inp.take(i as int), x, k);
            }
            assert forall|a: int, b: int| 0 <= a < b < out@.len() implies order_key(order, out@[a]) <= order_key(order, out@[b]) by {
                if a < p && b < p {
                    assert(out@[a] == before[a]);
                    assert(out@[b] == before[b]);
                } else if a < p && b == p {
                    assert(out@[a] == before[a]);
                } else if a < p {
                    assert(out@[a] == before[a]);
                    assert(out@[b] == before[b - 1]);
                } else if a == p {
                    assert(out@[b] == before[b - 1]);
                } else {
                    assert(out@[a] == before[a - 1]);
                    assert(out@[b] == before[b - 1]);
                }
            }
        }
        i = i + 1;
    }
    assert(inp.take(n as int) == inp);
    *episodes = out;
}

// ---------------------------------------------------------------------------
// Ingesting a refresh.

/// Some episode of `s` carries guid `g`.
pub open spec fn has_guid(s: Seq<Episode>, g: Seq<char>) -> bool {
    exists|i: int| 0 <= i < s.len() && (#[trigger] s[i]).guid@ == g
}

/// The catalogue after storing `fetched`, in order, into `stored`: an episode
/// whose guid is already there (stored before, or earlier in the same feed)
/// is known and keeps its stored copy; every other one is added at the end.
pub open spec fn ingested(stored: Seq<Episode>, fetched: Seq<Episode>) -> Seq<Episode>
    decreases fetched.len(),
{
    if fetched.len() == 0 {
        stored
    } else {
        let prev = ingested(stored, fetched.drop_last());
        let e = fetched.last();
        if has_guid(prev, e.guid@) {
            prev
        } else {
            prev.push(e)
        }
    }
}

/// The new episodes the refresh puts on Up Next, in feed order: those added
/// that are unplayed, when the feed auto-queues.
pub open spec fn enqueued(stored: Seq<Episode>, fetched: Seq<Episode>, sub: Subscription) -> Seq<u128>
    decreases fetched.len(),
{
    if fetched.len() == 0 {
        Seq::empty()
    } else {
        let prev = ingested(stored, fetched.drop_last());
        let before = enqueued(stored, fetched.drop_last(), sub);
        let e = fetched.last();
        if !has_guid(prev, e.guid@) && sub.auto_queue && !e.played {
            before.push(e.id)
        } else {
            before
        }
    }
}

fn knows_guid(stored: &Vec<Episode>, guid: &str) -> (r: bool)
    ensures
        r == has_guid(stored@, guid@),
{
    let mut i: usize = 0;
    while i < stored.len()
        invariant
            0 <= i <= stored@.len(),
            forall|j: int| 0 <= j < i ==> (#[trigger] stored@[j]).guid@ != guid@,
        decreases stored@.len() - i,
    {
        if str_equal(stored[i].guid.as_str(), guid) {
            return true;
        }
        i = i + 1;
    }
    false
}

/// What a refresh did to the catalogue.
#[derive(Debug, Clone)]
pub struct IngestReport {
    /// How many fetched episodes were new.
    pub new_episodes: usize,
    /// The new episodes to put on Up Next, in feed order.
    pub to_enqueue: Vec<u128>,
}

/// Store a refresh's episodes into a feed's catalogue (see [`ingested`]),
/// counting the new ones and naming those to auto-queue.
pub fn ingest_fetched(stored: &mut Vec<Episode>, fetched: Vec<Episode>, sub: &Subscription) -> (r: IngestReport)
    ensures
        final(stored)@ == ingested(old(stored)@, fetched@),
        r.new_episodes == final(stored)@.len() - old(stored)@.len(),
        r.to_enqueue@ == enqueued(old(stored)@, fetched@, *sub),
{
    let ghost start = stored@;
    let ghost all = fetched@;
    let total: usize = fetched.len();
    assert(all.len() == total);
    let mut rest = fetched;
    let mut new_episodes: usize = 0;
    let mut to_enqueue: Vec<u128> = Vec::new();
    let mut k: usize = 0;
    while rest.len() > 0
        invariant
            k + rest@.len() == all.len(),
            rest@ == all.skip(k as int),
            stored@ == ingested(start, all.take(k as int)),
            new_episodes == stored@.len() - start.len(),
            new_episodes <= k,
            all.len() <= usize::MAX,
            to_enqueue@ == enqueued(start, all.take(k as int), *sub),
            stored@.len() <= start.len() + k,
        decreases rest@.len(),
    {
        let ghost prev = stored@;
        assert(rest@[0] == all[k as int]);
        let e = rest.remove(0);
        assert(rest@ == all.skip(k + 1));
        assert(all.take(k + 1).drop_last() == all.take(k as int));
        assert(all.take(k + 1).last() == e);
        let known = knows_guid(stored, e.guid.as_str());
        let decision = ingest_decision(sub, &e, Ok(known));
        if decision.is_new {
            if decision.auto_enqueue {
                to_enqueue.push(e.id);
            }
            stored.push(e);
            new_episodes = new_episodes + 1;
        }
        k = k + 1;
    }
    assert(all.take(all.len() as int) == all);
    IngestReport { new_episodes, to_enqueue }
}

/// Forget an episode's download (deleted, or its file has vanished): not
/// downloaded, no local file; nothing else changes.
pub fn forget_download(episode: &mut Episode)
    ensures
        *final(episode) == (Episode {
            download_status: DownloadStatus::NotDownloaded,
            local_path: None,
            ..*old(episode)
        }),
{
    episode.download_status = DownloadStatus::NotDownloaded;
    episode.local_path = None;
}

// ---------------------------------------------------------------------------
// Subscription rows.

/// How many of the episodes are unplayed.
pub open spec fn unplayed_in(eps: Seq<Episode>) -> int
    decreases eps.len(),
{
    if eps.len() == 0 {
        0
    } else {
        unplayed_in(eps.drop_last()) + if eps.last().played {
            0int
        } else {
            1int
        }
    }
}

/// The latest publication time among the episodes, if any.
pub open spec fn latest_in(eps: Seq<Episode>) -> Option<i128>
    decreases eps.len(),
{
    if eps.len() == 0 {
        None
    } else {
        let t = eps.last().published_at;
        match latest_in(eps.drop_last()) {
            None => Some(t),
            Some(m) => Some(if t > m { t } else { m }),
        }
    }
}

/// Update a subscription row's counts from its feed's episodes: how many
/// there are, how many are unplayed, and when the latest was published.
pub fn refresh_counts(sub: &mut Subscription, eps: &Vec<Episode>)
    requires
        eps@.len() <= i64::MAX,
    ensures
        *final(sub) == (Subscription {
            episode_count: eps@.len() as i64,
            unplayed_count: unplayed_in(eps@) as i64,
            latest_episode_at: latest_in(eps@),
            ..*old(sub)
        }),
{
    let mut unplayed: i64 = 0;
    let mut latest: Option<i128> = None;
    let mut i: usize = 0;
    while i < eps.len()
        invariant
            0 <= i <= eps@.len(),
            eps@.len() <= i64::MAX,
            unplayed == unplayed_in(eps@.take(i as int)),
            0 <= unplayed <= i,
            latest == latest_in(eps@.take(i as int)),
        decreases eps@.len() - i,
    {
        assert(eps@.take(i + 1).drop_last() == eps@.take(i as int));
        assert(eps@.take(i + 1).last() == eps@[i as int]);
        if !eps[i].played {
            unplayed = unplayed + 1;
        }
        let t = eps[i].published_at;
        latest = match latest {
            None => Some(t),
            Some(m) => Some(if t > m { t } else { m }),
        };
        i = i + 1;
    }
    assert(eps@.take(eps@.len() as int) == eps@);
    sub.episode_count = eps.len() as i64;
    sub.unplayed_count = unplayed;
    sub.latest_episode_at = latest;
}

/// `r` is `s` with its last refresh error set to `error` when it is
/// subscription `id`, and `s` itself otherwise.
pub open spec fn with_refresh_error(s: Subscription, id: u128, error: Option<Seq<char>>, r: Subscription) -> bool {
    if s.id == id {
        &&& opt_view(r.last_error) == error
        &&& r == (Subscription { last_error: r.last_error, ..s })
    } else {
        r == s
    }
}

/// Record how a refresh of subscription `subscription_id` ended: the error
/// that its row shows (`!`) until the next refresh, or none after a success.
pub fn record_refresh(subs: &mut Vec<Subscription>, subscription_id: u128, error: &Option<String>)
    ensures
        final(subs)@.len() == old(subs)@.len(),
        forall|i: int| 0 <= i < old(subs)@.len() ==> with_refresh_error(
            #[trigger] old(subs)@[i],
            subscription_id,
            opt_view(*error),
            final(subs)@[i],
        ),
{
    let n = subs.len();
    let mut i: usize = 0;
    while i < n
        invariant
            0 <= i <= n,
            n == old(subs)@.len(),
            subs@.len() == n,
            forall|j: int| 0 <= j < i ==> with_refresh_error(#[trigger] old(subs)@[j], subscription_id, opt_view(*error), subs@[j]),
            forall|j: int| i <= j < n ==> #[trigger] subs@[j] == old(subs)@[j],
        decreases n - i,
    {
        let mut s = subs.remove(i);
        if s.id == subscription_id {
            s.last_error = clone_opt(error);
        }
        subs.insert(i, s);
        i = i + 1;
    }
}

// ---------------------------------------------------------------------------
// Imports.

/// Some subscription of `subs` follows the feed at `url`.
pub open spec fn has_feed(subs: Seq<Subscription>, url: Seq<char>) -> bool {
    exists|i: int| 0 <= i < subs.len() && (#[trigger] subs[i]).rss_url@ == url
}

/// The subscriptions after an import of `found`, in order: a feed already
/// followed (before, or earlier in the import) is skipped, every other one
/// is added at the end.
pub open spec fn with_new_feeds(subs: Seq<Subscription>, found: Seq<Subscription>) -> Seq<Subscription>
    decreases found.len(),
{
    if found.len() == 0 {
        subs
    } else {
        let prev = with_new_feeds(subs, found.drop_last());
        let f = found.last();
        if has_feed(prev, f.rss_url@) {
            prev
        } else {
            prev.push(f)
        }
    }
}

fn follows_feed(subs: &Vec<Subscription>, url: &str) -> (r: bool)
    ensures
        r == has_feed(subs@, url@),
{
    let mut i: usize = 0;
    while i < subs.len()
        invariant
            0 <= i <= subs@.len(),
            forall|j: int| 0 <= j < i ==> (#[trigger] subs@[j]).rss_url@ != url@,
        decreases subs@.len() - i,
    {
        if str_equal(subs[i].rss_url.as_str(), url) {
            return true;
        }
        i = i + 1;
    }
    false
}

/// Add the imported subscriptions whose feeds are not followed yet (see
/// [`with_new_feeds`]); returns how many were added.
pub fn add_new_feeds(subs: &mut Vec<Subscription>, found: Vec<Subscription>) -> (added: usize)
    ensures
        final(subs)@ == with_new_feeds(old(subs)@, found@),
        added == final(subs)@.len() - old(subs)@.len(),
{
    let ghost start = subs@;
    let ghost all = found@;
    let total: usize = found.len();
    assert(all.len() == total);
    let mut rest = found;
    let mut added: usize = 0;
    let mut k: usize = 0;
    while rest.len() > 0
        invariant
            k + rest@.len() == all.len(),
            rest@ == all.skip(k as int),
            subs@ == with_new_feeds(start, all.take(k as int)),
            added == subs@.len() - start.len(),
            added <= k,
            all.len() <= usize::MAX,
            subs@.len() <= start.len() + k,
        decreases rest@.len(),
    {
        assert(rest@[0] == all[k as int]);
        let f = rest.remove(0);
        assert(rest@ == all.skip(k + 1));
        assert(all.take(k + 1).drop_last() == all.take(k as int));
        assert(all.take(k + 1).last() == f);
        if !follows_feed(subs, f.rss_url.as_str()) {
            subs.push(f);
            added = added + 1;
        }
        k = k + 1;
    }
    assert(all.take(all.len() as int) == all);
    added
}

// ---------------------------------------------------------------------------
// Subscription list order.

/// Titles in code point order, character by character, a prefix first (the
/// byte order of their UTF-8 text).
pub open spec fn title_le(a: Seq<char>, b: Seq<char>) -> bool
    decreases a.len(),
{
    if a.len() == 0 {
        true
    } else if b.len() == 0 {
        false
    } else if a[0] != b[0] {
        a[0] < b[0]
    } else {
        title_le(a.drop_first(), b.drop_first())
    }
}

proof fn lemma_title_le_total(a: Seq<char>, b: Seq<char>)
    ensures
        title_le(a, b) || title_le(b, a),
    decreases a.len(),
{
    if a.len() > 0 && b.len() > 0 {
        if a[0] == b[0] {
            lemma_title_le_total(a.drop_first(), b.drop_first());
        }
    }
}

proof fn lemma_title_le_transitive(a: Seq<char>, b: Seq<char>, c: Seq<char>)
    requires
        title_le(a, b),
        title_le(b, c),
    ensures
        title_le(a, c),
    decreases a.len(),
{
    if a.len() > 0 && b.len() > 0 && c.len() > 0 && a[0] == b[0] && b[0] == c[0] {
        lemma_title_le_transitive(a.drop_first(), b.drop_first(), c.drop_first());
    }
}

/// Subscription rows ordered by title.
pub open spec fn by_title(s: Seq<Subscription>) -> bool {
    forall|i: int, j: int| 0 <= i < j < s.len() ==> title_le(s[i].title@, s[j].title@)
}

/// The subscriptions of `s` titled `t`, in their order in `s`.
pub open spec fn titled(s: Seq<Subscription>, t: Seq<char>) -> Seq<Subscription> {
    s.filter(|x: Subscription| x.title@ == t)
}

fn title_le_exec(a: &str, b: &str) -> (r: bool)
    ensures
        r == title_le(a@, b@),
{
    let va = crate::text::chars_of(a);
    let vb = crate::text::chars_of(b);
    let mut i: usize = 0;
    assert(va@.skip(0) == va@ && vb@.skip(0) == vb@);
    while i < va.len() && i < vb.len() && va[i] == vb[i]
        invariant
            i <= va@.len(),
            i <= vb@.len(),
            va@ == a@,
            vb@ == b@,
            title_le(a@, b@) == title_le(va@.skip(i as int), vb@.skip(i as int)),
        decreases va@.len() - i,
    {
        assert(va@.skip(i as int).drop_first() == va@.skip(i + 1));
        assert(vb@.skip(i as int).drop_first() == vb@.skip(i + 1));
        assert(va@.skip(i as int)[0] == va@[i as int]);
        assert(vb@.skip(i as int)[0] == vb@[i as int]);
        i = i + 1;
    }
    if i == va.len() {
        true
    } else if i == vb.len() {
        false
    } else {
        assert(va@.skip(i as int)[0] == va@[i as int]);
        assert(vb@.skip(i as int)[0] == vb@[i as int]);
        va[i] < vb[i]
    }
}

proof fn lemma_titled_none(s: Seq<Subscription>, t: Seq<char>)
    requires
        forall|i: int| 0 <= i < s.len() ==> (#[trigger] s[i]).title@ != t,
    ensures
        titled(s, t) == Seq::<Subscription>::empty(),
    decreases s.len(),
{
    reveal(Seq::filter);
    if s.len() > 0 {
        lemma_titled_none(s.drop_last(), t);
    }
}

proof fn lemma_titled_push(s: Seq<Subscription>, x: Subscription, t: Seq<char>)
    ensures
        titled(s.push(x), t) == if x.title@ == t {
            titled(s, t).push(x)
        } else {
            titled(s, t)
        },
{
    reveal(Seq::filter);
    assert(s.push(x).drop_last() == s);
}

proof fn lemma_titled_insert(s: Seq<Subscription>, p: int, x: Subscription, t: Seq<char>)
    requires
        0 <= p <= s.len(),
        forall|q: int| p <= q < s.len() ==> (#[trigger] s[q]).title@ != x.title@,
    ensures
        titled(s.insert(p, x), t) == if x.title@ == t {
            titled(s, t).push(x)
        } else {
            titled(s, t)
        },
{
    let pred = |y: Subscription| y.title@ == t;
    let a = s.take(p);
    let b = s.skip(p);
    assert(s == a + b);
    assert(s.insert(p, x) == a.push(x) + b);
    Seq::filter_distributes_over_add(a, b, pred);
    Seq::filter_distributes_over_add(a.push(x), b, pred);
    lemma_titled_push(a, x, t);
    if x.title@ == t {
        assert forall|i: int| 0 <= i < b.len() implies (#[trigger] b[i]).title@ != t by {
            assert(b[i] == s[p + i]);
        }
        lemma_titled_none(b, t);
        assert(titled(s, t) == titled(a, t) + Seq::<Subscription>::empty());
        assert(titled(a, t) + Seq::<Subscription>::empty() == titled(a, t));
        assert(titled(a, t).push(x) + Seq::<Subscription>::empty() == titled(a, t).push(x));
    }
}

/// List the subscriptions by title, stably: rows with the same title keep
/// their order.
pub fn sort_by_title(subs: &mut Vec<Subscription>)
    ensures
        by_title(final(subs)@),
        forall|t: Seq<char>| #[trigger] titled(final(subs)@, t) == titled(old(subs)@, t),
{
    let ghost inp = subs@;
    let n = subs.len();
    let mut out: Vec<Subscription> = Vec::new();
    let mut i: usize = 0;
    assert forall|t: Seq<char>| #[trigger] titled(out@, t) == titled(inp.take(0), t) by {
        reveal(Seq::filter);
        assert(inp.take(0).len() == 0);
    }
    while i < n
        invariant
            0 <= i <= n,
            n == inp.len(),
            subs@ == inp.skip(i as int),
            by_title(out@),
            forall|t: Seq<char>| #[trigger] titled(out@, t) == titled(inp.take(i as int), t),
        decreases n - i,
    {
        assert(subs@[0] == inp[i as int]);
        let x = subs.remove(0);
        assert(subs@ == inp.skip(i + 1));
        let mut p: usize = 0;
        while p < out.len() && title_le_exec(out[p].title.as_str(), x.title.as_str())
            invariant
                0 <= p <= out@.len(),
                forall|q: int| 0 <= q < p ==> title_le((#[trigger] out@[q]).title@, x.title@),
            decreases out@.len() - p,
        {
            p = p + 1;
        }
        let ghost before = out@;
        proof {
            assert forall|q: int| p <= q < before.len() implies title_le(x.title@, (#[trigger] before[q]).title@)
                && before[q].title@ != x.title@ by {
                let bp = before[p as int].title@;
                assert(!title_le(bp, x.title@));
                lemma_title_le_total(bp, x.title@);
                if q > p {
                    assert(title_le(bp, before[q].title@));
                    lemma_title_le_transitive(x.title@, bp, before[q].title@);
                }
                if before[q].title@ == x.title@ {
                    if q > p {
                        assert(title_le(bp, before[q].title@));
                    }
                }
            }
        }
        out.insert(p, x);
        proof {
            assert(inp.take(i + 1) == inp.take(i as int).push(x));
            assert forall|t: Seq<char>| #[trigger] titled(out@, t) == titled(inp.take(i + 1), t) by {
                lemma_titled_insert(before, p as int, x, t);
                lemma_titled_push(inp.take(i as int), x, t);
            }
            assert forall|a: int, b: int| 0 <= a < b < out@.len() implies title_le(out@[a].title@, out@[b].title@) by {
                if a < p && b < p {
                    assert(out@[a] == before[a]);
                    assert(out@[b] == before[b]);
                } else if a < p && b == p {
                    assert(out@[a] == before[a]);
                } else if a < p {
                    assert(out@[a] == before[a]);
                    assert(out@[b] == before[b - 1]);
                } else if a == p {
                    assert(out@[b] == before[b - 1]);
                } else {
                    assert(out@[a] == before[a - 1]);
                    assert(out@[b] == before[b - 1]);
                }
            }
        }
        i = i + 1;
    }
    assert(inp.take(n as int) == inp);
    *subs = out;
}

// ---------------------------------------------------------------------------
// Laws.

/// No two episodes of `s` share a guid.
pub open spec fn guids_distinct(s: Seq<Episode>) -> bool {
    forall|i: int, j: int| 0 <= i < j < s.len() ==> (#[trigger] s[i]).guid@ != (#[trigger] s[j]).guid@
}

/// No two subscriptions of `s` follow the same feed.
pub open spec fn feeds_distinct(s: Seq<Subscription>) -> bool {
    forall|i: int, j: int| 0 <= i < j < s.len() ==> (#[trigger] s[i]).rss_url@ != (#[trigger] s[j]).rss_url@
}

/// A refresh never stores an episode twice: a catalogue without repeated
/// guids keeps none, whatever the feed repeats; and what was stored stays,
/// in place.
pub proof fn lemma_ingest_keeps_guids_distinct(stored: Seq<Episode>, fetched: Seq<Episode>)
    requires
        guids_distinct(stored),
    ensures
        guids_distinct(ingested(stored, fetched)),
        ingested(stored, fetched).take(stored.len() as int) == stored,
        ingested(stored, fetched).len() >= stored.len(),
    decreases fetched.len(),
{
    if fetched.len() > 0 {
        lemma_ingest_keeps_guids_distinct(stored, fetched.drop_last());
        let prev = ingested(stored, fetched.drop_last());
        let e = fetched.last();
        if !has_guid(prev, e.guid@) {
            let next = prev.push(e);
            assert forall|i: int, j: int| 0 <= i < j < next.len() implies (#[trigger] next[i]).guid@
                != (#[trigger] next[j]).guid@ by {
                if j == prev.len() {
                    assert(next[i] == prev[i]);
                }
            }
            assert(next.take(stored.len() as int) == prev.take(stored.len() as int));
        }
    }
}

/// An import never follows a feed twice: a list without repeated feeds keeps
/// none, and what was followed stays, in place.
pub proof fn lemma_import_keeps_feeds_distinct(subs: Seq<Subscription>, found: Seq<Subscription>)
    requires
        feeds_distinct(subs),
    ensures
        feeds_distinct(with_new_feeds(subs, found)),
        with_new_feeds(subs, found).take(subs.len() as int) == subs,
        with_new_feeds(subs, found).len() >= subs.len(),
    decreases found.len(),
{
    if found.len() > 0 {
        lemma_import_keeps_feeds_distinct(subs, found.drop_last());
        let prev = with_new_feeds(subs, found.drop_last());
        let f = found.last();
        if !has_feed(prev, f.rss_url@) {
            let next = prev.push(f);
            assert forall|i: int, j: int| 0 <= i < j < next.len() implies (#[trigger] next[i]).rss_url@
                != (#[trigger] next[j]).rss_url@ by {
                if j == prev.len() {
                    assert(next[i] == prev[i]);
                }
            }
            assert(next.take(subs.len() as int) == prev.take(subs.len() as int));
        }
    }
}

} // verus!
