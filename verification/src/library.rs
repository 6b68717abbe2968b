//! The library's item actions: which row an action applies to, what Enter
//! does in each view, and the state changes that frame an action (opening a
//! feed, starting playback, subscribing from a search result). The database,
//! player and network work between them is the front end's.
use crate::models::{auto_queue_cycle, DownloadStatus, Episode, Subscription};
use crate::opml::clone_opt;
use crate::search::{opt_view, PodcastSearchResult};
use crate::state::{AppState, SearchFocus, StatusMessage, View};
use crate::text::{chars_of, owned, push_str_chars, string_from_chars};
use vstd::view::View as _;
use vstd::prelude::*;

verus! {

/// What Enter does on the highlighted row.
#[derive(Debug, Clone, Copy, PartialEq, Eq, Structural)]
pub enum Selection {
    /// Open this subscription's episodes.
    OpenFeed(usize),
    /// Play this episode of the Episodes pane.
    Play(usize),
    /// Jump to and play this queue item.
    PlayQueued(usize),
    /// Subscribe to this search result (or re-point the feed being fixed).
    Subscribe(usize),
    Nothing,
}

impl<S, E, R> AppState<S, E, R> {
    /// The highlighted row of `view`'s list when `view` is the focused view
    /// and the row exists.
    pub open spec fn picked(&self, view: View) -> Option<usize> {
        if self.current_view == view && self.focused_index() < self.list_len() {
            Some(self.focused_index())
        } else {
            None
        }
    }

    /// The row an action for `view` applies to (see [`AppState::picked`]).
    pub fn picked_row(&self, view: View) -> (r: Option<usize>)
        ensures
            r == self.picked(view),
    {
        let n = self.current_list_len();
        let i = match self.current_view {
            View::Subscriptions => self.subscription_index,
            View::Episodes => self.episode_index,
            _ => self.selected_index,
        };
        if self.current_view == view && i < n {
            Some(i)
        } else {
            None
        }
    }

    /// What Enter means in the focused view: open a feed, play an episode or a
    /// queue item, or subscribe to a result once the results list has focus.
    pub open spec fn selection_spec(&self) -> Selection {
        match self.current_view {
            View::Subscriptions => match self.picked(View::Subscriptions) {
                Some(i) => Selection::OpenFeed(i),
                None => Selection::Nothing,
            },
            View::Episodes => match self.picked(View::Episodes) {
                Some(i) => Selection::Play(i),
                None => Selection::Nothing,
            },
            View::Queue => match self.picked(View::Queue) {
                Some(i) => Selection::PlayQueued(i),
                None => Selection::Nothing,
            },
            View::Search => if self.search_focus == SearchFocus::Results {
                match self.picked(View::Search) {
                    Some(i) => Selection::Subscribe(i),
                    None => Selection::Nothing,
                }
            } else {
                Selection::Nothing
            },
            View::Settings => Selection::Nothing,
        }
    }

    pub fn selection(&self) -> (s: Selection)
        ensures
            s == self.selection_spec(),
    {
        match self.current_view {
            View::Subscriptions => match self.picked_row(View::Subscriptions) {
                Some(i) => Selection::OpenFeed(i),
                None => Selection::Nothing,
            },
            View::Episodes => match self.picked_row(View::Episodes) {
                Some(i) => Selection::Play(i),
                None => Selection::Nothing,
            },
            View::Queue => match self.picked_row(View::Queue) {
                Some(i) => Selection::PlayQueued(i),
                None => Selection::Nothing,
            },
            View::Search => {
                if self.search_focus == SearchFocus::Results {
                    match self.picked_row(View::Search) {
                        Some(i) => Selection::Subscribe(i),
                        None => Selection::Nothing,
                    }
                } else {
                    Selection::Nothing
                }
            },
            View::Settings => Selection::Nothing,
        }
    }
}

/// The status line while an episode loads.
pub open spec fn loading_text(title: Seq<char>) -> Seq<char> {
    "Loading "@ + title + "..."@
}

impl<R> AppState<Subscription, Episode, R> {
    /// Show `sub`'s episodes: it becomes the current feed and the Episodes
    /// pane takes focus at its top. The front end has loaded its episodes.
    pub fn open_feed(&mut self, sub: Subscription)
        ensures
            *final(self) == (AppState { current_subscription: Some(sub), ..*old(self) }).switched_to(
                View::Episodes,
            ),
    {
        self.current_subscription = Some(sub);
        self.set_view(View::Episodes);
    }

    /// Start playing `episode`: it becomes the current episode and a
    /// persistent "Loading ..." status shows until the player reports that
    /// playback started. Returns where to start, in whole seconds: the saved
    /// resume position, or the top for a fresh (or corrupt, negative) one.
    pub fn begin_playback(&mut self, episode: Episode) -> (start_secs: u64)
        ensures
            start_secs == if episode.playback_position_seconds > 0 {
                episode.playback_position_seconds as int
            } else {
                0
            },
            final(self).status_message matches Some(m) && m.expires_at is None && m.text@
                == loading_text(episode.title@),
            *final(self) == (AppState {
                current_episode: Some(episode),
                status_message: final(self).status_message,
                ..*old(self)
            }),
    {
        let start: u64 = if episode.playback_position_seconds > 0 {
            episode.playback_position_seconds as u64
        } else {
            0
        };
        let mut v = chars_of("Loading ");
        push_str_chars(&mut v, episode.title.as_str());
        push_str_chars(&mut v, "...");
        self.status_message = Some(StatusMessage::persistent(string_from_chars(&v)));
        self.current_episode = Some(episode);
        start
    }

    /// The highlighted episode whose download `x` deletes: only one that is
    /// fully on disk.
    pub fn deletable_download(&self) -> (r: Option<usize>)
        ensures
            r == match self.picked(View::Episodes) {
                Some(i) => if self.episodes@[i as int].download_status == DownloadStatus::Downloaded {
                    Some(i)
                } else {
                    None
                },
                None => None,
            },
    {
        match self.picked_row(View::Episodes) {
            Some(i) => {
                if self.episodes[i].is_downloaded() {
                    Some(i)
                } else {
                    None
                }
            },
            None => None,
        }
    }

    /// The played flag `s` sets on the highlighted episode: the episode and
    /// its new flag, the opposite of the current one.
    pub fn played_toggle(&self) -> (r: Option<(u128, bool)>)
        ensures
            match self.picked(View::Episodes) {
                Some(i) => r == Some((self.episodes@[i as int].id, !self.episodes@[i as int].played)),
                None => r is None,
            },
    {
        match self.picked_row(View::Episodes) {
            Some(i) => Some((self.episodes[i].id, !self.episodes[i].played)),
            None => None,
        }
    }

    /// The next auto-queue setting of the highlighted subscription (off ->
    /// bottom -> top -> off): its id, the new `auto_queue` and
    /// `auto_queue_to_top` flags, and the status line naming the feed.
    pub fn auto_queue_change(&self) -> (r: Option<(u128, bool, bool, String)>)
        ensures
            match self.picked(View::Subscriptions) {
                Some(i) => {
                    let sub = self.subscriptions@[i as int];
                    r matches Some((id, aq, top, msg)) && id == sub.id && (if !sub.auto_queue {
                        aq && !top && msg@ == sub.title@ + " - "@ + "auto-queue: bottom"@
                    } else if !sub.auto_queue_to_top {
                        aq && top && msg@ == sub.title@ + " - "@ + "auto-queue: top"@
                    } else {
                        !aq && !top && msg@ == sub.title@ + " - "@ + "auto-queue: off"@
                    })
                },
                None => r is None,
            },
    {
        match self.picked_row(View::Subscriptions) {
            Some(i) => {
                let sub = &self.subscriptions[i];
                let (aq, top, label) = auto_queue_cycle(sub.auto_queue, sub.auto_queue_to_top);
                let mut v = chars_of(sub.title.as_str());
                push_str_chars(&mut v, " - ");
                push_str_chars(&mut v, label);
                Some((sub.id, aq, top, string_from_chars(&v)))
            },
            None => None,
        }
    }
}

/// A new subscription to a search result's feed, with its author, artwork
/// and description.
pub fn subscription_from_result(result: &PodcastSearchResult) -> (sub: Subscription)
    ensures
        sub.title@ == result.title@,
        sub.rss_url@ == result.feed_url@,
        sub.author matches Some(a) && a@ == result.author@,
        opt_view(sub.artwork_url) == opt_view(result.artwork_url),
        opt_view(sub.description) == opt_view(result.description),
        sub.website_url is None,
        sub.categories@.len() == 0,
        !sub.auto_queue,
        !sub.auto_download,
        sub.last_error is None,
{
    let mut sub = Subscription::new(owned(result.title.as_str()), owned(result.feed_url.as_str()));
    sub.author = Some(owned(result.author.as_str()));
    sub.artwork_url = clone_opt(&result.artwork_url);
    sub.description = clone_opt(&result.description);
    sub
}

/// The status line after subscribing from a search result.
pub fn subscribed_status(title: &str) -> (s: String)
    ensures
        s@ == "Subscribed to "@ + title@,
{
    let mut v = chars_of("Subscribed to ");
    push_str_chars(&mut v, title);
    string_from_chars(&v)
}

/// `r` is `s` re-pointed at `url` when it is subscription `id` (the feed URL
/// swapped and its last error cleared), and `s` itself otherwise.
pub open spec fn repointed(s: Subscription, id: u128, url: Seq<char>, r: Subscription) -> bool {
    if s.id == id {
        &&& r.rss_url@ == url
        &&& r == (Subscription { rss_url: r.rss_url, last_error: None, ..s })
    } else {
        r == s
    }
}

/// Point subscription `subscription_id` at `new_url`, clearing the error
/// that sent the user looking for it; every other subscription is untouched.
pub fn repoint_feed(subs: &mut Vec<Subscription>, subscription_id: u128, new_url: &str)
    ensures
        final(subs)@.len() == old(subs)@.len(),
        forall|i: int| 0 <= i < old(subs)@.len() ==> repointed(
            #[trigger] old(subs)@[i],
            subscription_id,
            new_url@,
            final(subs)@[i],
        ),
{
    let n = subs.len();
    let mut i: usize = 0;
    while i < n
        invariant
            0 <= i <= n,
            n == old(subs)@.len(),
            subs@.len() == n,
            forall|j: int| 0 <= j < i ==> repointed(#[trigger] old(subs)@[j], subscription_id, new_url@, subs@[j]),
            forall|j: int| i <= j < n ==> #[trigger] subs@[j] == old(subs)@[j],
        decreases n - i,
    {
        let mut s = subs.remove(i);
        if s.id == subscription_id {
            s.rss_url = owned(new_url);
            s.last_error = None;
        }
        subs.insert(i, s);
        i = i + 1;
    }
}

// ---------------------------------------------------------------------------
// Laws.

impl<S, E, R> AppState<S, E, R> {
    /// An action only ever applies to a row that exists, in the focused view;
    /// and Enter never subscribes while the query box has focus.
    pub proof fn lemma_actions_hit_real_rows(self, view: View)
        ensures
            self.picked(view) matches Some(i) ==> i < self.list_len() && self.current_view == view,
            self.current_view == View::Search && self.search_focus == SearchFocus::Input
                ==> self.selection_spec() == Selection::Nothing,
            match self.selection_spec() {
                Selection::OpenFeed(i) => i < self.subscriptions@.len(),
                Selection::Play(i) => i < self.episodes@.len(),
                Selection::PlayQueued(i) => i < self.queue_items@.len(),
                Selection::Subscribe(i) => i < self.search_results@.len(),
                Selection::Nothing => true,
            },
    {
    }
}

} // verus!
