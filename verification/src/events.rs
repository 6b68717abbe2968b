//! The UI's reaction to events from the player, the downloader, the feed
//! refresher and background searches.
//!
//! [`AppState::apply_event`] makes every change an event asks of UI state and
//! names the reload the front end must then run, as a [`FollowUp`]. Events
//! that carry only a float (playback position, volume, speed, download
//! percentage) change nothing here; the front end keeps those values.
use crate::models::{Episode, Subscription};
use crate::state::{AppState, Modal, PendingAction, View, STATUS_TTL_MS};
use crate::text::{chars_of, decimal, joined, owned, push_decimal, push_str_chars, string_from_chars};
use vstd::view::View as _;
use vstd::prelude::*;

verus! {

/// An event from a background component, with the payloads the UI reads.
#[derive(Debug, Clone)]
pub enum StateEvent<R> {
    PlaybackStarted { episode_id: u128 },
    PlaybackPaused,
    PlaybackResumed,
    PlaybackStopped,
    PlaybackCompleted { episode_id: u128 },
    PlaybackError { error: String },
    QueueUpdated,
    DownloadCompleted { episode_id: u128 },
    DownloadFailed { episode_id: u128, error: String },
    /// A feed refresh began.
    FeedRefreshStarted { subscription_id: u128 },
    /// A background feed refresh finished.
    FeedRefreshCompleted { subscription_id: u128, new_episodes: usize },
    FeedRefreshFailed { subscription_id: u128, error: String },
    /// Feed recovery: a title search found a different feed URL.
    FeedFixFound {
        subscription_id: u128,
        podcast_title: String,
        artist: String,
        new_url: String,
    },
    /// Feed recovery found nothing new.
    FeedFixNotFound { subscription_id: u128 },
    /// Feed recovery found no confident match, but candidates to pick from.
    FeedFixCandidates { subscription_id: u128, results: Vec<R> },
    SearchCompleted { results: Vec<R> },
    SearchFailed { error: String },
    /// Any event that needs no change to UI state.
    Other,
}

/// The reload an event leaves for the front end.
#[derive(Debug, Clone, Copy, PartialEq, Eq, Structural)]
pub enum FollowUp {
    Nothing,
    /// Fetch this episode and make it the current one.
    LoadEpisode(u128),
    ReloadQueue,
    ReloadSubscriptions,
    /// Reload the subscriptions and this (viewed) feed's episode list.
    ReloadSubscriptionsAndEpisodes(u128),
}

/// The title of the first subscription with id `id`, or the empty string.
pub open spec fn title_for(subs: Seq<Subscription>, id: u128) -> Seq<char>
    decreases subs.len(),
{
    if subs.len() == 0 {
        Seq::empty()
    } else if subs[0].id == id {
        subs[0].title@
    } else {
        title_for(subs.drop_first(), id)
    }
}

fn title_lookup(subs: &Vec<Subscription>, id: u128) -> (t: String)
    ensures
        t@ == title_for(subs@, id),
{
    let mut i: usize = 0;
    assert(subs@.skip(0) =~= subs@);
    while i < subs.len()
        invariant
            0 <= i <= subs@.len(),
            title_for(subs@, id) == title_for(subs@.skip(i as int), id),
        decreases subs@.len() - i,
    {
        assert(subs@.skip(i as int).drop_first() =~= subs@.skip(i + 1));
        if subs[i].id == id {
            return owned(subs[i].title.as_str());
        }
        i = i + 1;
    }
    String::new()
}

/// The confirm dialog's question when feed recovery finds a new URL.
pub open spec fn repoint_question(title: Seq<char>, artist: Seq<char>, url: Seq<char>) -> Seq<char> {
    "Found '"@ + title + "' by "@ + artist + ".\nSwitch this feed to:\n"@ + url + "?"@
}

/// The status line after a feed refresh that found `n` new episodes.
pub open spec fn refreshed_status(n: nat) -> Seq<char> {
    if n > 0 {
        "Refreshed: "@ + decimal(n) + " new"@
    } else {
        "Feed refreshed"@
    }
}

impl<R> AppState<Subscription, Episode, R> {
    /// What an event does: `next` is the state after it and `follow` the
    /// reload it leaves for the front end.
    pub open spec fn event_step(
        self,
        event: StateEvent<R>,
        now_ms: u64,
        next: Self,
        follow: FollowUp,
    ) -> bool {
        match event {
            StateEvent::PlaybackStarted { episode_id } => {
                &&& next == (AppState { is_playing: true, status_message: None, ..self })
                &&& follow == if self.current_episode matches Some(ep) && ep.id == episode_id {
                    FollowUp::Nothing
                } else {
                    FollowUp::LoadEpisode(episode_id)
                }
            },
            StateEvent::PlaybackResumed => next == (AppState { is_playing: true, ..self }) && follow
                == FollowUp::Nothing,
            StateEvent::PlaybackPaused | StateEvent::PlaybackStopped
            | StateEvent::PlaybackCompleted { .. } => next == (AppState { is_playing: false, ..self })
                && follow == FollowUp::Nothing,
            StateEvent::PlaybackError { error } => {
                // A failure ends playback; the saved position is untouched.
                &&& (AppState { is_playing: false, ..self }).shows_error(
                    next,
                    "Playback error: "@ + error@,
                )
                &&& follow == FollowUp::Nothing
            },
            StateEvent::QueueUpdated => next == self && follow == FollowUp::ReloadQueue,
            StateEvent::DownloadCompleted { .. } => self.shows_status(
                next,
                "Download completed"@,
                now_ms,
            ) && follow == FollowUp::Nothing,
            StateEvent::DownloadFailed { error, .. } => self.shows_error(
                next,
                "Download failed: "@ + error@,
            ) && follow == FollowUp::Nothing,
            StateEvent::FeedRefreshCompleted { subscription_id, new_episodes } => {
                &&& self.shows_status(next, refreshed_status(new_episodes as nat), now_ms)
                &&& follow == if self.current_subscription matches Some(s) && s.id
                    == subscription_id {
                    FollowUp::ReloadSubscriptionsAndEpisodes(subscription_id)
                } else {
                    FollowUp::ReloadSubscriptions
                }
            },
            StateEvent::FeedRefreshFailed { .. } => {
                // No dialog per failure: the error shows inline on the row.
                &&& self.shows_status(
                    next,
                    "A feed failed to refresh (see the ! marker)"@,
                    now_ms,
                )
                &&& follow == FollowUp::ReloadSubscriptions
            },
            StateEvent::FeedFixFound { subscription_id, podcast_title, artist, new_url } => {
                &&& next.pending_action matches Some(
                    PendingAction::RepointFeed { subscription_id: sid, new_url: url },
                ) && sid == subscription_id && url@ == new_url@
                &&& next.modal matches Modal::Confirm { message, action } && message@
                    == repoint_question(podcast_title@, artist@, new_url@) && action@
                    == "repoint-feed"@
                &&& next == (AppState {
                    pending_action: next.pending_action,
                    modal: next.modal,
                    ..self
                })
                &&& follow == FollowUp::Nothing
            },
            StateEvent::FeedFixNotFound { .. } => self.shows_status(
                next,
                "No updated feed found for that title."@,
                now_ms,
            ) && follow == FollowUp::Nothing,
            StateEvent::FeedFixCandidates { subscription_id, results } => {
                // The Search view becomes a picker over the candidates, with the
                // query box seeded with the feed's title.
                let title = title_for(self.subscriptions@, subscription_id);
                let picked = (AppState {
                    feed_fix_target: Some(subscription_id),
                    search_input: next.search_input,
                    search_cursor: title.len() as usize,
                    search_results: results,
                    ..self.switched_to(View::Search)
                }).results_focused();
                &&& next.search_input@ == title
                &&& picked.shows_status(
                    next,
                    "No exact match - pick a feed to re-point, or edit the search."@,
                    now_ms,
                )
                &&& follow == FollowUp::Nothing
            },
            StateEvent::SearchCompleted { results } => {
                &&& next == (AppState {
                    search_results: results,
                    status_message: None,
                    ..self
                }).results_focused()
                &&& follow == FollowUp::Nothing
            },
            StateEvent::SearchFailed { error } => self.shows_error(
                next,
                "Search failed: "@ + error@,
            ) && follow == FollowUp::Nothing,
            StateEvent::FeedRefreshStarted { .. } | StateEvent::Other => next == self && follow
                == FollowUp::Nothing,
        }
    }

    /// Apply an event to UI state and return the reload it asks for.
    pub fn apply_event(&mut self, event: StateEvent<R>, now_ms: u64) -> (follow: FollowUp)
        requires
            now_ms + STATUS_TTL_MS <= u64::MAX,
        ensures
            old(self).event_step(event, now_ms, *final(self), follow),
    {
        match event {
            StateEvent::PlaybackStarted { episode_id } => {
                self.is_playing = true;
                self.clear_status();
                let same = match &self.current_episode {
                    Some(ep) => ep.id == episode_id,
                    None => false,
                };
                if same {
                    FollowUp::Nothing
                } else {
                    FollowUp::LoadEpisode(episode_id)
                }
            },
            StateEvent::PlaybackResumed => {
                self.is_playing = true;
                FollowUp::Nothing
            },
            StateEvent::PlaybackPaused | StateEvent::PlaybackStopped
            | StateEvent::PlaybackCompleted { .. } => {
                self.is_playing = false;
                FollowUp::Nothing
            },
            StateEvent::PlaybackError { error } => {
                self.is_playing = false;
                self.show_error(joined("Playback error: ", error.as_str()));
                FollowUp::Nothing
            },
            StateEvent::QueueUpdated => FollowUp::ReloadQueue,
            StateEvent::DownloadCompleted { .. } => {
                self.set_status(owned("Download completed"), now_ms);
                FollowUp::Nothing
            },
            StateEvent::DownloadFailed { error, .. } => {
                self.show_error(joined("Download failed: ", error.as_str()));
                FollowUp::Nothing
            },
            StateEvent::FeedRefreshCompleted { subscription_id, new_episodes } => {
                let viewed = match &self.current_subscription {
                    Some(s) => s.id == subscription_id,
                    None => false,
                };
                let text = if new_episodes > 0 {
                    let mut v = chars_of("Refreshed: ");
                    push_decimal(&mut v, new_episodes as u64);
                    push_str_chars(&mut v, " new");
                    string_from_chars(&v)
                } else {
                    owned("Feed refreshed")
                };
                self.set_status(text, now_ms);
                if viewed {
                    FollowUp::ReloadSubscriptionsAndEpisodes(subscription_id)
                } else {
                    FollowUp::ReloadSubscriptions
                }
            },
            StateEvent::FeedRefreshFailed { .. } => {
                self.set_status(owned("A feed failed to refresh (see the ! marker)"), now_ms);
                FollowUp::ReloadSubscriptions
            },
            StateEvent::FeedFixFound { subscription_id, podcast_title, artist, new_url } => {
                let mut v = chars_of("Found '");
                push_str_chars(&mut v, podcast_title.as_str());
                push_str_chars(&mut v, "' by ");
                push_str_chars(&mut v, artist.as_str());
                push_str_chars(&mut v, ".\nSwitch this feed to:\n");
                push_str_chars(&mut v, new_url.as_str());
                push_str_chars(&mut v, "?");
                let message = string_from_chars(&v);
                self.pending_action = Some(
                    PendingAction::RepointFeed {
                        subscription_id,
                        new_url: owned(new_url.as_str()),
                    },
                );
                self.modal = Modal::Confirm { message, action: owned("repoint-feed") };
                FollowUp::Nothing
            },
            StateEvent::FeedFixNotFound { .. } => {
                self.set_status(owned("No updated feed found for that title."), now_ms);
                FollowUp::Nothing
            },
            StateEvent::FeedFixCandidates { subscription_id, results } => {
                let title = title_lookup(&self.subscriptions, subscription_id);
                let count = chars_of(title.as_str()).len();
                self.set_view(View::Search);
                self.feed_fix_target = Some(subscription_id);
                self.search_input = title;
                self.search_cursor = count;
                self.search_results = results;
                self.focus_search_results();
                self.set_status(
                    owned("No exact match - pick a feed to re-point, or edit the search."),
                    now_ms,
                );
                FollowUp::Nothing
            },
            StateEvent::SearchCompleted { results } => {
                self.search_results = results;
                self.clear_status();
                self.focus_search_results();
                FollowUp::Nothing
            },
            StateEvent::SearchFailed { error } => {
                self.show_error(joined("Search failed: ", error.as_str()));
                FollowUp::Nothing
            },
            StateEvent::FeedRefreshStarted { .. } | StateEvent::Other => FollowUp::Nothing,
        }
    }
}

// ---------------------------------------------------------------------------
// Laws.

impl<R> AppState<Subscription, Episode, R> {
    /// When playback starts or resumes, the UI shows an episode as playing.
    pub proof fn lemma_playback_start_sets_playing(self, event: StateEvent<R>, now_ms: u64, next: Self, follow: FollowUp)
        requires
            event matches StateEvent::PlaybackStarted { .. } || event matches StateEvent::PlaybackResumed,
            self.event_step(event, now_ms, next, follow),
        ensures
            next.is_playing,
    {
    }

    /// When playback completes, pauses or stops, the UI no longer shows an
    /// episode as playing, and nothing needs reloading.
    pub proof fn lemma_playback_end_clears_playing(self, event: StateEvent<R>, now_ms: u64, next: Self, follow: FollowUp)
        requires
            event matches StateEvent::PlaybackCompleted { .. } || event matches StateEvent::PlaybackPaused
                || event matches StateEvent::PlaybackStopped,
            self.event_step(event, now_ms, next, follow),
        ensures
            !next.is_playing,
            follow == FollowUp::Nothing,
            next.current_episode == self.current_episode,
    {
    }

    /// A playback failure ends playback and is reported in an error dialog.
    pub proof fn lemma_playback_error_stops(
        self,
        error: String,
        now_ms: u64,
        next: Self,
        follow: FollowUp,
    )
        requires
            self.event_step(StateEvent::PlaybackError { error }, now_ms, next, follow),
        ensures
            !next.is_playing,
            next.modal is Error,
            next.status_message == self.status_message,
            follow == FollowUp::Nothing,
    {
    }

    /// A failed feed refresh never opens a dialog (a bulk refresh with several
    /// dead feeds would bury the user); it reloads the list so the failure
    /// shows on its row.
    pub proof fn lemma_refresh_failure_no_dialog(
        self,
        subscription_id: u128,
        error: String,
        now_ms: u64,
        next: Self,
        follow: FollowUp,
    )
        requires
            self.event_step(
                StateEvent::FeedRefreshFailed { subscription_id, error },
                now_ms,
                next,
                follow,
            ),
        ensures
            next.modal == self.modal,
            follow == FollowUp::ReloadSubscriptions,
    {
    }
}

} // verus!
