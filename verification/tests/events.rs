use pdcst::events::{FollowUp, StateEvent};
use pdcst::models::{Episode, Subscription};
use pdcst::state::{AppState, Modal, PendingAction, SearchFocus, View};

type State = AppState<Subscription, Episode, u32>;

fn sub(title: &str) -> Subscription {
    Subscription::new(title.to_string(), format!("https://example.com/{title}.xml"))
}

#[test]
fn playback_started_loads_an_episode_it_does_not_know() {
    let mut st = State::new();
    st.set_status_persistent("Loading...".to_string());
    assert_eq!(st.apply_event(StateEvent::PlaybackStarted { episode_id: 5 }, 0), FollowUp::LoadEpisode(5));
    assert!(st.is_playing);
    assert!(st.status_message.is_none());
    let ep = Episode::new(1, "E".to_string(), "u".to_string(), "g".to_string(), 0);
    let id = ep.id;
    st.current_episode = Some(ep);
    assert_eq!(st.apply_event(StateEvent::PlaybackStarted { episode_id: id }, 0), FollowUp::Nothing);
}

#[test]
fn pause_resume_stop_and_errors_track_playing() {
    let mut st = State::new();
    st.apply_event(StateEvent::PlaybackResumed, 0);
    assert!(st.is_playing);
    st.apply_event(StateEvent::PlaybackPaused, 0);
    assert!(!st.is_playing);
    st.apply_event(StateEvent::PlaybackResumed, 0);
    st.apply_event(StateEvent::PlaybackError { error: "stream dropped".to_string() }, 0);
    assert!(!st.is_playing);
    assert_eq!(st.modal, Modal::Error("Playback error: stream dropped".to_string()));
}

#[test]
fn refresh_completion_reports_new_episodes() {
    let mut st = State::new();
    let s = sub("a");
    let id = s.id;
    assert_eq!(
        st.apply_event(StateEvent::FeedRefreshCompleted { subscription_id: id, new_episodes: 12 }, 1000),
        FollowUp::ReloadSubscriptions
    );
    assert_eq!(st.current_status(), Some("Refreshed: 12 new"));
    st.current_subscription = Some(s);
    assert_eq!(
        st.apply_event(StateEvent::FeedRefreshCompleted { subscription_id: id, new_episodes: 0 }, 1000),
        FollowUp::ReloadSubscriptionsAndEpisodes(id)
    );
    assert_eq!(st.current_status(), Some("Feed refreshed"));
}

#[test]
fn refresh_failure_sets_a_status_not_a_dialog() {
    let mut st = State::new();
    let f = st.apply_event(StateEvent::FeedRefreshFailed { subscription_id: 3, error: "404".to_string() }, 0);
    assert_eq!(f, FollowUp::ReloadSubscriptions);
    assert_eq!(st.modal, Modal::Closed);
    assert_eq!(st.current_status(), Some("A feed failed to refresh (see the ! marker)"));
}

#[test]
fn feed_fix_found_asks_before_repointing() {
    let mut st = State::new();
    st.apply_event(
        StateEvent::FeedFixFound {
            subscription_id: 4,
            podcast_title: "Show".to_string(),
            artist: "Host".to_string(),
            new_url: "https://new/feed".to_string(),
        },
        0,
    );
    assert_eq!(
        st.pending_action,
        Some(PendingAction::RepointFeed { subscription_id: 4, new_url: "https://new/feed".to_string() })
    );
    assert_eq!(
        st.modal,
        Modal::Confirm {
            message: "Found 'Show' by Host.\nSwitch this feed to:\nhttps://new/feed?".to_string(),
            action: "repoint-feed".to_string(),
        }
    );
}

#[test]
fn feed_fix_candidates_turn_search_into_a_picker() {
    let mut st = State::new();
    let s = sub("Daily Näws");
    let id = s.id;
    st.subscriptions = vec![sub("other"), s];
    st.apply_event(StateEvent::FeedFixCandidates { subscription_id: id, results: vec![1, 2, 3] }, 50);
    assert_eq!(st.current_view, View::Search);
    assert_eq!(st.feed_fix_target, Some(id));
    assert_eq!(st.search_input, "Daily Näws");
    assert_eq!(st.search_cursor, 10);
    assert_eq!(st.search_results, vec![1, 2, 3]);
    assert_eq!(st.search_focus, SearchFocus::Results);
    assert_eq!(
        st.current_status(),
        Some("No exact match - pick a feed to re-point, or edit the search.")
    );
    // An unknown feed seeds an empty query.
    let mut st = State::new();
    st.apply_event(StateEvent::FeedFixCandidates { subscription_id: 77, results: vec![] }, 0);
    assert_eq!(st.search_input, "");
    assert_eq!(st.search_focus, SearchFocus::Input);
}

#[test]
fn search_events_and_downloads() {
    let mut st = State::new();
    st.set_view(View::Search);
    st.set_status_persistent("Searching...".to_string());
    st.apply_event(StateEvent::SearchCompleted { results: vec![9] }, 0);
    assert_eq!(st.search_results, vec![9]);
    assert!(st.status_message.is_none());
    assert_eq!(st.search_focus, SearchFocus::Results);
    st.apply_event(StateEvent::SearchFailed { error: "dns".to_string() }, 0);
    assert_eq!(st.modal, Modal::Error("Search failed: dns".to_string()));
    st.close_modal();
    st.apply_event(StateEvent::DownloadCompleted { episode_id: 1 }, 0);
    assert_eq!(st.current_status(), Some("Download completed"));
    st.apply_event(StateEvent::DownloadFailed { episode_id: 1, error: "disk full".to_string() }, 0);
    assert_eq!(st.modal, Modal::Error("Download failed: disk full".to_string()));
    assert_eq!(st.apply_event(StateEvent::QueueUpdated, 0), FollowUp::ReloadQueue);
    st.apply_event(StateEvent::FeedFixNotFound { subscription_id: 1 }, 0);
    assert_eq!(st.current_status(), Some("No updated feed found for that title."));
    assert_eq!(st.apply_event(StateEvent::Other, 0), FollowUp::Nothing);
}
