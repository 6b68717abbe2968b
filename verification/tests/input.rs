use pdcst::input::{Job, Key, KeyAction, KeyCommand};
use pdcst::library::repoint_feed;
use pdcst::models::Subscription;
use pdcst::state::{AppState, Modal, PendingAction, SearchFocus, View};

type State = AppState<u32, u32, u32>;

#[test]
fn q_quits_outside_the_search_box() {
    let mut st = State::new();
    assert_eq!(st.handle_key(Key::Char('q'), 0), KeyCommand::Nothing);
    assert!(st.should_quit);
}

#[test]
fn printable_keys_type_into_the_search_box() {
    let mut st = State::new();
    st.set_view(View::Search);
    for c in ['q', '1', '/', '?', ' '] {
        assert_eq!(st.handle_key(Key::Char(c), 0), KeyCommand::Nothing);
    }
    assert_eq!(st.search_input, "q1/? ");
    assert_eq!(st.search_cursor, 5);
    assert!(!st.should_quit);
    assert_eq!(st.current_view, View::Search);
    assert_eq!(st.modal, Modal::Closed);
    st.handle_key(Key::Backspace, 0);
    assert_eq!(st.search_input, "q1/?");
    // A control character is not typed.
    st.handle_key(Key::Char('\u{7}'), 0);
    assert_eq!(st.search_input, "q1/?");
}

#[test]
fn enter_submits_a_search_and_the_outcome_focuses_results() {
    let mut st = State::new();
    st.set_view(View::Search);
    // Nothing to search for yet.
    assert_eq!(st.handle_key(Key::Enter, 0), KeyCommand::Nothing);
    assert!(st.status_message.is_none());
    st.handle_key(Key::Char('r'), 0);
    st.handle_key(Key::Char('s'), 0);
    let cmd = st.handle_key(Key::Enter, 100);
    assert_eq!(cmd, KeyCommand::Search("rs".to_string()));
    assert_eq!(st.current_status(), Some("Searching..."));
    st.search_results = vec![7, 8];
    st.finish_command(&cmd, Ok(()), 200);
    assert!(st.status_message.is_none());
    assert_eq!(st.search_focus, SearchFocus::Results);
    assert_eq!(st.selected_index, 0);
    // With the results focused, j/k browse instead of typing.
    st.handle_key(Key::Char('j'), 300);
    assert_eq!(st.selected_index, 1);
    assert_eq!(st.search_input, "rs");
    // Esc steps back to the box, then leaves Search.
    st.handle_key(Key::Esc, 300);
    assert_eq!(st.search_focus, SearchFocus::Input);
    st.handle_key(Key::Esc, 300);
    assert_eq!(st.current_view, View::Subscriptions);
}

#[test]
fn a_failed_search_opens_an_error_dialog() {
    let mut st = State::new();
    st.set_view(View::Search);
    st.handle_key(Key::Char('x'), 0);
    let cmd = st.handle_key(Key::Enter, 0);
    st.finish_command(&cmd, Err("timeout".to_string()), 0);
    assert_eq!(st.modal, Modal::Error("Search failed: timeout".to_string()));
}

#[test]
fn an_open_modal_swallows_keys() {
    let mut st = State::new();
    st.show_help_modal();
    assert_eq!(st.key_action(Key::Char(' ')), KeyAction::Ignore);
    assert_eq!(st.handle_key(Key::Char('d'), 0), KeyCommand::Nothing);
    assert_eq!(st.modal, Modal::Help);
    assert!(st.status_message.is_none());
    st.handle_key(Key::Char('q'), 0);
    assert_eq!(st.modal, Modal::Closed);
    assert!(!st.should_quit);

    st.modal = Modal::Confirm { message: "Sure?".to_string(), action: "repoint-feed".to_string() };
    assert_eq!(st.handle_key(Key::Char('q'), 0), KeyCommand::Nothing);
    assert!(matches!(st.modal, Modal::Confirm { .. }));
    st.handle_key(Key::Enter, 0);
    assert_eq!(st.modal, Modal::Closed);
}

#[test]
fn number_keys_jump_between_views() {
    let mut st = State::new();
    assert_eq!(st.handle_key(Key::Char('2'), 0), KeyCommand::Run(Job::LoadQueue));
    assert_eq!(st.current_view, View::Queue);
    assert_eq!(st.handle_key(Key::Char('4'), 0), KeyCommand::Nothing);
    assert_eq!(st.current_view, View::Settings);
    st.search_input = "old".to_string();
    st.search_cursor = 3;
    st.handle_key(Key::Char('3'), 0);
    assert_eq!(st.current_view, View::Search);
    assert_eq!(st.search_input, "");
    assert_eq!(st.search_cursor, 0);
    st.handle_key(Key::Esc, 0);
    st.handle_key(Key::Char('1'), 0);
    assert_eq!(st.current_view, View::Subscriptions);
}

#[test]
fn tab_onto_the_queue_reloads_it_quietly() {
    let mut st = State::new();
    assert_eq!(st.handle_key(Key::Tab, 0), KeyCommand::Run(Job::ReloadQueue));
    assert_eq!(st.current_view, View::Queue);
    assert_eq!(st.handle_key(Key::BackTab, 0), KeyCommand::Nothing);
    assert_eq!(st.current_view, View::Subscriptions);
    // A failed quiet reload changes nothing.
    let cmd = KeyCommand::Run(Job::ReloadQueue);
    st.finish_command(&cmd, Err("db".to_string()), 0);
    assert_eq!(st.modal, Modal::Closed);
    // A failed load after '2' is reported.
    let cmd = st.handle_key(Key::Char('2'), 0);
    st.finish_command(&cmd, Err("db".to_string()), 0);
    assert_eq!(st.modal, Modal::Error("Failed to load queue: db".to_string()));
}

#[test]
fn jobs_with_progress_statuses() {
    let mut st = State::new();
    let cmd = st.handle_key(Key::Char('d'), 10);
    assert_eq!(cmd, KeyCommand::Run(Job::Download));
    assert_eq!(st.current_status(), Some("Starting download..."));
    st.finish_command(&cmd, Ok(()), 20);
    assert_eq!(st.current_status(), Some("Download started"));
    assert_eq!(st.status_message.as_ref().unwrap().expires_at, Some(2020));

    let cmd = st.handle_key(Key::Char('R'), 30);
    assert_eq!(st.current_status(), Some("Refreshing all feeds..."));
    st.finish_command(&cmd, Err("offline".to_string()), 40);
    assert_eq!(st.modal, Modal::Error("Refresh all failed: offline".to_string()));
}

#[test]
fn playback_keys_name_their_jobs() {
    let mut st = State::new();
    assert_eq!(st.handle_key(Key::Char(' '), 0), KeyCommand::Run(Job::TogglePlayback));
    assert_eq!(st.handle_key(Key::Left, 0), KeyCommand::Run(Job::SeekBackward(10)));
    assert_eq!(st.handle_key(Key::Char('>'), 0), KeyCommand::Run(Job::SeekForward(30)));
    assert_eq!(st.handle_key(Key::Char('='), 0), KeyCommand::Run(Job::VolumeUp));
    assert_eq!(st.handle_key(Key::Char('_'), 0), KeyCommand::Run(Job::VolumeDown));
    assert_eq!(st.handle_key(Key::Char('P'), 0), KeyCommand::Run(Job::RestartEpisode));
    // Volume failures are only logged.
    st.finish_command(&KeyCommand::Run(Job::VolumeUp), Err("no device".to_string()), 0);
    assert_eq!(st.modal, Modal::Closed);
    st.finish_command(&KeyCommand::Run(Job::TogglePlayback), Err("no device".to_string()), 0);
    assert_eq!(st.modal, Modal::Error("Playback error: no device".to_string()));
}

#[test]
fn x_removes_from_the_queue_or_deletes_a_download() {
    let mut st = State::new();
    assert_eq!(st.handle_key(Key::Char('x'), 0), KeyCommand::Run(Job::DeleteDownload));
    st.set_view(View::Queue);
    let cmd = st.handle_key(Key::Char('x'), 0);
    assert_eq!(cmd, KeyCommand::Run(Job::RemoveFromQueue));
    st.finish_command(&cmd, Ok(()), 0);
    assert_eq!(st.current_status(), Some("Removed from queue"));
}

#[test]
fn list_keys_move_the_cursor() {
    let mut st = State::new();
    st.subscriptions = (0..30).collect();
    st.handle_key(Key::Char('G'), 0);
    assert_eq!(st.subscription_index, 29);
    st.handle_key(Key::PageUp, 0);
    assert_eq!(st.subscription_index, 19);
    st.handle_key(Key::Up, 0);
    assert_eq!(st.subscription_index, 18);
    st.handle_key(Key::Char('g'), 0);
    assert_eq!(st.subscription_index, 0);
    st.handle_key(Key::PageDown, 0);
    assert_eq!(st.subscription_index, 10);
    st.handle_key(Key::Other, 0);
    assert_eq!(st.subscription_index, 10);
}

#[test]
fn slash_opens_search_and_question_mark_help() {
    let mut st = State::new();
    st.feed_fix_target = Some(9);
    st.handle_key(Key::Char('/'), 0);
    assert_eq!(st.current_view, View::Search);
    assert_eq!(st.feed_fix_target, None);
    assert_eq!(st.search_focus, SearchFocus::Input);
    st.handle_key(Key::Esc, 0);
    st.handle_key(Key::Char('?'), 0);
    assert_eq!(st.modal, Modal::Help);
}

#[test]
fn confirming_repoint_switches_the_feed_url() {
    let mut sub = Subscription::new("Show".to_string(), "https://old.example.com/dead.xml".to_string());
    sub.last_error = Some("Failed to fetch feed".to_string());
    let other = Subscription::new("Other".to_string(), "https://other.example.com/feed.xml".to_string());
    let mut subs = vec![other, sub.clone()];

    let mut st = State::new();
    st.pending_action = Some(PendingAction::RepointFeed {
        subscription_id: sub.id,
        new_url: "https://new.example.com/live.xml".to_string(),
    });
    st.modal = Modal::Confirm { message: "switch?".to_string(), action: "repoint-feed".to_string() };

    let cmd = st.handle_key(Key::Enter, 0);
    assert_eq!(st.modal, Modal::Closed, "modal dismissed");
    assert!(st.pending_action.is_none(), "pending action consumed");
    match &cmd {
        KeyCommand::Repoint { subscription_id, new_url } => {
            assert_eq!(*subscription_id, sub.id);
            repoint_feed(&mut subs, *subscription_id, new_url);
        }
        other => panic!("expected a re-point, got {other:?}"),
    }
    assert_eq!(subs[1].rss_url, "https://new.example.com/live.xml");
    assert!(subs[1].last_error.is_none(), "error cleared on re-point");
    assert_eq!(subs[0].rss_url, "https://other.example.com/feed.xml");
    st.finish_command(&cmd, Ok(()), 0);
    assert_eq!(st.status_message.as_ref().map(|m| m.text.as_str()), Some("Feed URL updated"));
}

#[test]
fn enter_on_a_confirm_with_nothing_pending_just_closes_it() {
    let mut st = State::new();
    st.modal = Modal::Confirm { message: "Sure?".to_string(), action: "x".to_string() };
    assert_eq!(st.handle_key(Key::Enter, 0), KeyCommand::Nothing);
    assert_eq!(st.modal, Modal::Closed);
}
