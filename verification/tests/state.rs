use pdcst::state::{
    AppState, ListCursor, Modal, PendingAction, SearchFocus, StatusMessage, View, next_top_view,
    prev_top_view, STATUS_TTL_MS,
};

type State = AppState<u32, u32, u32>;

fn transient_status_expires_after_ttl() {
    let now: u64 = 1_000_000;
    let msg = StatusMessage {
        text: "Added to queue".to_string(),
        expires_at: Some(now + STATUS_TTL_MS),
    };

    assert!(!msg.is_expired(now), "should be live immediately");
    assert!(
        !msg.is_expired(now + STATUS_TTL_MS - 1),
        "should still be live just before the TTL"
    );
    assert!(
        msg.is_expired(now + STATUS_TTL_MS),
        "should be expired once the TTL elapses"
    );
}

fn persistent_status_never_expires() {
    let now: u64 = 1_000_000;
    let msg = StatusMessage {
        text: "Loading...".to_string(),
        expires_at: None,
    };

    assert!(!msg.is_expired(now));
    assert!(!msg.is_expired(now + 3_600_000));
}

fn tab_cycles_the_four_top_level_views() {
    assert_eq!(next_top_view(View::Subscriptions), View::Queue);
    assert_eq!(next_top_view(View::Queue), View::Search);
    assert_eq!(next_top_view(View::Search), View::Settings);
    assert_eq!(next_top_view(View::Settings), View::Subscriptions);

    assert_eq!(prev_top_view(View::Subscriptions), View::Settings);
    assert_eq!(prev_top_view(View::Settings), View::Search);
    assert_eq!(prev_top_view(View::Search), View::Queue);
    assert_eq!(prev_top_view(View::Queue), View::Subscriptions);
}

fn episodes_cycles_as_its_parent_subscriptions() {
    assert_eq!(next_top_view(View::Episodes), View::Queue);
    assert_eq!(prev_top_view(View::Episodes), View::Settings);
}

#[test]
fn mod_transient_status_expires_after_ttl() {
    transient_status_expires_after_ttl();
}

#[test]
fn state_transient_status_expires_after_ttl() {
    transient_status_expires_after_ttl();
}

#[test]
fn mod_persistent_status_never_expires() {
    persistent_status_never_expires();
}

#[test]
fn state_persistent_status_never_expires() {
    persistent_status_never_expires();
}

#[test]
fn mod_tab_cycles_the_four_top_level_views() {
    tab_cycles_the_four_top_level_views();
}

#[test]
fn state_tab_cycles_the_four_top_level_views() {
    tab_cycles_the_four_top_level_views();
}

#[test]
fn mod_episodes_cycles_as_its_parent_subscriptions() {
    episodes_cycles_as_its_parent_subscriptions();
}

#[test]
fn state_episodes_cycles_as_its_parent_subscriptions() {
    episodes_cycles_as_its_parent_subscriptions();
}

#[test]
fn status_constructors_and_expiry() {
    let t = StatusMessage::transient("Saved".to_string(), 500);
    assert_eq!(t.expires_at, Some(2500));
    let p = StatusMessage::persistent("Loading".to_string());
    assert_eq!(p.expires_at, None);

    let mut s = State::new();
    s.set_status("Refreshed".to_string(), 100);
    assert_eq!(s.current_status(), Some("Refreshed"));
    assert!(!s.expire_status(2099));
    assert!(s.expire_status(2100));
    assert_eq!(s.current_status(), None);

    s.set_status_persistent("Loading...".to_string());
    assert!(!s.expire_status(u64::MAX));
    s.clear_status();
    assert!(s.status_message.is_none());
}

#[test]
fn panes_keep_independent_cursors() {
    let mut s = State::new();
    s.subscriptions = vec![1, 2, 3];
    s.episodes = vec![10, 20, 30, 40];
    s.next_item();
    s.next_item();
    assert_eq!(s.subscription_index, 2);
    s.next_item(); // already on the last row
    assert_eq!(s.subscription_index, 2);

    s.focus_episodes();
    assert_eq!(s.current_view, View::Episodes);
    assert_eq!(s.episode_index, 0);
    s.goto_bottom();
    assert_eq!(s.episode_index, 3);

    // Back to the left pane: its cursor was kept.
    s.focus_subscriptions();
    assert_eq!(s.subscription_index, 2);
    s.previous_item();
    assert_eq!(s.subscription_index, 1);
    s.goto_top();
    assert_eq!(s.subscription_index, 0);
    s.previous_item();
    assert_eq!(s.subscription_index, 0);
}

#[test]
fn paging_moves_ten_rows_and_clamps() {
    let mut s = State::new();
    s.set_view(View::Queue);
    s.queue_items = (0..25).collect();
    s.page_down();
    assert_eq!(s.selected_index, 10);
    s.page_down();
    assert_eq!(s.selected_index, 20);
    s.page_down();
    assert_eq!(s.selected_index, 24);
    s.page_up();
    assert_eq!(s.selected_index, 14);
    s.page_up();
    s.page_up();
    assert_eq!(s.selected_index, 0);
    assert_eq!(s.current_list_len(), 25);
    assert_eq!(s.max_index(), 24);

    s.set_view(View::Settings);
    assert_eq!(s.current_list_len(), 0);
    assert_eq!(s.max_index(), 0);
    s.page_down();
    assert_eq!(s.selected_index, 0);
}

#[test]
fn selection_is_clamped_to_the_list() {
    let mut s = State::new();
    s.set_view(View::Queue);
    s.queue_items = vec![1, 2, 3];
    s.selected_index = 7;
    s.sync_list_selection();
    assert_eq!(s.list_state.selected, Some(2));

    s.queue_items.clear();
    s.list_state.offset = 4;
    s.sync_list_selection();
    assert_eq!(s.list_state, ListCursor { selected: None, offset: 0 });

    s.subscriptions = vec![1, 2];
    s.subscription_index = 1;
    s.sync_subscription_selection();
    assert_eq!(s.subscription_list_state.selected, Some(1));
    s.sync_episode_selection();
    assert_eq!(s.episode_list_state.selected, None);

    let mut c = ListCursor::new();
    State::point(&mut c, 0, 5);
    assert_eq!(c.selected, Some(0));
}

#[test]
fn switching_views_resets_that_views_cursor() {
    let mut s = State::new();
    s.search_results = vec![1, 2, 3];
    s.set_view(View::Search);
    s.focus_search_results();
    assert_eq!(s.search_focus, SearchFocus::Results);
    s.next_item();
    assert_eq!(s.selected_index, 1);
    s.next_view();
    assert_eq!(s.current_view, View::Settings);
    assert_eq!(s.selected_index, 0);
    s.previous_view();
    assert_eq!(s.current_view, View::Search);
    assert_eq!(s.search_focus, SearchFocus::Input);
}

#[test]
fn search_mode_and_feed_fix_target() {
    let mut s = State::new();
    s.feed_fix_target = Some(42);
    s.enter_search_mode();
    assert_eq!(s.current_view, View::Search);
    assert_eq!(s.feed_fix_target, None);

    s.feed_fix_target = Some(42);
    s.exit_search_mode();
    assert_eq!(s.current_view, View::Subscriptions);
    assert_eq!(s.feed_fix_target, None);

    // Focusing empty results does nothing.
    s.focus_search_results();
    assert_eq!(s.search_focus, SearchFocus::Input);
    s.search_focus = SearchFocus::Results;
    s.focus_search_input();
    assert_eq!(s.search_focus, SearchFocus::Input);
}

#[test]
fn typing_and_deleting_in_the_search_box() {
    let mut s = State::new();
    for c in "podcst".chars() {
        s.append_search_char(c);
    }
    assert_eq!(s.search_input, "podcst");
    s.search_cursor = 4;
    s.append_search_char('a');
    assert_eq!(s.search_input, "podcast");
    assert_eq!(s.search_cursor, 5);
    // Typing then deleting restores the box.
    s.append_search_char('x');
    s.delete_search_char();
    assert_eq!(s.search_input, "podcast");
    assert_eq!(s.search_cursor, 5);
    s.search_cursor = 0;
    s.delete_search_char();
    assert_eq!(s.search_input, "podcast");
    s.clear_search_input();
    assert_eq!(s.search_input, "");
    assert_eq!(s.search_cursor, 0);
    // Non-ASCII text is edited by character.
    s.append_search_char('\u{00E9}');
    s.append_search_char('t');
    s.delete_search_char();
    assert_eq!(s.search_input, "\u{00E9}");
}

#[test]
fn modals_open_and_close() {
    let mut s = State::new();
    s.show_help_modal();
    assert_eq!(s.modal, Modal::Help);
    s.show_error("boom".to_string());
    assert_eq!(s.modal, Modal::Error("boom".to_string()));
    s.modal = Modal::Confirm {
        message: "Switch?".to_string(),
        action: "repoint-feed".to_string(),
    };
    s.pending_action = Some(PendingAction::RepointFeed {
        subscription_id: 7,
        new_url: "https://example.com/new.xml".to_string(),
    });
    s.close_modal();
    assert_eq!(s.modal, Modal::Closed);
    assert_eq!(s.pending_action, None);
}
