//! UI state: which view is focused, list cursors, modals, the status line and
//! the search box. Everything here is plain data; the terminal front end owns
//! the services (database, player, network) and feeds results in.
use crate::text::{chars_of, string_from_chars};
use vstd::view::View as _;
use vstd::prelude::*;

verus! {

/// How long a transient status message stays on screen, in milliseconds.
pub const STATUS_TTL_MS: u64 = 2000;

/// A one-line status message. Times are milliseconds on a monotonic clock.
///
/// Transient messages carry an expiry so they clear themselves at render time;
/// persistent ones (`expires_at == None`) stay until explicitly cleared.
pub struct StatusMessage {
    pub text: String,
    pub expires_at: Option<u64>,
}

impl StatusMessage {
    /// A message that expires `STATUS_TTL_MS` after `now_ms`.
    pub fn transient(text: String, now_ms: u64) -> (m: StatusMessage)
        requires
            now_ms + STATUS_TTL_MS <= u64::MAX,
        ensures
            m.text == text,
            m.expires_at == Some((now_ms + STATUS_TTL_MS) as u64),
    {
        StatusMessage { text, expires_at: Some(now_ms + STATUS_TTL_MS) }
    }

    /// A message that never expires on its own.
    pub fn persistent(text: String) -> (m: StatusMessage)
        ensures
            m.text == text,
            m.expires_at is None,
    {
        StatusMessage { text, expires_at: None }
    }

    /// Whether this message's TTL has elapsed as of `now_ms`. Persistent
    /// messages never expire.
    pub fn is_expired(&self, now_ms: u64) -> (r: bool)
        ensures
            r == (self.expires_at matches Some(t) && now_ms >= t),
    {
        match self.expires_at {
            Some(t) => now_ms >= t,
            None => false,
        }
    }
}

#[derive(Debug, Clone, Copy, PartialEq, Eq, Structural)]
pub enum View {
    Subscriptions,
    Episodes,
    Queue,
    Search,
    Settings,
}

/// Where keystrokes go in the Search view: the query box or the results list.
#[derive(Debug, Clone, Copy, PartialEq, Eq, Structural)]
pub enum SearchFocus {
    Input,
    Results,
}

#[derive(Debug, Clone, PartialEq)]
pub enum Modal {
    /// No modal is open.
    Closed,
    Help,
    Error(String),
    Confirm { message: String, action: String },
}

/// An action awaiting confirmation in a [`Modal::Confirm`].
#[derive(Debug, Clone, PartialEq)]
pub enum PendingAction {
    /// Re-point a failing or moved subscription at a feed URL found by search.
    RepointFeed { subscription_id: u128, new_url: String },
}

/// The four top-level views, in Tab order.
pub open spec fn top_view_index(v: View) -> int {
    match v {
        View::Subscriptions => 0,
        View::Episodes => 0,
        View::Queue => 1,
        View::Search => 2,
        View::Settings => 3,
    }
}

pub open spec fn top_view_at(i: int) -> View {
    if i == 0 {
        View::Subscriptions
    } else if i == 1 {
        View::Queue
    } else if i == 2 {
        View::Search
    } else {
        View::Settings
    }
}

/// The next top-level view when cycling with Tab. Episodes (a drill-down of
/// Subscriptions) cycles as its parent.
pub fn next_top_view(view: View) -> (r: View)
    ensures
        r == top_view_at((top_view_index(view) + 1) % 4),
{
    match view {
        View::Subscriptions | View::Episodes => View::Queue,
        View::Queue => View::Search,
        View::Search => View::Settings,
        View::Settings => View::Subscriptions,
    }
}

/// The previous top-level view (Shift-Tab), with Episodes as its parent.
pub fn prev_top_view(view: View) -> (r: View)
    ensures
        r == top_view_at((top_view_index(view) + 3) % 4),
{
    match view {
        View::Subscriptions | View::Episodes => View::Settings,
        View::Queue => View::Subscriptions,
        View::Search => View::Queue,
        View::Settings => View::Search,
    }
}

/// Selection and scroll of one rendered list: which row is highlighted and
/// the first row shown. The terminal front end mirrors it into its list
/// widget state each frame.
#[derive(Debug, Clone, Copy, PartialEq, Eq, Structural)]
pub struct ListCursor {
    pub selected: Option<usize>,
    pub offset: usize,
}

impl ListCursor {
    /// No selection, scrolled to the top.
    pub fn new() -> (c: ListCursor)
        ensures
            c == (ListCursor { selected: None, offset: 0 }),
    {
        ListCursor { selected: None, offset: 0 }
    }

    /// Selects a row; clearing the selection also scrolls back to the top.
    pub fn select(&mut self, index: Option<usize>)
        ensures
            final(self).selected == index,
            final(self).offset == if index is None {
                0
            } else {
                old(self).offset
            },
    {
        self.selected = index;
        if index.is_none() {
            self.offset = 0;
        }
    }
}

/// The row a list should highlight for a stored cursor: none for an empty
/// list, otherwise the cursor clamped to the last row.
pub open spec fn clamped_selection(index: usize, len: usize) -> Option<usize> {
    if len == 0 {
        None
    } else if index < len {
        Some(index)
    } else {
        Some((len - 1) as usize)
    }
}

/// UI state of the player, generic over the subscription, episode and search
/// result records that fill its lists.
pub struct AppState<S, E, R> {
    pub current_view: View,
    /// Cursor for the Queue and Search lists (the single-list views).
    pub selected_index: usize,
    pub list_state: ListCursor,
    /// Left-pane (Subscriptions) cursor in the two-pane library.
    pub subscription_index: usize,
    /// Right-pane (Episodes) cursor in the two-pane library.
    pub episode_index: usize,
    pub subscription_list_state: ListCursor,
    pub episode_list_state: ListCursor,
    pub modal: Modal,
    /// The action a `Modal::Confirm` runs on Enter.
    pub pending_action: Option<PendingAction>,
    pub search_input: String,
    /// Cursor in the search box, counted in characters.
    pub search_cursor: usize,
    pub search_focus: SearchFocus,
    /// When set, the Search view re-points this subscription's feed instead of
    /// subscribing to a new one.
    pub feed_fix_target: Option<u128>,
    pub status_message: Option<StatusMessage>,
    pub show_help: bool,
    pub should_quit: bool,
    pub subscriptions: Vec<S>,
    pub episodes: Vec<E>,
    pub current_subscription: Option<S>,
    pub search_results: Vec<R>,
    pub queue_items: Vec<E>,
    /// Whether audio is playing right now (as last reported by the player).
    pub is_playing: bool,
    pub current_episode: Option<E>,
}

impl<S, E, R> AppState<S, E, R> {
    /// Number of items in the focused list (0 for Settings).
    pub open spec fn list_len(&self) -> nat {
        match self.current_view {
            View::Subscriptions => self.subscriptions@.len(),
            View::Episodes => self.episodes@.len(),
            View::Queue => self.queue_items@.len(),
            View::Search => self.search_results@.len(),
            View::Settings => 0,
        }
    }

    /// Highest selectable index in the focused list (0 when empty).
    pub open spec fn max_idx(&self) -> int {
        if self.list_len() == 0 {
            0
        } else {
            self.list_len() - 1
        }
    }

    /// The focused list's cursor: each library pane has its own, the
    /// single-list views share `selected_index`.
    pub open spec fn focused_index(&self) -> usize {
        match self.current_view {
            View::Subscriptions => self.subscription_index,
            View::Episodes => self.episode_index,
            _ => self.selected_index,
        }
    }

    /// `self` with the focused list's cursor replaced by `i`.
    pub open spec fn with_focused_index(self, i: usize) -> Self {
        match self.current_view {
            View::Subscriptions => AppState { subscription_index: i, ..self },
            View::Episodes => AppState { episode_index: i, ..self },
            _ => AppState { selected_index: i, ..self },
        }
    }

    /// `self` after switching to `view`: that view's own cursor and scroll are
    /// reset, and entering Search starts in the query box.
    pub open spec fn switched_to(self, view: View) -> Self {
        let s = AppState { current_view: view, ..self };
        let s = match view {
            View::Subscriptions => AppState {
                subscription_index: 0,
                subscription_list_state: ListCursor { selected: None, offset: 0 },
                ..s
            },
            View::Episodes => AppState {
                episode_index: 0,
                episode_list_state: ListCursor { selected: None, offset: 0 },
                ..s
            },
            _ => AppState {
                selected_index: 0,
                list_state: ListCursor { selected: None, offset: 0 },
                ..s
            },
        };
        if view == View::Search {
            AppState { search_focus: SearchFocus::Input, ..s }
        } else {
            s
        }
    }

    /// A fresh state: the library's Subscriptions pane, empty lists, no modal.
    pub fn new() -> (s: Self)
        ensures
            s.current_view == View::Subscriptions,
            s.selected_index == 0,
            s.subscription_index == 0,
            s.episode_index == 0,
            s.list_state == ListCursor::new_spec(),
            s.subscription_list_state == ListCursor::new_spec(),
            s.episode_list_state == ListCursor::new_spec(),
            s.modal == Modal::Closed,
            s.pending_action is None,
            s.search_input@ == Seq::<char>::empty(),
            s.search_cursor == 0,
            s.search_focus == SearchFocus::Input,
            s.feed_fix_target is None,
            s.status_message is None,
            !s.show_help,
            !s.should_quit,
            s.subscriptions@.len() == 0,
            s.episodes@.len() == 0,
            s.current_subscription is None,
            s.search_results@.len() == 0,
            s.queue_items@.len() == 0,
            !s.is_playing,
            s.current_episode is None,
    {
        AppState {
            current_view: View::Subscriptions,
            selected_index: 0,
            list_state: ListCursor::new(),
            subscription_index: 0,
            episode_index: 0,
            subscription_list_state: ListCursor::new(),
            episode_list_state: ListCursor::new(),
            modal: Modal::Closed,
            pending_action: None,
            search_input: String::new(),
            search_cursor: 0,
            search_focus: SearchFocus::Input,
            feed_fix_target: None,
            status_message: None,
            show_help: false,
            should_quit: false,
            subscriptions: Vec::new(),
            episodes: Vec::new(),
            current_subscription: None,
            search_results: Vec::new(),
            queue_items: Vec::new(),
            is_playing: false,
            current_episode: None,
        }
    }
}

impl<S, E, R> AppState<S, E, R> {
    // -- Views -------------------------------------------------------------

    /// Switch to `view`, resetting that view's own cursor and scroll. Focus
    /// moves between the two library panes go through `focus_subscriptions` /
    /// `focus_episodes` instead, which keep the other pane's cursor.
    pub fn set_view(&mut self, view: View)
        ensures
            *final(self) == old(self).switched_to(view),
    {
        self.current_view = view;
        match view {
            View::Subscriptions => {
                self.subscription_index = 0;
                self.subscription_list_state = ListCursor::new();
            },
            View::Episodes => {
                self.episode_index = 0;
                self.episode_list_state = ListCursor::new();
            },
            _ => {
                self.selected_index = 0;
                self.list_state = ListCursor::new();
            },
        }
        if view == View::Search {
            self.search_focus = SearchFocus::Input;
        }
    }

    /// Focus the left (Subscriptions) pane without moving its cursor.
    pub fn focus_subscriptions(&mut self)
        ensures
            *final(self) == (AppState { current_view: View::Subscriptions, ..*old(self) }),
    {
        self.current_view = View::Subscriptions;
    }

    /// Focus the right (Episodes) pane, starting at the top.
    pub fn focus_episodes(&mut self)
        ensures
            *final(self) == (AppState {
                current_view: View::Episodes,
                episode_index: 0,
                episode_list_state: ListCursor::new_spec(),
                ..*old(self)
            }),
    {
        self.current_view = View::Episodes;
        self.episode_index = 0;
        self.episode_list_state = ListCursor::new();
    }

    pub fn next_view(&mut self)
        ensures
            *final(self) == old(self).switched_to(
                top_view_at((top_view_index(old(self).current_view) + 1) % 4),
            ),
    {
        let v = next_top_view(self.current_view);
        self.set_view(v);
    }

    pub fn previous_view(&mut self)
        ensures
            *final(self) == old(self).switched_to(
                top_view_at((top_view_index(old(self).current_view) + 3) % 4),
            ),
    {
        let v = prev_top_view(self.current_view);
        self.set_view(v);
    }

    // -- Lists -------------------------------------------------------------

    /// Number of items in the currently focused list (0 for Settings).
    pub fn current_list_len(&self) -> (n: usize)
        ensures
            n == self.list_len(),
    {
        match self.current_view {
            View::Subscriptions => self.subscriptions.len(),
            View::Episodes => self.episodes.len(),
            View::Queue => self.queue_items.len(),
            View::Search => self.search_results.len(),
            View::Settings => 0,
        }
    }

    /// Highest selectable index in the focused list (0 when empty).
    pub fn max_index(&self) -> (m: usize)
        ensures
            m == self.max_idx(),
    {
        let n = self.current_list_len();
        if n == 0 {
            0
        } else {
            n - 1
        }
    }

    fn focused_index_exec(&self) -> (i: usize)
        ensures
            i == self.focused_index(),
    {
        match self.current_view {
            View::Subscriptions => self.subscription_index,
            View::Episodes => self.episode_index,
            _ => self.selected_index,
        }
    }

    fn set_focused_index(&mut self, i: usize)
        ensures
            *final(self) == old(self).with_focused_index(i),
    {
        match self.current_view {
            View::Subscriptions => self.subscription_index = i,
            View::Episodes => self.episode_index = i,
            _ => self.selected_index = i,
        }
    }

    /// Move the focused cursor down one row, stopping at the last row.
    pub fn next_item(&mut self)
        ensures
            *final(self) == old(self).with_focused_index(
                if old(self).focused_index() < old(self).max_idx() {
                    (old(self).focused_index() + 1) as usize
                } else {
                    old(self).focused_index()
                },
            ),
    {
        let max = self.max_index();
        let idx = self.focused_index_exec();
        if idx < max {
            self.set_focused_index(idx + 1);
        } else {
            self.set_focused_index(idx);
        }
    }

    /// Move the focused cursor up one row, stopping at the first row.
    pub fn previous_item(&mut self)
        ensures
            *final(self) == old(self).with_focused_index(
                if old(self).focused_index() > 0 {
                    (old(self).focused_index() - 1) as usize
                } else {
                    0
                },
            ),
    {
        let idx = self.focused_index_exec();
        if idx > 0 {
            self.set_focused_index(idx - 1);
        } else {
            self.set_focused_index(idx);
        }
    }

    pub fn goto_top(&mut self)
        ensures
            *final(self) == old(self).with_focused_index(0),
    {
        self.set_focused_index(0);
    }

    pub fn goto_bottom(&mut self)
        ensures
            *final(self) == old(self).with_focused_index(old(self).max_idx() as usize),
    {
        let max = self.max_index();
        self.set_focused_index(max);
    }

    /// Move the focused cursor up ten rows, stopping at the first row.
    pub fn page_up(&mut self)
        ensures
            *final(self) == old(self).with_focused_index(
                if old(self).focused_index() >= 10 {
                    (old(self).focused_index() - 10) as usize
                } else {
                    0
                },
            ),
    {
        let idx = self.focused_index_exec();
        let v = if idx >= 10 { idx - 10 } else { 0 };
        self.set_focused_index(v);
    }

    /// Move the focused cursor down ten rows, stopping at the last row.
    pub fn page_down(&mut self)
        requires
            old(self).focused_index() + 10 <= usize::MAX,
        ensures
            *final(self) == old(self).with_focused_index(
                if old(self).focused_index() + 10 < old(self).max_idx() {
                    (old(self).focused_index() + 10) as usize
                } else {
                    old(self).max_idx() as usize
                },
            ),
    {
        let max = self.max_index();
        let idx = self.focused_index_exec();
        let v = if idx + 10 < max { idx + 10 } else { max };
        self.set_focused_index(v);
    }

    /// Point a list cursor at a stored index, clamped to the list, so the
    /// render highlights the right row and scrolls it into view.
    pub fn point(list_state: &mut ListCursor, index: usize, len: usize)
        ensures
            final(list_state).selected == clamped_selection(index, len),
            final(list_state).offset == if len == 0 {
                0
            } else {
                old(list_state).offset
            },
    {
        let selected = if len == 0 {
            None
        } else if index < len {
            Some(index)
        } else {
            Some(len - 1)
        };
        list_state.select(selected);
    }

    /// Point the Queue/Search list at `selected_index`.
    pub fn sync_list_selection(&mut self)
        ensures
            *final(self) == (AppState {
                list_state: ListCursor {
                    selected: clamped_selection(old(self).selected_index, old(self).list_len() as usize),
                    offset: if old(self).list_len() == 0 {
                        0
                    } else {
                        old(self).list_state.offset
                    },
                },
                ..*old(self)
            }),
    {
        let len = self.current_list_len();
        let mut ls = self.list_state;
        Self::point(&mut ls, self.selected_index, len);
        self.list_state = ls;
    }

    /// Point the left-pane (Subscriptions) list at its cursor.
    pub fn sync_subscription_selection(&mut self)
        ensures
            *final(self) == (AppState {
                subscription_list_state: ListCursor {
                    selected: clamped_selection(
                        old(self).subscription_index,
                        old(self).subscriptions@.len() as usize,
                    ),
                    offset: if old(self).subscriptions@.len() == 0 {
                        0
                    } else {
                        old(self).subscription_list_state.offset
                    },
                },
                ..*old(self)
            }),
    {
        let len = self.subscriptions.len();
        let mut ls = self.subscription_list_state;
        Self::point(&mut ls, self.subscription_index, len);
        self.subscription_list_state = ls;
    }

    /// Point the right-pane (Episodes) list at its cursor.
    pub fn sync_episode_selection(&mut self)
        ensures
            *final(self) == (AppState {
                episode_list_state: ListCursor {
                    selected: clamped_selection(
                        old(self).episode_index,
                        old(self).episodes@.len() as usize,
                    ),
                    offset: if old(self).episodes@.len() == 0 {
                        0
                    } else {
                        old(self).episode_list_state.offset
                    },
                },
                ..*old(self)
            }),
    {
        let len = self.episodes.len();
        let mut ls = self.episode_list_state;
        Self::point(&mut ls, self.episode_index, len);
        self.episode_list_state = ls;
    }
}

impl<S, E, R> AppState<S, E, R> {
    // -- Search box and modes ------------------------------------------------

    /// Move focus to the results list after a search returns hits.
    pub fn focus_search_results(&mut self)
        ensures
            *final(self) == if old(self).search_results@.len() > 0 {
                AppState {
                    search_focus: SearchFocus::Results,
                    selected_index: 0,
                    list_state: ListCursor::new_spec(),
                    ..*old(self)
                }
            } else {
                *old(self)
            },
    {
        if self.search_results.len() > 0 {
            self.search_focus = SearchFocus::Results;
            self.selected_index = 0;
            self.list_state = ListCursor::new();
        }
    }

    /// Return focus to the query box.
    pub fn focus_search_input(&mut self)
        ensures
            *final(self) == (AppState { search_focus: SearchFocus::Input, ..*old(self) }),
    {
        self.search_focus = SearchFocus::Input;
    }

    /// Open the Search view for an ordinary search (not a feed re-point).
    pub fn enter_search_mode(&mut self)
        ensures
            *final(self) == (AppState { feed_fix_target: None, ..*old(self) }).switched_to(
                View::Search,
            ),
    {
        self.feed_fix_target = None;
        self.set_view(View::Search);
    }

    /// Leave the Search view (back to Subscriptions), abandoning any feed
    /// re-point in progress.
    pub fn exit_search_mode(&mut self)
        ensures
            *final(self) == if old(self).current_view == View::Search {
                AppState { feed_fix_target: None, ..old(self).switched_to(View::Subscriptions) }
            } else {
                AppState { feed_fix_target: None, ..*old(self) }
            },
    {
        if self.current_view == View::Search {
            self.set_view(View::Subscriptions);
        }
        self.feed_fix_target = None;
    }

    /// Insert a character at the search cursor and move the cursor past it.
    pub fn append_search_char(&mut self, c: char)
        requires
            old(self).search_cursor <= old(self).search_input@.len(),
            old(self).search_cursor < usize::MAX,
        ensures
            final(self).search_input@ == old(self).search_input@.insert(
                old(self).search_cursor as int,
                c,
            ),
            final(self).search_cursor == old(self).search_cursor + 1,
            *final(self) == (AppState {
                search_input: final(self).search_input,
                search_cursor: final(self).search_cursor,
                ..*old(self)
            }),
    {
        let v = chars_of(self.search_input.as_str());
        let cur = self.search_cursor;
        let mut w: Vec<char> = Vec::new();
        let mut i: usize = 0;
        while i < v.len()
            invariant
                0 <= i <= v@.len(),
                cur <= v@.len(),
                w@ == if i <= cur {
                    v@.take(i as int)
                } else {
                    v@.take(cur as int).push(c) + v@.subrange(cur as int, i as int)
                },
            decreases v@.len() - i,
        {
            if i == cur {
                w.push(c);
                assert(v@.subrange(cur as int, cur as int) == Seq::<char>::empty());
            }
            w.push(v[i]);
            i = i + 1;
            proof {
                if i <= cur {
                    assert(w@ == v@.take(i as int));
                } else {
                    assert(v@.subrange(cur as int, i as int) == v@.subrange(cur as int, i - 1).push(
                        v@[i - 1],
                    ));
                }
            }
        }
        if cur == v.len() {
            w.push(c);
        }
        assert(w@ == v@.insert(cur as int, c));
        self.search_input = string_from_chars(&w);
        self.search_cursor = cur + 1;
    }

    /// Delete the character before the search cursor, if any.
    pub fn delete_search_char(&mut self)
        requires
            old(self).search_cursor <= old(self).search_input@.len(),
        ensures
            old(self).search_cursor > 0 ==> final(self).search_input@ == old(
                self,
            ).search_input@.remove(old(self).search_cursor - 1) && final(self).search_cursor
                == old(self).search_cursor - 1,
            old(self).search_cursor == 0 ==> final(self).search_input == old(self).search_input
                && final(self).search_cursor == 0,
            *final(self) == (AppState {
                search_input: final(self).search_input,
                search_cursor: final(self).search_cursor,
                ..*old(self)
            }),
    {
        let v = chars_of(self.search_input.as_str());
        if self.search_cursor > 0 && v.len() > 0 {
            let cur = self.search_cursor - 1;
            let mut w: Vec<char> = Vec::new();
            let mut i: usize = 0;
            while i < v.len()
                invariant
                    0 <= i <= v@.len(),
                    cur < v@.len(),
                    w@ == if i <= cur {
                        v@.take(i as int)
                    } else {
                        v@.take(cur as int) + v@.subrange(cur + 1, i as int)
                    },
                decreases v@.len() - i,
            {
                if i != cur {
                    w.push(v[i]);
                }
                i = i + 1;
                proof {
                    if i <= cur {
                        assert(w@ == v@.take(i as int));
                    } else if i == cur + 1 {
                        assert(v@.subrange(cur + 1, i as int) == Seq::<char>::empty());
                    } else {
                        assert(v@.subrange(cur + 1, i as int) == v@.subrange(cur + 1, i - 1).push(
                            v@[i - 1],
                        ));
                    }
                }
            }
            assert(w@ == v@.remove(cur as int));
            self.search_input = string_from_chars(&w);
            self.search_cursor = cur;
        }
    }

    /// Empty the search box.
    pub fn clear_search_input(&mut self)
        ensures
            final(self).search_input@ == Seq::<char>::empty(),
            *final(self) == (AppState {
                search_input: final(self).search_input,
                search_cursor: 0,
                ..*old(self)
            }),
    {
        self.search_input = String::new();
        self.search_cursor = 0;
    }

    // -- Modals and the status line ---------------------------------------

    pub fn show_help_modal(&mut self)
        ensures
            *final(self) == (AppState { modal: Modal::Help, ..*old(self) }),
    {
        self.modal = Modal::Help;
    }

    pub fn show_error(&mut self, message: String)
        ensures
            *final(self) == (AppState { modal: Modal::Error(message), ..*old(self) }),
    {
        self.modal = Modal::Error(message);
    }

    /// Close any modal; dismissing a confirm dialog abandons its action.
    pub fn close_modal(&mut self)
        ensures
            *final(self) == (AppState {
                modal: Modal::Closed,
                pending_action: None,
                ..*old(self)
            }),
    {
        self.modal = Modal::Closed;
        self.pending_action = None;
    }

    /// Show a transient status message that clears `STATUS_TTL_MS` after
    /// `now_ms`.
    pub fn set_status(&mut self, message: String, now_ms: u64)
        requires
            now_ms + STATUS_TTL_MS <= u64::MAX,
        ensures
            *final(self) == (AppState {
                status_message: Some(
                    StatusMessage { text: message, expires_at: Some((now_ms + STATUS_TTL_MS) as u64) },
                ),
                ..*old(self)
            }),
    {
        self.status_message = Some(StatusMessage::transient(message, now_ms));
    }

    /// Show a status message that stays until explicitly cleared.
    pub fn set_status_persistent(&mut self, message: String)
        ensures
            *final(self) == (AppState {
                status_message: Some(StatusMessage { text: message, expires_at: None }),
                ..*old(self)
            }),
    {
        self.status_message = Some(StatusMessage::persistent(message));
    }

    pub fn clear_status(&mut self)
        ensures
            *final(self) == (AppState { status_message: None, ..*old(self) }),
    {
        self.status_message = None;
    }

    /// The status text to display, if any.
    pub fn current_status(&self) -> (r: Option<&str>)
        ensures
            match self.status_message {
                Some(m) => r matches Some(t) && t@ == m.text@,
                None => r is None,
            },
    {
        match &self.status_message {
            Some(m) => Some(m.text.as_str()),
            None => None,
        }
    }

    /// Clear the status message if its TTL has elapsed as of `now_ms`; returns
    /// whether one was cleared (the caller then redraws).
    pub fn expire_status(&mut self, now_ms: u64) -> (cleared: bool)
        ensures
            cleared == (old(self).status_message matches Some(m) && m.expires_at matches Some(
                t,
            ) && now_ms >= t),
            *final(self) == if cleared {
                AppState { status_message: None, ..*old(self) }
            } else {
                *old(self)
            },
    {
        let expired = match &self.status_message {
            Some(m) => m.is_expired(now_ms),
            None => false,
        };
        if expired {
            self.status_message = None;
        }
        expired
    }
}

impl ListCursor {
    pub open spec fn new_spec() -> ListCursor {
        ListCursor { selected: None, offset: 0 }
    }
}


// ---------------------------------------------------------------------------
// Laws.

/// Tab and Shift-Tab undo each other on the four top-level views, and four
/// Tabs return to where they started; from the Episodes drill-down they act
/// as from Subscriptions.
pub proof fn lemma_tab_cycle(v: View)
    ensures
        v != View::Episodes ==> top_view_at((top_view_index(top_view_at((top_view_index(v) + 1) % 4)) + 3) % 4) == v,
        v != View::Episodes ==> top_view_at((top_view_index(top_view_at((top_view_index(v) + 3) % 4)) + 1) % 4) == v,
        top_view_at((top_view_index(top_view_at((top_view_index(top_view_at((top_view_index(top_view_at((top_view_index(v) + 1) % 4)) + 1) % 4)) + 1) % 4)) + 1) % 4) == top_view_at(top_view_index(v)),
        top_view_at((top_view_index(v) + 1) % 4) != View::Episodes,
        top_view_at((top_view_index(v) + 3) % 4) != View::Episodes,
{
}

/// Expiry is permanent: a message expired at some time is expired at every
/// later time, and a persistent message never expires.
pub proof fn lemma_expiry_monotone(m: StatusMessage, t1: u64, t2: u64)
    requires
        t1 <= t2,
    ensures
        (m.expires_at matches Some(e) && t1 >= e) ==> (m.expires_at matches Some(e2) && t2 >= e2),
        m.expires_at is None ==> !(m.expires_at matches Some(e) && t2 >= e),
{
}

impl<S, E, R> AppState<S, E, R> {
    /// List navigation never leaves the focused list: from a cursor within
    /// it, every move (next, previous, top, bottom, page up, page down) lands
    /// within it, and never changes which view is focused.
    pub proof fn lemma_cursor_stays_in_list(self)
        requires
            self.focused_index() <= self.max_idx(),
        ensures
            ({
                let i = self.focused_index() as int;
                let m = self.max_idx();
                &&& (if i < m { i + 1 } else { i }) <= m
                &&& (if i > 0 { i - 1 } else { 0 }) <= m
                &&& (if i >= 10 { i - 10 } else { 0 }) <= m
                &&& (if i + 10 < m { i + 10 } else { m }) <= m
                &&& 0 <= m
            }),
            forall|j: usize| (#[trigger] self.with_focused_index(j)).focused_index() == j,
            forall|j: usize| (#[trigger] self.with_focused_index(j)).current_view == self.current_view,
            forall|j: usize| (#[trigger] self.with_focused_index(j)).list_len() == self.list_len(),
    {
    }
}

/// Typing a character and then deleting it restores the search box.
pub proof fn lemma_type_then_delete(input: Seq<char>, cursor: int, c: char)
    requires
        0 <= cursor <= input.len(),
    ensures
        input.insert(cursor, c).remove(cursor) == input,
{
    assert(input.insert(cursor, c).remove(cursor) =~= input);
}

} // verus!
