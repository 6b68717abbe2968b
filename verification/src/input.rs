//! Keyboard handling: the modal gate, the search box's text-entry gate, then
//! the global keymap.
//!
//! A key press is decided here in two steps. [`AppState::handle_key`] applies
//! everything that only touches UI state and names the outside work the key
//! asks for (a search, a playback command, a database write), as a
//! [`KeyCommand`]. The front end performs that work and hands its outcome to
//! [`AppState::finish_command`], which shows the resulting status line or
//! error dialog.
use crate::state::{
    top_view_at, top_view_index, AppState, ListCursor, Modal, PendingAction, SearchFocus, View,
    STATUS_TTL_MS,
};
use crate::text::{joined, owned};
use vstd::view::View as _;
use vstd::prelude::*;

verus! {

/// A key press, as far as the keymap distinguishes keys.
#[derive(Debug, Clone, Copy, PartialEq, Eq, Structural)]
pub enum Key {
    Char(char),
    Enter,
    Esc,
    Backspace,
    Tab,
    BackTab,
    Up,
    Down,
    Left,
    Right,
    PageUp,
    PageDown,
    /// Any key the keymap ignores (function keys, Home, End, ...).
    Other,
}

/// Outside work a key asks for.
#[derive(Debug, Clone, Copy, PartialEq, Eq, Structural)]
pub enum Job {
    TogglePlayback,
    PlayNext,
    RestartEpisode,
    VolumeUp,
    VolumeDown,
    ToggleMute,
    SpeedDown,
    SpeedUp,
    /// Seek back by this many seconds.
    SeekBackward(u32),
    /// Seek forward by this many seconds.
    SeekForward(u32),
    /// Load the queue, reporting a failure.
    LoadQueue,
    /// Reload the queue after cycling onto it; a failure is not reported.
    ReloadQueue,
    SelectItem,
    AddToQueue,
    Download,
    RemoveFromQueue,
    DeleteDownload,
    RefreshSelected,
    RefreshAll,
    TogglePlayed,
}

/// What the front end must do after a key press.
#[derive(Debug, Clone, PartialEq)]
pub enum KeyCommand {
    /// Nothing: the key was handled entirely in UI state.
    Nothing,
    /// Run a podcast search for this query.
    Search(String),
    Run(Job),
    /// Point this subscription at a new feed URL (the confirmed re-point).
    Repoint { subscription_id: u128, new_url: String },
}

/// What a key means in the current state, before anything is applied.
#[derive(Debug, Clone, Copy, PartialEq, Eq, Structural)]
pub enum KeyAction {
    Ignore,
    CloseModal,
    /// Enter on a confirm dialog: run the action it asked about.
    Confirm,
    TypeChar(char),
    DeleteChar,
    SubmitSearch,
    ShowHelp,
    Quit,
    /// Esc on the search results: back to the query box.
    FocusSearchInput,
    /// Esc in the query box: leave Search.
    ExitSearch,
    /// Esc in the Episodes pane: back to Subscriptions.
    LeaveEpisodes,
    /// The number keys: jump to a view.
    SwitchView(View),
    /// Tab (`true`) or Shift-Tab (`false`).
    CycleView(bool),
    PreviousItem,
    NextItem,
    Top,
    Bottom,
    PageUp,
    PageDown,
    OpenSearch,
    Run(Job),
}

/// Unicode control characters (general category Cc): `U+0000..=U+001F` and
/// `U+007F..=U+009F`, as `char::is_control` classifies them.
pub open spec fn is_control_char(c: char) -> bool {
    (c as u32) < 0x20 || (0x7f <= (c as u32) && (c as u32) <= 0x9f)
}

fn is_control(c: char) -> (r: bool)
    ensures
        r == is_control_char(c),
{
    let u = c as u32;
    u < 0x20 || (0x7f <= u && u <= 0x9f)
}

/// The global keymap for a printable key.
pub open spec fn char_action(view: View, c: char) -> KeyAction {
    if c == '?' {
        KeyAction::ShowHelp
    } else if c == 'q' {
        KeyAction::Quit
    } else if c == ' ' {
        KeyAction::Run(Job::TogglePlayback)
    } else if c == 'n' {
        KeyAction::Run(Job::PlayNext)
    } else if c == 'p' || c == 'P' {
        KeyAction::Run(Job::RestartEpisode)
    } else if c == '+' || c == '=' {
        KeyAction::Run(Job::VolumeUp)
    } else if c == '-' || c == '_' {
        KeyAction::Run(Job::VolumeDown)
    } else if c == 'm' {
        KeyAction::Run(Job::ToggleMute)
    } else if c == '[' {
        KeyAction::Run(Job::SpeedDown)
    } else if c == ']' {
        KeyAction::Run(Job::SpeedUp)
    } else if c == '<' {
        KeyAction::Run(Job::SeekBackward(30))
    } else if c == '>' {
        KeyAction::Run(Job::SeekForward(30))
    } else if c == '1' {
        KeyAction::SwitchView(View::Subscriptions)
    } else if c == '2' {
        KeyAction::SwitchView(View::Queue)
    } else if c == '3' {
        KeyAction::SwitchView(View::Search)
    } else if c == '4' {
        KeyAction::SwitchView(View::Settings)
    } else if c == 'k' {
        KeyAction::PreviousItem
    } else if c == 'j' {
        KeyAction::NextItem
    } else if c == 'g' {
        KeyAction::Top
    } else if c == 'G' {
        KeyAction::Bottom
    } else if c == 'a' {
        KeyAction::Run(Job::AddToQueue)
    } else if c == 'd' {
        KeyAction::Run(Job::Download)
    } else if c == 'x' {
        // "Remove": from the Queue the selected item, elsewhere its download.
        if view == View::Queue {
            KeyAction::Run(Job::RemoveFromQueue)
        } else {
            KeyAction::Run(Job::DeleteDownload)
        }
    } else if c == 'r' {
        KeyAction::Run(Job::RefreshSelected)
    } else if c == 'R' {
        KeyAction::Run(Job::RefreshAll)
    } else if c == 's' {
        KeyAction::Run(Job::TogglePlayed)
    } else if c == '/' {
        KeyAction::OpenSearch
    } else {
        KeyAction::Ignore
    }
}

/// Status line shown while a job runs, if it has one.
pub open spec fn start_status(job: Job) -> Option<Seq<char>> {
    match job {
        Job::Download => Some("Starting download..."@),
        Job::RefreshSelected => Some("Refreshing feed..."@),
        Job::RefreshAll => Some("Refreshing all feeds..."@),
        _ => None,
    }
}

/// Status line shown when a job succeeds, if it has one.
pub open spec fn done_status(job: Job) -> Option<Seq<char>> {
    match job {
        Job::AddToQueue => Some("Added to queue"@),
        Job::Download => Some("Download started"@),
        Job::RemoveFromQueue => Some("Removed from queue"@),
        Job::DeleteDownload => Some("Download deleted"@),
        Job::RefreshSelected => Some("Feed refreshed"@),
        Job::RefreshAll => Some("All feeds refreshed"@),
        Job::TogglePlayed => Some("Toggled played status"@),
        _ => None,
    }
}

/// The error dialog's lead-in for a failed job; `None` when a failure is only
/// logged (volume, speed, seeking, and the quiet queue reload).
pub open spec fn error_prefix(job: Job) -> Option<Seq<char>> {
    match job {
        Job::TogglePlayback => Some("Playback error: "@),
        Job::PlayNext => Some("Failed to play next: "@),
        Job::RestartEpisode => Some("Failed to restart: "@),
        Job::LoadQueue => Some("Failed to load queue: "@),
        Job::SelectItem => Some("Selection failed: "@),
        Job::AddToQueue => Some("Failed to add to queue: "@),
        Job::Download => Some("Download failed: "@),
        Job::RemoveFromQueue => Some("Failed to remove: "@),
        Job::DeleteDownload => Some("Failed to delete: "@),
        Job::RefreshSelected => Some("Refresh failed: "@),
        Job::RefreshAll => Some("Refresh all failed: "@),
        Job::TogglePlayed => Some("Failed to toggle played: "@),
        _ => None,
    }
}

impl<S, E, R> AppState<S, E, R> {
    /// Keystrokes go to the search box: the Search view with its query box
    /// focused.
    pub open spec fn typing_search(&self) -> bool {
        self.current_view == View::Search && self.search_focus == SearchFocus::Input
    }

    /// The keymap. An open modal swallows every key but its own; while the
    /// query box has focus every printable key (digits and `q` included)
    /// types into it and only Esc escapes; otherwise the global keymap.
    pub open spec fn action_for(&self, key: Key) -> KeyAction {
        match self.modal {
            Modal::Help | Modal::Error(_) => if key == Key::Esc || key == Key::Char('q') {
                KeyAction::CloseModal
            } else {
                KeyAction::Ignore
            },
            Modal::Confirm { .. } => if key == Key::Enter {
                KeyAction::Confirm
            } else if key == Key::Esc {
                KeyAction::CloseModal
            } else {
                KeyAction::Ignore
            },
            Modal::Closed => if self.typing_search() {
                match key {
                    Key::Char(c) => if is_control_char(c) {
                        self.global_action(key)
                    } else {
                        KeyAction::TypeChar(c)
                    },
                    Key::Backspace => KeyAction::DeleteChar,
                    Key::Enter => if self.search_input@.len() == 0 {
                        KeyAction::Ignore
                    } else {
                        KeyAction::SubmitSearch
                    },
                    _ => self.global_action(key),
                }
            } else {
                self.global_action(key)
            },
        }
    }

    /// The global keymap, with no modal open and the query box not taking
    /// the key.
    pub open spec fn global_action(&self, key: Key) -> KeyAction {
        match key {
            Key::Char(c) => char_action(self.current_view, c),
            Key::Esc => if self.current_view == View::Search {
                if self.search_focus == SearchFocus::Results {
                    KeyAction::FocusSearchInput
                } else {
                    KeyAction::ExitSearch
                }
            } else if self.current_view == View::Episodes {
                KeyAction::LeaveEpisodes
            } else {
                KeyAction::Ignore
            },
            Key::Enter => KeyAction::Run(Job::SelectItem),
            Key::Tab => KeyAction::CycleView(true),
            Key::BackTab => KeyAction::CycleView(false),
            Key::Up => KeyAction::PreviousItem,
            Key::Down => KeyAction::NextItem,
            Key::Left => KeyAction::Run(Job::SeekBackward(10)),
            Key::Right => KeyAction::Run(Job::SeekForward(10)),
            Key::PageUp => KeyAction::PageUp,
            Key::PageDown => KeyAction::PageDown,
            Key::Backspace | Key::Other => KeyAction::Ignore,
        }
    }

    /// `next` is `self` with a transient status line reading `text`.
    pub open spec fn shows_status(self, next: Self, text: Seq<char>, now_ms: u64) -> bool {
        &&& next.status_message matches Some(m) && m.text@ == text && m.expires_at == Some(
            (now_ms + STATUS_TTL_MS) as u64,
        )
        &&& next == AppState { status_message: next.status_message, ..self }
    }

    /// `next` is `self` with an error dialog reading `text`.
    pub open spec fn shows_error(self, next: Self, text: Seq<char>) -> bool {
        &&& next.modal matches Modal::Error(m) && m@ == text
        &&& next == AppState { modal: next.modal, ..self }
    }

    /// `self` with focus on the search results, when there are any.
    pub open spec fn results_focused(self) -> Self {
        if self.search_results@.len() > 0 {
            AppState {
                search_focus: SearchFocus::Results,
                selected_index: 0,
                list_state: ListCursor::new_spec(),
                ..self
            }
        } else {
            self
        }
    }

    /// The view a Tab (`forward`) or Shift-Tab lands on.
    pub open spec fn cycled_view(self, forward: bool) -> View {
        top_view_at((top_view_index(self.current_view) + if forward { 1int } else { 3int }) % 4)
    }

    /// What a key press does: `next` is the state after it and `cmd` the
    /// outside work it leaves for the front end.
    pub open spec fn key_step(self, key: Key, now_ms: u64, next: Self, cmd: KeyCommand) -> bool {
        let i = self.focused_index();
        let m = self.max_idx();
        match self.action_for(key) {
            KeyAction::Ignore => next == self && cmd == KeyCommand::Nothing,
            KeyAction::CloseModal => next == (AppState {
                modal: Modal::Closed,
                pending_action: None,
                ..self
            }) && cmd == KeyCommand::Nothing,
            KeyAction::Confirm => {
                &&& next == (AppState { modal: Modal::Closed, pending_action: None, ..self })
                &&& match self.pending_action {
                    Some(PendingAction::RepointFeed { subscription_id, new_url }) => cmd matches KeyCommand::Repoint {
                        subscription_id: id,
                        new_url: u,
                    } && id == subscription_id && u@ == new_url@,
                    None => cmd == KeyCommand::Nothing,
                }
            },
            KeyAction::TypeChar(c) => {
                &&& next.search_input@ == self.search_input@.insert(self.search_cursor as int, c)
                &&& next == (AppState {
                    search_input: next.search_input,
                    search_cursor: (self.search_cursor + 1) as usize,
                    ..self
                })
                &&& cmd == KeyCommand::Nothing
            },
            KeyAction::DeleteChar => {
                &&& if self.search_cursor > 0 {
                    &&& next.search_input@ == self.search_input@.remove(self.search_cursor - 1)
                    &&& next == (AppState {
                        search_input: next.search_input,
                        search_cursor: (self.search_cursor - 1) as usize,
                        ..self
                    })
                } else {
                    next == self
                }
                &&& cmd == KeyCommand::Nothing
            },
            KeyAction::SubmitSearch => {
                &&& self.shows_status(next, "Searching..."@, now_ms)
                &&& cmd matches KeyCommand::Search(q) && q@ == self.search_input@
            },
            KeyAction::ShowHelp => next == (AppState { modal: Modal::Help, ..self }) && cmd
                == KeyCommand::Nothing,
            KeyAction::Quit => next == (AppState { should_quit: true, ..self }) && cmd
                == KeyCommand::Nothing,
            KeyAction::FocusSearchInput => next == (AppState {
                search_focus: SearchFocus::Input,
                ..self
            }) && cmd == KeyCommand::Nothing,
            KeyAction::ExitSearch => next == (AppState {
                feed_fix_target: None,
                ..self.switched_to(View::Subscriptions)
            }) && cmd == KeyCommand::Nothing,
            KeyAction::LeaveEpisodes => next == self.switched_to(View::Subscriptions) && cmd
                == KeyCommand::Nothing,
            KeyAction::SwitchView(v) => {
                let s = AppState { selected_index: 0, ..self.switched_to(v) };
                &&& if v == View::Search {
                    &&& next.search_input@ == Seq::<char>::empty()
                    &&& next == (AppState { search_input: next.search_input, search_cursor: 0, ..s })
                } else {
                    next == s
                }
                &&& cmd == if v == View::Queue {
                    KeyCommand::Run(Job::LoadQueue)
                } else {
                    KeyCommand::Nothing
                }
            },
            KeyAction::CycleView(forward) => {
                let v = self.cycled_view(forward);
                &&& next == (AppState { selected_index: 0, ..self.switched_to(v) })
                &&& cmd == if v == View::Queue {
                    KeyCommand::Run(Job::ReloadQueue)
                } else {
                    KeyCommand::Nothing
                }
            },
            KeyAction::PreviousItem => next == self.with_focused_index(
                if i > 0 { (i - 1) as usize } else { 0 },
            ) && cmd == KeyCommand::Nothing,
            KeyAction::NextItem => next == self.with_focused_index(
                if i < m { (i + 1) as usize } else { i },
            ) && cmd == KeyCommand::Nothing,
            KeyAction::Top => next == self.with_focused_index(0) && cmd == KeyCommand::Nothing,
            KeyAction::Bottom => next == self.with_focused_index(m as usize) && cmd
                == KeyCommand::Nothing,
            KeyAction::PageUp => next == self.with_focused_index(
                if i >= 10 { (i - 10) as usize } else { 0 },
            ) && cmd == KeyCommand::Nothing,
            KeyAction::PageDown => next == self.with_focused_index(
                if i + 10 < m { (i + 10) as usize } else { m as usize },
            ) && cmd == KeyCommand::Nothing,
            KeyAction::OpenSearch => next == (AppState { feed_fix_target: None, ..self }).switched_to(
                View::Search,
            ) && cmd == KeyCommand::Nothing,
            KeyAction::Run(job) => {
                &&& match start_status(job) {
                    Some(t) => self.shows_status(next, t, now_ms),
                    None => next == self,
                }
                &&& cmd == KeyCommand::Run(job)
            },
        }
    }

    /// What the outcome of a key's outside work does to the state.
    pub open spec fn finish_step(
        self,
        cmd: KeyCommand,
        outcome: Result<(), Seq<char>>,
        now_ms: u64,
        next: Self,
    ) -> bool {
        match cmd {
            KeyCommand::Nothing => next == self,
            KeyCommand::Search(_) => match outcome {
                Ok(()) => next == (AppState { status_message: None, ..self }).results_focused(),
                Err(e) => self.shows_error(next, "Search failed: "@ + e),
            },
            KeyCommand::Run(job) => match outcome {
                Ok(()) => match done_status(job) {
                    Some(t) => self.shows_status(next, t, now_ms),
                    None => next == self,
                },
                Err(e) => match error_prefix(job) {
                    Some(p) => self.shows_error(next, p + e),
                    None => next == self,
                },
            },
            KeyCommand::Repoint { .. } => match outcome {
                Ok(()) => self.shows_status(next, "Feed URL updated"@, now_ms),
                Err(e) => self.shows_error(next, "Failed to update feed: "@ + e),
            },
        }
    }
}

fn char_action_exec(view: View, c: char) -> (a: KeyAction)
    ensures
        a == char_action(view, c),
{
    if c == '?' {
        KeyAction::ShowHelp
    } else if c == 'q' {
        KeyAction::Quit
    } else if c == ' ' {
        KeyAction::Run(Job::TogglePlayback)
    } else if c == 'n' {
        KeyAction::Run(Job::PlayNext)
    } else if c == 'p' || c == 'P' {
        KeyAction::Run(Job::RestartEpisode)
    } else if c == '+' || c == '=' {
        KeyAction::Run(Job::VolumeUp)
    } else if c == '-' || c == '_' {
        KeyAction::Run(Job::VolumeDown)
    } else if c == 'm' {
        KeyAction::Run(Job::ToggleMute)
    } else if c == '[' {
        KeyAction::Run(Job::SpeedDown)
    } else if c == ']' {
        KeyAction::Run(Job::SpeedUp)
    } else if c == '<' {
        KeyAction::Run(Job::SeekBackward(30))
    } else if c == '>' {
        KeyAction::Run(Job::SeekForward(30))
    } else if c == '1' {
        KeyAction::SwitchView(View::Subscriptions)
    } else if c == '2' {
        KeyAction::SwitchView(View::Queue)
    } else if c == '3' {
        KeyAction::SwitchView(View::Search)
    } else if c == '4' {
        KeyAction::SwitchView(View::Settings)
    } else if c == 'k' {
        KeyAction::PreviousItem
    } else if c == 'j' {
        KeyAction::NextItem
    } else if c == 'g' {
        KeyAction::Top
    } else if c == 'G' {
        KeyAction::Bottom
    } else if c == 'a' {
        KeyAction::Run(Job::AddToQueue)
    } else if c == 'd' {
        KeyAction::Run(Job::Download)
    } else if c == 'x' {
        if view == View::Queue {
            KeyAction::Run(Job::RemoveFromQueue)
        } else {
            KeyAction::Run(Job::DeleteDownload)
        }
    } else if c == 'r' {
        KeyAction::Run(Job::RefreshSelected)
    } else if c == 'R' {
        KeyAction::Run(Job::RefreshAll)
    } else if c == 's' {
        KeyAction::Run(Job::TogglePlayed)
    } else if c == '/' {
        KeyAction::OpenSearch
    } else {
        KeyAction::Ignore
    }
}

fn start_text(job: Job) -> (r: Option<&'static str>)
    ensures
        match start_status(job) {
            Some(t) => r matches Some(s) && s@ == t,
            None => r is None,
        },
{
    match job {
        Job::Download => Some("Starting download..."),
        Job::RefreshSelected => Some("Refreshing feed..."),
        Job::RefreshAll => Some("Refreshing all feeds..."),
        _ => None,
    }
}

fn done_text(job: Job) -> (r: Option<&'static str>)
    ensures
        match done_status(job) {
            Some(t) => r matches Some(s) && s@ == t,
            None => r is None,
        },
{
    match job {
        Job::AddToQueue => Some("Added to queue"),
        Job::Download => Some("Download started"),
        Job::RemoveFromQueue => Some("Removed from queue"),
        Job::DeleteDownload => Some("Download deleted"),
        Job::RefreshSelected => Some("Feed refreshed"),
        Job::RefreshAll => Some("All feeds refreshed"),
        Job::TogglePlayed => Some("Toggled played status"),
        _ => None,
    }
}

fn error_text(job: Job) -> (r: Option<&'static str>)
    ensures
        match error_prefix(job) {
            Some(t) => r matches Some(s) && s@ == t,
            None => r is None,
        },
{
    match job {
        Job::TogglePlayback => Some("Playback error: "),
        Job::PlayNext => Some("Failed to play next: "),
        Job::RestartEpisode => Some("Failed to restart: "),
        Job::LoadQueue => Some("Failed to load queue: "),
        Job::SelectItem => Some("Selection failed: "),
        Job::AddToQueue => Some("Failed to add to queue: "),
        Job::Download => Some("Download failed: "),
        Job::RemoveFromQueue => Some("Failed to remove: "),
        Job::DeleteDownload => Some("Failed to delete: "),
        Job::RefreshSelected => Some("Refresh failed: "),
        Job::RefreshAll => Some("Refresh all failed: "),
        Job::TogglePlayed => Some("Failed to toggle played: "),
        _ => None,
    }
}

/// A job's outcome with the error message taken by its characters.
pub open spec fn outcome_view(outcome: Result<(), String>) -> Result<(), Seq<char>> {
    match outcome {
        Ok(()) => Ok(()),
        Err(e) => Err(e@),
    }
}

impl<S, E, R> AppState<S, E, R> {
    /// What `key` means in the current state (see [`AppState::action_for`]).
    pub fn key_action(&self, key: Key) -> (a: KeyAction)
        ensures
            a == self.action_for(key),
    {
        match &self.modal {
            Modal::Help | Modal::Error(_) => {
                if key == Key::Esc || key == Key::Char('q') {
                    KeyAction::CloseModal
                } else {
                    KeyAction::Ignore
                }
            },
            Modal::Confirm { .. } => {
                if key == Key::Enter {
                    KeyAction::Confirm
                } else if key == Key::Esc {
                    KeyAction::CloseModal
                } else {
                    KeyAction::Ignore
                }
            },
            Modal::Closed => {
                if self.current_view == View::Search && self.search_focus == SearchFocus::Input {
                    match key {
                        Key::Char(c) => {
                            if is_control(c) {
                                self.global_key_action(key)
                            } else {
                                KeyAction::TypeChar(c)
                            }
                        },
                        Key::Backspace => KeyAction::DeleteChar,
                        Key::Enter => {
                            if self.search_input.as_str().unicode_len() == 0 {
                                KeyAction::Ignore
                            } else {
                                KeyAction::SubmitSearch
                            }
                        },
                        _ => self.global_key_action(key),
                    }
                } else {
                    self.global_key_action(key)
                }
            },
        }
    }

    fn global_key_action(&self, key: Key) -> (a: KeyAction)
        ensures
            a == self.global_action(key),
    {
        match key {
            Key::Char(c) => char_action_exec(self.current_view, c),
            Key::Esc => {
                if self.current_view == View::Search {
                    if self.search_focus == SearchFocus::Results {
                        KeyAction::FocusSearchInput
                    } else {
                        KeyAction::ExitSearch
                    }
                } else if self.current_view == View::Episodes {
                    KeyAction::LeaveEpisodes
                } else {
                    KeyAction::Ignore
                }
            },
            Key::Enter => KeyAction::Run(Job::SelectItem),
            Key::Tab => KeyAction::CycleView(true),
            Key::BackTab => KeyAction::CycleView(false),
            Key::Up => KeyAction::PreviousItem,
            Key::Down => KeyAction::NextItem,
            Key::Left => KeyAction::Run(Job::SeekBackward(10)),
            Key::Right => KeyAction::Run(Job::SeekForward(10)),
            Key::PageUp => KeyAction::PageUp,
            Key::PageDown => KeyAction::PageDown,
            Key::Backspace | Key::Other => KeyAction::Ignore,
        }
    }

    /// Handle a key press: apply its effect on UI state and return the
    /// outside work it asks for.
    pub fn handle_key(&mut self, key: Key, now_ms: u64) -> (cmd: KeyCommand)
        requires
            old(self).search_cursor <= old(self).search_input@.len(),
            old(self).search_input@.len() < usize::MAX,
            old(self).focused_index() + 10 <= usize::MAX,
            now_ms + STATUS_TTL_MS <= u64::MAX,
        ensures
            old(self).key_step(key, now_ms, *final(self), cmd),
            final(self).search_cursor <= final(self).search_input@.len(),
    {
        let action = self.key_action(key);
        match action {
            KeyAction::Ignore => KeyCommand::Nothing,
            KeyAction::CloseModal => {
                self.close_modal();
                KeyCommand::Nothing
            },
            KeyAction::Confirm => {
                let cmd = match &self.pending_action {
                    Some(PendingAction::RepointFeed { subscription_id, new_url }) => KeyCommand::Repoint {
                        subscription_id: *subscription_id,
                        new_url: new_url.clone(),
                    },
                    None => KeyCommand::Nothing,
                };
                self.close_modal();
                cmd
            },
            KeyAction::TypeChar(c) => {
                self.append_search_char(c);
                KeyCommand::Nothing
            },
            KeyAction::DeleteChar => {
                self.delete_search_char();
                KeyCommand::Nothing
            },
            KeyAction::SubmitSearch => {
                let query = owned(self.search_input.as_str());
                self.set_status(owned("Searching..."), now_ms);
                KeyCommand::Search(query)
            },
            KeyAction::ShowHelp => {
                self.show_help_modal();
                KeyCommand::Nothing
            },
            KeyAction::Quit => {
                self.should_quit = true;
                KeyCommand::Nothing
            },
            KeyAction::FocusSearchInput => {
                self.focus_search_input();
                KeyCommand::Nothing
            },
            KeyAction::ExitSearch => {
                self.exit_search_mode();
                KeyCommand::Nothing
            },
            KeyAction::LeaveEpisodes => {
                self.set_view(View::Subscriptions);
                KeyCommand::Nothing
            },
            KeyAction::SwitchView(v) => {
                self.set_view(v);
                self.selected_index = 0;
                if v == View::Search {
                    self.clear_search_input();
                }
                if v == View::Queue {
                    KeyCommand::Run(Job::LoadQueue)
                } else {
                    KeyCommand::Nothing
                }
            },
            KeyAction::CycleView(forward) => {
                if forward {
                    self.next_view();
                } else {
                    self.previous_view();
                }
                self.selected_index = 0;
                if self.current_view == View::Queue {
                    KeyCommand::Run(Job::ReloadQueue)
                } else {
                    KeyCommand::Nothing
                }
            },
            KeyAction::PreviousItem => {
                self.previous_item();
                KeyCommand::Nothing
            },
            KeyAction::NextItem => {
                self.next_item();
                KeyCommand::Nothing
            },
            KeyAction::Top => {
                self.goto_top();
                KeyCommand::Nothing
            },
            KeyAction::Bottom => {
                self.goto_bottom();
                KeyCommand::Nothing
            },
            KeyAction::PageUp => {
                self.page_up();
                KeyCommand::Nothing
            },
            KeyAction::PageDown => {
                self.page_down();
                KeyCommand::Nothing
            },
            KeyAction::OpenSearch => {
                self.enter_search_mode();
                KeyCommand::Nothing
            },
            KeyAction::Run(job) => {
                match start_text(job) {
                    Some(t) => self.set_status(owned(t), now_ms),
                    None => {},
                }
                KeyCommand::Run(job)
            },
        }
    }

    /// Apply the outcome of the outside work `cmd` asked for: the status line
    /// on success, the error dialog on a reported failure.
    pub fn finish_command(&mut self, cmd: &KeyCommand, outcome: Result<(), String>, now_ms: u64)
        requires
            now_ms + STATUS_TTL_MS <= u64::MAX,
        ensures
            old(self).finish_step(*cmd, outcome_view(outcome), now_ms, *final(self)),
    {
        match cmd {
            KeyCommand::Nothing => {},
            KeyCommand::Search(_) => match outcome {
                Ok(()) => {
                    self.clear_status();
                    self.focus_search_results();
                },
                Err(e) => self.show_error(joined("Search failed: ", e.as_str())),
            },
            KeyCommand::Run(job) => match outcome {
                Ok(()) => match done_text(*job) {
                    Some(t) => self.set_status(owned(t), now_ms),
                    None => {},
                },
                Err(e) => match error_text(*job) {
                    Some(p) => self.show_error(joined(p, e.as_str())),
                    None => {},
                },
            },
            KeyCommand::Repoint { .. } => match outcome {
                Ok(()) => self.set_status(owned("Feed URL updated"), now_ms),
                Err(e) => self.show_error(joined("Failed to update feed: ", e.as_str())),
            },
        }
    }
}

// ---------------------------------------------------------------------------
// Laws.

impl<S, E, R> AppState<S, E, R> {
    /// An open modal swallows the keyboard: a key either closes it or does
    /// nothing at all, and no key reaches the player, the queue or the
    /// network while it is open; the only outside work is the re-point a
    /// confirm dialog asked about, on Enter.
    pub proof fn lemma_modal_swallows_keys(self, key: Key, now_ms: u64, next: Self, cmd: KeyCommand)
        requires
            !(self.modal is Closed),
            self.key_step(key, now_ms, next, cmd),
        ensures
            cmd == KeyCommand::Nothing || (key == Key::Enter && self.modal is Confirm
                && self.pending_action is Some && cmd is Repoint),
            next == self || next == (AppState { modal: Modal::Closed, pending_action: None, ..self }),
    {
    }

    /// Enter on a confirm dialog runs the action it asked about, once: the
    /// dialog closes and the pending action is consumed.
    pub proof fn lemma_confirm_runs_pending(self, now_ms: u64, next: Self, cmd: KeyCommand)
        requires
            self.modal is Confirm,
            self.pending_action matches Some(PendingAction::RepointFeed { .. }),
            self.key_step(Key::Enter, now_ms, next, cmd),
        ensures
            next.modal is Closed,
            next.pending_action is None,
            cmd matches KeyCommand::Repoint { subscription_id, new_url }
                && self.pending_action matches Some(PendingAction::RepointFeed { subscription_id: id, new_url: u })
                && subscription_id == id && new_url@ == u@,
    {
    }

    /// While the query box has focus, every printable character is typed
    /// into it at the cursor, `q` and the digits included: none of them
    /// quits or switches views.
    pub proof fn lemma_typing_takes_printables(self, c: char, now_ms: u64, next: Self, cmd: KeyCommand)
        requires
            self.modal is Closed,
            self.typing_search(),
            !is_control_char(c),
            self.key_step(Key::Char(c), now_ms, next, cmd),
        ensures
            cmd == KeyCommand::Nothing,
            next.search_input@ == self.search_input@.insert(self.search_cursor as int, c),
            next.should_quit == self.should_quit,
            next.current_view == self.current_view,
    {
    }

    /// Quitting takes a `q` typed outside the search box with no modal open.
    pub proof fn lemma_quit_only_by_q(self, key: Key, now_ms: u64, next: Self, cmd: KeyCommand)
        requires
            !self.should_quit,
            next.should_quit,
            self.key_step(key, now_ms, next, cmd),
        ensures
            key == Key::Char('q'),
            self.modal is Closed,
            !self.typing_search(),
    {
    }

    /// Outside the search box and with no dialog open, `[` slows playback
    /// down and `]` speeds it up, in every view, touching no UI state.
    pub proof fn lemma_brackets_set_speed(self, c: char, now_ms: u64, next: Self, cmd: KeyCommand)
        requires
            self.modal is Closed,
            !self.typing_search(),
            c == '[' || c == ']',
            self.key_step(Key::Char(c), now_ms, next, cmd),
        ensures
            c == '[' ==> cmd == KeyCommand::Run(Job::SpeedDown),
            c == ']' ==> cmd == KeyCommand::Run(Job::SpeedUp),
            next == self,
    {
    }

    /// Outside the search box and with no dialog open, the playback keys ask
    /// for their playback work in every view: space plays or pauses, `n`
    /// skips, `p`/`P` restart, `+`/`=` and `-`/`_` raise and lower the volume,
    /// `m` mutes, `<`/`>` seek 30 s back and forward, and the left and right
    /// arrows 10 s.
    pub proof fn lemma_playback_keys(self, key: Key, now_ms: u64, next: Self, cmd: KeyCommand)
        requires
            self.modal is Closed,
            !self.typing_search(),
            self.key_step(key, now_ms, next, cmd),
        ensures
            key == Key::Char(' ') ==> cmd == KeyCommand::Run(Job::TogglePlayback),
            key == Key::Char('n') ==> cmd == KeyCommand::Run(Job::PlayNext),
            key == Key::Char('p') || key == Key::Char('P') ==> cmd == KeyCommand::Run(Job::RestartEpisode),
            key == Key::Char('+') || key == Key::Char('=') ==> cmd == KeyCommand::Run(Job::VolumeUp),
            key == Key::Char('-') || key == Key::Char('_') ==> cmd == KeyCommand::Run(Job::VolumeDown),
            key == Key::Char('m') ==> cmd == KeyCommand::Run(Job::ToggleMute),
            key == Key::Char('<') ==> cmd == KeyCommand::Run(Job::SeekBackward(30)),
            key == Key::Char('>') ==> cmd == KeyCommand::Run(Job::SeekForward(30)),
            key == Key::Left ==> cmd == KeyCommand::Run(Job::SeekBackward(10)),
            key == Key::Right ==> cmd == KeyCommand::Run(Job::SeekForward(10)),
    {
    }

    /// Esc only ever steps back through the UI; it never starts outside work.
    pub proof fn lemma_esc_runs_nothing(self, now_ms: u64, next: Self, cmd: KeyCommand)
        requires
            self.key_step(Key::Esc, now_ms, next, cmd),
        ensures
            cmd == KeyCommand::Nothing,
    {
    }
}

impl<S, E, R> AppState<S, E, R> {
    /// Every cursor points into its list: each library pane's own, and the
    /// shared one while a single-list view is focused.
    pub open spec fn cursors_in_lists(&self) -> bool {
        &&& self.subscription_index == 0 || self.subscription_index < self.subscriptions@.len()
        &&& self.episode_index == 0 || self.episode_index < self.episodes@.len()
        &&& (self.current_view == View::Queue || self.current_view == View::Search)
            ==> self.focused_index() <= self.max_idx()
    }

    /// No key moves a cursor off its list.
    pub proof fn lemma_keys_keep_cursors_in_lists(self, key: Key, now_ms: u64, next: Self, cmd: KeyCommand)
        requires
            self.cursors_in_lists(),
            self.key_step(key, now_ms, next, cmd),
        ensures
            next.cursors_in_lists(),
    {
    }
}

} // verus!
