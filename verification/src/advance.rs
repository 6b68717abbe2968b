//! Auto-advance: what happens when an episode finishes playing.
//!
//! On every completion the finished episode is marked played, its download
//! is optionally reclaimed (delete-on-finish), it leaves the queue, and the
//! next queued episode starts, skipping (and dropping from the queue) any
//! that fail to load. The background task performs each request against the
//! database, the queue and the player; [`AutoAdvance::step`] decides, from
//! each outcome, what to announce and what to ask for next.
use crate::models::{DownloadStatus, Episode};
use crate::text::{chars_of, joined, push_str_chars, string_from_chars};
use vstd::prelude::*;

verus! {

/// What the event bus delivered to the task.
#[derive(Debug, Clone, Copy, PartialEq, Eq, Structural)]
pub enum BusEvent {
    /// Playback of this episode ran to its end.
    Completed { episode_id: u128 },
    /// Any other event.
    Other,
    /// The task fell behind and events were skipped.
    Lagged,
    /// The bus closed.
    Closed,
}

/// Where the task is: which request's answer it waits for.
#[derive(Debug, Clone, Copy, PartialEq, Eq, Structural)]
pub enum AutoAdvance {
    /// Waiting for the next event from the bus.
    Listening,
    /// Marking the completed episode played.
    MarkingPlayed { completed: u128 },
    /// Looking up the completed episode to reclaim its download.
    CheckingDownload { completed: u128 },
    /// Deleting the completed episode's download.
    DeletingDownload { completed: u128 },
    /// Removing the completed episode from the queue.
    RemovingCompleted,
    /// Asking the queue for its next item.
    TakingNext,
    /// Looking up the episode of the queue's next item.
    LoadingNext { episode_id: u128 },
    /// Starting playback of the next episode.
    Starting { episode_id: u128 },
    /// Dropping an episode that failed to play from the queue.
    RemovingFailed { episode_id: u128 },
    /// The bus closed; the task has ended.
    Stopped,
}

/// The answer to the last request.
#[derive(Debug)]
pub enum AdvanceInput {
    Bus(BusEvent),
    /// Whether marking the episode played succeeded.
    MarkedPlayed(bool),
    /// The looked-up episode (`None`: no such episode), or the database error.
    Fetched(Result<Option<Episode>, String>),
    /// The download was deleted, or the failure was logged.
    DownloadDeleted,
    /// Whether removing the episode from the queue succeeded.
    Removed(bool),
    /// The episode id of the queue's next item (`None`: the queue is empty),
    /// or the queue's error.
    NextInQueue(Result<Option<u128>, String>),
    /// Whether playback started, or why not.
    PlayStarted(Result<(), String>),
}

/// An event the task publishes on the bus.
#[derive(Debug, Clone, PartialEq)]
pub enum Notice {
    EpisodeMarkedPlayed(u128),
    QueueAdvanced(u128),
    PlaybackError(String),
}

/// The next thing the task must do; its answer is the next input.
#[derive(Debug, Clone)]
pub enum Request {
    /// Wait for the next bus event.
    Receive,
    MarkPlayed(u128),
    FetchEpisode(u128),
    DeleteDownload(Episode),
    RemoveFromQueue(u128),
    TakeNext,
    /// Play this episode from the top.
    Play(Episode),
    /// End the task.
    Stop,
}

/// A hexadecimal digit, lower case.
pub open spec fn hex_digit(d: nat) -> char {
    if d < 10 {
        if d == 0 { '0' } else if d == 1 { '1' } else if d == 2 { '2' } else if d == 3 { '3' }
        else if d == 4 { '4' } else if d == 5 { '5' } else if d == 6 { '6' } else if d == 7 { '7' }
        else if d == 8 { '8' } else { '9' }
    } else {
        if d == 10 { 'a' } else if d == 11 { 'b' } else if d == 12 { 'c' } else if d == 13 { 'd' }
        else if d == 14 { 'e' } else { 'f' }
    }
}

/// The last `n` hexadecimal digits of `v`, most significant first.
pub open spec fn hex_digits(v: nat, n: nat) -> Seq<char>
    decreases n,
{
    if n == 0 {
        Seq::empty()
    } else {
        hex_digits(v / 16, (n - 1) as nat).push(hex_digit(v % 16))
    }
}

/// A 128-bit id in the hyphenated form `8-4-4-4-12` of lower-case
/// hexadecimal digits, most significant first.
pub open spec fn uuid_text(id: u128) -> Seq<char> {
    let h = hex_digits(id as nat, 32);
    h.subrange(0, 8) + seq!['-'] + h.subrange(8, 12) + seq!['-'] + h.subrange(12, 16) + seq!['-']
        + h.subrange(16, 20) + seq!['-'] + h.subrange(20, 32)
}

/// `uuid::Uuid::from_u128(id).to_string()`: the crate's `Display` writes the
/// big-endian bytes of the id in the hyphenated lower-case form, which is
/// what this contract claims.
#[verifier::external_body]
fn uuid_string(id: u128) -> (s: String)
    ensures
        s@ == uuid_text(id),
{
    uuid::Uuid::from_u128(id).to_string()
}

impl AutoAdvance {
    /// The request after the completed episode was marked played.
    pub open spec fn after_marking(completed: u128, delete_on_finish: bool) -> (AutoAdvance, Request) {
        if delete_on_finish {
            (AutoAdvance::CheckingDownload { completed }, Request::FetchEpisode(completed))
        } else {
            (AutoAdvance::RemovingCompleted, Request::RemoveFromQueue(completed))
        }
    }

    /// `next`, `notice` and `request` give up on `episode_id`: the failure is
    /// published and the episode leaves the queue.
    pub open spec fn skips(
        episode_id: u128,
        why: Seq<char>,
        next: AutoAdvance,
        notice: Option<Notice>,
        request: Request,
    ) -> bool {
        &&& next == AutoAdvance::RemovingFailed { episode_id }
        &&& notice matches Some(Notice::PlaybackError(m)) && m@ == "Auto-play failed: "@ + why
        &&& request == Request::RemoveFromQueue(episode_id)
    }

    /// One step of the task: from this state and the answer `input`, the
    /// next state, what to publish, and the next request. An answer that does
    /// not fit the pending request is dropped and the task goes back to
    /// listening.
    pub open spec fn step_spec(
        self,
        input: AdvanceInput,
        delete_on_finish: bool,
        next: AutoAdvance,
        notice: Option<Notice>,
        request: Request,
    ) -> bool {
        let listen = next == AutoAdvance::Listening && notice is None && request == Request::Receive;
        match self {
            AutoAdvance::Stopped => next == AutoAdvance::Stopped && notice is None && request
                == Request::Stop,
            AutoAdvance::Listening => match input {
                AdvanceInput::Bus(BusEvent::Completed { episode_id }) => next
                    == (AutoAdvance::MarkingPlayed { completed: episode_id }) && notice is None
                    && request == Request::MarkPlayed(episode_id),
                AdvanceInput::Bus(BusEvent::Closed) => next == AutoAdvance::Stopped && notice is None
                    && request == Request::Stop,
                _ => listen,
            },
            AutoAdvance::MarkingPlayed { completed } => match input {
                AdvanceInput::MarkedPlayed(ok) => {
                    &&& (next, request) == Self::after_marking(completed, delete_on_finish)
                    &&& notice == if ok {
                        Some(Notice::EpisodeMarkedPlayed(completed))
                    } else {
                        None
                    }
                },
                _ => listen,
            },
            AutoAdvance::CheckingDownload { completed } => match input {
                AdvanceInput::Fetched(Ok(Some(ep))) if ep.download_status
                    == DownloadStatus::Downloaded => next
                    == (AutoAdvance::DeletingDownload { completed }) && notice is None && request
                    == Request::DeleteDownload(ep),
                AdvanceInput::Fetched(_) => next == AutoAdvance::RemovingCompleted && notice is None
                    && request == Request::RemoveFromQueue(completed),
                _ => listen,
            },
            AutoAdvance::DeletingDownload { completed } => match input {
                AdvanceInput::DownloadDeleted => next == AutoAdvance::RemovingCompleted && notice
                    is None && request == Request::RemoveFromQueue(completed),
                _ => listen,
            },
            AutoAdvance::RemovingCompleted => match input {
                // A failed removal is logged; the queue still advances.
                AdvanceInput::Removed(_) => next == AutoAdvance::TakingNext && notice is None
                    && request == Request::TakeNext,
                _ => listen,
            },
            AutoAdvance::TakingNext => match input {
                AdvanceInput::NextInQueue(Ok(Some(episode_id))) => next == (AutoAdvance::LoadingNext {
                    episode_id,
                }) && notice is None && request == Request::FetchEpisode(episode_id),
                AdvanceInput::NextInQueue(Err(e)) => {
                    &&& next == AutoAdvance::Listening
                    &&& notice matches Some(Notice::PlaybackError(m)) && m@ == "Queue error: "@ + e@
                    &&& request == Request::Receive
                },
                _ => listen,
            },
            AutoAdvance::LoadingNext { episode_id } => match input {
                AdvanceInput::Fetched(Ok(Some(ep))) => next == (AutoAdvance::Starting { episode_id })
                    && notice is None && request == Request::Play(ep),
                AdvanceInput::Fetched(Ok(None)) => Self::skips(
                    episode_id,
                    "Episode "@ + uuid_text(episode_id) + " not found in database"@,
                    next,
                    notice,
                    request,
                ),
                AdvanceInput::Fetched(Err(e)) => Self::skips(
                    episode_id,
                    "Database error: "@ + e@,
                    next,
                    notice,
                    request,
                ),
                _ => listen,
            },
            AutoAdvance::Starting { episode_id } => match input {
                AdvanceInput::PlayStarted(Ok(())) => next == AutoAdvance::Listening && notice
                    == Some(Notice::QueueAdvanced(episode_id)) && request == Request::Receive,
                AdvanceInput::PlayStarted(Err(e)) => Self::skips(
                    episode_id,
                    "Failed to play: "@ + e@,
                    next,
                    notice,
                    request,
                ),
                _ => listen,
            },
            AutoAdvance::RemovingFailed { episode_id } => match input {
                // Try the next item only if the failed one really left the
                // queue; otherwise it would come straight back.
                AdvanceInput::Removed(true) => next == AutoAdvance::TakingNext && notice is None
                    && request == Request::TakeNext,
                _ => listen,
            },
        }
    }

    /// Advance the task by one answer.
    pub fn step(self, input: AdvanceInput, delete_on_finish: bool) -> (r: (
        AutoAdvance,
        Option<Notice>,
        Request,
    ))
        ensures
            self.step_spec(input, delete_on_finish, r.0, r.1, r.2),
    {
        match self {
            AutoAdvance::Stopped => (AutoAdvance::Stopped, None, Request::Stop),
            AutoAdvance::Listening => match input {
                AdvanceInput::Bus(BusEvent::Completed { episode_id }) => (
                    AutoAdvance::MarkingPlayed { completed: episode_id },
                    None,
                    Request::MarkPlayed(episode_id),
                ),
                AdvanceInput::Bus(BusEvent::Closed) => (AutoAdvance::Stopped, None, Request::Stop),
                _ => (AutoAdvance::Listening, None, Request::Receive),
            },
            AutoAdvance::MarkingPlayed { completed } => match input {
                AdvanceInput::MarkedPlayed(ok) => {
                    let notice = if ok {
                        Some(Notice::EpisodeMarkedPlayed(completed))
                    } else {
                        None
                    };
                    if delete_on_finish {
                        (
                            AutoAdvance::CheckingDownload { completed },
                            notice,
                            Request::FetchEpisode(completed),
                        )
                    } else {
                        (AutoAdvance::RemovingCompleted, notice, Request::RemoveFromQueue(completed))
                    }
                },
                _ => (AutoAdvance::Listening, None, Request::Receive),
            },
            AutoAdvance::CheckingDownload { completed } => match input {
                AdvanceInput::Fetched(Ok(Some(ep))) => {
                    if ep.is_downloaded() {
                        (AutoAdvance::DeletingDownload { completed }, None, Request::DeleteDownload(ep))
                    } else {
                        (AutoAdvance::RemovingCompleted, None, Request::RemoveFromQueue(completed))
                    }
                },
                AdvanceInput::Fetched(_) => (
                    AutoAdvance::RemovingCompleted,
                    None,
                    Request::RemoveFromQueue(completed),
                ),
                _ => (AutoAdvance::Listening, None, Request::Receive),
            },
            AutoAdvance::DeletingDownload { completed } => match input {
                AdvanceInput::DownloadDeleted => (
                    AutoAdvance::RemovingCompleted,
                    None,
                    Request::RemoveFromQueue(completed),
                ),
                _ => (AutoAdvance::Listening, None, Request::Receive),
            },
            AutoAdvance::RemovingCompleted => match input {
                AdvanceInput::Removed(_) => (AutoAdvance::TakingNext, None, Request::TakeNext),
                _ => (AutoAdvance::Listening, None, Request::Receive),
            },
            AutoAdvance::TakingNext => match input {
                AdvanceInput::NextInQueue(Ok(Some(episode_id))) => (
                    AutoAdvance::LoadingNext { episode_id },
                    None,
                    Request::FetchEpisode(episode_id),
                ),
                AdvanceInput::NextInQueue(Err(e)) => (
                    AutoAdvance::Listening,
                    Some(Notice::PlaybackError(joined("Queue error: ", e.as_str()))),
                    Request::Receive,
                ),
                _ => (AutoAdvance::Listening, None, Request::Receive),
            },
            AutoAdvance::LoadingNext { episode_id } => match input {
                AdvanceInput::Fetched(Ok(Some(ep))) => (
                    AutoAdvance::Starting { episode_id },
                    None,
                    Request::Play(ep),
                ),
                AdvanceInput::Fetched(Ok(None)) => {
                    let mut v = chars_of("Episode ");
                    let id = uuid_string(episode_id);
                    push_str_chars(&mut v, id.as_str());
                    push_str_chars(&mut v, " not found in database");
                    let detail = string_from_chars(&v);
                    Self::skip(episode_id, joined("Auto-play failed: ", detail.as_str()))
                },
                AdvanceInput::Fetched(Err(e)) => {
                    let detail = joined("Database error: ", e.as_str());
                    Self::skip(episode_id, joined("Auto-play failed: ", detail.as_str()))
                },
                _ => (AutoAdvance::Listening, None, Request::Receive),
            },
            AutoAdvance::Starting { episode_id } => match input {
                AdvanceInput::PlayStarted(Ok(())) => (
                    AutoAdvance::Listening,
                    Some(Notice::QueueAdvanced(episode_id)),
                    Request::Receive,
                ),
                AdvanceInput::PlayStarted(Err(e)) => {
                    let detail = joined("Failed to play: ", e.as_str());
                    Self::skip(episode_id, joined("Auto-play failed: ", detail.as_str()))
                },
                _ => (AutoAdvance::Listening, None, Request::Receive),
            },
            AutoAdvance::RemovingFailed { episode_id } => match input {
                AdvanceInput::Removed(true) => (AutoAdvance::TakingNext, None, Request::TakeNext),
                _ => (AutoAdvance::Listening, None, Request::Receive),
            },
        }
    }

    fn skip(episode_id: u128, message: String) -> (r: (AutoAdvance, Option<Notice>, Request))
        ensures
            r.0 == (AutoAdvance::RemovingFailed { episode_id }),
            r.1 == Some(Notice::PlaybackError(message)),
            r.2 == Request::RemoveFromQueue(episode_id),
    {
        (AutoAdvance::RemovingFailed { episode_id }, Some(Notice::PlaybackError(message)), Request::RemoveFromQueue(episode_id))
    }
}

// ---------------------------------------------------------------------------
// Laws.

impl AutoAdvance {
    /// Only a completed episode is ever marked played: the request comes
    /// straight from a completion event, never from a skipped failure.
    pub proof fn lemma_only_completions_marked_played(
        self,
        input: AdvanceInput,
        delete_on_finish: bool,
        next: AutoAdvance,
        notice: Option<Notice>,
        request: Request,
        id: u128,
    )
        requires
            self.step_spec(input, delete_on_finish, next, notice, request),
            request == Request::MarkPlayed(id),
        ensures
            self == AutoAdvance::Listening,
            input matches AdvanceInput::Bus(BusEvent::Completed { episode_id }) && episode_id == id,
    {
    }

    /// Delete-on-finish reclaims only a download that is on disk.
    pub proof fn lemma_deletes_only_downloaded(
        self,
        input: AdvanceInput,
        delete_on_finish: bool,
        next: AutoAdvance,
        notice: Option<Notice>,
        request: Request,
        ep: Episode,
    )
        requires
            self.step_spec(input, delete_on_finish, next, notice, request),
            request == Request::DeleteDownload(ep),
        ensures
            ep.download_status == DownloadStatus::Downloaded,
            self is CheckingDownload,
    {
    }

    /// The task looks for a download to reclaim only with delete-on-finish on.
    pub proof fn lemma_checks_download_only_when_asked(
        self,
        input: AdvanceInput,
        delete_on_finish: bool,
        next: AutoAdvance,
        notice: Option<Notice>,
        request: Request,
    )
        requires
            !(self is CheckingDownload),
            self.step_spec(input, delete_on_finish, next, notice, request),
            next is CheckingDownload,
        ensures
            delete_on_finish,
    {
    }

    /// The queue is announced as advanced to an episode only once its
    /// playback has started.
    pub proof fn lemma_advance_announced_after_start(
        self,
        input: AdvanceInput,
        delete_on_finish: bool,
        next: AutoAdvance,
        notice: Option<Notice>,
        request: Request,
        id: u128,
    )
        requires
            self.step_spec(input, delete_on_finish, next, notice, request),
            notice == Some(Notice::QueueAdvanced(id)),
        ensures
            self == (AutoAdvance::Starting { episode_id: id }),
            input matches AdvanceInput::PlayStarted(Ok(())),
    {
    }

    /// With delete-on-finish on, marking the finished episode played (whether
    /// or not the mark succeeded) is always followed by looking that episode
    /// up to reclaim its download; with it off, the episode goes straight off
    /// the queue. A successful mark is announced, a failed one is not.
    pub proof fn lemma_marking_leads_to_reclaim(
        completed: u128,
        ok: bool,
        delete_on_finish: bool,
        next: AutoAdvance,
        notice: Option<Notice>,
        request: Request,
    )
        requires
            (AutoAdvance::MarkingPlayed { completed }).step_spec(
                AdvanceInput::MarkedPlayed(ok),
                delete_on_finish,
                next,
                notice,
                request,
            ),
        ensures
            delete_on_finish ==> next == (AutoAdvance::CheckingDownload { completed })
                && request == Request::FetchEpisode(completed),
            !delete_on_finish ==> next == AutoAdvance::RemovingCompleted && request
                == Request::RemoveFromQueue(completed),
            ok ==> notice == Some(Notice::EpisodeMarkedPlayed(completed)),
            !ok ==> notice is None,
    {
    }

    /// Once the bus closes the task ends and stays ended.
    pub proof fn lemma_closed_stops(
        self,
        input: AdvanceInput,
        delete_on_finish: bool,
        next: AutoAdvance,
        notice: Option<Notice>,
        request: Request,
    )
        requires
            self == AutoAdvance::Listening && input == AdvanceInput::Bus(BusEvent::Closed)
                || self == AutoAdvance::Stopped,
            self.step_spec(input, delete_on_finish, next, notice, request),
        ensures
            next == AutoAdvance::Stopped,
            request == Request::Stop,
            notice is None,
    {
    }
}

} // verus!
