//! Playback decisions: what play/pause does in each situation, where an
//! episode's audio comes from, how skipping picks the next episode, and when
//! the resume position is checkpointed. Volume and speed (floating point) and
//! the audio device are the front end's.
use crate::models::{DownloadStatus, Episode};
use crate::opml::clone_opt;
use crate::search::opt_view;
use crate::text::owned;
use vstd::prelude::*;

verus! {

/// What the play/pause key does.
#[derive(Debug, Clone, Copy, PartialEq, Eq, Structural)]
pub enum ToggleAction {
    /// Pause, and checkpoint the position so a pause survives a quit.
    PauseAndSave,
    /// A stream dropped and automatic reconnects gave up: re-open the current
    /// episode from the live position.
    Reopen,
    /// An episode is loaded and paused: resume it.
    Resume,
    /// Nothing is loaded (a restored last-session episode): load the current
    /// episode from its saved position.
    Load,
    Nothing,
}

/// The play/pause decision, in order: pause while playing; after a dropped
/// stream, re-open; resume what the player holds; else load the current
/// episode.
pub fn toggle_action(is_playing: bool, stream_interrupted: bool, player_loaded: bool, has_current: bool) -> (a: ToggleAction)
    ensures
        a == if is_playing {
            ToggleAction::PauseAndSave
        } else if stream_interrupted {
            if has_current {
                ToggleAction::Reopen
            } else {
                ToggleAction::Nothing
            }
        } else if player_loaded {
            ToggleAction::Resume
        } else if has_current {
            ToggleAction::Load
        } else {
            ToggleAction::Nothing
        },
{
    if is_playing {
        ToggleAction::PauseAndSave
    } else if stream_interrupted {
        if has_current {
            ToggleAction::Reopen
        } else {
            ToggleAction::Nothing
        }
    } else if player_loaded {
        ToggleAction::Resume
    } else if has_current {
        ToggleAction::Load
    } else {
        ToggleAction::Nothing
    }
}

/// Where an episode's audio is played from.
#[derive(Debug, Clone, PartialEq, Eq)]
pub enum PlaySource {
    /// The downloaded file at this path.
    File(String),
    /// Streamed to disk from this URL.
    Stream(String),
}

/// A downloaded episode plays straight from its file; any other streams
/// from its URL. A downloaded episode without a path is an error.
pub fn play_source(episode: &Episode) -> (r: Result<PlaySource, String>)
    ensures
        episode.download_status == DownloadStatus::Downloaded ==> match r {
            Ok(PlaySource::File(p)) => opt_view(episode.local_path) == Some(p@),
            Err(m) => episode.local_path is None && m@ == "Downloaded episode missing local_path"@,
            _ => false,
        },
        episode.download_status != DownloadStatus::Downloaded ==> (r matches Ok(PlaySource::Stream(
            u,
        )) && u@ == episode.url@),
{
    if episode.is_downloaded() {
        match clone_opt(&episode.local_path) {
            Some(p) => Ok(PlaySource::File(p)),
            None => Err(owned("Downloaded episode missing local_path")),
        }
    } else {
        Ok(PlaySource::Stream(owned(episode.url.as_str())))
    }
}

/// How a skip finds the next episode.
#[derive(Debug, Clone, Copy, PartialEq, Eq, Structural)]
pub enum SkipPlan {
    /// Advance the queue past the current episode, marking it played (as a
    /// natural completion would, so it is not re-queued).
    AdvancePast(u128),
    /// Nothing is playing: take the queue head without marking anything.
    TakeHead,
}

pub fn skip_plan(current: Option<u128>) -> (p: SkipPlan)
    ensures
        p == match current {
            Some(id) => SkipPlan::AdvancePast(id),
            None => SkipPlan::TakeHead,
        },
{
    match current {
        Some(id) => SkipPlan::AdvancePast(id),
        None => SkipPlan::TakeHead,
    }
}

/// Whether the position tick should checkpoint the resume position: on the
/// first tick, then at most once per `interval_secs` (at least one second).
/// Times are milliseconds on a monotonic clock.
pub open spec fn checkpoint_due_spec(last_ms: Option<u64>, now_ms: u64, interval_secs: u64) -> bool {
    match last_ms {
        None => true,
        Some(last) => now_ms >= last && now_ms - last >= (if interval_secs > 0 {
            interval_secs as int
        } else {
            1
        }) * 1000,
    }
}

pub fn checkpoint_due(last_ms: Option<u64>, now_ms: u64, interval_secs: u64) -> (r: bool)
    ensures
        r == checkpoint_due_spec(last_ms, now_ms, interval_secs),
{
    match last_ms {
        None => true,
        Some(last) => {
            if now_ms < last {
                false
            } else {
                let secs: u128 = if interval_secs > 0 { interval_secs as u128 } else { 1 };
                ((now_ms - last) as u128) >= secs * 1000
            }
        },
    }
}

} // verus!
