//! The player's numeric and on/off settings, and their defaults, used for
//! any key a config file omits. Storage paths and the playback rate are the
//! front end's concern.
use vstd::prelude::*;

verus! {

/// Seconds between resume-position checkpoints while playing.
pub fn default_save_position_interval() -> (r: u64)
    ensures
        r == 10,
{
    10
}

/// Downloaded episodes kept on disk (0 = unlimited).
pub fn default_max_cache_episodes() -> (r: usize)
    ensures
        r == 50,
{
    50
}

/// Megabytes of downloaded audio kept on disk (0 = unlimited).
pub fn default_max_cache_megabytes() -> (r: u64)
    ensures
        r == 4096,
{
    4096
}

/// How many episodes auto-queue keeps queued.
pub fn default_queue_max_depth() -> (r: usize)
    ensures
        r == 20,
{
    20
}

/// Minutes between automatic feed refreshes (0 disables them).
pub fn default_auto_refresh() -> (r: u64)
    ensures
        r == 60,
{
    60
}

/// Feeds refreshed at once.
pub fn default_concurrent_refreshes() -> (r: usize)
    ensures
        r == 5,
{
    5
}

/// Episodes downloaded at once.
pub fn default_concurrent_downloads() -> (r: usize)
    ensures
        r == 3,
{
    3
}

/// Default for the settings that are on unless turned off
/// (`delete_on_finish`, `smart_interleave`).
pub fn default_true() -> (r: bool)
    ensures
        r,
{
    true
}

/// The numeric and on/off settings of the player.
#[derive(Debug, Clone, Copy, PartialEq, Eq, Structural)]
pub struct Settings {
    /// Reclaim an episode's download once it has been played to the end.
    pub delete_on_finish: bool,
    /// Downloaded episodes kept on disk (0 = unlimited).
    pub max_cache_episodes: usize,
    /// Megabytes of downloaded audio kept on disk (0 = unlimited).
    pub max_cache_megabytes: u64,
    /// How many episodes auto-queue keeps queued.
    pub queue_max_depth: usize,
    /// Default auto-add direction for feeds that do not override it: true = top.
    pub auto_queue_to_top_default: bool,
    /// Avoid two adjacent episodes of the same podcast when auto-filling.
    pub smart_interleave: bool,
    pub save_position_interval_seconds: u64,
    /// Minutes between automatic refreshes (0 = manual only).
    pub auto_refresh_interval_minutes: u64,
    pub max_concurrent_refreshes: usize,
    pub max_concurrent_downloads: usize,
}

impl Default for Settings {
    /// Every setting at its default.
    fn default() -> (s: Settings)
        ensures
            s == (Settings {
                delete_on_finish: true,
                max_cache_episodes: 50,
                max_cache_megabytes: 4096,
                queue_max_depth: 20,
                auto_queue_to_top_default: false,
                smart_interleave: true,
                save_position_interval_seconds: 10,
                auto_refresh_interval_minutes: 60,
                max_concurrent_refreshes: 5,
                max_concurrent_downloads: 3,
            }),
    {
        Settings {
            delete_on_finish: default_true(),
            max_cache_episodes: default_max_cache_episodes(),
            max_cache_megabytes: default_max_cache_megabytes(),
            queue_max_depth: default_queue_max_depth(),
            auto_queue_to_top_default: false,
            smart_interleave: default_true(),
            save_position_interval_seconds: default_save_position_interval(),
            auto_refresh_interval_minutes: default_auto_refresh(),
            max_concurrent_refreshes: default_concurrent_refreshes(),
            max_concurrent_downloads: default_concurrent_downloads(),
        }
    }
}

} // verus!
