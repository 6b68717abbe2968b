//! Cache retention: the size caps that keep on-disk audio from growing without
//! bound, and the eviction decisions of one sweep.
//!
//! A sweep walks the downloaded episodes least-recently-played first, evicting
//! until both caps hold. The currently-playing episode is never evicted. A cap
//! of 0 means unlimited. Deleting files is the caller's job; it reports each
//! successful eviction back so the running totals stay true.
use vstd::prelude::*;

verus! {

pub const BYTES_PER_MB: u64 = 1024 * 1024;

/// The two caps, as configured.
#[derive(Debug, Clone, Copy, PartialEq, Eq, Structural)]
pub struct RetentionCaps {
    /// Max number of downloaded episodes to keep; 0 = unlimited.
    pub max_episodes: usize,
    /// Max total bytes of downloaded audio to keep; 0 = unlimited.
    pub max_bytes: u64,
}

/// Running totals of one sweep.
#[derive(Debug, Clone, Copy, PartialEq, Eq, Structural)]
pub struct Sweep {
    pub count: usize,
    pub total_bytes: u64,
    pub evicted: usize,
}

/// What to do with the next eviction candidate.
#[derive(Debug, Clone, Copy, PartialEq, Eq, Structural)]
pub enum SweepAction {
    /// Both caps hold: stop the sweep.
    Finish,
    /// It is the episode being played: leave it and look at the next one.
    KeepPlaying,
    /// Delete its download.
    Evict,
}

impl RetentionCaps {
    pub open spec fn over_count(self, count: int) -> bool {
        self.max_episodes > 0 && count > self.max_episodes
    }

    pub open spec fn over_bytes(self, total: int) -> bool {
        self.max_bytes > 0 && total > self.max_bytes
    }

    /// Caps from the configured episode count and megabytes; megabytes beyond
    /// what `u64` bytes can hold saturate.
    pub fn new(max_cache_episodes: usize, max_cache_megabytes: u64) -> (caps: RetentionCaps)
        ensures
            caps.max_episodes == max_cache_episodes,
            caps.max_bytes == if max_cache_megabytes * BYTES_PER_MB <= u64::MAX {
                max_cache_megabytes * BYTES_PER_MB
            } else {
                u64::MAX as int
            },
    {
        let max_bytes = if max_cache_megabytes <= u64::MAX / BYTES_PER_MB {
            max_cache_megabytes * BYTES_PER_MB
        } else {
            u64::MAX
        };
        proof {
            if max_cache_megabytes > u64::MAX / BYTES_PER_MB {
                assert(max_cache_megabytes * BYTES_PER_MB > u64::MAX) by (nonlinear_arith)
                    requires
                        max_cache_megabytes > u64::MAX / BYTES_PER_MB,
                        BYTES_PER_MB == 1048576,
                ;
            }
        }
        RetentionCaps { max_episodes: max_cache_episodes, max_bytes }
    }

    /// Both caps unlimited: there is nothing to enforce.
    pub fn is_unlimited(&self) -> (r: bool)
        ensures
            r == (self.max_episodes == 0 && self.max_bytes == 0),
    {
        self.max_episodes == 0 && self.max_bytes == 0
    }

    /// Whether the cache exceeds either cap.
    pub fn over_caps(&self, count: usize, total_bytes: u64) -> (r: bool)
        ensures
            r == (self.over_count(count as int) || self.over_bytes(total_bytes as int)),
    {
        (self.max_episodes > 0 && count > self.max_episodes) || (self.max_bytes > 0
            && total_bytes > self.max_bytes)
    }

    /// The decision for the next candidate (in eviction order).
    pub fn decide(&self, sweep: &Sweep, candidate: u128, playing: Option<u128>) -> (a: SweepAction)
        ensures
            a == if !(self.over_count(sweep.count as int) || self.over_bytes(
                sweep.total_bytes as int,
            )) {
                SweepAction::Finish
            } else if playing == Some(candidate) {
                SweepAction::KeepPlaying
            } else {
                SweepAction::Evict
            },
    {
        if !self.over_caps(sweep.count, sweep.total_bytes) {
            SweepAction::Finish
        } else if playing == Some(candidate) {
            SweepAction::KeepPlaying
        } else {
            SweepAction::Evict
        }
    }
}

impl Sweep {
    /// An empty tally.
    pub fn new() -> (s: Sweep)
        ensures
            s == (Sweep { count: 0, total_bytes: 0, evicted: 0 }),
    {
        Sweep { count: 0, total_bytes: 0, evicted: 0 }
    }

    /// Count a download whose file was found on disk with `size` bytes.
    pub fn record_file(&mut self, size: u64)
        requires
            old(self).total_bytes + size <= u64::MAX,
            old(self).count < usize::MAX,
        ensures
            *final(self) == (Sweep {
                count: (old(self).count + 1) as usize,
                total_bytes: (old(self).total_bytes + size) as u64,
                ..*old(self)
            }),
    {
        self.total_bytes = self.total_bytes + size;
        self.count = self.count + 1;
    }

    /// Account for a download of `size` bytes that was deleted.
    pub fn record_eviction(&mut self, size: u64)
        requires
            old(self).evicted < usize::MAX,
        ensures
            final(self).total_bytes == if old(self).total_bytes >= size {
                old(self).total_bytes - size
            } else {
                0
            },
            final(self).count == if old(self).count >= 1 {
                old(self).count - 1
            } else {
                0
            },
            final(self).evicted == old(self).evicted + 1,
    {
        self.total_bytes = if self.total_bytes >= size { self.total_bytes - size } else { 0 };
        self.count = if self.count >= 1 { self.count - 1 } else { 0 };
        self.evicted = self.evicted + 1;
    }
}


/// A sweep never evicts the episode being played, does nothing when both caps
/// are unlimited, and stops as soon as the cache is within both caps.
pub proof fn lemma_sweep_promises(caps: RetentionCaps, sweep: Sweep, candidate: u128, playing: Option<u128>, a: SweepAction)
    requires
        a == if !(caps.over_count(sweep.count as int) || caps.over_bytes(sweep.total_bytes as int)) {
            SweepAction::Finish
        } else if playing == Some(candidate) {
            SweepAction::KeepPlaying
        } else {
            SweepAction::Evict
        },
    ensures
        a == SweepAction::Evict ==> playing != Some(candidate),
        caps.max_episodes == 0 && caps.max_bytes == 0 ==> a == SweepAction::Finish,
        a == SweepAction::Evict ==> sweep.count > caps.max_episodes > 0 || sweep.total_bytes > caps.max_bytes > 0,
{
}

} // verus!
