//! Error values and their classification (retryable, permanent, category).
//!
//! Causes from lower layers (HTTP client, database, I/O) are carried as their
//! messages; classification depends only on the variant and, for HTTP errors,
//! the status code.
use vstd::prelude::*;

verus! {

/// Main error type for the application.
#[derive(Debug, Clone, PartialEq, Eq)]
pub enum PodcastError {
    // Audio errors
    AudioPlayback(String),
    AudioDecoding(String),
    AudioOutput(String),
    // Streaming errors
    StreamingFailed { url: String, source: String },
    HttpError { status: u16, url: String },
    StreamInterrupted { bytes_received: u64 },
    // Database errors
    Database(String),
    Migration(String),
    NotFound { entity_type: String, id: String },
    Duplicate { entity_type: String },
    // Feed errors
    FeedParse { url: String, source: String },
    FeedFetch { url: String, source: String },
    InvalidFeedUrl(String),
    // File errors
    FileRead { path: String, source: String },
    FileWrite { path: String, source: String },
    FileNotFound(String),
    // Download errors
    DownloadFailed { episode_id: String, reason: String },
    InsufficientSpace { needed: u64, available: u64 },
    // Configuration errors
    InvalidConfig(String),
    ConfigLoad { path: String, source: String },
    // Serialization errors
    Serialization(String),
    Deserialization(String),
    // Channel errors
    ChannelSend(String),
    ChannelReceive(String),
    // General errors
    Timeout { seconds: u64 },
    InvalidInput(String),
    Cancelled,
    Internal(String),
    Other(String),
}

impl PodcastError {
    /// Transient network or server trouble, worth retrying.
    pub open spec fn retryable(&self) -> bool {
        match self {
            PodcastError::StreamingFailed { .. } => true,
            PodcastError::HttpError { status, .. } => *status >= 500,
            PodcastError::FeedFetch { .. } => true,
            PodcastError::StreamInterrupted { .. } => true,
            PodcastError::Timeout { .. } => true,
            _ => false,
        }
    }

    /// Failures a retry cannot fix.
    pub open spec fn permanent(&self) -> bool {
        match self {
            PodcastError::NotFound { .. } => true,
            PodcastError::InvalidFeedUrl(_) => true,
            PodcastError::FileNotFound(_) => true,
            PodcastError::InvalidInput(_) => true,
            PodcastError::HttpError { status, .. } => *status == 404 || *status == 410,
            _ => false,
        }
    }

    pub open spec fn category_name(&self) -> Seq<char> {
        match self {
            PodcastError::AudioPlayback(_)
            | PodcastError::AudioDecoding(_)
            | PodcastError::AudioOutput(_) => "audio"@,
            PodcastError::StreamingFailed { .. }
            | PodcastError::HttpError { .. }
            | PodcastError::StreamInterrupted { .. } => "network"@,
            PodcastError::Database(_)
            | PodcastError::Migration(_)
            | PodcastError::NotFound { .. }
            | PodcastError::Duplicate { .. } => "database"@,
            PodcastError::FeedParse { .. }
            | PodcastError::FeedFetch { .. }
            | PodcastError::InvalidFeedUrl(_) => "feed"@,
            PodcastError::FileRead { .. }
            | PodcastError::FileWrite { .. }
            | PodcastError::FileNotFound(_) => "filesystem"@,
            PodcastError::DownloadFailed { .. } | PodcastError::InsufficientSpace { .. } => "download"@,
            PodcastError::InvalidConfig(_) | PodcastError::ConfigLoad { .. } => "config"@,
            PodcastError::Serialization(_) | PodcastError::Deserialization(_) => "serialization"@,
            PodcastError::ChannelSend(_) | PodcastError::ChannelReceive(_) => "channel"@,
            PodcastError::Timeout { .. }
            | PodcastError::InvalidInput(_)
            | PodcastError::Cancelled
            | PodcastError::Internal(_)
            | PodcastError::Other(_) => "general"@,
        }
    }

    /// Check if error is retryable (transient network/server issues).
    pub fn is_retryable(&self) -> (r: bool)
        ensures
            r == self.retryable(),
    {
        match self {
            PodcastError::StreamingFailed { .. } => true,
            PodcastError::HttpError { status, .. } => *status >= 500,
            PodcastError::FeedFetch { .. } => true,
            PodcastError::StreamInterrupted { .. } => true,
            PodcastError::Timeout { .. } => true,
            _ => false,
        }
    }

    /// Check if error is permanent (won't succeed on retry).
    pub fn is_permanent(&self) -> (r: bool)
        ensures
            r == self.permanent(),
    {
        match self {
            PodcastError::NotFound { .. } => true,
            PodcastError::InvalidFeedUrl(_) => true,
            PodcastError::FileNotFound(_) => true,
            PodcastError::InvalidInput(_) => true,
            PodcastError::HttpError { status, .. } => *status == 404 || *status == 410,
            _ => false,
        }
    }

    /// Error category for logging and metrics.
    pub fn category(&self) -> (c: &'static str)
        ensures
            c@ == self.category_name(),
    {
        match self {
            PodcastError::AudioPlayback(_)
            | PodcastError::AudioDecoding(_)
            | PodcastError::AudioOutput(_) => "audio",
            PodcastError::StreamingFailed { .. }
            | PodcastError::HttpError { .. }
            | PodcastError::StreamInterrupted { .. } => "network",
            PodcastError::Database(_)
            | PodcastError::Migration(_)
            | PodcastError::NotFound { .. }
            | PodcastError::Duplicate { .. } => "database",
            PodcastError::FeedParse { .. }
            | PodcastError::FeedFetch { .. }
            | PodcastError::InvalidFeedUrl(_) => "feed",
            PodcastError::FileRead { .. }
            | PodcastError::FileWrite { .. }
            | PodcastError::FileNotFound(_) => "filesystem",
            PodcastError::DownloadFailed { .. } | PodcastError::InsufficientSpace { .. } => "download",
            PodcastError::InvalidConfig(_) | PodcastError::ConfigLoad { .. } => "config",
            PodcastError::Serialization(_) | PodcastError::Deserialization(_) => "serialization",
            PodcastError::ChannelSend(_) | PodcastError::ChannelReceive(_) => "channel",
            PodcastError::Timeout { .. }
            | PodcastError::InvalidInput(_)
            | PodcastError::Cancelled
            | PodcastError::Internal(_)
            | PodcastError::Other(_) => "general",
        }
    }
}

} // verus!
