//! Small value types shared by the feed, queue and UI layers.
use crate::queue::{new_id, utc_now};
use crate::text::owned;
use vstd::prelude::*;

verus! {

/// Compares two string slices by their characters.
pub(crate) fn str_equal(a: &str, b: &str) -> (r: bool)
    ensures
        r == (a@ == b@),
{
    crate::text::owned(a) == crate::text::owned(b)
}

/// How strongly a subscription's episodes are favoured.
#[derive(Debug, Clone, Copy, PartialEq, Eq, Structural)]
pub enum SubscriptionPriority {
    High,
    Medium,
    Low,
}

impl SubscriptionPriority {
    /// The label stored in the database and shown in the UI.
    pub open spec fn label(self) -> Seq<char> {
        match self {
            SubscriptionPriority::High => "High"@,
            SubscriptionPriority::Medium => "Medium"@,
            SubscriptionPriority::Low => "Low"@,
        }
    }

    /// The priority a stored label reads as: `High`, `Low`, anything else
    /// `Medium`.
    pub open spec fn parsed(s: Seq<char>) -> SubscriptionPriority {
        if s == "High"@ {
            SubscriptionPriority::High
        } else if s == "Low"@ {
            SubscriptionPriority::Low
        } else {
            SubscriptionPriority::Medium
        }
    }

    /// Reading back a stored label gives the priority that was stored.
    pub proof fn lemma_label_round_trip(p: SubscriptionPriority)
        ensures
            SubscriptionPriority::parsed(p.label()) == p,
    {
        reveal_strlit("High");
        reveal_strlit("Medium");
        reveal_strlit("Low");
        assert("High"@[0] != "Low"@[0]);
        assert("Medium"@[0] != "Low"@[0]);
        assert("Medium"@[0] != "High"@[0]);
    }

    pub fn as_str(&self) -> (s: &'static str)
        ensures
            s@ == self.label(),
    {
        match self {
            SubscriptionPriority::High => "High",
            SubscriptionPriority::Medium => "Medium",
            SubscriptionPriority::Low => "Low",
        }
    }

    /// Parses a stored label; anything unrecognised reads as `Medium`.
    pub fn parse_label(s: &str) -> (p: SubscriptionPriority)
        ensures
            p == SubscriptionPriority::parsed(s@),
    {
        proof {
            reveal_strlit("High");
            reveal_strlit("Low");
            assert("High"@[0] != "Low"@[0]);
        }
        if str_equal(s, "High") {
            SubscriptionPriority::High
        } else if str_equal(s, "Low") {
            SubscriptionPriority::Low
        } else {
            SubscriptionPriority::Medium
        }
    }
}


/// A point in time as nanoseconds since the Unix epoch, from whole seconds
/// and the nanoseconds within the second.
pub fn timestamp_ns(secs: i64, nanos: u32) -> (t: i128)
    ensures
        t == secs * 1_000_000_000 + nanos,
{
    (secs as i128) * 1_000_000_000 + (nanos as i128)
}

/// A podcast feed the user follows.
#[derive(Debug, Clone)]
pub struct Subscription {
    pub id: u128,
    pub title: String,
    pub description: Option<String>,
    pub author: Option<String>,
    pub rss_url: String,
    pub website_url: Option<String>,
    pub artwork_url: Option<String>,
    pub artwork_path: Option<String>,
    pub categories: Vec<String>,
    /// When true, new episodes from this feed are auto-added to the queue.
    pub auto_queue: bool,
    /// Auto-add direction: true = prepend to the top, false = append to the
    /// bottom. Only meaningful when `auto_queue` is set.
    pub auto_queue_to_top: bool,
    pub priority: SubscriptionPriority,
    pub auto_download: bool,
    /// Nanoseconds since the Unix epoch.
    pub last_refreshed: i128,
    /// Nanoseconds since the Unix epoch.
    pub created_at: i128,
    /// The most recent refresh failure, if the last refresh failed.
    pub last_error: Option<String>,
    pub episode_count: i64,
    pub unplayed_count: i64,
    pub latest_episode_at: Option<i128>,
}

impl Subscription {
    /// A new subscription with a fresh id, created and refreshed now, medium
    /// priority, auto-queue off, and no metadata beyond title and feed URL.
    pub fn new(title: String, rss_url: String) -> (sub: Subscription)
        ensures
            sub.title == title,
            sub.rss_url == rss_url,
            sub.description is None,
            sub.author is None,
            sub.website_url is None,
            sub.artwork_url is None,
            sub.artwork_path is None,
            sub.categories@.len() == 0,
            !sub.auto_queue,
            !sub.auto_queue_to_top,
            sub.priority == SubscriptionPriority::Medium,
            !sub.auto_download,
            sub.last_refreshed == sub.created_at,
            sub.last_error is None,
            sub.episode_count == 0,
            sub.unplayed_count == 0,
            sub.latest_episode_at is None,
    {
        let (secs, nanos) = utc_now();
        let now = timestamp_ns(secs, nanos);
        Subscription {
            id: new_id(),
            title,
            description: None,
            author: None,
            rss_url,
            website_url: None,
            artwork_url: None,
            artwork_path: None,
            categories: Vec::new(),
            auto_queue: false,
            auto_queue_to_top: false,
            priority: SubscriptionPriority::Medium,
            auto_download: false,
            last_refreshed: now,
            created_at: now,
            last_error: None,
            episode_count: 0,
            unplayed_count: 0,
            latest_episode_at: None,
        }
    }
}

/// The next auto-queue setting when cycling a feed with the toggle key:
/// off -> add to bottom -> add to top -> off. Returns the new `auto_queue` and
/// `auto_queue_to_top` flags and the label shown in the status line.
pub fn auto_queue_cycle(auto_queue: bool, to_top: bool) -> (r: (bool, bool, &'static str))
    ensures
        !auto_queue ==> r.0 && !r.1 && r.2@ == "auto-queue: bottom"@,
        auto_queue && !to_top ==> r.0 && r.1 && r.2@ == "auto-queue: top"@,
        auto_queue && to_top ==> !r.0 && !r.1 && r.2@ == "auto-queue: off"@,
{
    if !auto_queue {
        (true, false, "auto-queue: bottom")
    } else if !to_top {
        (true, true, "auto-queue: top")
    } else {
        (false, false, "auto-queue: off")
    }
}

// ---------------------------------------------------------------------------
// Artwork.

/// The terminal graphics protocol used to draw cover art.
#[derive(Debug, Clone, Copy, PartialEq, Eq, Structural)]
pub enum ArtworkProtocol {
    /// The terminal supports no graphics protocol.
    Unsupported,
    Sixel,
    Kitty,
    ITerm2,
}

/// `pat` occurs in `s`.
pub open spec fn contains_seq(s: Seq<char>, pat: Seq<char>) -> bool {
    exists|i: int| 0 <= i && i + pat.len() <= s.len() && #[trigger] s.subrange(i, i + pat.len()) == pat
}

fn contains_str(s: &str, pat: &str) -> (r: bool)
    ensures
        r == contains_seq(s@, pat@),
{
    let v = crate::text::chars_of(s);
    let p = crate::text::chars_of(pat);
    let n = v.len();
    let m = p.len();
    if m > n {
        proof {
            assert forall|i: int| 0 <= i && i + m <= n implies #[trigger] v@.subrange(i, i + m) != p@ by {}
        }
        return false;
    }
    let mut i: usize = 0;
    while i <= n - m
        invariant
            m <= n,
            n == v@.len(),
            m == p@.len(),
            v@ == s@,
            p@ == pat@,
            i <= n - m + 1,
            forall|k: int| 0 <= k < i ==> #[trigger] v@.subrange(k, k + m) != p@,
        decreases n - i,
    {
        let mut j: usize = 0;
        while j < m && v[i + j] == p[j]
            invariant
                i + m <= n,
                n == v@.len(),
                m == p@.len(),
                j <= m,
                forall|q: int| 0 <= q < j ==> v@[i + q] == p@[q],
            decreases m - j,
        {
            j = j + 1;
        }
        if j == m {
            assert(v@.subrange(i as int, i + m) == p@);
            return true;
        }
        assert(v@.subrange(i as int, i + m)[j as int] != p@[j as int]);
        i = i + 1;
    }
    false
}

/// The protocol a terminal supports, judged from its environment: iTerm2 by
/// `TERM_PROGRAM`, Kitty when `TERM` mentions kitty, Sixel for xterm-like
/// `TERM`s, Kitty under WezTerm (when `WEZTERM_EXECUTABLE` is set).
pub fn protocol_for_terminal(term_program: Option<&str>, term: Option<&str>, wezterm: bool) -> (p: ArtworkProtocol)
    ensures
        p == if term_program matches Some(tp) && tp@ == "iTerm.app"@ {
            ArtworkProtocol::ITerm2
        } else if term matches Some(t) && contains_seq(t@, "kitty"@) {
            ArtworkProtocol::Kitty
        } else if term matches Some(t) && contains_seq(t@, "xterm"@) {
            ArtworkProtocol::Sixel
        } else if wezterm {
            ArtworkProtocol::Kitty
        } else {
            ArtworkProtocol::Unsupported
        },
{
    if let Some(tp) = term_program {
        if str_equal(tp, "iTerm.app") {
            return ArtworkProtocol::ITerm2;
        }
    }
    if let Some(t) = term {
        if contains_str(t, "kitty") {
            return ArtworkProtocol::Kitty;
        }
        if contains_str(t, "xterm") {
            return ArtworkProtocol::Sixel;
        }
    }
    if wezterm {
        return ArtworkProtocol::Kitty;
    }
    ArtworkProtocol::Unsupported
}

/// Draws cover art with the terminal's graphics protocol.
#[derive(Debug, Clone, Copy, PartialEq, Eq, Structural)]
pub struct ArtworkRenderer {
    pub protocol: ArtworkProtocol,
}

impl ArtworkRenderer {
    pub fn new(protocol: ArtworkProtocol) -> (r: ArtworkRenderer)
        ensures
            r.protocol == protocol,
    {
        ArtworkRenderer { protocol }
    }

    pub fn supports_artwork(&self) -> (r: bool)
        ensures
            r == (self.protocol != ArtworkProtocol::Unsupported),
    {
        self.protocol != ArtworkProtocol::Unsupported
    }
}


// ---------------------------------------------------------------------------
// Episodes.

#[derive(Debug, Clone, Copy, PartialEq, Eq, Structural)]
pub enum DownloadStatus {
    NotDownloaded,
    Downloading,
    Downloaded,
    Failed,
}

impl DownloadStatus {
    /// The one-character download icon of an episode row.
    pub open spec fn icon_text(self) -> Seq<char> {
        match self {
            DownloadStatus::Downloaded => "v"@,
            DownloadStatus::Downloading => "|"@,
            DownloadStatus::Failed => "!"@,
            DownloadStatus::NotDownloaded => " "@,
        }
    }

    pub fn icon(&self) -> (s: &'static str)
        ensures
            s@ == self.icon_text(),
    {
        match self {
            DownloadStatus::Downloaded => "v",
            DownloadStatus::Downloading => "|",
            DownloadStatus::Failed => "!",
            DownloadStatus::NotDownloaded => " ",
        }
    }
}

/// One episode of a subscription.
#[derive(Debug, Clone)]
pub struct Episode {
    pub id: u128,
    pub subscription_id: u128,
    pub title: String,
    pub description: Option<String>,
    pub url: String,
    pub guid: String,
    /// Nanoseconds since the Unix epoch.
    pub published_at: i128,
    pub duration_seconds: Option<i64>,
    pub file_size_bytes: Option<i64>,
    pub file_type: Option<String>,
    pub download_status: DownloadStatus,
    pub local_path: Option<String>,
    pub playback_position_seconds: i64,
    pub played: bool,
    /// Nanoseconds since the Unix epoch.
    pub last_played_at: Option<i128>,
    /// Nanoseconds since the Unix epoch.
    pub created_at: i128,
}

impl Episode {
    /// A new, unplayed, not-downloaded episode with a fresh id, created now,
    /// and no description, duration, size or file type yet.
    pub fn new(subscription_id: u128, title: String, url: String, guid: String, published_at: i128) -> (ep: Episode)
        ensures
            ep.subscription_id == subscription_id,
            ep.title == title,
            ep.url == url,
            ep.guid == guid,
            ep.published_at == published_at,
            ep.description is None,
            ep.duration_seconds is None,
            ep.file_size_bytes is None,
            ep.file_type is None,
            ep.download_status == DownloadStatus::NotDownloaded,
            ep.local_path is None,
            ep.playback_position_seconds == 0,
            !ep.played,
            ep.last_played_at is None,
    {
        let (secs, nanos) = utc_now();
        Episode {
            id: new_id(),
            subscription_id,
            title,
            description: None,
            url,
            guid,
            published_at,
            duration_seconds: None,
            file_size_bytes: None,
            file_type: None,
            download_status: DownloadStatus::NotDownloaded,
            local_path: None,
            playback_position_seconds: 0,
            played: false,
            last_played_at: None,
            created_at: timestamp_ns(secs, nanos),
        }
    }

    /// Whether the episode's audio is fully on disk.
    pub fn is_downloaded(&self) -> (r: bool)
        ensures
            r == (self.download_status == DownloadStatus::Downloaded),
    {
        self.download_status == DownloadStatus::Downloaded
    }
}

} // verus!
