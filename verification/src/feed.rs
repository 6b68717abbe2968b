//! Feed ingestion: turning the items of a decoded RSS channel or Atom feed
//! into episodes and subscriptions (text cleaned, missing fields filled),
//! episode durations, and the auto-queue policy applied when a refresh finds
//! new episodes, and the per-episode decisions of a refresh. The XML itself
//! is decoded by the `rss` and `atom_syndication` crates.
use crate::models::{timestamp_ns, DownloadStatus, Episode, Subscription};
use crate::queue::utc_now;
use crate::search::{opt_view, strings_view};
use crate::events::StateEvent;
use crate::text::{
    chars_of, clean_feed_text, owned, decoded, digits_value, push_str_chars, string_from_chars,
    without_joiners,
};
use vstd::prelude::*;

verus! {

/// Global auto-queue policy applied when a refresh finds new episodes.
#[derive(Debug, Clone, Copy, PartialEq, Eq, Structural)]
pub struct AutoQueuePolicy {
    /// Skip auto-adding once the queue holds this many items; 0 = unlimited.
    pub max_depth: usize,
    /// Avoid placing two episodes of the same podcast next to each other.
    pub interleave: bool,
}

/// The pieces of `s` between `:` separators (one piece when there is none).
pub open spec fn colon_pieces(s: Seq<char>) -> Seq<Seq<char>>
    decreases s.len(),
{
    if s.len() == 0 {
        seq![Seq::empty()]
    } else {
        let parts = colon_pieces(s.drop_last());
        if s.last() == ':' {
            parts.push(Seq::empty())
        } else {
            parts.update(parts.len() - 1, parts.last().push(s.last()))
        }
    }
}

proof fn lemma_colon_pieces_nonempty(s: Seq<char>)
    ensures
        colon_pieces(s).len() >= 1,
    decreases s.len(),
{
    if s.len() > 0 {
        lemma_colon_pieces_nonempty(s.drop_last());
    }
}

/// A signed 64-bit decimal number: an optional `+` or `-`, at least one
/// digit, only digits, and a value in range.
pub open spec fn parse_i64(s: Seq<char>) -> Option<int> {
    let neg = s.len() > 0 && s[0] == '-';
    let digits = if s.len() > 0 && (s[0] == '+' || s[0] == '-') {
        s.drop_first()
    } else {
        s
    };
    if digits.len() == 0 {
        None
    } else {
        match digits_value(digits, 10) {
            Some(v) => {
                let x = if neg {
                    -v
                } else {
                    v as int
                };
                if i64::MIN <= x && x <= i64::MAX {
                    Some(x)
                } else {
                    None
                }
            },
            None => None,
        }
    }
}

pub open spec fn in_i64(x: int) -> bool {
    i64::MIN <= x && x <= i64::MAX
}

/// The seconds written by a duration: `SECONDS`, `MM:SS` or `HH:MM:SS`.
pub open spec fn duration_value(s: Seq<char>) -> Option<int> {
    let parts = colon_pieces(s);
    if parts.len() == 1 {
        parse_i64(parts[0])
    } else if parts.len() == 2 {
        match (parse_i64(parts[0]), parse_i64(parts[1])) {
            (Some(m), Some(sec)) => Some(m * 60 + sec),
            _ => None,
        }
    } else if parts.len() == 3 {
        match (parse_i64(parts[0]), parse_i64(parts[1]), parse_i64(parts[2])) {
            (Some(h), Some(m), Some(sec)) => Some(h * 3600 + m * 60 + sec),
            _ => None,
        }
    } else {
        None
    }
}

/// The duration a text gives an episode: its value in seconds, or none when
/// the text is no duration or its value overflows 64-bit arithmetic.
pub open spec fn duration_seconds_of(s: Seq<char>) -> Option<i64> {
    if duration_overflows(s) {
        None
    } else {
        match duration_value(s) {
            Some(v) => Some(v as i64),
            None => None,
        }
    }
}

/// Evaluating the duration in 64-bit arithmetic would overflow at some step.
pub open spec fn duration_overflows(s: Seq<char>) -> bool {
    let parts = colon_pieces(s);
    if parts.len() == 2 {
        match (parse_i64(parts[0]), parse_i64(parts[1])) {
            (Some(m), Some(sec)) => !in_i64(m * 60) || !in_i64(m * 60 + sec),
            _ => false,
        }
    } else if parts.len() == 3 {
        match (parse_i64(parts[0]), parse_i64(parts[1]), parse_i64(parts[2])) {
            (Some(h), Some(m), Some(sec)) => !in_i64(h * 3600) || !in_i64(m * 60) || !in_i64(
                h * 3600 + m * 60,
            ) || !in_i64(h * 3600 + m * 60 + sec),
            _ => false,
        }
    } else {
        false
    }
}

/// Parses `v` as a signed 64-bit decimal number.
fn parse_i64_exec(v: &Vec<char>) -> (r: Option<i64>)
    ensures
        match r {
            Some(x) => parse_i64(v@) == Some(x as int),
            None => parse_i64(v@) is None,
        },
{
    let n = v.len();
    let neg = n > 0 && v[0] == '-';
    let start: usize = if n > 0 && (v[0] == '+' || v[0] == '-') { 1 } else { 0 };
    let ghost digits = v@.subrange(start as int, n as int);
    assert(start == 1 ==> digits == v@.drop_first());
    assert(start == 0 ==> digits == v@);
    if start == n {
        return None;
    }
    let cap: u128 = 0x1_0000_0000_0000_0000;
    let mut acc: u128 = 0;
    let mut ok = true;
    let mut i = start;
    while i < n
        invariant
            start <= i <= n == v@.len(),
            digits == v@.subrange(start as int, n as int),
            cap == 0x1_0000_0000_0000_0000,
            ok <==> digits_value(digits.take(i - start), 10) is Some,
            ok ==> acc as int == if digits_value(digits.take(i - start), 10)->0 < cap {
                digits_value(digits.take(i - start), 10)->0 as int
            } else {
                cap as int
            },
            acc <= cap,
        decreases n - i,
    {
        let c = v[i];
        proof {
            assert(digits.take(i + 1 - start).drop_last() == digits.take(i - start));
            assert(digits.take(i + 1 - start).last() == c);
        }
        if '0' <= c && c <= '9' {
            if ok {
                let ghost p = digits_value(digits.take(i - start), 10)->0;
                let d = (c as u32 - '0' as u32) as u128;
                let next = acc * 10 + d;
                proof {
                    if p >= cap {
                        assert(p * 10 + d >= cap) by (nonlinear_arith)
                            requires p >= cap;
                    }
                }
                acc = if next < cap { next } else { cap };
            }
        } else {
            ok = false;
        }
        i = i + 1;
    }
    assert(digits.take(n - start) == digits);
    if !ok {
        return None;
    }
    if neg {
        if acc <= 0x8000_0000_0000_0000 {
            if acc == 0x8000_0000_0000_0000 {
                Some(i64::MIN)
            } else {
                Some(-(acc as i64))
            }
        } else {
            None
        }
    } else {
        if acc <= 0x7fff_ffff_ffff_ffff {
            Some(acc as i64)
        } else {
            None
        }
    }
}

/// Splits `v` on `:`.
fn colon_pieces_exec(v: &Vec<char>) -> (parts: Vec<Vec<char>>)
    ensures
        parts@.map_values(|p: Vec<char>| p@) == colon_pieces(v@),
{
    let mut parts: Vec<Vec<char>> = Vec::new();
    parts.push(Vec::new());
    let mut i: usize = 0;
    assert(v@.take(0).len() == 0);
    assert(parts@.map_values(|p: Vec<char>| p@) == colon_pieces(v@.take(0)));
    while i < v.len()
        invariant
            0 <= i <= v@.len(),
            parts@.len() >= 1,
            parts@.map_values(|p: Vec<char>| p@) == colon_pieces(v@.take(i as int)),
        decreases v@.len() - i,
    {
        let c = v[i];
        let ghost before = parts@.map_values(|p: Vec<char>| p@);
        assert(v@.take(i + 1).drop_last() == v@.take(i as int));
        assert(v@.take(i + 1).last() == c);
        if c == ':' {
            parts.push(Vec::new());
            assert(parts@.map_values(|p: Vec<char>| p@) == before.push(Seq::empty()));
        } else {
            let last = parts.len() - 1;
            let mut piece = parts.remove(last);
            piece.push(c);
            parts.push(piece);
            assert(parts@.map_values(|p: Vec<char>| p@) == before.update(
                before.len() - 1,
                before.last().push(c),
            ));
        }
        i = i + 1;
    }
    assert(v@.take(v@.len() as int) == v@);
    parts
}

/// Parses and reads duration text (`SECONDS`, `MM:SS`, `HH:MM:SS`).
pub struct FeedParser;

impl FeedParser {
    /// Whether evaluating `duration_str` would overflow 64-bit arithmetic
    /// (only absurdly large values do).
    pub fn duration_overflows(duration_str: &str) -> (r: bool)
        ensures
            r == duration_overflows(duration_str@),
    {
        let v = chars_of(duration_str);
        let parts = colon_pieces_exec(&v);
        let ghost ps = parts@.map_values(|p: Vec<char>| p@);
        if parts.len() == 2 {
            assert(ps[0] == parts@[0]@ && ps[1] == parts@[1]@);
            match (parse_i64_exec(&parts[0]), parse_i64_exec(&parts[1])) {
                (Some(m), Some(s)) => {
                    let m = m as i128;
                    let s = s as i128;
                    let a = m * 60;
                    a < i64::MIN as i128 || a > i64::MAX as i128 || a + s < i64::MIN as i128 || a
                        + s > i64::MAX as i128
                },
                _ => false,
            }
        } else if parts.len() == 3 {
            assert(ps[0] == parts@[0]@ && ps[1] == parts@[1]@ && ps[2] == parts@[2]@);
            match (parse_i64_exec(&parts[0]), parse_i64_exec(&parts[1]), parse_i64_exec(&parts[2])) {
                (Some(h), Some(m), Some(s)) => {
                    let h = h as i128;
                    let m = m as i128;
                    let s = s as i128;
                    let a = h * 3600;
                    let b = m * 60;
                    !(i64::MIN as i128 <= a && a <= i64::MAX as i128) || !(i64::MIN as i128 <= b
                        && b <= i64::MAX as i128) || !(i64::MIN as i128 <= a + b && a + b
                        <= i64::MAX as i128) || !(i64::MIN as i128 <= a + b + s && a + b + s
                        <= i64::MAX as i128)
                },
                _ => false,
            }
        } else {
            false
        }
    }

    /// The duration in seconds written as `SECONDS`, `MM:SS` or `HH:MM:SS`;
    /// `None` when the text is not such a duration, or when its value does not
    /// fit 64-bit arithmetic.
    pub fn parse_duration(duration_str: &str) -> (r: Option<i64>)
        ensures
            r == duration_seconds_of(duration_str@),
    {
        if Self::duration_overflows(duration_str) {
            return None;
        }
        let v = chars_of(duration_str);
        let parts = colon_pieces_exec(&v);
        let ghost ps = parts@.map_values(|p: Vec<char>| p@);
        proof {
            lemma_colon_pieces_nonempty(v@);
        }
        if parts.len() == 1 {
            assert(ps[0] == parts@[0]@);
            parse_i64_exec(&parts[0])
        } else if parts.len() == 2 {
            assert(ps[0] == parts@[0]@ && ps[1] == parts@[1]@);
            let minutes = match parse_i64_exec(&parts[0]) {
                Some(x) => x,
                None => return None,
            };
            let seconds = match parse_i64_exec(&parts[1]) {
                Some(x) => x,
                None => return None,
            };
            Some(minutes * 60 + seconds)
        } else if parts.len() == 3 {
            assert(ps[0] == parts@[0]@ && ps[1] == parts@[1]@ && ps[2] == parts@[2]@);
            let hours = match parse_i64_exec(&parts[0]) {
                Some(x) => x,
                None => return None,
            };
            let minutes = match parse_i64_exec(&parts[1]) {
                Some(x) => x,
                None => return None,
            };
            let seconds = match parse_i64_exec(&parts[2]) {
                Some(x) => x,
                None => return None,
            };
            Some(hours * 3600 + minutes * 60 + seconds)
        } else {
            None
        }
    }
}


// ---------------------------------------------------------------------------
// Decoded feeds.

/// The `<enclosure>` of an RSS item: where the audio is.
#[derive(Debug, Clone)]
pub struct FeedEnclosure {
    pub url: String,
    pub mime_type: String,
    pub length: String,
}

/// The fields of an RSS `<item>` that ingestion reads.
#[derive(Debug, Clone)]
pub struct FeedItem {
    pub title: Option<String>,
    pub enclosure: Option<FeedEnclosure>,
    pub guid: Option<String>,
    pub pub_date: Option<String>,
    pub description: Option<String>,
    /// The iTunes `<itunes:duration>`.
    pub itunes_duration: Option<String>,
}

/// The iTunes extension of an RSS channel.
#[derive(Debug, Clone)]
pub struct ItunesChannel {
    pub author: Option<String>,
    pub image: Option<String>,
    pub categories: Vec<String>,
}

/// The fields of an RSS `<channel>` that ingestion reads.
#[derive(Debug, Clone)]
pub struct FeedChannel {
    pub title: String,
    pub description: String,
    pub link: String,
    pub image_url: Option<String>,
    pub itunes: Option<ItunesChannel>,
    pub items: Vec<FeedItem>,
}

/// A `<link>` of an Atom entry.
#[derive(Debug, Clone)]
pub struct AtomLink {
    pub rel: String,
    pub href: String,
    pub mime_type: Option<String>,
    pub length: Option<String>,
}

/// An Atom timestamp: whole seconds since the Unix epoch and the nanoseconds
/// within the second.
#[derive(Debug, Clone, Copy, PartialEq, Eq, Structural)]
pub struct AtomTime {
    pub secs: i64,
    pub nanos: u32,
}

/// The fields of an Atom `<entry>` that ingestion reads.
#[derive(Debug, Clone)]
pub struct AtomEntry {
    pub title: String,
    pub id: String,
    pub links: Vec<AtomLink>,
    pub published: Option<AtomTime>,
    pub updated: AtomTime,
    pub summary: Option<String>,
    pub content: Option<String>,
}

/// What ingestion reads of an enclosure.
pub struct EnclosureView {
    pub url: Seq<char>,
    pub mime_type: Seq<char>,
    pub length: Seq<char>,
}

/// What ingestion reads of an RSS item.
pub struct FeedItemView {
    pub title: Option<Seq<char>>,
    pub enclosure: Option<EnclosureView>,
    pub guid: Option<Seq<char>>,
    pub pub_date: Option<Seq<char>>,
    pub description: Option<Seq<char>>,
    pub itunes_duration: Option<Seq<char>>,
}

/// What ingestion reads of a channel's iTunes extension.
pub struct ItunesChannelView {
    pub author: Option<Seq<char>>,
    pub image: Option<Seq<char>>,
    pub categories: Seq<Seq<char>>,
}

/// What ingestion reads of an RSS channel.
pub struct FeedChannelView {
    pub title: Seq<char>,
    pub description: Seq<char>,
    pub link: Seq<char>,
    pub image_url: Option<Seq<char>>,
    pub itunes: Option<ItunesChannelView>,
    pub items: Seq<FeedItemView>,
}

/// What ingestion reads of an Atom link.
pub struct AtomLinkView {
    pub rel: Seq<char>,
    pub href: Seq<char>,
    pub mime_type: Option<Seq<char>>,
    pub length: Option<Seq<char>>,
}

/// What ingestion reads of an Atom entry.
pub struct AtomEntryView {
    pub title: Seq<char>,
    pub id: Seq<char>,
    pub links: Seq<AtomLinkView>,
    pub published: Option<AtomTime>,
    pub updated: AtomTime,
    pub summary: Option<Seq<char>>,
    pub content: Option<Seq<char>>,
}

impl View for FeedEnclosure {
    type V = EnclosureView;

    open spec fn view(&self) -> EnclosureView {
        EnclosureView { url: self.url@, mime_type: self.mime_type@, length: self.length@ }
    }
}

impl View for FeedItem {
    type V = FeedItemView;

    open spec fn view(&self) -> FeedItemView {
        FeedItemView {
            title: opt_view(self.title),
            enclosure: match self.enclosure {
                Some(e) => Some(e@),
                None => None,
            },
            guid: opt_view(self.guid),
            pub_date: opt_view(self.pub_date),
            description: opt_view(self.description),
            itunes_duration: opt_view(self.itunes_duration),
        }
    }
}

impl View for ItunesChannel {
    type V = ItunesChannelView;

    open spec fn view(&self) -> ItunesChannelView {
        ItunesChannelView {
            author: opt_view(self.author),
            image: opt_view(self.image),
            categories: strings_view(self.categories@),
        }
    }
}

impl View for FeedChannel {
    type V = FeedChannelView;

    open spec fn view(&self) -> FeedChannelView {
        FeedChannelView {
            title: self.title@,
            description: self.description@,
            link: self.link@,
            image_url: opt_view(self.image_url),
            itunes: match self.itunes {
                Some(it) => Some(it@),
                None => None,
            },
            items: self.items@.map_values(|i: FeedItem| i@),
        }
    }
}

impl View for AtomLink {
    type V = AtomLinkView;

    open spec fn view(&self) -> AtomLinkView {
        AtomLinkView {
            rel: self.rel@,
            href: self.href@,
            mime_type: opt_view(self.mime_type),
            length: opt_view(self.length),
        }
    }
}

impl View for AtomEntry {
    type V = AtomEntryView;

    open spec fn view(&self) -> AtomEntryView {
        AtomEntryView {
            title: self.title@,
            id: self.id@,
            links: self.links@.map_values(|l: AtomLink| l@),
            published: self.published,
            updated: self.updated,
            summary: opt_view(self.summary),
            content: opt_view(self.content),
        }
    }
}

/// The views of a list of Atom entries.
pub open spec fn entries_view(es: Seq<AtomEntry>) -> Seq<AtomEntryView> {
    es.map_values(|e: AtomEntry| e@)
}

// ---------------------------------------------------------------------------
// Reading feed documents.

/// What `rss::Channel::read_from` makes of a document: the fields ingestion
/// reads of the channel it decodes, or the text of its error.
pub uninterp spec fn rss_read_of(content: Seq<char>) -> Result<FeedChannelView, Seq<char>>;

/// What `atom_syndication::Feed::read_from` makes of a document: the fields
/// ingestion reads of its entries, or the text of its error.
pub uninterp spec fn atom_read_of(content: Seq<char>) -> Result<Seq<AtomEntryView>, Seq<char>>;

#[verifier::external_type_specification]
#[verifier::external_body]
pub struct ExRssChannel(rss::Channel);

#[verifier::external_type_specification]
#[verifier::external_body]
pub struct ExRssItem(rss::Item);

#[verifier::external_type_specification]
#[verifier::external_body]
pub struct ExAtomEntry(atom_syndication::Entry);

#[verifier::external_type_specification]
#[verifier::external_body]
pub struct ExAtomLink(atom_syndication::Link);

/// Copies the fields ingestion reads out of a decoded `rss::Item` (its
/// accessors); used only inside [`read_rss`].
#[verifier::external_body]
fn item_from_document(item: &rss::Item) -> FeedItem {
    FeedItem {
        title: item.title().map(String::from),
        enclosure: item.enclosure().map(|e| FeedEnclosure {
            url: e.url().to_string(),
            mime_type: e.mime_type().to_string(),
            length: e.length().to_string(),
        }),
        guid: item.guid().map(|g| g.value().to_string()),
        pub_date: item.pub_date().map(String::from),
        description: item.description().map(String::from),
        itunes_duration: item.itunes_ext().and_then(|it| it.duration()).map(String::from),
    }
}

/// Copies the fields ingestion reads out of a decoded `rss::Channel` (its
/// accessors); used only inside [`read_rss`].
#[verifier::external_body]
fn channel_from_document(c: &rss::Channel) -> FeedChannel {
    FeedChannel {
        title: c.title().to_string(),
        description: c.description().to_string(),
        link: c.link().to_string(),
        image_url: c.image().map(|i| i.url().to_string()),
        itunes: c.itunes_ext().map(|it| ItunesChannel {
            author: it.author().map(String::from),
            image: it.image().map(String::from),
            categories: it.categories().iter().map(|x| x.text().to_string()).collect(),
        }),
        items: c.items().iter().map(item_from_document).collect(),
    }
}

/// Decodes an RSS document (`rss::Channel::read_from`). The result is a
/// function of the text alone, named [`rss_read_of`]; what that decoding
/// accepts and yields is the `rss` crate's and is not stated here.
#[verifier::external_body]
fn read_rss(content: &str) -> (r: Result<FeedChannel, String>)
    ensures
        match r {
            Ok(c) => rss_read_of(content@) == Ok::<FeedChannelView, Seq<char>>(c@),
            Err(e) => rss_read_of(content@) == Err::<FeedChannelView, Seq<char>>(e@),
        },
{
    rss::Channel::read_from(content.as_bytes()).map(|c| channel_from_document(&c)).map_err(
        |e| e.to_string(),
    )
}

/// Copies the fields ingestion reads out of a decoded `atom_syndication::Link`;
/// used only inside [`read_atom`].
#[verifier::external_body]
fn link_from_document(l: &atom_syndication::Link) -> AtomLink {
    AtomLink {
        rel: l.rel().to_string(),
        href: l.href().to_string(),
        mime_type: l.mime_type().map(String::from),
        length: l.length().map(String::from),
    }
}

/// Copies the fields ingestion reads out of a decoded
/// `atom_syndication::Entry`, its times as seconds and nanoseconds; used only
/// inside [`read_atom`].
#[verifier::external_body]
fn entry_from_document(e: &atom_syndication::Entry) -> AtomEntry {
    AtomEntry {
        title: e.title().value.clone(),
        id: e.id().to_string(),
        links: e.links().iter().map(link_from_document).collect(),
        published: e.published().map(|t| AtomTime { secs: t.timestamp(), nanos: t.timestamp_subsec_nanos() }),
        updated: AtomTime { secs: e.updated().timestamp(), nanos: e.updated().timestamp_subsec_nanos() },
        summary: e.summary().map(|t| t.value.clone()),
        content: e.content().and_then(|c| c.value()).map(String::from),
    }
}

/// Decodes an Atom document (`atom_syndication::Feed::read_from`) into its
/// entries. The result is a function of the text alone, named
/// [`atom_read_of`]; what that decoding accepts and yields is the crate's and
/// is not stated here.
#[verifier::external_body]
fn read_atom(content: &str) -> (r: Result<Vec<AtomEntry>, String>)
    ensures
        match r {
            Ok(es) => atom_read_of(content@) == Ok::<Seq<AtomEntryView>, Seq<char>>(entries_view(es@)),
            Err(e) => atom_read_of(content@) == Err::<Seq<AtomEntryView>, Seq<char>>(e@),
        },
{
    atom_syndication::Feed::read_from(content.as_bytes())
        .map(|f| f.entries().iter().map(entry_from_document).collect())
        .map_err(|e| e.to_string())
}

/// The view of a decoded RSS document, or its error text.
pub open spec fn rss_result_view(r: Result<FeedChannel, String>) -> Result<FeedChannelView, Seq<char>> {
    match r {
        Ok(c) => Ok(c@),
        Err(e) => Err(e@),
    }
}

/// The view of a decoded Atom document, or its error text.
pub open spec fn atom_result_view(r: Result<Vec<AtomEntry>, String>) -> Result<Seq<AtomEntryView>, Seq<char>> {
    match r {
        Ok(es) => Ok(entries_view(es@)),
        Err(e) => Err(e@),
    }
}

/// The instant an RFC 2822 date denotes, as whole seconds since the Unix
/// epoch and the nanoseconds within the second, as read by
/// `chrono::DateTime::parse_from_rfc2822`; `None` when the text is not such a
/// date.
pub uninterp spec fn rfc2822_instant(s: Seq<char>) -> Option<(i64, u32)>;

/// Reads an RFC 2822 date (`DateTime::parse_from_rfc2822`), converted to UTC.
#[verifier::external_body]
fn parse_rfc2822(s: &str) -> (r: Option<(i64, u32)>)
    ensures
        r == rfc2822_instant(s@),
{
    chrono::DateTime::parse_from_rfc2822(s).ok().map(|dt| (dt.timestamp(), dt.timestamp_subsec_nanos()))
}

/// Feed text as stored: entities decoded, emoji joiners removed.
pub open spec fn cleaned(s: Seq<char>) -> Seq<char> {
    without_joiners(decoded(s))
}

pub open spec fn cleaned_opt(o: Option<Seq<char>>) -> Option<Seq<char>> {
    match o {
        Some(s) => Some(cleaned(s)),
        None => None,
    }
}

pub open spec fn parsed_i64_opt(s: Seq<char>) -> Option<i64> {
    match parse_i64(s) {
        Some(x) => Some(x as i64),
        None => None,
    }
}

/// An item becomes an episode only when it has a title and an enclosure.
pub open spec fn is_playable(item: FeedItemView) -> bool {
    item.title is Some && item.enclosure is Some
}

/// The playable items, in order.
pub open spec fn playable_items(items: Seq<FeedItemView>) -> Seq<FeedItemView> {
    items.filter(|it: FeedItemView| is_playable(it))
}

/// `ep` is the episode ingested from a playable `item` of subscription `sub`:
/// cleaned title, enclosure URL, guid (falling back to the URL), publication
/// date when it reads as RFC 2822, cleaned description, enclosure type and
/// length, iTunes duration, and otherwise fresh (unplayed, not downloaded).
pub open spec fn episode_of_item(sub: u128, item: FeedItemView, ep: Episode) -> bool {
    let enc = item.enclosure->0;
    &&& ep.subscription_id == sub
    &&& ep.title@ == cleaned(item.title->0)
    &&& ep.url@ == enc.url
    &&& ep.guid@ == match item.guid {
        Some(g) => g,
        None => enc.url,
    }
    &&& item.pub_date matches Some(d) ==> (rfc2822_instant(d) matches Some(t) ==> ep.published_at
        == t.0 * 1_000_000_000 + t.1)
    &&& opt_view(ep.description) == cleaned_opt(item.description)
    &&& opt_view(ep.file_type) == Some(enc.mime_type)
    &&& ep.file_size_bytes == parsed_i64_opt(enc.length)
    &&& ep.duration_seconds == match item.itunes_duration {
        Some(d) => duration_seconds_of(d),
        None => None,
    }
    &&& ep.download_status == DownloadStatus::NotDownloaded
    &&& ep.local_path is None
    &&& ep.playback_position_seconds == 0
    &&& !ep.played
    &&& ep.last_played_at is None
}

fn clean_opt(o: &Option<String>) -> (r: Option<String>)
    ensures
        opt_view(r) == cleaned_opt(opt_view(*o)),
{
    match o {
        Some(s) => Some(clean_feed_text(s.as_str())),
        None => None,
    }
}

fn parse_i64_str(s: &str) -> (r: Option<i64>)
    ensures
        r == parsed_i64_opt(s@),
{
    let v = chars_of(s);
    parse_i64_exec(&v)
}

impl FeedParser {
    /// The episode for one RSS item, or `None` when it has no title or no
    /// enclosure (not a playable episode). An unparseable publication date
    /// falls back to the current time.
    pub fn episode_from_item(subscription_id: u128, item: &FeedItem) -> (r: Option<Episode>)
        ensures
            r is Some <==> is_playable(item@),
            r matches Some(ep) ==> episode_of_item(subscription_id, item@, ep),
    {
        let title = match &item.title {
            Some(t) => clean_feed_text(t.as_str()),
            None => return None,
        };
        let enclosure = match &item.enclosure {
            Some(e) => e,
            None => return None,
        };
        let url = enclosure.url.clone();
        let guid = match &item.guid {
            Some(g) => g.clone(),
            None => url.clone(),
        };
        let parsed = match &item.pub_date {
            Some(d) => parse_rfc2822(d.as_str()),
            None => None,
        };
        let published_at = match parsed {
            Some((secs, nanos)) => timestamp_ns(secs, nanos),
            None => {
                let (secs, nanos) = utc_now();
                timestamp_ns(secs, nanos)
            },
        };
        let mut episode = Episode::new(subscription_id, title, url, guid, published_at);
        episode.description = clean_opt(&item.description);
        episode.file_type = Some(enclosure.mime_type.clone());
        episode.file_size_bytes = parse_i64_str(enclosure.length.as_str());
        match &item.itunes_duration {
            Some(d) => {
                episode.duration_seconds = Self::parse_duration(d.as_str());
            },
            None => {},
        }
        Some(episode)
    }

    /// The episodes of an RSS channel's playable items, in order.
    pub fn episodes_from_channel(subscription_id: u128, channel: &FeedChannel) -> (eps: Vec<Episode>)
        ensures
            eps@.len() == playable_items(channel@.items).len(),
            forall|k: int| 0 <= k < eps@.len() ==> episode_of_item(
                subscription_id,
                #[trigger] playable_items(channel@.items)[k],
                eps@[k],
            ),
    {
        let items = &channel.items;
        let ghost vs = channel@.items;
        let mut eps: Vec<Episode> = Vec::new();
        let mut i: usize = 0;
        while i < items.len()
            invariant
                0 <= i <= items@.len(),
                items@ == channel.items@,
                vs == items@.map_values(|it: FeedItem| it@),
                eps@.len() == playable_items(vs.take(i as int)).len(),
                forall|k: int| 0 <= k < eps@.len() ==> episode_of_item(
                    subscription_id,
                    #[trigger] playable_items(vs.take(i as int))[k],
                    eps@[k],
                ),
            decreases items@.len() - i,
        {
            let item = &items[i];
            proof {
                reveal(Seq::filter);
                assert(vs.take(i + 1).drop_last() == vs.take(i as int));
                assert(vs.take(i + 1).last() == item@);
            }
            match Self::episode_from_item(subscription_id, item) {
                Some(ep) => {
                    eps.push(ep);
                },
                None => {},
            }
            i = i + 1;
        }
        assert(vs.take(vs.len() as int) == vs);
        eps
    }
}

/// The subscription an RSS channel describes.
pub open spec fn subscription_of_channel(rss_url: Seq<char>, c: FeedChannelView, sub: Subscription) -> bool {
    &&& sub.title@ == cleaned(c.title)
    &&& sub.rss_url@ == rss_url
    &&& opt_view(sub.description) == Some(cleaned(c.description))
    &&& opt_view(sub.author) == match c.itunes {
        Some(it) => cleaned_opt(it.author),
        None => None,
    }
    &&& opt_view(sub.website_url) == Some(c.link)
    &&& opt_view(sub.artwork_url) == match c.image_url {
        Some(u) => Some(u),
        None => match c.itunes {
            Some(it) => it.image,
            None => None,
        },
    }
    &&& strings_view(sub.categories@) == match c.itunes {
        Some(it) => it.categories,
        None => Seq::empty(),
    }
    &&& !sub.auto_queue
    &&& sub.last_error is None
}

fn clone_strings(v: &Vec<String>) -> (r: Vec<String>)
    ensures
        strings_view(r@) == strings_view(v@),
{
    let mut r: Vec<String> = Vec::new();
    let mut i: usize = 0;
    while i < v.len()
        invariant
            0 <= i <= v@.len(),
            strings_view(r@) == strings_view(v@.take(i as int)),
        decreases v@.len() - i,
    {
        r.push(v[i].clone());
        i = i + 1;
        assert(v@.take(i as int) == v@.take(i - 1).push(v@[i - 1]));
        assert(strings_view(r@) == strings_view(v@.take(i - 1)).push(v@[i - 1]@));
    }
    assert(v@.take(v@.len() as int) == v@);
    r
}

impl FeedParser {
    /// A new subscription for the feed at `rss_url` from its channel: title,
    /// description and author cleaned, website, artwork (the channel image,
    /// else the iTunes image), and the iTunes categories.
    pub fn subscription_from_channel(rss_url: String, channel: &FeedChannel) -> (sub: Subscription)
        ensures
            subscription_of_channel(rss_url@, channel@, sub),
    {
        let mut sub = Subscription::new(clean_feed_text(channel.title.as_str()), rss_url);
        sub.description = Some(clean_feed_text(channel.description.as_str()));
        sub.author = match &channel.itunes {
            Some(it) => clean_opt(&it.author),
            None => None,
        };
        sub.website_url = Some(channel.link.clone());
        sub.artwork_url = match &channel.image_url {
            Some(u) => Some(u.clone()),
            None => match &channel.itunes {
                Some(it) => crate::opml::clone_opt(&it.image),
                None => None,
            },
        };
        match &channel.itunes {
            Some(it) => {
                sub.categories = clone_strings(&it.categories);
            },
            None => {
                assert(strings_view(sub.categories@) =~= Seq::<Seq<char>>::empty());
            },
        }
        sub
    }
}

// ---------------------------------------------------------------------------
// Atom.

pub open spec fn is_enclosure_link(l: AtomLinkView) -> bool {
    l.rel == "enclosure"@
}

/// The first `rel="enclosure"` link of an entry, if any.
pub open spec fn first_enclosure(links: Seq<AtomLinkView>) -> Option<AtomLinkView>
    decreases links.len(),
{
    if links.len() == 0 {
        None
    } else if is_enclosure_link(links[0]) {
        Some(links[0])
    } else {
        first_enclosure(links.drop_first())
    }
}

/// An Atom entry is an episode when its first enclosure link has a URL.
pub open spec fn is_playable_entry(e: AtomEntryView) -> bool {
    first_enclosure(e.links) matches Some(l) && l.href.len() > 0
}

/// The playable entries, in order.
pub open spec fn playable_entries(entries: Seq<AtomEntryView>) -> Seq<AtomEntryView> {
    entries.filter(|e: AtomEntryView| is_playable_entry(e))
}

/// `ep` is the episode ingested from a playable Atom entry.
pub open spec fn episode_of_entry(sub: u128, e: AtomEntryView, ep: Episode) -> bool {
    let enc = first_enclosure(e.links)->0;
    &&& ep.subscription_id == sub
    &&& ep.title@ == cleaned(e.title)
    &&& ep.url@ == enc.href
    &&& ep.guid@ == if e.id.len() == 0 {
        enc.href
    } else {
        e.id
    }
    &&& ep.published_at == match e.published {
        Some(p) => p.secs * 1_000_000_000 + p.nanos,
        None => e.updated.secs * 1_000_000_000 + e.updated.nanos,
    }
    &&& opt_view(ep.description) == match e.summary {
        Some(s) => Some(cleaned(s)),
        None => cleaned_opt(e.content),
    }
    &&& opt_view(ep.file_type) == enc.mime_type
    &&& ep.file_size_bytes == match enc.length {
        Some(l) => parsed_i64_opt(l),
        None => None,
    }
    &&& ep.duration_seconds is None
    &&& ep.download_status == DownloadStatus::NotDownloaded
    &&& ep.local_path is None
    &&& !ep.played
    &&& ep.playback_position_seconds == 0
    &&& ep.last_played_at is None
}

/// An Atom episode is dated by its entry's `<published>` time when the entry
/// has one, and by its `<updated>` time only when it has none.
pub proof fn lemma_atom_episode_dated_by_published(sub: u128, e: AtomEntryView, ep: Episode)
    requires
        episode_of_entry(sub, e, ep),
    ensures
        e.published matches Some(p) ==> ep.published_at == p.secs * 1_000_000_000 + p.nanos,
        e.published is None ==> ep.published_at == e.updated.secs * 1_000_000_000 + e.updated.nanos,
{
}

proof fn lemma_first_enclosure(links: Seq<AtomLinkView>, k: int)
    requires
        0 <= k <= links.len(),
        forall|j: int| 0 <= j < k ==> !is_enclosure_link(#[trigger] links[j]),
    ensures
        first_enclosure(links) == first_enclosure(links.skip(k)),
    decreases k,
{
    if k > 0 {
        lemma_first_enclosure(links.drop_first(), k - 1);
        assert(links.drop_first().skip(k - 1) == links.skip(k));
    } else {
        assert(links.skip(0) == links);
    }
}

impl FeedParser {
    /// The episode for one Atom entry: the audio lives on its first
    /// `rel="enclosure"` link; an entry without one (or with an empty URL) is
    /// not a playable episode.
    pub fn episode_from_atom_entry(subscription_id: u128, entry: &AtomEntry) -> (r: Option<Episode>)
        ensures
            r is Some <==> is_playable_entry(entry@),
            r matches Some(ep) ==> episode_of_entry(subscription_id, entry@, ep),
    {
        proof {
            reveal_strlit("enclosure");
        }
        let links = &entry.links;
        let ghost lv = entry@.links;
        let mut k: usize = 0;
        while k < links.len() && !crate::models::str_equal(links[k].rel.as_str(), "enclosure")
            invariant
                k <= links@.len(),
                lv == links@.map_values(|l: AtomLink| l@),
                forall|j: int| 0 <= j < k ==> !is_enclosure_link(#[trigger] lv[j]),
            decreases links@.len() - k,
        {
            assert(lv[k as int] == links@[k as int]@);
            k = k + 1;
        }
        proof {
            lemma_first_enclosure(lv, k as int);
            if k < links@.len() {
                assert(lv.skip(k as int)[0] == lv[k as int]);
                assert(lv[k as int] == links@[k as int]@);
            }
        }
        if k == links.len() {
            return None;
        }
        let enclosure = &links[k];
        let url = enclosure.href.clone();
        if url.as_str().is_empty() {
            return None;
        }
        let title = clean_feed_text(entry.title.as_str());
        let guid = if entry.id.as_str().is_empty() { url.clone() } else { entry.id.clone() };
        let published_at = match entry.published {
            Some(p) => timestamp_ns(p.secs, p.nanos),
            None => timestamp_ns(entry.updated.secs, entry.updated.nanos),
        };
        let mut episode = Episode::new(subscription_id, title, url, guid, published_at);
        episode.description = match &entry.summary {
            Some(s) => Some(clean_feed_text(s.as_str())),
            None => clean_opt(&entry.content),
        };
        episode.file_type = crate::opml::clone_opt(&enclosure.mime_type);
        episode.file_size_bytes = match &enclosure.length {
            Some(l) => parse_i64_str(l.as_str()),
            None => None,
        };
        Some(episode)
    }

    /// The episodes of an Atom feed's playable entries, in order.
    pub fn episodes_from_atom(subscription_id: u128, entries: &Vec<AtomEntry>) -> (eps: Vec<Episode>)
        ensures
            eps@.len() == playable_entries(entries_view(entries@)).len(),
            forall|k: int| 0 <= k < eps@.len() ==> episode_of_entry(
                subscription_id,
                #[trigger] playable_entries(entries_view(entries@))[k],
                eps@[k],
            ),
    {
        let ghost vs = entries_view(entries@);
        let mut eps: Vec<Episode> = Vec::new();
        let mut i: usize = 0;
        while i < entries.len()
            invariant
                0 <= i <= entries@.len(),
                vs == entries_view(entries@),
                eps@.len() == playable_entries(vs.take(i as int)).len(),
                forall|k: int| 0 <= k < eps@.len() ==> episode_of_entry(
                    subscription_id,
                    #[trigger] playable_entries(vs.take(i as int))[k],
                    eps@[k],
                ),
            decreases entries@.len() - i,
        {
            let entry = &entries[i];
            proof {
                reveal(Seq::filter);
                assert(vs.take(i + 1).drop_last() == vs.take(i as int));
                assert(vs.take(i + 1).last() == entry@);
            }
            match Self::episode_from_atom_entry(subscription_id, entry) {
                Some(ep) => {
                    eps.push(ep);
                },
                None => {},
            }
            i = i + 1;
        }
        assert(vs.take(vs.len() as int) == vs);
        eps
    }
}

/// `r` is what a feed yields from its two decodings: the RSS one when it
/// decoded, else the Atom one when that decoded, else an error naming both
/// failures.
pub open spec fn decoded_episodes(
    sub: u128,
    rss: Result<FeedChannelView, Seq<char>>,
    atom: Result<Seq<AtomEntryView>, Seq<char>>,
    r: Result<Vec<Episode>, String>,
) -> bool {
    match rss {
        Ok(c) => r matches Ok(eps) && eps@.len() == playable_items(c.items).len() && forall|k: int|
            0 <= k < eps@.len() ==> episode_of_item(sub, #[trigger] playable_items(c.items)[k], eps@[k]),
        Err(re) => match atom {
            Ok(es) => r matches Ok(eps) && eps@.len() == playable_entries(es).len() && forall|k: int|
                0 <= k < eps@.len() ==> episode_of_entry(sub, #[trigger] playable_entries(es)[k], eps@[k]),
            Err(ae) => r matches Err(m) && m@ == "not valid RSS ("@ + re + ") or Atom ("@ + ae + ")"@,
        },
    }
}

impl FeedParser {
    /// A feed's episodes from its two decodings, strict RSS 2.0 first and Atom
    /// as the fallback (some feeds are Atom outright, a few have quirks a
    /// strict RSS parse rejects). If neither decoded, the error names both
    /// failures so the subscription row can show why.
    pub fn episodes_from_decoded(
        subscription_id: u128,
        rss: Result<FeedChannel, String>,
        atom: Result<Vec<AtomEntry>, String>,
    ) -> (r: Result<Vec<Episode>, String>)
        ensures
            decoded_episodes(subscription_id, rss_result_view(rss), atom_result_view(atom), r),
    {
        match rss {
            Ok(channel) => Ok(Self::episodes_from_channel(subscription_id, &channel)),
            Err(rss_err) => match atom {
                Ok(entries) => Ok(Self::episodes_from_atom(subscription_id, &entries)),
                Err(atom_err) => {
                    let mut v = chars_of("not valid RSS (");
                    push_str_chars(&mut v, rss_err.as_str());
                    push_str_chars(&mut v, ") or Atom (");
                    push_str_chars(&mut v, atom_err.as_str());
                    push_str_chars(&mut v, ")");
                    Err(string_from_chars(&v))
                },
            },
        }
    }

    /// A feed document's episodes: read as strict RSS 2.0 first, and as Atom
    /// only when that fails.
    pub fn parse_episodes(subscription_id: u128, content: &str) -> (r: Result<Vec<Episode>, String>)
        ensures
            decoded_episodes(subscription_id, rss_read_of(content@), atom_read_of(content@), r),
    {
        let rss = read_rss(content);
        let atom = match &rss {
            Ok(_) => Err(String::new()),
            Err(_) => read_atom(content),
        };
        Self::episodes_from_decoded(subscription_id, rss, atom)
    }

    /// The RSS channel of a feed document; a document that is not one is
    /// reported as "Failed to parse RSS feed".
    pub fn parse_channel(content: &str) -> (r: Result<FeedChannel, String>)
        ensures
            match rss_read_of(content@) {
                Ok(cv) => r matches Ok(c) && c@ == cv,
                Err(_) => r matches Err(m) && m@ == "Failed to parse RSS feed"@,
            },
    {
        match read_rss(content) {
            Ok(c) => Ok(c),
            Err(_) => Err(owned("Failed to parse RSS feed")),
        }
    }
}

// ---------------------------------------------------------------------------
// Refresh decisions.

/// What a refresh does with one episode of the fetched feed.
#[derive(Debug, Clone, Copy, PartialEq, Eq, Structural)]
pub struct Ingest {
    /// It was not stored before: it counts toward the "N new" status.
    pub is_new: bool,
    /// It goes to Up Next: new, unplayed, from an auto-queue feed.
    pub auto_enqueue: bool,
}

/// The decision for one fetched episode, given whether the store already
/// had it (a failed lookup counts as not stored; the write is an upsert).
pub fn ingest_decision(sub: &Subscription, episode: &Episode, stored: Result<bool, String>) -> (r: Ingest)
    ensures
        r.is_new == !(stored matches Ok(true)),
        r.auto_enqueue == (r.is_new && sub.auto_queue && !episode.played),
{
    let is_new = match stored {
        Ok(b) => !b,
        Err(_) => true,
    };
    Ingest { is_new, auto_enqueue: is_new && sub.auto_queue && !episode.played }
}

/// The event a refresh publishes before it fetches the feed.
pub fn refresh_started<R>(subscription_id: u128) -> (e: StateEvent<R>)
    ensures
        e == (StateEvent::<R>::FeedRefreshStarted { subscription_id }),
{
    StateEvent::FeedRefreshStarted { subscription_id }
}

/// The event a finished refresh publishes: how many new episodes it stored,
/// or why it failed.
pub fn refresh_event<R>(subscription_id: u128, outcome: Result<usize, String>) -> (e: StateEvent<R>)
    ensures
        match outcome {
            Ok(n) => e == StateEvent::<R>::FeedRefreshCompleted { subscription_id, new_episodes: n },
            Err(m) => e == StateEvent::<R>::FeedRefreshFailed { subscription_id, error: m },
        },
{
    match outcome {
        Ok(n) => StateEvent::FeedRefreshCompleted { subscription_id, new_episodes: n },
        Err(m) => StateEvent::FeedRefreshFailed { subscription_id, error: m },
    }
}

/// Milliseconds after launch before the first automatic refresh, so the UI
/// draws and startup settles first.
pub const LAUNCH_DELAY_MS: u64 = 3000;

/// Whether an automatic refresh of every feed is due, `now_ms` milliseconds
/// after launch: once `LAUNCH_DELAY_MS` in, then every `interval_minutes`
/// after the last one (`last_ms`). An interval of 0 disables the periodic
/// refresh; the launch refresh still runs.
pub open spec fn auto_refresh_due_spec(now_ms: u64, last_ms: Option<u64>, interval_minutes: u64) -> bool {
    match last_ms {
        None => now_ms >= LAUNCH_DELAY_MS,
        Some(last) => interval_minutes > 0 && now_ms >= last && now_ms - last >= interval_minutes
            * 60000,
    }
}

pub fn auto_refresh_due(now_ms: u64, last_ms: Option<u64>, interval_minutes: u64) -> (r: bool)
    ensures
        r == auto_refresh_due_spec(now_ms, last_ms, interval_minutes),
{
    match last_ms {
        None => now_ms >= LAUNCH_DELAY_MS,
        Some(last) => {
            interval_minutes > 0 && now_ms >= last && ((now_ms - last) as u128) >= (
            interval_minutes as u128) * 60000
        },
    }
}

/// With the periodic refresh disabled, nothing is due after the launch
/// refresh.
pub proof fn lemma_zero_interval_refreshes_once(now_ms: u64, last_ms: u64)
    ensures
        !auto_refresh_due_spec(now_ms, Some(last_ms), 0),
{
}

} // verus!
