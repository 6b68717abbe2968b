use pdcst::events::StateEvent;
use pdcst::feed::{
    auto_refresh_due, ingest_decision, refresh_event, refresh_started, AtomEntry, AtomLink, AtomTime, AutoQueuePolicy, FeedChannel,
    FeedEnclosure, FeedItem, FeedParser,
};
use pdcst::models::{Episode, Subscription};

#[test]
fn test_parse_duration() {
    assert_eq!(FeedParser::parse_duration("3661"), Some(3661));
    assert_eq!(FeedParser::parse_duration("45:30"), Some(2730));
    assert_eq!(FeedParser::parse_duration("1:30:45"), Some(5445));
}

#[test]
fn parse_duration_rejects_malformed_text() {
    assert_eq!(FeedParser::parse_duration(""), None);
    assert_eq!(FeedParser::parse_duration("1:2:3:4"), None);
    assert_eq!(FeedParser::parse_duration("ab"), None);
    assert_eq!(FeedParser::parse_duration("1:"), None);
    assert_eq!(FeedParser::parse_duration("1.5"), None);
    assert_eq!(FeedParser::parse_duration("99999999999999999999"), None);
}

#[test]
fn parse_duration_accepts_signs_like_integer_parsing() {
    assert_eq!(FeedParser::parse_duration("+90"), Some(90));
    assert_eq!(FeedParser::parse_duration("-5"), Some(-5));
    assert_eq!(FeedParser::parse_duration("1:-30"), Some(30));
    assert_eq!(FeedParser::parse_duration("-9223372036854775808"), Some(i64::MIN));
}

#[test]
fn overflowing_durations_are_detected() {
    assert!(FeedParser::duration_overflows("9223372036854775807:00"));
    assert!(FeedParser::duration_overflows("3000000000000000:00:00"));
    assert!(!FeedParser::duration_overflows("1:30:45"));
    assert!(!FeedParser::duration_overflows("9223372036854775807"));
}

#[test]
fn auto_queue_policy_is_plain_data() {
    let p = AutoQueuePolicy {
        max_depth: 20,
        interleave: true,
    };
    assert_eq!(p, AutoQueuePolicy { max_depth: 20, interleave: true });
}

fn rss_item(title: &str, description: Option<&str>) -> FeedItem {
    FeedItem {
        title: Some(title.to_string()),
        enclosure: Some(FeedEnclosure {
            url: "https://example.com/1.mp3".to_string(),
            mime_type: "audio/mpeg".to_string(),
            length: "123".to_string(),
        }),
        guid: Some("guid-1".to_string()),
        pub_date: Some("Tue, 10 Jun 2025 04:00:00 +0000".to_string()),
        description: description.map(|d| d.to_string()),
        itunes_duration: Some("1:30:45".to_string()),
    }
}

fn rss_channel(title: &str, items: Vec<FeedItem>) -> FeedChannel {
    FeedChannel {
        title: title.to_string(),
        description: "d".to_string(),
        link: "https://example.com".to_string(),
        image_url: None,
        itunes: None,
        items,
    }
}

fn atom_entry() -> AtomEntry {
    AtomEntry {
        title: "Atom Ep 1".to_string(),
        id: "urn:ep:1".to_string(),
        links: vec![AtomLink {
            rel: "enclosure".to_string(),
            href: "https://example.com/atom1.mp3".to_string(),
            mime_type: Some("audio/mpeg".to_string()),
            length: Some("456".to_string()),
        }],
        published: Some(AtomTime { secs: 1_783_677_600, nanos: 0 }),
        updated: AtomTime { secs: 1_783_677_600, nanos: 0 },
        summary: Some("An atom episode.".to_string()),
        content: None,
    }
}

const RSS: &str = r#"<?xml version="1.0"?>
    <rss version="2.0"><channel><title>Show</title><link>https://example.com</link>
    <description>d</description>
    <item>
        <title>Ep 1</title>
        <guid>guid-1</guid>
        <enclosure url="https://example.com/1.mp3" length="123" type="audio/mpeg"/>
    </item>
    </channel></rss>"#;

const ATOM: &str = r#"<?xml version="1.0" encoding="utf-8"?>
    <feed xmlns="http://www.w3.org/2005/Atom">
      <title>Atom Show</title>
      <id>urn:show</id>
      <updated>2026-07-10T10:00:00Z</updated>
      <entry>
        <title>Atom Ep 1</title>
        <id>urn:ep:1</id>
        <updated>2026-07-10T10:00:00Z</updated>
        <published>2026-07-10T10:00:00Z</published>
        <summary>An atom episode.</summary>
        <link rel="enclosure" type="audio/mpeg" length="456"
              href="https://example.com/atom1.mp3"/>
      </entry>
    </feed>"#;

#[test]
fn parse_episodes_reads_strict_rss() {
    let eps = FeedParser::parse_episodes(7, RSS).unwrap();
    assert_eq!(eps.len(), 1);
    assert_eq!(eps[0].title, "Ep 1");
    assert_eq!(eps[0].guid, "guid-1");
    assert_eq!(eps[0].url, "https://example.com/1.mp3");
}

#[test]
fn parse_episodes_falls_back_to_atom() {
    let eps = FeedParser::parse_episodes(7, ATOM).unwrap();
    assert_eq!(eps.len(), 1, "the atom entry with an enclosure is parsed");
    assert_eq!(eps[0].title, "Atom Ep 1");
    assert_eq!(eps[0].guid, "urn:ep:1");
    assert_eq!(eps[0].url, "https://example.com/atom1.mp3");
    assert_eq!(eps[0].file_size_bytes, Some(456));
    assert_eq!(eps[0].file_type.as_deref(), Some("audio/mpeg"));
    assert_eq!(eps[0].description.as_deref(), Some("An atom episode."));
    assert_eq!(eps[0].published_at, 1_783_677_600_000_000_000);
}

#[test]
fn ingest_normalizes_entities_and_emoji_in_title_and_description() {
    let flag = "\u{1F3F3}\u{FE0F}\u{200D}\u{1F308}";
    let rss = format!(
        r#"<?xml version="1.0"?>
        <rss version="2.0"><channel><title>Q&amp;A Show</title><description>d</description>
        <link>https://example.com</link>
        <item>
            <title>It&#8217;s here &amp; now {flag}</title>
            <description>Ben &amp; Jerry&#x2019;s &mdash; a review</description>
            <guid>guid-1</guid>
            <enclosure url="https://example.com/1.mp3" length="123" type="audio/mpeg"/>
        </item>
        </channel></rss>"#
    );
    let eps = FeedParser::parse_episodes(1, &rss).unwrap();
    assert_eq!(eps[0].title, "It\u{2019}s here & now \u{1F3F3}\u{1F308}");
    assert_eq!(
        eps[0].description.as_deref(),
        Some("Ben & Jerry\u{2019}s \u{2014} a review")
    );
    let channel = FeedParser::parse_channel(&rss).unwrap();
    let sub = FeedParser::subscription_from_channel("https://x/feed".into(), &channel);
    assert_eq!(sub.title, "Q&A Show");
}

#[test]
fn parse_episodes_errors_on_neither_format() {
    let err = FeedParser::parse_episodes(1, "not xml at all").unwrap_err();
    assert!(err.contains("RSS") && err.contains("Atom"), "names both: {err}");
    assert!(err.starts_with("not valid RSS ("));
}

#[test]
fn parse_channel_reports_what_failed() {
    let err = FeedParser::parse_channel("not xml at all").unwrap_err();
    assert_eq!(err, "Failed to parse RSS feed");
    assert_eq!(FeedParser::parse_channel(RSS).unwrap().title, "Show");
}

#[test]
fn decoded_rss_items_become_episodes() {
    let eps = FeedParser::episodes_from_decoded(
        7,
        Ok(rss_channel("Show", vec![rss_item("Ep 1", None)])),
        Err("not an atom feed".to_string()),
    )
    .unwrap();
    assert_eq!(eps.len(), 1);
    assert_eq!(eps[0].subscription_id, 7);
    assert_eq!(eps[0].file_size_bytes, Some(123));
    assert_eq!(eps[0].file_type.as_deref(), Some("audio/mpeg"));
    assert_eq!(eps[0].duration_seconds, Some(5445));
    assert_eq!(eps[0].published_at, 1_749_528_000_000_000_000);
}

#[test]
fn decoded_atom_entries_are_the_fallback() {
    let eps = FeedParser::episodes_from_decoded(7, Err("bad rss".to_string()), Ok(vec![atom_entry()])).unwrap();
    assert_eq!(eps.len(), 1);
    assert_eq!(eps[0].url, "https://example.com/atom1.mp3");
    let err = FeedParser::episodes_from_decoded(1, Err("no rss tag".to_string()), Err("no feed tag".to_string()))
        .unwrap_err();
    assert_eq!(err, "not valid RSS (no rss tag) or Atom (no feed tag)");
}

#[test]
fn overflowing_durations_read_as_none() {
    assert_eq!(FeedParser::parse_duration("9223372036854775807:00"), None);
    assert_eq!(FeedParser::parse_duration("3000000000000000:00:00"), None);
}

#[test]
fn items_without_title_or_enclosure_are_skipped() {
    let mut no_title = rss_item("x", None);
    no_title.title = None;
    let mut no_audio = rss_item("y", None);
    no_audio.enclosure = None;
    let mut no_guid = rss_item("z", None);
    no_guid.guid = None;
    no_guid.pub_date = Some("yesterday".to_string());
    let eps = FeedParser::episodes_from_channel(1, &rss_channel("S", vec![no_title, no_audio, no_guid]));
    assert_eq!(eps.len(), 1);
    assert_eq!(eps[0].title, "z");
    assert_eq!(eps[0].guid, "https://example.com/1.mp3", "the enclosure URL stands in for a guid");
    assert!(eps[0].published_at > 1_700_000_000_000_000_000, "an unreadable date means now");
}

#[test]
fn refresh_counts_new_episodes_and_auto_queues_unplayed_ones() {
    let mut sub = Subscription::new("S".to_string(), "u".to_string());
    let mut ep = Episode::new(sub.id, "E".to_string(), "u".to_string(), "g".to_string(), 0);
    let d = ingest_decision(&sub, &ep, Ok(false));
    assert!(d.is_new && !d.auto_enqueue);
    sub.auto_queue = true;
    assert!(ingest_decision(&sub, &ep, Err("locked".to_string())).auto_enqueue);
    assert!(!ingest_decision(&sub, &ep, Ok(true)).is_new);
    ep.played = true;
    assert!(!ingest_decision(&sub, &ep, Ok(false)).auto_enqueue);
    let e: StateEvent<u32> = refresh_event(5, Ok(3));
    assert!(matches!(e, StateEvent::FeedRefreshCompleted { subscription_id: 5, new_episodes: 3 }));
    let e: StateEvent<u32> = refresh_event(5, Err("404".to_string()));
    assert!(matches!(e, StateEvent::FeedRefreshFailed { subscription_id: 5, ref error } if error == "404"));
}

#[test]
fn feeds_refresh_at_launch_then_on_the_interval() {
    assert!(!auto_refresh_due(2_999, None, 60));
    assert!(auto_refresh_due(3_000, None, 60));
    assert!(!auto_refresh_due(3_000 + 3_599_999, Some(3_000), 60));
    assert!(auto_refresh_due(3_000 + 3_600_000, Some(3_000), 60));
    assert!(!auto_refresh_due(u64::MAX, Some(3_000), 0), "an interval of 0 refreshes only at launch");
}

#[test]
fn a_refresh_announces_its_start() {
    let e: StateEvent<u32> = refresh_started(9);
    assert!(matches!(e, StateEvent::FeedRefreshStarted { subscription_id: 9 }));
}
