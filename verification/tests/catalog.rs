use pdcst::catalog::{
    add_new_feeds, forget_download, ingest_fetched, record_refresh, refresh_counts, sort_by_title,
    sort_episodes, EpisodeOrder,
};
use pdcst::models::{DownloadStatus, Episode, Subscription};

fn ep(sub: u128, guid: &str, published_at: i128) -> Episode {
    Episode::new(sub, guid.to_uppercase(), format!("https://x/{guid}.mp3"), guid.to_string(), published_at)
}

#[test]
fn a_refresh_adds_only_unknown_guids_and_queues_the_new_ones() {
    let mut sub = Subscription::new("S".to_string(), "u".to_string());
    sub.auto_queue = true;
    let mut stored = vec![ep(sub.id, "a", 1)];
    let mut played = ep(sub.id, "c", 3);
    played.played = true;
    let fresh = ep(sub.id, "b", 2);
    let fresh_id = fresh.id;
    let fetched = vec![ep(sub.id, "a", 1), fresh, played, ep(sub.id, "b", 2)];
    let report = ingest_fetched(&mut stored, fetched, &sub);
    assert_eq!(report.new_episodes, 2);
    let guids: Vec<&str> = stored.iter().map(|e| e.guid.as_str()).collect();
    assert_eq!(guids, vec!["a", "b", "c"]);
    assert_eq!(report.to_enqueue, vec![fresh_id]);

    sub.auto_queue = false;
    let report = ingest_fetched(&mut stored, vec![ep(sub.id, "d", 4)], &sub);
    assert_eq!(report.new_episodes, 1);
    assert!(report.to_enqueue.is_empty());
}

#[test]
fn episodes_list_newest_first_and_evict_least_recently_played_first() {
    let mut eps = vec![ep(1, "old", 10), ep(1, "new", 30), ep(1, "mid", 20), ep(1, "mid2", 20)];
    sort_episodes(EpisodeOrder::NewestFirst, &mut eps);
    let guids: Vec<&str> = eps.iter().map(|e| e.guid.as_str()).collect();
    assert_eq!(guids, vec!["new", "mid", "mid2", "old"]);

    let mut a = ep(1, "a", 0);
    a.created_at = 100;
    let mut b = ep(1, "b", 0);
    b.created_at = 50;
    b.last_played_at = Some(500);
    let mut c = ep(1, "c", 0);
    c.created_at = 200;
    let mut cached = vec![b, c, a];
    sort_episodes(EpisodeOrder::LeastRecentlyPlayed, &mut cached);
    let guids: Vec<&str> = cached.iter().map(|e| e.guid.as_str()).collect();
    assert_eq!(guids, vec!["a", "c", "b"]);
}

#[test]
fn a_vanished_download_is_forgotten() {
    let mut e = ep(1, "a", 0);
    e.download_status = DownloadStatus::Downloaded;
    e.local_path = Some("/tmp/a.mp3".to_string());
    e.playback_position_seconds = 42;
    forget_download(&mut e);
    assert_eq!(e.download_status, DownloadStatus::NotDownloaded);
    assert!(e.local_path.is_none());
    assert_eq!(e.playback_position_seconds, 42);
}

#[test]
fn subscription_rows_count_their_episodes() {
    let mut sub = Subscription::new("S".to_string(), "u".to_string());
    let mut played = ep(sub.id, "a", 10);
    played.played = true;
    let eps = vec![played, ep(sub.id, "b", 30), ep(sub.id, "c", 20)];
    refresh_counts(&mut sub, &eps);
    assert_eq!(sub.episode_count, 3);
    assert_eq!(sub.unplayed_count, 2);
    assert_eq!(sub.latest_episode_at, Some(30));
    refresh_counts(&mut sub, &Vec::new());
    assert_eq!(sub.episode_count, 0);
    assert_eq!(sub.latest_episode_at, None);
}

#[test]
fn a_refresh_records_or_clears_the_row_error() {
    let a = Subscription::new("A".to_string(), "ua".to_string());
    let b = Subscription::new("B".to_string(), "ub".to_string());
    let id = a.id;
    let mut subs = vec![a, b];
    record_refresh(&mut subs, id, &Some("404".to_string()));
    assert_eq!(subs[0].last_error.as_deref(), Some("404"));
    assert!(subs[1].last_error.is_none());
    record_refresh(&mut subs, id, &None);
    assert!(subs[0].last_error.is_none());
}

#[test]
fn an_import_skips_feeds_already_followed() {
    let mut subs = vec![Subscription::new("A".to_string(), "ua".to_string())];
    let found = vec![
        Subscription::new("A again".to_string(), "ua".to_string()),
        Subscription::new("B".to_string(), "ub".to_string()),
        Subscription::new("B twice".to_string(), "ub".to_string()),
    ];
    assert_eq!(add_new_feeds(&mut subs, found), 1);
    let urls: Vec<&str> = subs.iter().map(|s| s.rss_url.as_str()).collect();
    assert_eq!(urls, vec!["ua", "ub"]);
    assert_eq!(subs[1].title, "B");
}

#[test]
fn subscription_rows_list_by_title_with_counts() {
    let mut show = Subscription::new("Show".to_string(), "u1".to_string());
    let mut empty = Subscription::new("Empty".to_string(), "u2".to_string());
    let e1 = ep(show.id, "e1", 100);
    let mut e2 = ep(show.id, "e2", 200);
    e2.playback_position_seconds = 300;
    let mut e3 = ep(show.id, "e3", 50);
    e3.played = true;
    refresh_counts(&mut show, &vec![e1, e2, e3]);
    refresh_counts(&mut empty, &Vec::new());
    let mut rows = vec![show, empty];
    sort_by_title(&mut rows);
    assert_eq!(rows[0].title, "Empty");
    assert_eq!(rows[0].episode_count, 0);
    assert_eq!(rows[0].unplayed_count, 0);
    assert!(rows[0].latest_episode_at.is_none());
    assert_eq!(rows[1].title, "Show");
    assert_eq!(rows[1].episode_count, 3);
    assert_eq!(rows[1].unplayed_count, 2);
    assert!(rows[1].latest_episode_at.is_some());
}

#[test]
fn titles_sort_by_code_point_and_ties_keep_their_order() {
    let mut rows = vec![
        Subscription::new("b".to_string(), "1".to_string()),
        Subscription::new("B".to_string(), "2".to_string()),
        Subscription::new("ab".to_string(), "3".to_string()),
        Subscription::new("b".to_string(), "4".to_string()),
        Subscription::new("a".to_string(), "5".to_string()),
        Subscription::new("\u{e9}".to_string(), "6".to_string()),
    ];
    sort_by_title(&mut rows);
    let urls: Vec<&str> = rows.iter().map(|s| s.rss_url.as_str()).collect();
    assert_eq!(urls, vec!["2", "5", "3", "1", "4", "6"]);
}
