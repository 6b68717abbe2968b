use pdcst::search::{results_from_itunes, ITunesResult};

fn raw(name: Option<&str>, feed: Option<&str>) -> ITunesResult {
    ITunesResult {
        collection_name: name.map(String::from),
        artist_name: None,
        feed_url: feed.map(String::from),
        artwork_url_600: None,
        artwork_url_100: Some("https://img/100.jpg".to_string()),
        genres: None,
    }
}

#[test]
fn results_without_a_feed_are_dropped_and_gaps_filled() {
    let mut with_art = raw(Some("B"), Some("https://b/feed"));
    with_art.artwork_url_600 = Some("https://img/600.jpg".to_string());
    with_art.artist_name = Some("Host".to_string());
    with_art.genres = Some(vec!["News".to_string()]);
    let out = results_from_itunes(vec![
        raw(Some("A"), None),
        with_art,
        raw(None, Some("https://c/feed")),
    ]);
    assert_eq!(out.len(), 2);
    assert_eq!(out[0].title, "B");
    assert_eq!(out[0].author, "Host");
    assert_eq!(out[0].artwork_url.as_deref(), Some("https://img/600.jpg"));
    assert_eq!(out[0].genres, vec!["News".to_string()]);
    assert_eq!(out[0].description, None);
    assert_eq!(out[1].title, "Unknown");
    assert_eq!(out[1].author, "Unknown");
    assert_eq!(out[1].feed_url, "https://c/feed");
    assert_eq!(out[1].artwork_url.as_deref(), Some("https://img/100.jpg"));
    assert!(out[1].genres.is_empty());
}
