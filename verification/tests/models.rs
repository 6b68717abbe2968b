use pdcst::models::{
    auto_queue_cycle, protocol_for_terminal, timestamp_ns, ArtworkProtocol, ArtworkRenderer,
    Subscription, SubscriptionPriority,
};

#[test]
fn subscription_priority_labels_round_trip() {
    for p in [
        SubscriptionPriority::High,
        SubscriptionPriority::Medium,
        SubscriptionPriority::Low,
    ] {
        assert_eq!(SubscriptionPriority::parse_label(p.as_str()), p);
    }
    assert_eq!(SubscriptionPriority::High.as_str(), "High");
    assert_eq!(SubscriptionPriority::parse_label("high"), SubscriptionPriority::Medium);
}

#[test]
fn new_subscription_defaults() {
    let a = Subscription::new("Show".to_string(), "https://example.com/f.xml".to_string());
    let b = Subscription::new("Show".to_string(), "https://example.com/f.xml".to_string());
    assert_eq!(a.title, "Show");
    assert_eq!(a.rss_url, "https://example.com/f.xml");
    assert!(!a.auto_queue && !a.auto_queue_to_top && !a.auto_download);
    assert_eq!(a.priority, SubscriptionPriority::Medium);
    assert_eq!(a.last_refreshed, a.created_at);
    assert!(a.categories.is_empty());
    assert_ne!(a.id, b.id);
    assert!(a.created_at > 1_577_836_800_000_000_000);
}

#[test]
fn timestamps_are_nanoseconds_since_the_epoch() {
    assert_eq!(timestamp_ns(1, 5), 1_000_000_005);
    assert_eq!(timestamp_ns(-1, 0), -1_000_000_000);
}

#[test]
fn auto_queue_cycles_off_bottom_top() {
    assert_eq!(auto_queue_cycle(false, false), (true, false, "auto-queue: bottom"));
    assert_eq!(auto_queue_cycle(false, true), (true, false, "auto-queue: bottom"));
    assert_eq!(auto_queue_cycle(true, false), (true, true, "auto-queue: top"));
    assert_eq!(auto_queue_cycle(true, true), (false, false, "auto-queue: off"));
}

#[test]
fn terminal_protocol_detection() {
    assert_eq!(
        protocol_for_terminal(Some("iTerm.app"), Some("xterm-256color"), false),
        ArtworkProtocol::ITerm2
    );
    assert_eq!(
        protocol_for_terminal(None, Some("xterm-kitty"), false),
        ArtworkProtocol::Kitty
    );
    assert_eq!(
        protocol_for_terminal(Some("Apple_Terminal"), Some("xterm-256color"), false),
        ArtworkProtocol::Sixel
    );
    assert_eq!(protocol_for_terminal(None, Some("screen"), true), ArtworkProtocol::Kitty);
    assert_eq!(protocol_for_terminal(None, None, false), ArtworkProtocol::Unsupported);
    assert_eq!(protocol_for_terminal(None, Some("xter"), false), ArtworkProtocol::Unsupported);
}

#[test]
fn renderer_supports_artwork_unless_unsupported() {
    assert!(ArtworkRenderer::new(ArtworkProtocol::Kitty).supports_artwork());
    assert!(!ArtworkRenderer::new(ArtworkProtocol::Unsupported).supports_artwork());
}
