use pdcst::config::{
    default_auto_refresh, default_concurrent_downloads, default_concurrent_refreshes,
    default_max_cache_episodes, default_max_cache_megabytes, default_queue_max_depth,
    default_save_position_interval, default_true,
};
use pdcst::config::Settings;

#[test]
fn numeric_defaults() {
    assert_eq!(default_save_position_interval(), 10);
    assert_eq!(default_max_cache_episodes(), 50);
    assert_eq!(default_max_cache_megabytes(), 4096);
    assert_eq!(default_queue_max_depth(), 20);
    assert_eq!(default_auto_refresh(), 60);
    assert_eq!(default_concurrent_refreshes(), 5);
    assert_eq!(default_concurrent_downloads(), 3);
    assert!(default_true());
}

#[test]
fn settings_default_to_the_documented_values() {
    let s = Settings::default();
    assert!(s.delete_on_finish && s.smart_interleave && !s.auto_queue_to_top_default);
    assert_eq!(s.max_cache_episodes, 50);
    assert_eq!(s.max_cache_megabytes, 4096);
    assert_eq!(s.queue_max_depth, 20);
    assert_eq!(s.save_position_interval_seconds, 10);
    assert_eq!(s.auto_refresh_interval_minutes, 60);
    assert_eq!(s.max_concurrent_refreshes, 5);
    assert_eq!(s.max_concurrent_downloads, 3);
}
