use pdcst::config::Settings;
use pdcst::models::{Episode, Subscription};
use pdcst::state::View;
use pdcst::ui::{footer_line, help_line_is_heading, help_line_text, FooterLine, HELP_LINE_COUNT};
use pdcst::ui::{
    centered_percentages, count_label, description_snippet, empty_episodes_hint,
    empty_results_lines, episodes_pane_name, error_mark, feed_host, footer_help, format_duration,
    header_title, progress_label,
    is_queued, listen_marker, message_lines, pane_title, queue_position, results_title,
    search_box_title, settings_lines, subscription_marks, up_next_label, Ui,
};

#[test]
fn feed_host_extracts_the_domain() {
    assert_eq!(
        feed_host("https://feeds.simplecast.com/H1YsStlE").as_deref(),
        Some("feeds.simplecast.com")
    );
    assert_eq!(
        feed_host("http://rss.buzzsprout.com:8080/2506785.rss").as_deref(),
        Some("rss.buzzsprout.com")
    );
    assert_eq!(feed_host("").as_deref(), None);
}

#[test]
fn snippet_strips_tags_and_collapses_whitespace() {
    let html = "<p>Hello   <b>there</b>,\n  world</p>";
    assert_eq!(description_snippet(html, 100), "Hello there, world");
}

#[test]
fn snippet_truncates_with_ellipsis() {
    let long = "abcdefghijklmnopqrstuvwxyz";
    let out = description_snippet(long, 10);
    assert_eq!(out.chars().count(), 10);
    assert!(out.ends_with('\u{2026}'));
}

#[test]
fn snippet_empty_for_tags_only() {
    assert_eq!(description_snippet("<br/><hr/>", 50), "");
}

#[test]
fn feed_host_drops_user_info_and_handles_bare_hosts() {
    assert_eq!(
        feed_host("https://user:pw@example.org/feed").as_deref(),
        Some("example.org")
    );
    assert_eq!(feed_host("example.net/path").as_deref(), Some("example.net"));
    assert_eq!(feed_host("https:///nohost").as_deref(), None);
    assert_eq!(feed_host("a://b://c").as_deref(), Some("b"));
}

#[test]
fn snippet_trims_trailing_space_and_unicode_whitespace() {
    assert_eq!(description_snippet("  lead\u{00A0}\u{2003}tail \n", 50), "lead tail");
    assert_eq!(description_snippet("a <i>b</i>", 50), "a b");
}

#[test]
fn listen_markers() {
    assert_eq!(listen_marker(true, 30), "x");
    assert_eq!(listen_marker(false, 30), "~");
    assert_eq!(listen_marker(false, 0), " ");
    let _ui = Ui::new();
}

#[test]
fn header_and_footer_text() {
    assert_eq!(header_title(View::Episodes), " pdcst - 📚 Library ");
    assert_eq!(header_title(View::Settings), " pdcst - ⚙️  Settings ");
    assert_eq!(
        footer_help(View::Queue, false),
        "[Enter] Play  [x] Remove  [n] Skip  |  [?] Help  [q] Quit"
    );
    assert_eq!(
        footer_help(View::Search, true),
        "type to search  [Enter] Re-point feed  [Esc] Cancel  |  [?] Help  [q] Quit"
    );
    assert_eq!(up_next_label(0), "Up Next: 0");
    assert_eq!(up_next_label(1234), "Up Next: 1234");
}

#[test]
fn pane_and_row_labels() {
    assert_eq!(pane_title("Up Next", 3), " Up Next (3) ");
    let mut s = Subscription::new("Show".to_string(), "https://x".to_string());
    assert_eq!(subscription_marks(&s, None), "   ");
    assert_eq!(error_mark(&s), "  ");
    s.auto_queue = true;
    assert_eq!(subscription_marks(&s, Some(s.id)), ">Qv");
    s.auto_queue_to_top = true;
    s.last_error = Some("404".to_string());
    assert_eq!(subscription_marks(&s, Some(s.id + 1)), " Q^");
    assert_eq!(error_mark(&s), "! ");
    assert_eq!(count_label(3, "new"), "3 new");
    assert_eq!(count_label(-12, "eps"), "-12 eps");
    assert_eq!(count_label(i64::MIN, "x"), "-9223372036854775808 x");
    assert_eq!(episodes_pane_name(&Some(s)), "Show");
    assert_eq!(episodes_pane_name(&None), "Episodes");
    assert_eq!(empty_episodes_hint(false), "Select a podcast to see its episodes.");
    let ep = Episode::new(1, "E".to_string(), "u".to_string(), "g".to_string(), 0);
    let id = ep.id;
    let queue = vec![ep];
    assert!(is_queued(&queue, id));
    assert!(!is_queued(&queue, id.wrapping_add(1)));
    assert_eq!(queue_position(0), "  1. ");
    assert_eq!(queue_position(9), " 10. ");
    assert_eq!(queue_position(99), " 100. ");
}

#[test]
fn search_pane_text() {
    assert_eq!(search_box_title(false), " Search Podcasts (iTunes) ");
    assert_eq!(search_box_title(true), " Pick a feed to re-point (iTunes) ");
    assert_eq!(results_title(5, false), " Results (5) - Enter to subscribe ");
    assert_eq!(results_title(2, true), " Results (2) - Enter to re-point ");
    assert_eq!(empty_results_lines(true), ("Type to search for podcasts...", "Press Enter to search"));
    assert_eq!(empty_results_lines(false), ("No results found", "Try a different search term"));
}

#[test]
fn settings_view_lines() {
    let s = Settings::default();
    assert_eq!(
        settings_lines(&s),
        vec![
            "Downloads: 3 concurrent",
            "Refreshes: 5 concurrent",
            "Auto-refresh: every 60 min",
            "  Max depth: 20",
            "  Default direction: bottom",
            "  Smart interleave: true",
        ]
    );
    let manual = Settings { auto_refresh_interval_minutes: 0, auto_queue_to_top_default: true, ..s };
    let lines = settings_lines(&manual);
    assert_eq!(lines[2], "Auto-refresh: off (manual only)");
    assert_eq!(lines[4], "  Default direction: top");
}

#[test]
fn dialog_messages_split_into_lines() {
    assert_eq!(
        message_lines("Found 'A' by B.\nSwitch this feed to:\nhttps://x?"),
        vec!["Found 'A' by B.", "Switch this feed to:", "https://x?"]
    );
    assert_eq!(message_lines("a\r\nb\n"), vec!["a", "b"]);
    assert_eq!(message_lines("\n\nc"), vec!["", "", "c"]);
    assert!(message_lines("").is_empty());
    assert_eq!(centered_percentages(80), (10, 80, 10));
    assert_eq!(centered_percentages(25), (37, 25, 37));
}

#[test]
fn durations_read_as_clock_times() {
    assert_eq!(format_duration(0), "0:00");
    assert_eq!(format_duration(754), "12:34");
    assert_eq!(format_duration(2700), "45:00");
    assert_eq!(format_duration(3723), "1:02:03");
    assert_eq!(progress_label(754, 2700), "12:34 / 45:00");
    assert_eq!(progress_label(61, 0), "1:01");
}

#[test]
fn episode_list_rows() {
    assert_eq!(pdcst::ui::EpisodeList::row_text(true, "Ep", "12:34"), "[\u{2713}] Ep (12:34)");
    assert_eq!(pdcst::ui::EpisodeList::row_text(false, "Ep", ""), "[ ] Ep ()");
    assert!(pdcst::ui::EpisodeList::is_highlighted(2, 2));
    assert!(!pdcst::ui::EpisodeList::is_highlighted(1, 2));
}

#[test]
fn the_help_dialog_lists_its_sections() {
    assert_eq!(help_line_text(0), Some("Navigation:"));
    assert!(help_line_is_heading(0));
    assert!(!help_line_is_heading(1));
    assert!(help_line_text(HELP_LINE_COUNT - 1).is_some());
    assert_eq!(help_line_text(HELP_LINE_COUNT), None);
}

#[test]
fn the_footer_shows_a_notice_then_the_episode_then_idle() {
    assert_eq!(
        footer_line(&Some("stream dropped".to_string()), Some("Ep"), true),
        FooterLine::Notice("! stream dropped".to_string())
    );
    assert_eq!(
        footer_line(&None, Some("Ep"), false),
        FooterLine::NowPlaying { icon: "||", title: "Ep".to_string() }
    );
    assert_eq!(footer_line(&None, Some("Ep"), true), FooterLine::NowPlaying { icon: ">", title: "Ep".to_string() });
    assert_eq!(footer_line(&None, None, true), FooterLine::Idle("No episode playing"));
}

#[test]
fn snippets_are_one_clean_line() {
    let desc = "<p>Hello   <b>world</b>\n\t again</p>  ";
    assert_eq!(description_snippet(desc, 80), "Hello world again");
    assert_eq!(description_snippet(desc, 8), "Hello w\u{2026}");
    assert_eq!(description_snippet("  <br/> lead", 80), "lead");
    assert_eq!(description_snippet(desc, 0), "");
}
