use pdcst::text::{clean_feed_text, decode_entities, sanitize_display, truncate_display};
use unicode_width::UnicodeWidthStr;

#[test]
fn decodes_numeric_decimal_and_hex() {
    assert_eq!(decode_entities("it&#8217;s"), "it\u{2019}s");
    assert_eq!(decode_entities("it&#x2019;s"), "it\u{2019}s");
    assert_eq!(decode_entities("it&#X2019;s"), "it\u{2019}s");
}

#[test]
fn decodes_named_entities() {
    assert_eq!(decode_entities("Q&amp;A"), "Q&A");
    assert_eq!(decode_entities("a &mdash; b"), "a \u{2014} b");
    assert_eq!(decode_entities("caf&eacute;"), "caf\u{00E9}");
}

#[test]
fn unknown_entity_is_left_literal() {
    assert_eq!(decode_entities("a &weird; b &amp; c"), "a &weird; b & c");
}

#[test]
fn bare_ampersand_survives() {
    assert_eq!(decode_entities("rock & roll"), "rock & roll");
    assert_eq!(decode_entities("A&B and &"), "A&B and &");
}

#[test]
fn no_entities_is_identity() {
    assert_eq!(decode_entities("plain text"), "plain text");
    assert_eq!(
        decode_entities("caf\u{00E9} \u{65E5}\u{672C}"),
        "caf\u{00E9} \u{65E5}\u{672C}"
    );
}

#[test]
fn sanitize_strips_zwj_and_variation_selectors() {
    let flag = "\u{1F3F3}\u{FE0F}\u{200D}\u{1F308}";
    assert_eq!(sanitize_display(flag), "\u{1F3F3}\u{1F308}");
}

#[test]
fn sanitize_strips_skin_tone_modifiers() {
    let wave = "\u{1F44B}\u{1F3FD}";
    assert_eq!(sanitize_display(wave), "\u{1F44B}");
}

#[test]
fn sanitize_preserves_ordinary_utf8() {
    let s = "caf\u{00E9} \u{2014} \u{65E5}\u{672C}\u{8A9E} \u{2018}curly\u{2019}";
    assert_eq!(sanitize_display(s), s);
}

#[test]
fn truncate_is_column_and_grapheme_aware() {
    assert_eq!(truncate_display("hello", 10), "hello");
    assert_eq!(truncate_display("hello world", 8), "hello w\u{2026}");
    let cjk = "\u{65E5}\u{672C}\u{8A9E}";
    assert_eq!(truncate_display(cjk, 4).width(), 3);
}

#[test]
fn truncate_keeps_short_multibyte_intact() {
    assert_eq!(truncate_display("caf\u{00E9}", 10), "caf\u{00E9}");
}

#[test]
fn clean_feed_text_decodes_then_strips_joiners() {
    let flag = "Pride \u{1F3F3}\u{FE0F}\u{200D}\u{1F308} &amp; joy";
    assert_eq!(clean_feed_text(flag), "Pride \u{1F3F3}\u{1F308} & joy");
    assert_eq!(clean_feed_text("plain"), "plain");
}

// Edge cases of entity decoding.

#[test]
fn malformed_numeric_entities_stay_literal() {
    // No digits, a surrogate code point, and a value past u32.
    assert_eq!(decode_entities("&#;"), "&#;");
    assert_eq!(decode_entities("&#x;"), "&#x;");
    assert_eq!(decode_entities("&#xD800;"), "&#xD800;");
    assert_eq!(decode_entities("&#99999999999;"), "&#99999999999;");
    assert_eq!(decode_entities("&#x110000;"), "&#x110000;");
}

#[test]
fn entity_needs_a_body_and_a_semicolon() {
    assert_eq!(decode_entities("&;"), "&;");
    assert_eq!(decode_entities("&amp"), "&amp");
    // A bare `&` must not swallow the `;` of a later real entity.
    assert_eq!(decode_entities("X & Y &mdash;"), "X & Y \u{2014}");
}

#[test]
fn decoding_happens_once() {
    // `&amp;lt;` decodes to the text `&lt;`, not to `<`.
    assert_eq!(decode_entities("&amp;lt;"), "&lt;");
}

#[test]
fn every_named_entity_decodes() {
    let table = [
        ("amp", "&"),
        ("lt", "<"),
        ("gt", ">"),
        ("quot", "\""),
        ("apos", "'"),
        ("nbsp", "\u{00A0}"),
        ("rsquo", "\u{2019}"),
        ("lsquo", "\u{2018}"),
        ("rdquo", "\u{201D}"),
        ("ldquo", "\u{201C}"),
        ("mdash", "\u{2014}"),
        ("ndash", "\u{2013}"),
        ("hellip", "\u{2026}"),
        ("copy", "\u{00A9}"),
        ("reg", "\u{00AE}"),
        ("trade", "\u{2122}"),
        ("deg", "\u{00B0}"),
        ("eacute", "\u{00E9}"),
        ("egrave", "\u{00E8}"),
        ("agrave", "\u{00E0}"),
        ("uuml", "\u{00FC}"),
        ("ouml", "\u{00F6}"),
        ("auml", "\u{00E4}"),
        ("ccedil", "\u{00E7}"),
        ("ntilde", "\u{00F1}"),
        ("middot", "\u{00B7}"),
        ("bull", "\u{2022}"),
    ];
    for (name, value) in table {
        assert_eq!(decode_entities(&format!("[&{name};]")), format!("[{value}]"));
    }
}

#[test]
fn sanitizing_twice_changes_nothing() {
    let s = "\u{1F468}\u{200D}\u{1F469}\u{200D}\u{1F467} family \u{FE00}";
    let once = sanitize_display(s);
    assert_eq!(once, "\u{1F468}\u{1F469}\u{1F467} family ");
    assert_eq!(sanitize_display(&once), once);
}

#[test]
fn truncate_to_one_column_is_just_the_ellipsis() {
    assert_eq!(truncate_display("abc", 1), "\u{2026}");
}

#[test]
fn truncate_never_splits_a_cluster() {
    // `e` + combining acute is one cluster of width 1.
    let s = "e\u{0301}e\u{0301}e\u{0301}";
    assert_eq!(truncate_display(s, 2), "e\u{0301}\u{2026}");
}

#[test]
fn truncate_skips_a_wide_cluster_that_does_not_fit() {
    // Budget 2 columns: `a` fits, the two-column glyph would not.
    assert_eq!(truncate_display("a\u{65E5}bc", 3), "a\u{2026}");
    assert!(truncate_display("a\u{65E5}bc", 3).width() <= 3);
}

#[test]
fn truncate_display_to_no_columns_is_empty() {
    assert_eq!(truncate_display("ab", 0), "");
    assert_eq!(truncate_display("", 0), "");
    assert_eq!(truncate_display("ab", 1), "\u{2026}");
}
