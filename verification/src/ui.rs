//! What the screen says: the header and footer lines, pane titles, row
//! markers and labels, listen-state markers, feed hosts and one-line
//! description previews. Widgets, colours and layout are the terminal front
//! end's; every piece of text it draws is decided here.
use crate::config::Settings;
use crate::models::{Episode, Subscription};
use crate::state::View;
use crate::text::{
    chars_of, copy_range, decimal, display_width, owned, push_decimal, push_str_chars, string_from_chars,
    truncate_display, truncated,
};
use vstd::view::View as _;
use vstd::prelude::*;

verus! {

/// The renderer for the terminal UI. Drawing itself happens in the terminal
/// front end; this type carries no state.
pub struct Ui;

impl Ui {
    pub fn new() -> (ui: Ui)
        ensures
            ui == Ui,
    {
        Ui
    }
}

// ---------------------------------------------------------------------------
// Listen-state marker.

/// The one-character marker of an episode row: `x` played, `~` in progress
/// (a saved resume position), blank otherwise.
pub open spec fn listen_marker_text(played: bool, playback_position_seconds: i64) -> Seq<char> {
    if played {
        "x"@
    } else if playback_position_seconds > 0 {
        "~"@
    } else {
        " "@
    }
}

pub fn listen_marker(played: bool, playback_position_seconds: i64) -> (m: &'static str)
    ensures
        m@ == listen_marker_text(played, playback_position_seconds),
{
    if played {
        "x"
    } else if playback_position_seconds > 0 {
        "~"
    } else {
        " "
    }
}

// ---------------------------------------------------------------------------
// Whitespace.

/// The Unicode `White_Space` property (what `char::is_whitespace` tests).
pub open spec fn is_white_space(c: char) -> bool {
    ('\u{9}' <= c && c <= '\u{D}') || c == ' ' || c == '\u{85}' || c == '\u{A0}' || c
        == '\u{1680}' || ('\u{2000}' <= c && c <= '\u{200A}') || c == '\u{2028}' || c
        == '\u{2029}' || c == '\u{202F}' || c == '\u{205F}' || c == '\u{3000}'
}

pub fn is_white_space_char(c: char) -> (r: bool)
    ensures
        r == is_white_space(c),
{
    ('\u{9}' <= c && c <= '\u{D}') || c == ' ' || c == '\u{85}' || c == '\u{A0}' || c
        == '\u{1680}' || ('\u{2000}' <= c && c <= '\u{200A}') || c == '\u{2028}' || c
        == '\u{2029}' || c == '\u{202F}' || c == '\u{205F}' || c == '\u{3000}'
}

/// The text with trailing white space removed.
pub open spec fn trim_end(s: Seq<char>) -> Seq<char>
    decreases s.len(),
{
    if s.len() > 0 && is_white_space(s.last()) {
        trim_end(s.drop_last())
    } else {
        s
    }
}

// ---------------------------------------------------------------------------
// Description snippet.

/// State of the markup scan: text so far, inside a tag, last output was a
/// collapsed space.
pub struct ScanState {
    pub out: Seq<char>,
    pub in_tag: bool,
    pub last_space: bool,
}

/// One character of the markup scan: `<` opens a tag and `>` closes one (both
/// dropped), characters inside a tag are dropped, a run of white space becomes
/// one space (never at the start), and anything else is kept.
pub open spec fn scan_step(st: ScanState, c: char) -> ScanState {
    if c == '<' {
        ScanState { in_tag: true, ..st }
    } else if c == '>' {
        ScanState { in_tag: false, ..st }
    } else if st.in_tag {
        st
    } else if is_white_space(c) {
        if !st.last_space && st.out.len() > 0 {
            ScanState { out: st.out.push(' '), last_space: true, ..st }
        } else {
            st
        }
    } else {
        ScanState { out: st.out.push(c), last_space: false, ..st }
    }
}

pub open spec fn scan(s: Seq<char>) -> ScanState
    decreases s.len(),
{
    if s.len() == 0 {
        ScanState { out: Seq::empty(), in_tag: false, last_space: false }
    } else {
        scan_step(scan(s.drop_last()), s.last())
    }
}

/// A one-line, tag-stripped preview of a description: markup removed,
/// white space collapsed, trailing white space trimmed, then clipped to `max`
/// display columns.
pub open spec fn snippet(desc: Seq<char>, max: nat) -> Seq<char> {
    truncated(trim_end(scan(desc).out), max)
}

/// A single clean line of text: no markup brackets, no white space but
/// single spaces between words, and no leading space.
pub open spec fn is_clean_line(s: Seq<char>) -> bool {
    &&& forall|i: int| 0 <= i < s.len() ==> #[trigger] s[i] != '<' && s[i] != '>'
    &&& forall|i: int| 0 <= i < s.len() && is_white_space(#[trigger] s[i]) ==> s[i] == ' '
    &&& s.len() > 0 ==> s[0] != ' '
    &&& forall|i: int| 0 <= i < s.len() - 1 ==> !(#[trigger] s[i] == ' ' && s[i + 1] == ' ')
}

proof fn lemma_scan_clean(s: Seq<char>)
    ensures
        is_clean_line(scan(s).out),
        scan(s).last_space == (scan(s).out.len() > 0 && scan(s).out.last() == ' '),
    decreases s.len(),
{
    if s.len() > 0 {
        lemma_scan_clean(s.drop_last());
        let st = scan(s.drop_last());
        let o = scan(s).out;
        if o.len() > st.out.len() {
            assert(o == st.out.push(o.last()));
            assert forall|i: int| 0 <= i < o.len() - 1 implies !(#[trigger] o[i] == ' ' && o[i + 1] == ' ') by {
                if i + 1 == o.len() - 1 {
                    assert(o[i] == st.out[i]);
                } else {
                    assert(o[i] == st.out[i]);
                    assert(o[i + 1] == st.out[i + 1]);
                }
            }
            assert forall|i: int| 0 <= i < o.len() && is_white_space(#[trigger] o[i]) implies o[i] == ' ' by {
                if i < st.out.len() {
                    assert(o[i] == st.out[i]);
                }
            }
            assert forall|i: int| 0 <= i < o.len() implies #[trigger] o[i] != '<' && o[i] != '>' by {
                if i < st.out.len() {
                    assert(o[i] == st.out[i]);
                }
            }
        }
    }
}

proof fn lemma_trim_end_prefix(s: Seq<char>)
    ensures
        trim_end(s).len() <= s.len(),
        trim_end(s) == s.take(trim_end(s).len() as int),
    decreases s.len(),
{
    if s.len() > 0 && is_white_space(s.last()) {
        lemma_trim_end_prefix(s.drop_last());
        assert(s.drop_last().take(trim_end(s).len() as int) == s.take(trim_end(s).len() as int));
    } else {
        assert(s.take(s.len() as int) == s);
    }
}

proof fn lemma_clean_prefix(s: Seq<char>, k: int)
    requires
        is_clean_line(s),
        0 <= k <= s.len(),
    ensures
        is_clean_line(s.take(k)),
        is_clean_line(s.take(k) + seq!['\u{2026}']),
{
    let p = s.take(k);
    let q = p + seq!['\u{2026}'];
    assert forall|i: int| 0 <= i < p.len() implies #[trigger] p[i] != '<' && p[i] != '>' by {
        assert(p[i] == s[i]);
    }
    assert forall|i: int| 0 <= i < p.len() - 1 implies !(#[trigger] p[i] == ' ' && p[i + 1] == ' ') by {
        assert(p[i] == s[i]);
        assert(p[i + 1] == s[i + 1]);
    }
    assert forall|i: int| 0 <= i < q.len() implies #[trigger] q[i] != '<' && q[i] != '>' by {
        if i < p.len() {
            assert(q[i] == s[i]);
        }
    }
    assert forall|i: int| 0 <= i < q.len() && is_white_space(#[trigger] q[i]) implies q[i] == ' ' by {
        if i < p.len() {
            assert(q[i] == s[i]);
        }
    }
    assert forall|i: int| 0 <= i < q.len() - 1 implies !(#[trigger] q[i] == ' ' && q[i + 1] == ' ') by {
        assert(q[i] == s[i]);
        if i + 1 < p.len() {
            assert(q[i + 1] == s[i + 1]);
        }
    }
    if p.len() > 0 {
        assert(q[0] == s[0]);
    }
}

pub fn description_snippet(desc: &str, max: usize) -> (out: String)
    ensures
        out@ == snippet(desc@, max as nat),
        is_clean_line(out@),
{
    let v = chars_of(desc);
    let mut out: Vec<char> = Vec::new();
    let mut in_tag = false;
    let mut last_was_space = false;
    let mut i: usize = 0;
    while i < v.len()
        invariant
            0 <= i <= v@.len(),
            v@ == desc@,
            scan(v@.take(i as int)) == (ScanState {
                out: out@,
                in_tag: in_tag,
                last_space: last_was_space,
            }),
        decreases v@.len() - i,
    {
        let c = v[i];
        assert(v@.take(i + 1).drop_last() == v@.take(i as int));
        assert(v@.take(i + 1).last() == c);
        if c == '<' {
            in_tag = true;
        } else if c == '>' {
            in_tag = false;
        } else if in_tag {
        } else if is_white_space_char(c) {
            if !last_was_space && out.len() > 0 {
                out.push(' ');
                last_was_space = true;
            }
        } else {
            out.push(c);
            last_was_space = false;
        }
        i = i + 1;
    }
    assert(v@.take(v@.len() as int) == v@);
    let mut end = out.len();
    assert(out@.take(out@.len() as int) == out@);
    while end > 0 && is_white_space_char(out[end - 1])
        invariant
            0 <= end <= out@.len(),
            trim_end(out@.take(end as int)) == trim_end(out@),
        decreases end,
    {
        assert(out@.take(end as int).drop_last() == out@.take(end - 1));
        end = end - 1;
    }
    proof {
        if end > 0 {
            assert(out@.take(end as int).last() == out@[end - 1]);
        }
    }
    let trimmed_chars = copy_range(&out, 0, end);
    assert(trimmed_chars@ == out@.take(end as int));
    let trimmed = string_from_chars(&trimmed_chars);
    let r = truncate_display(trimmed.as_str(), max);
    proof {
        let t = trim_end(scan(desc@).out);
        lemma_scan_clean(desc@);
        lemma_trim_end_prefix(scan(desc@).out);
        lemma_clean_prefix(scan(desc@).out, t.len() as int);
        assert(trimmed@ == t);
        if max > 0 && display_width(t) > max {
            let k = choose|k: int| 0 <= k <= t.len() && r@ == t.take(k) + seq!['\u{2026}'];
            assert(t.take(k) == scan(desc@).out.take(k));
            lemma_clean_prefix(scan(desc@).out, k);
        } else if max == 0 {
            assert(r@ == Seq::<char>::empty());
        }
    }
    r
}


// ---------------------------------------------------------------------------
// Feed host.

/// `s` holds the scheme separator `://` at index `i`.
pub open spec fn is_sep_at(s: Seq<char>, i: int) -> bool {
    0 <= i && i + 3 <= s.len() && s[i] == ':' && s[i + 1] == '/' && s[i + 2] == '/'
}

/// Index of the first `://` at or after `i`, or -1 when there is none.
pub open spec fn first_sep_from(s: Seq<char>, i: int) -> int
    decreases s.len() - i,
{
    if i < 0 || i + 3 > s.len() {
        -1
    } else if is_sep_at(s, i) {
        i
    } else {
        first_sep_from(s, i + 1)
    }
}

/// The second piece of `s` split on `://` (what follows the scheme), or the
/// whole text when it has no `://`.
pub open spec fn after_scheme(s: Seq<char>) -> Seq<char> {
    let p = first_sep_from(s, 0);
    if p < 0 {
        s
    } else {
        let rest = s.skip(p + 3);
        let q = first_sep_from(rest, 0);
        if q < 0 {
            rest
        } else {
            rest.take(q)
        }
    }
}

/// The text before the first `c` (all of it when there is none).
pub open spec fn before_first(s: Seq<char>, c: char) -> Seq<char>
    decreases s.len(),
{
    if s.len() == 0 || s[0] == c {
        Seq::empty()
    } else {
        seq![s[0]] + before_first(s.drop_first(), c)
    }
}

/// The text after the last `c` (all of it when there is none).
pub open spec fn after_last(s: Seq<char>, c: char) -> Seq<char>
    decreases s.len(),
{
    if s.len() == 0 {
        s
    } else if s.last() == c {
        Seq::empty()
    } else {
        after_last(s.drop_last(), c).push(s.last())
    }
}

/// The host of a feed URL: after the scheme, before the path, without any
/// user info or port.
pub open spec fn host_of(url: Seq<char>) -> Seq<char> {
    before_first(after_last(before_first(after_scheme(url), '/'), '@'), ':')
}

proof fn lemma_first_sep_skip(s: Seq<char>, i: int, j: int)
    requires
        0 <= i <= j,
        forall|k: int| i <= k < j ==> !is_sep_at(s, k),
        j + 3 <= s.len() || j == i,
    ensures
        first_sep_from(s, i) == first_sep_from(s, j),
    decreases j - i,
{
    if i < j {
        lemma_first_sep_skip(s, i + 1, j);
    }
}

proof fn lemma_first_sep_none(s: Seq<char>, i: int)
    requires
        0 <= i,
        forall|k: int| i <= k && k + 3 <= s.len() ==> !is_sep_at(s, k),
    ensures
        first_sep_from(s, i) == -1,
    decreases s.len() - i,
{
    if i + 3 <= s.len() {
        lemma_first_sep_none(s, i + 1);
    }
}

/// Index of the first `://` in `v`, if any.
fn find_sep(v: &Vec<char>) -> (r: Option<usize>)
    ensures
        match r {
            Some(p) => first_sep_from(v@, 0) == p as int && p + 3 <= v@.len(),
            None => first_sep_from(v@, 0) == -1,
        },
{
    let mut j: usize = 0;
    while j < v.len() && v.len() - j >= 3
        invariant
            forall|k: int| 0 <= k < j ==> !is_sep_at(v@, k),
            j <= v@.len(),
        decreases v@.len() - j,
    {
        if v[j] == ':' && v[j + 1] == '/' && v[j + 2] == '/' {
            proof {
                lemma_first_sep_skip(v@, 0, j as int);
            }
            return Some(j);
        }
        j = j + 1;
    }
    proof {
        lemma_first_sep_none(v@, 0);
    }
    None
}

proof fn lemma_before_first(s: Seq<char>, c: char, k: int)
    requires
        0 <= k <= s.len(),
        forall|j: int| 0 <= j < k ==> s[j] != c,
        k == s.len() || s[k] == c,
    ensures
        before_first(s, c) == s.take(k),
    decreases k,
{
    if k > 0 {
        lemma_before_first(s.drop_first(), c, k - 1);
        assert(seq![s[0]] + s.drop_first().take(k - 1) == s.take(k));
    }
}

/// The characters of `v` before the first `c`.
fn chars_before_first(v: &Vec<char>, c: char) -> (r: Vec<char>)
    ensures
        r@ == before_first(v@, c),
{
    let mut k: usize = 0;
    while k < v.len() && v[k] != c
        invariant
            k <= v@.len(),
            forall|j: int| 0 <= j < k ==> v@[j] != c,
        decreases v@.len() - k,
    {
        k = k + 1;
    }
    proof {
        lemma_before_first(v@, c, k as int);
    }
    copy_range(v, 0, k)
}

proof fn lemma_after_last(s: Seq<char>, c: char, k: int)
    requires
        0 <= k <= s.len(),
        forall|j: int| k <= j < s.len() ==> s[j] != c,
        k == 0 || s[k - 1] == c,
    ensures
        after_last(s, c) == s.skip(k),
    decreases s.len() - k,
{
    if s.len() > k {
        lemma_after_last(s.drop_last(), c, k);
        assert(s.drop_last().skip(k).push(s.last()) == s.skip(k));
    } else if s.len() > 0 {
        assert(s.last() == c);
    }
}

/// The characters of `v` after the last `c`.
fn chars_after_last(v: &Vec<char>, c: char) -> (r: Vec<char>)
    ensures
        r@ == after_last(v@, c),
{
    let mut k: usize = v.len();
    while k > 0 && v[k - 1] != c
        invariant
            k <= v@.len(),
            forall|j: int| k <= j < v@.len() ==> v@[j] != c,
        decreases k,
    {
        k = k - 1;
    }
    proof {
        lemma_after_last(v@, c, k as int);
    }
    copy_range(v, k, v.len())
}

/// The host of a feed URL (e.g. `feeds.simplecast.com`), for the search-result
/// metadata line; `None` for a URL without a clear host.
pub fn feed_host(url: &str) -> (r: Option<String>)
    ensures
        match r {
            Some(h) => h@ == host_of(url@) && h@.len() > 0,
            None => host_of(url@).len() == 0,
        },
{
    let v = chars_of(url);
    let n = v.len();
    let found = find_sep(&v);
    let scheme_rest = match found {
        None => v,
        Some(p) => {
            assert(p + 3 <= v@.len());
            let rest = copy_range(&v, p + 3, n);
            assert(rest@ == v@.skip(p + 3));
            match find_sep(&rest) {
                None => rest,
                Some(q) => {
                    let piece = copy_range(&rest, 0, q);
                    assert(piece@ == rest@.take(q as int));
                    piece
                },
            }
        },
    };
    assert(scheme_rest@ == after_scheme(url@));
    let path_cut = chars_before_first(&scheme_rest, '/');
    let user_cut = chars_after_last(&path_cut, '@');
    let host = chars_before_first(&user_cut, ':');
    if host.len() == 0 {
        None
    } else {
        Some(string_from_chars(&host))
    }
}

// ---------------------------------------------------------------------------
// Numbers in text.

/// `n` in decimal, with a leading `-` when negative.
pub open spec fn signed_decimal(n: int) -> Seq<char> {
    if n < 0 {
        seq!['-'] + decimal((-n) as nat)
    } else {
        decimal(n as nat)
    }
}

fn push_signed(out: &mut Vec<char>, n: i64)
    ensures
        final(out)@ == old(out)@ + signed_decimal(n as int),
{
    if n < 0 {
        out.push('-');
        let m: u64 = (0i128 - (n as i128)) as u64;
        push_decimal(out, m);
        assert(old(out)@.push('-') + decimal(m as nat) =~= old(out)@ + (seq!['-'] + decimal(
            m as nat,
        )));
    } else {
        push_decimal(out, n as u64);
    }
}

// ---------------------------------------------------------------------------
// Header and footer.

/// The header's name for a view; the two library panes share one.
pub open spec fn view_label_text(view: View) -> Seq<char> {
    match view {
        View::Subscriptions | View::Episodes => "\u{1f4da} Library"@,
        View::Queue => "\u{1f4cb} Queue"@,
        View::Search => "\u{1f50d} Search"@,
        View::Settings => "\u{2699}\u{fe0f}  Settings"@,
    }
}

pub fn view_label(view: View) -> (s: &'static str)
    ensures
        s@ == view_label_text(view),
{
    match view {
        View::Subscriptions | View::Episodes => "\u{1f4da} Library",
        View::Queue => "\u{1f4cb} Queue",
        View::Search => "\u{1f50d} Search",
        View::Settings => "\u{2699}\u{fe0f}  Settings",
    }
}

/// The header line: the program and the focused view.
pub fn header_title(view: View) -> (s: String)
    ensures
        s@ == " pdcst - "@ + view_label_text(view) + " "@,
{
    let mut v = chars_of(" pdcst - ");
    push_str_chars(&mut v, view_label(view));
    push_str_chars(&mut v, " ");
    string_from_chars(&v)
}

/// The footer's key hints for a view; the Search view hints differently
/// while it is re-pointing a feed.
pub open spec fn footer_hint_text(view: View, fixing_feed: bool) -> Seq<char> {
    match view {
        View::Subscriptions => "[l/Enter] Episodes  [A] Auto-queue  [O] Order  [S] Seen all  [r] Refresh  [u] Unsub"@,
        View::Episodes => "[Enter] Play  [h/Esc] Back  [a] Queue  [d] Download  [s] Played  [S] Seen"@,
        View::Queue => "[Enter] Play  [x] Remove  [n] Skip"@,
        View::Search => if fixing_feed {
            "type to search  [Enter] Re-point feed  [Esc] Cancel"@
        } else {
            "type to search  [Enter] Search/Subscribe  [Esc] Back"@
        },
        View::Settings => "config via --config <file>"@,
    }
}

pub fn footer_hint(view: View, fixing_feed: bool) -> (s: &'static str)
    ensures
        s@ == footer_hint_text(view, fixing_feed),
{
    match view {
        View::Subscriptions => "[l/Enter] Episodes  [A] Auto-queue  [O] Order  [S] Seen all  [r] Refresh  [u] Unsub",
        View::Episodes => "[Enter] Play  [h/Esc] Back  [a] Queue  [d] Download  [s] Played  [S] Seen",
        View::Queue => "[Enter] Play  [x] Remove  [n] Skip",
        View::Search => if fixing_feed {
            "type to search  [Enter] Re-point feed  [Esc] Cancel"
        } else {
            "type to search  [Enter] Search/Subscribe  [Esc] Back"
        },
        View::Settings => "config via --config <file>",
    }
}

/// The footer's help line: the view's hints, then the keys that work
/// everywhere.
pub fn footer_help(view: View, fixing_feed: bool) -> (s: String)
    ensures
        s@ == footer_hint_text(view, fixing_feed) + "  |  [?] Help  [q] Quit"@,
{
    let mut v = chars_of(footer_hint(view, fixing_feed));
    push_str_chars(&mut v, "  |  [?] Help  [q] Quit");
    string_from_chars(&v)
}

/// The queue depth shown in the footer from every view.
pub fn up_next_label(queue_len: usize) -> (s: String)
    ensures
        s@ == "Up Next: "@ + decimal(queue_len as nat),
{
    let mut v = chars_of("Up Next: ");
    push_decimal(&mut v, queue_len as u64);
    string_from_chars(&v)
}

/// A minute or second count in two digits (`07`).
pub open spec fn two_digits(n: nat) -> Seq<char> {
    if n < 10 {
        seq!['0'] + decimal(n)
    } else {
        decimal(n)
    }
}

/// A duration as `M:SS`, or `H:MM:SS` from an hour up (`12:34`, `1:02:03`).
pub open spec fn duration_text(secs: nat) -> Seq<char> {
    let h = secs / 3600;
    let m = (secs % 3600) / 60;
    let s = secs % 60;
    if h > 0 {
        decimal(h) + ":"@ + two_digits(m) + ":"@ + two_digits(s)
    } else {
        decimal(m) + ":"@ + two_digits(s)
    }
}

fn push_two_digits(out: &mut Vec<char>, n: u64)
    requires
        n < 100,
    ensures
        final(out)@ == old(out)@ + two_digits(n as nat),
{
    if n < 10 {
        out.push('0');
        push_decimal(out, n);
        assert(old(out)@.push('0') + decimal(n as nat) =~= old(out)@ + (seq!['0'] + decimal(
            n as nat,
        )));
    } else {
        push_decimal(out, n);
    }
}

pub fn format_duration(secs: u64) -> (s: String)
    ensures
        s@ == duration_text(secs as nat),
{
    let h = secs / 3600;
    let m = (secs % 3600) / 60;
    let sec = secs % 60;
    let mut v: Vec<char> = Vec::new();
    if h > 0 {
        push_decimal(&mut v, h);
        push_str_chars(&mut v, ":");
        push_two_digits(&mut v, m);
    } else {
        push_decimal(&mut v, m);
    }
    push_str_chars(&mut v, ":");
    push_two_digits(&mut v, sec);
    proof {
        if h <= 0 {
            assert(Seq::<char>::empty() + decimal(m as nat) =~= decimal(m as nat));
        } else {
            assert(Seq::<char>::empty() + decimal(h as nat) =~= decimal(h as nat));
        }
    }
    string_from_chars(&v)
}

/// The progress bar's label: elapsed over total (`12:34 / 45:00`), or the
/// elapsed time alone while the total is unknown.
pub fn progress_label(elapsed: u64, total: u64) -> (s: String)
    ensures
        s@ == if total > 0 {
            duration_text(elapsed as nat) + " / "@ + duration_text(total as nat)
        } else {
            duration_text(elapsed as nat)
        },
{
    let e = format_duration(elapsed);
    if total > 0 {
        let mut v = chars_of(e.as_str());
        push_str_chars(&mut v, " / ");
        let t = format_duration(total);
        push_str_chars(&mut v, t.as_str());
        string_from_chars(&v)
    } else {
        e
    }
}

// ---------------------------------------------------------------------------
// Panes and rows.

/// A bordered pane's title: its name and how many rows it holds.
pub fn pane_title(name: &str, count: usize) -> (s: String)
    ensures
        s@ == " "@ + name@ + " ("@ + decimal(count as nat) + ") "@,
{
    let mut v = chars_of(" ");
    push_str_chars(&mut v, name);
    push_str_chars(&mut v, " (");
    push_decimal(&mut v, count as u64);
    push_str_chars(&mut v, ") ");
    string_from_chars(&v)
}

/// The leading markers of a subscription row: `>` on the feed whose episodes
/// are shown, then the auto-queue direction (`Qv` bottom, `Q^` top).
pub open spec fn subscription_marks_text(sub: Subscription, current: Option<u128>) -> Seq<char> {
    (if current == Some(sub.id) {
        ">"@
    } else {
        " "@
    }) + if !sub.auto_queue {
        "  "@
    } else if sub.auto_queue_to_top {
        "Q^"@
    } else {
        "Qv"@
    }
}

pub fn subscription_marks(sub: &Subscription, current: Option<u128>) -> (s: String)
    ensures
        s@ == subscription_marks_text(*sub, current),
{
    let mut v = chars_of(if current == Some(sub.id) { ">" } else { " " });
    let aq = if !sub.auto_queue {
        "  "
    } else if sub.auto_queue_to_top {
        "Q^"
    } else {
        "Qv"
    };
    push_str_chars(&mut v, aq);
    string_from_chars(&v)
}

/// The error marker of a subscription row: `!` when its last refresh failed.
pub fn error_mark(sub: &Subscription) -> (s: &'static str)
    ensures
        s@ == if sub.last_error is Some {
            "! "@
        } else {
            "  "@
        },
{
    if sub.last_error.is_some() {
        "! "
    } else {
        "  "
    }
}

/// A count and its unit, such as `3 new` or `12 eps`.
pub fn count_label(n: i64, unit: &str) -> (s: String)
    ensures
        s@ == signed_decimal(n as int) + " "@ + unit@,
{
    let mut v: Vec<char> = Vec::new();
    push_signed(&mut v, n);
    push_str_chars(&mut v, " ");
    push_str_chars(&mut v, unit);
    string_from_chars(&v)
}

/// Whether the episode `id` is in the queue (the "queued" badge).
pub fn is_queued(queue: &Vec<Episode>, id: u128) -> (r: bool)
    ensures
        r == exists|i: int| 0 <= i < queue@.len() && #[trigger] queue@[i].id == id,
{
    let mut i: usize = 0;
    while i < queue.len()
        invariant
            0 <= i <= queue@.len(),
            forall|j: int| 0 <= j < i ==> #[trigger] queue@[j].id != id,
        decreases queue@.len() - i,
    {
        if queue[i].id == id {
            return true;
        }
        i = i + 1;
    }
    false
}

/// The Episodes pane's name: the feed being browsed, or `Episodes`.
pub fn episodes_pane_name(current: &Option<Subscription>) -> (s: String)
    ensures
        s@ == match current {
            Some(sub) => sub.title@,
            None => "Episodes"@,
        },
{
    match current {
        Some(sub) => owned(sub.title.as_str()),
        None => owned("Episodes"),
    }
}

/// What an empty Episodes pane says.
pub fn empty_episodes_hint(has_subscription: bool) -> (s: &'static str)
    ensures
        s@ == if has_subscription {
            "No episodes yet. Press 'r' to refresh this feed."@
        } else {
            "Select a podcast to see its episodes."@
        },
{
    if has_subscription {
        "No episodes yet. Press 'r' to refresh this feed."
    } else {
        "Select a podcast to see its episodes."
    }
}

/// The position label of the `index`-th queue row (counted from 0): the
/// 1-based position, right-aligned in two columns, as in ` 3. `.
pub open spec fn queue_position_text(index: nat) -> Seq<char> {
    let d = decimal(index + 1);
    " "@ + (if d.len() < 2 {
        " "@
    } else {
        Seq::empty()
    }) + d + ". "@
}

pub fn queue_position(index: usize) -> (s: String)
    requires
        index < u64::MAX,
    ensures
        s@ == queue_position_text(index as nat),
{
    let mut v = chars_of(" ");
    let n: u64 = index as u64 + 1;
    proof {
        lemma_decimal_len(n as nat);
    }
    if n < 10 {
        push_str_chars(&mut v, " ");
    } else {
        assert(v@ =~= " "@ + Seq::<char>::empty());
    }
    push_decimal(&mut v, n);
    push_str_chars(&mut v, ". ");
    string_from_chars(&v)
}

/// A number below ten has one digit; ten or more has at least two.
proof fn lemma_decimal_len(n: nat)
    ensures
        (decimal(n).len() < 2) == (n < 10),
    decreases n,
{
    if n >= 10 {
        lemma_decimal_len(n / 10);
    }
}

/// The search box's title; feed recovery turns it into a picker.
pub fn search_box_title(fixing_feed: bool) -> (s: &'static str)
    ensures
        s@ == if fixing_feed {
            " Pick a feed to re-point (iTunes) "@
        } else {
            " Search Podcasts (iTunes) "@
        },
{
    if fixing_feed {
        " Pick a feed to re-point (iTunes) "
    } else {
        " Search Podcasts (iTunes) "
    }
}

/// The results pane's title: the hit count and what Enter does.
pub fn results_title(count: usize, fixing_feed: bool) -> (s: String)
    ensures
        s@ == " Results ("@ + decimal(count as nat) + ") - "@ + (if fixing_feed {
            "Enter to re-point"@
        } else {
            "Enter to subscribe"@
        }) + " "@,
{
    let mut v = chars_of(" Results (");
    push_decimal(&mut v, count as u64);
    push_str_chars(&mut v, ") - ");
    push_str_chars(&mut v, if fixing_feed { "Enter to re-point" } else { "Enter to subscribe" });
    push_str_chars(&mut v, " ");
    string_from_chars(&v)
}

/// The two lines of an empty results pane: a prompt before any query, a
/// "no results" note after one.
pub fn empty_results_lines(query_empty: bool) -> (r: (&'static str, &'static str))
    ensures
        r.0@ == if query_empty {
            "Type to search for podcasts..."@
        } else {
            "No results found"@
        },
        r.1@ == if query_empty {
            "Press Enter to search"@
        } else {
            "Try a different search term"@
        },
{
    if query_empty {
        ("Type to search for podcasts...", "Press Enter to search")
    } else {
        ("No results found", "Try a different search term")
    }
}

// ---------------------------------------------------------------------------
// Settings view.

/// The settings view's lines for the numeric and on/off settings, in order.
pub open spec fn settings_text(s: Settings) -> Seq<Seq<char>> {
    seq![
        "Downloads: "@ + decimal(s.max_concurrent_downloads as nat) + " concurrent"@,
        "Refreshes: "@ + decimal(s.max_concurrent_refreshes as nat) + " concurrent"@,
        if s.auto_refresh_interval_minutes == 0 {
            "Auto-refresh: off (manual only)"@
        } else {
            "Auto-refresh: every "@ + decimal(s.auto_refresh_interval_minutes as nat) + " min"@
        },
        "  Max depth: "@ + decimal(s.queue_max_depth as nat),
        "  Default direction: "@ + if s.auto_queue_to_top_default {
            "top"@
        } else {
            "bottom"@
        },
        "  Smart interleave: "@ + if s.smart_interleave {
            "true"@
        } else {
            "false"@
        },
    ]
}

fn labelled_number(label: &str, n: u64, unit: &str) -> (s: String)
    ensures
        s@ == label@ + decimal(n as nat) + unit@,
{
    let mut v = chars_of(label);
    push_decimal(&mut v, n);
    push_str_chars(&mut v, unit);
    string_from_chars(&v)
}

fn labelled(label: &str, value: &str) -> (s: String)
    ensures
        s@ == label@ + value@,
{
    let mut v = chars_of(label);
    push_str_chars(&mut v, value);
    string_from_chars(&v)
}

pub fn settings_lines(s: &Settings) -> (lines: Vec<String>)
    ensures
        lines@.len() == 6,
        forall|i: int| 0 <= i < 6 ==> #[trigger] lines@[i]@ == settings_text(*s)[i],
{
    let mut lines: Vec<String> = Vec::new();
    lines.push(labelled_number("Downloads: ", s.max_concurrent_downloads as u64, " concurrent"));
    lines.push(labelled_number("Refreshes: ", s.max_concurrent_refreshes as u64, " concurrent"));
    if s.auto_refresh_interval_minutes == 0 {
        lines.push(owned("Auto-refresh: off (manual only)"));
    } else {
        lines.push(labelled_number("Auto-refresh: every ", s.auto_refresh_interval_minutes, " min"));
    }
    lines.push(labelled_number("  Max depth: ", s.queue_max_depth as u64, ""));
    lines.push(labelled("  Default direction: ", if s.auto_queue_to_top_default { "top" } else { "bottom" }));
    lines.push(labelled("  Smart interleave: ", if s.smart_interleave { "true" } else { "false" }));
    proof {
        reveal_strlit("");
    }
    lines
}

/// A one-line episode list: `[✓] Title (duration)` rows, the played ones
/// checked.
pub struct EpisodeList;

impl EpisodeList {
    /// The text of one row.
    pub fn row_text(played: bool, title: &str, duration: &str) -> (s: String)
        ensures
            s@ == "["@ + (if played {
                "\u{2713}"@
            } else {
                " "@
            }) + "] "@ + title@ + " ("@ + duration@ + ")"@,
    {
        let mut v = chars_of("[");
        push_str_chars(&mut v, if played { "\u{2713}" } else { " " });
        push_str_chars(&mut v, "] ");
        push_str_chars(&mut v, title);
        push_str_chars(&mut v, " (");
        push_str_chars(&mut v, duration);
        push_str_chars(&mut v, ")");
        string_from_chars(&v)
    }

    /// Whether row `i` is drawn highlighted: the selected one.
    pub fn is_highlighted(i: usize, selected: usize) -> (r: bool)
        ensures
            r == (i == selected),
    {
        i == selected
    }
}

// ---------------------------------------------------------------------------
// Popups.

/// The margins and size, in percent, that centre a popup of `percent` of
/// the screen along one axis.
pub fn centered_percentages(percent: u16) -> (r: (u16, u16, u16))
    requires
        percent <= 100,
    ensures
        r.0 == (100 - percent) / 2,
        r.1 == percent,
        r.2 == (100 - percent) / 2,
{
    let margin = (100 - percent) / 2;
    (margin, percent, margin)
}

/// `s` without one trailing carriage return.
pub open spec fn without_cr(s: Seq<char>) -> Seq<char> {
    if s.len() > 0 && s.last() == '\r' {
        s.drop_last()
    } else {
        s
    }
}

/// Index of the first line feed in `s` at or after `i`, or `s.len()`.
pub open spec fn next_newline(s: Seq<char>, i: int) -> int
    decreases s.len() - i,
{
    if i >= s.len() {
        s.len() as int
    } else if s[i] == '\n' {
        i
    } else {
        next_newline(s, i + 1)
    }
}

/// The lines of `s` as `str::lines` yields them: split at each line feed,
/// a trailing carriage return dropped from each, and no empty line after a
/// final line feed.
pub open spec fn lines_of(s: Seq<char>) -> Seq<Seq<char>>
    decreases s.len(),
{
    if s.len() == 0 {
        Seq::empty()
    } else {
        let k = next_newline(s, 0);
        if k >= s.len() {
            seq![without_cr(s)]
        } else {
            proof {
                lemma_next_newline(s, 0);
            }
            seq![without_cr(s.take(k))] + lines_of(s.skip(k + 1))
        }
    }
}

/// The scan for the next line break from `i` stops at the first `'\n'` at or after
/// `i`, or at the end of the text when there is none.
pub proof fn lemma_next_newline(s: Seq<char>, i: int)
    requires
        0 <= i <= s.len(),
    ensures
        i <= next_newline(s, i) <= s.len(),
        next_newline(s, i) < s.len() ==> s[next_newline(s, i)] == '\n',
        forall|j: int| i <= j < next_newline(s, i) ==> s[j] != '\n',
    decreases s.len() - i,
{
    if i < s.len() && s[i] != '\n' {
        lemma_next_newline(s, i + 1);
    }
}

/// The lines of a dialog's message, each drawn as a row of its own.
pub fn message_lines(message: &str) -> (lines: Vec<String>)
    ensures
        lines@.len() == lines_of(message@).len(),
        forall|i: int| 0 <= i < lines@.len() ==> #[trigger] lines@[i]@ == lines_of(message@)[i],
{
    let v = chars_of(message);
    let mut lines: Vec<String> = Vec::new();
    let mut start: usize = 0;
    let mut i: usize = 0;
    let mut line: Vec<char> = Vec::new();
    assert(v@.skip(0) =~= v@);
    while i < v.len()
        invariant
            0 <= start <= i <= v@.len(),
            v@ == message@,
            line@ == v@.subrange(start as int, i as int),
            forall|j: int| start <= j < i ==> v@[j] != '\n',
            lines@.len() + lines_of(v@.skip(start as int)).len() == lines_of(v@).len(),
            forall|k: int| 0 <= k < lines@.len() ==> #[trigger] lines@[k]@ == lines_of(v@)[k],
            forall|k: int| 0 <= k < lines_of(v@.skip(start as int)).len() ==> #[trigger] lines_of(
                v@.skip(start as int),
            )[k] == lines_of(v@)[lines@.len() + k],
        decreases v@.len() - i,
    {
        if v[i] == '\n' {
            let ghost rest = v@.skip(start as int);
            let ghost tail = v@.skip(i + 1);
            proof {
                lemma_next_newline(rest, 0);
                lemma_newline_at(rest, 0, i - start);
                assert(rest.take(i - start) =~= line@);
                assert(rest.skip(i - start + 1) =~= tail);
                assert(lines_of(rest) == seq![without_cr(line@)] + lines_of(tail));
            }
            let ghost before = lines@;
            lines.push(string_from_chars(&strip_cr(&line)));
            proof {
                assert(lines@[before.len() as int]@ == lines_of(rest)[0]);
                assert forall|k: int| 0 <= k < lines_of(tail).len() implies #[trigger] lines_of(
                    tail,
                )[k] == lines_of(v@)[lines@.len() + k] by {
                    assert(lines_of(tail)[k] == lines_of(rest)[k + 1]);
                }
            }
            line = Vec::new();
            start = i + 1;
            i = i + 1;
            assert(line@ =~= v@.subrange(start as int, i as int));
        } else {
            line.push(v[i]);
            i = i + 1;
            assert(line@ =~= v@.subrange(start as int, i as int));
        }
    }
    if start < v.len() {
        let ghost rest = v@.skip(start as int);
        proof {
            lemma_next_newline(rest, 0);
            lemma_no_newline(rest, 0);
            assert(rest =~= line@);
            assert(lines_of(rest) == seq![without_cr(line@)]);
        }
        let ghost before = lines@;
        lines.push(string_from_chars(&strip_cr(&line)));
        proof {
            assert(lines@[before.len() as int]@ == lines_of(rest)[0]);
        }
    } else {
        assert(v@.skip(start as int) =~= Seq::<char>::empty());
    }
    lines
}

/// `next_newline` finds the first line feed after `i` when there is one at `k`
/// with none in between.
proof fn lemma_newline_at(s: Seq<char>, i: int, k: int)
    requires
        0 <= i <= k < s.len(),
        s[k] == '\n',
        forall|j: int| i <= j < k ==> s[j] != '\n',
    ensures
        next_newline(s, i) == k,
    decreases k - i,
{
    if i < k {
        lemma_newline_at(s, i + 1, k);
    }
}

/// With no line feed from `i` on, `next_newline` runs to the end.
proof fn lemma_no_newline(s: Seq<char>, i: int)
    requires
        0 <= i <= s.len(),
        forall|j: int| i <= j < s.len() ==> s[j] != '\n',
    ensures
        next_newline(s, i) == s.len(),
    decreases s.len() - i,
{
    if i < s.len() {
        lemma_no_newline(s, i + 1);
    }
}

fn strip_cr(line: &Vec<char>) -> (r: Vec<char>)
    ensures
        r@ == without_cr(line@),
{
    let n = line.len();
    if n > 0 && line[n - 1] == '\r' {
        copy_range(line, 0, n - 1)
    } else {
        copy_range(line, 0, n)
    }
}

// ---------------------------------------------------------------------------
// Help dialog.

/// How many lines the help dialog lists.
pub const HELP_LINE_COUNT: usize = 45;

/// Line `i` of the help dialog's key list.
pub open spec fn help_line(i: int) -> Seq<char> {
    if i == 0 {
        "Navigation:"@
    } else if i == 1 {
        "  j/\u{2193}      Move down"@
    } else if i == 2 {
        "  k/\u{2191}      Move up"@
    } else if i == 3 {
        "  g        Go to top"@
    } else if i == 4 {
        "  G        Go to bottom"@
    } else if i == 5 {
        "  PgUp/PgDn Page up/down"@
    } else if i == 6 {
        ""@
    } else if i == 7 {
        "Views:"@
    } else if i == 8 {
        "  1        Library (feeds | episodes)"@
    } else if i == 9 {
        "  2        Queue"@
    } else if i == 10 {
        "  3        Search"@
    } else if i == 11 {
        "  4        Settings"@
    } else if i == 12 {
        "  Tab      Next view"@
    } else if i == 13 {
        "  Shift+Tab Previous view"@
    } else if i == 14 {
        "  l/Enter  Feeds -> episodes pane"@
    } else if i == 15 {
        "  h/Esc    Episodes -> feeds pane"@
    } else if i == 16 {
        ""@
    } else if i == 17 {
        "Playback:"@
    } else if i == 18 {
        "  Space    Play/Pause"@
    } else if i == 19 {
        "  n        Next in queue"@
    } else if i == 20 {
        "  p        Restart episode"@
    } else if i == 21 {
        "  \u{2190}/\u{2192}      Seek -10s/+10s"@
    } else if i == 22 {
        "  </  >     Seek -30s/+30s"@
    } else if i == 23 {
        ""@
    } else if i == 24 {
        "Controls:"@
    } else if i == 25 {
        "  +/-      Volume up/down"@
    } else if i == 26 {
        "  m        Mute"@
    } else if i == 27 {
        "  [/]      Speed down/up"@
    } else if i == 28 {
        "  a        Add to queue"@
    } else if i == 29 {
        "  d        Download episode"@
    } else if i == 30 {
        "  x        Remove (queue) / delete download"@
    } else if i == 31 {
        "  r        Refresh feed"@
    } else if i == 32 {
        "  R        Refresh all"@
    } else if i == 33 {
        "  s        Toggle played"@
    } else if i == 34 {
        "  A        Cycle auto-queue (off/bottom/top)"@
    } else if i == 35 {
        ""@
    } else if i == 36 {
        "Other:"@
    } else if i == 37 {
        "  Enter    Open / play / subscribe"@
    } else if i == 38 {
        "  /        Search mode"@
    } else if i == 39 {
        "  Esc      Close modal/Back"@
    } else if i == 40 {
        "  ?        This help"@
    } else if i == 41 {
        "  q        Quit (Ctrl-C while typing)"@
    } else if i == 42 {
        ""@
    } else if i == 43 {
        "Press Esc to close"@
    } else if i == 44 {
        ""@
    } else {
        Seq::empty()
    }
}

/// The help dialog's section headings (drawn highlighted).
pub open spec fn is_help_heading(i: int) -> bool {
    i == 0 || i == 7 || i == 17 || i == 24 || i == 36
}

/// Line `i` of the help dialog, or `None` past its end.
pub fn help_line_text(i: usize) -> (r: Option<&'static str>)
    ensures
        match r {
            Some(s) => i < HELP_LINE_COUNT && s@ == help_line(i as int),
            None => i >= HELP_LINE_COUNT,
        },
{
    match i {
        0 => Some("Navigation:"),
        1 => Some("  j/\u{2193}      Move down"),
        2 => Some("  k/\u{2191}      Move up"),
        3 => Some("  g        Go to top"),
        4 => Some("  G        Go to bottom"),
        5 => Some("  PgUp/PgDn Page up/down"),
        6 => Some(""),
        7 => Some("Views:"),
        8 => Some("  1        Library (feeds | episodes)"),
        9 => Some("  2        Queue"),
        10 => Some("  3        Search"),
        11 => Some("  4        Settings"),
        12 => Some("  Tab      Next view"),
        13 => Some("  Shift+Tab Previous view"),
        14 => Some("  l/Enter  Feeds -> episodes pane"),
        15 => Some("  h/Esc    Episodes -> feeds pane"),
        16 => Some(""),
        17 => Some("Playback:"),
        18 => Some("  Space    Play/Pause"),
        19 => Some("  n        Next in queue"),
        20 => Some("  p        Restart episode"),
        21 => Some("  \u{2190}/\u{2192}      Seek -10s/+10s"),
        22 => Some("  </  >     Seek -30s/+30s"),
        23 => Some(""),
        24 => Some("Controls:"),
        25 => Some("  +/-      Volume up/down"),
        26 => Some("  m        Mute"),
        27 => Some("  [/]      Speed down/up"),
        28 => Some("  a        Add to queue"),
        29 => Some("  d        Download episode"),
        30 => Some("  x        Remove (queue) / delete download"),
        31 => Some("  r        Refresh feed"),
        32 => Some("  R        Refresh all"),
        33 => Some("  s        Toggle played"),
        34 => Some("  A        Cycle auto-queue (off/bottom/top)"),
        35 => Some(""),
        36 => Some("Other:"),
        37 => Some("  Enter    Open / play / subscribe"),
        38 => Some("  /        Search mode"),
        39 => Some("  Esc      Close modal/Back"),
        40 => Some("  ?        This help"),
        41 => Some("  q        Quit (Ctrl-C while typing)"),
        42 => Some(""),
        43 => Some("Press Esc to close"),
        44 => Some(""),
        _ => None,
    }
}

/// Whether line `i` of the help dialog is a section heading.
pub fn help_line_is_heading(i: usize) -> (r: bool)
    ensures
        r == is_help_heading(i as int),
{
    i == 0 || i == 7 || i == 17 || i == 24 || i == 36
}

// ---------------------------------------------------------------------------
// Footer status line.

/// What the footer's first line shows.
#[derive(Debug, Clone, PartialEq, Eq)]
pub enum FooterLine {
    /// A playback notice, drawn as a warning.
    Notice(String),
    /// The current episode, with a play or pause icon.
    NowPlaying { icon: &'static str, title: String },
    /// Nothing is playing.
    Idle(&'static str),
}

/// The footer's first line: a playback notice first, else the current
/// episode with `>` while playing and `||` while paused, else that nothing
/// is playing.
pub fn footer_line(notice: &Option<String>, current_title: Option<&str>, is_playing: bool) -> (l: FooterLine)
    ensures
        match notice {
            Some(n) => l matches FooterLine::Notice(t) && t@ == "! "@ + n@,
            None => match current_title {
                Some(title) => l matches FooterLine::NowPlaying { icon, title: t } && t@ == title@
                    && icon@ == if is_playing { ">"@ } else { "||"@ },
                None => l matches FooterLine::Idle(t) && t@ == "No episode playing"@,
            },
        },
{
    match notice {
        Some(n) => {
            let mut v = chars_of("! ");
            push_str_chars(&mut v, n.as_str());
            FooterLine::Notice(string_from_chars(&v))
        },
        None => match current_title {
            Some(title) => FooterLine::NowPlaying {
                icon: if is_playing { ">" } else { "||" },
                title: owned(title),
            },
            None => FooterLine::Idle("No episode playing"),
        },
    }
}

} // verus!
