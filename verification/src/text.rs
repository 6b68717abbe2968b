//! Feed-text hygiene.
//!
//! Feed strings carry two hazards for a terminal list: HTML entities the XML
//! layer leaves unresolved, and emoji joiners whose rendered width terminals
//! disagree about. [`clean_feed_text`] fixes both once, at ingest;
//! [`truncate_display`] is the render-side clip used for fixed-width previews.
use unicode_segmentation::UnicodeSegmentation;
use unicode_width::UnicodeWidthStr;
use vstd::prelude::*;

verus! {

// ---------------------------------------------------------------------------
// Conversions between strings and character vectors.

/// The characters of `s`, in order.
pub fn chars_of(s: &str) -> (v: Vec<char>)
    ensures
        v@ == s@,
{
    let mut v: Vec<char> = Vec::new();
    for c in it: s.chars()
        invariant
            v@ == it.seq().take(it.index() as int),
    {
        v.push(c);
    }
    v
}

/// Collects characters into an owned string (`String: FromIterator<char>`).
#[verifier::external_body]
pub(crate) fn string_from_chars(v: &Vec<char>) -> (s: String)
    ensures
        s@ == v@,
{
    v.iter().collect()
}

/// Copies a string slice into an owned string.
pub fn owned(s: &str) -> (r: String)
    ensures
        r@ == s@,
{
    let v = chars_of(s);
    string_from_chars(&v)
}

/// Appends the characters of `s` to `out`.
pub fn push_str_chars(out: &mut Vec<char>, s: &str)
    ensures
        final(out)@ == old(out)@ + s@,
{
    let v = chars_of(s);
    let mut i: usize = 0;
    while i < v.len()
        invariant
            0 <= i <= v@.len(),
            v@ == s@,
            out@ == old(out)@ + v@.take(i as int),
        decreases v@.len() - i,
    {
        out.push(v[i]);
        i = i + 1;
        assert(v@.take(i as int) == v@.take(i - 1) + seq![v@[i - 1]]);
    }
    assert(v@.take(v@.len() as int) == v@);
}

/// `prefix` followed by `detail`, as one string.
pub fn joined(prefix: &str, detail: &str) -> (r: String)
    ensures
        r@ == prefix@ + detail@,
{
    let mut v = chars_of(prefix);
    push_str_chars(&mut v, detail);
    string_from_chars(&v)
}

// ---------------------------------------------------------------------------
// Decimal numbers.

/// The character of a decimal digit.
pub open spec fn digit_char(d: nat) -> char {
    if d == 0 {
        '0'
    } else if d == 1 {
        '1'
    } else if d == 2 {
        '2'
    } else if d == 3 {
        '3'
    } else if d == 4 {
        '4'
    } else if d == 5 {
        '5'
    } else if d == 6 {
        '6'
    } else if d == 7 {
        '7'
    } else if d == 8 {
        '8'
    } else {
        '9'
    }
}

/// `n` written in decimal, as `format!("{}", n)` writes it.
pub open spec fn decimal(n: nat) -> Seq<char>
    decreases n,
{
    if n < 10 {
        seq![digit_char(n)]
    } else {
        decimal(n / 10).push(digit_char(n % 10))
    }
}

fn digit_char_exec(d: u64) -> (c: char)
    requires
        d < 10,
    ensures
        c == digit_char(d as nat),
{
    if d == 0 {
        '0'
    } else if d == 1 {
        '1'
    } else if d == 2 {
        '2'
    } else if d == 3 {
        '3'
    } else if d == 4 {
        '4'
    } else if d == 5 {
        '5'
    } else if d == 6 {
        '6'
    } else if d == 7 {
        '7'
    } else if d == 8 {
        '8'
    } else {
        '9'
    }
}

/// Appends `n` in decimal to `out`.
pub fn push_decimal(out: &mut Vec<char>, n: u64)
    ensures
        final(out)@ == old(out)@ + decimal(n as nat),
    decreases n,
{
    if n >= 10 {
        push_decimal(out, n / 10);
    }
    out.push(digit_char_exec(n % 10));
    proof {
        if n >= 10 {
            assert(old(out)@ + decimal((n / 10) as nat) + seq![digit_char((n % 10) as nat)] =~= old(
                out,
            )@ + decimal(n as nat));
        } else {
            assert(old(out)@ + seq![digit_char((n % 10) as nat)] =~= old(out)@ + decimal(n as nat));
        }
    }
}

proof fn lemma_digit_char_value(d: nat)
    requires
        d < 10,
    ensures
        digit_value(digit_char(d), 10) == Some(d),
{
}

/// The decimal rendering reads back as the number it renders.
pub proof fn lemma_decimal_reads_back(n: nat)
    ensures
        digits_value(decimal(n), 10) == Some(n),
        decimal(n).len() > 0,
    decreases n,
{
    let s = decimal(n);
    if n >= 10 {
        lemma_decimal_reads_back(n / 10);
        assert(s.drop_last() =~= decimal(n / 10));
        assert(s.last() == digit_char(n % 10));
        lemma_digit_char_value(n % 10);
        assert((n / 10) * 10 + n % 10 == n) by (nonlinear_arith);
        assert(digits_value(s.drop_last(), 10) == Some((n / 10) as nat));
        assert(digit_value(s.last(), 10) == Some((n % 10) as nat));
        assert(digits_value(s, 10) == Some(((n / 10) * 10 + n % 10) as nat));
    } else {
        assert(digits_value(Seq::<char>::empty(), 10) == Some(0nat));
        assert(digit_value(s.last(), 10) == Some(n));
        assert(s.drop_last() =~= Seq::<char>::empty());
        lemma_digit_char_value(n);
    }
}

// ---------------------------------------------------------------------------
// Emoji joiners.

/// Zero-width joiner, variation selectors `U+FE00..=U+FE0F`, and skin-tone
/// modifiers `U+1F3FB..=U+1F3FF`: the code points that glue emoji scalars into
/// one cluster of disputed width.
pub open spec fn is_joiner(c: char) -> bool {
    c == '\u{200D}' || ('\u{FE00}' <= c && c <= '\u{FE0F}') || ('\u{1F3FB}' <= c && c
        <= '\u{1F3FF}')
}

pub open spec fn keeps(c: char) -> bool {
    !is_joiner(c)
}

/// The text with every joiner removed and every other character kept in order.
pub open spec fn without_joiners(s: Seq<char>) -> Seq<char> {
    s.filter(|c: char| keeps(c))
}

fn is_joiner_char(c: char) -> (r: bool)
    ensures
        r == is_joiner(c),
{
    c == '\u{200D}' || ('\u{FE00}' <= c && c <= '\u{FE0F}') || ('\u{1F3FB}' <= c && c
        <= '\u{1F3FF}')
}

/// Removing joiners leaves text without joiners untouched.
pub proof fn lemma_without_joiners_identity(s: Seq<char>)
    requires
        forall|i: int| 0 <= i < s.len() ==> !is_joiner(#[trigger] s[i]),
    ensures
        without_joiners(s) == s,
    decreases s.len(),
{
    reveal(Seq::filter);
    if s.len() > 0 {
        lemma_without_joiners_identity(s.drop_last());
        assert(s.drop_last().push(s.last()) == s);
    }
}

/// Strip only the emoji joiners that make cluster width disagree with the
/// terminal. Every other code point, including ordinary emoji, accents, CJK and
/// curly quotes, is preserved.
pub fn sanitize_display(input: &str) -> (out: String)
    ensures
        out@ == without_joiners(input@),
{
    if input.is_ascii() {
        proof {
            assert forall|i: int| 0 <= i < input@.len() implies !is_joiner(#[trigger] input@[i]) by {
                assert('\0' <= input@[i] <= '\u{7f}');
            }
            lemma_without_joiners_identity(input@);
        }
        return owned(input);
    }
    let v = chars_of(input);
    let mut kept: Vec<char> = Vec::new();
    let mut i: usize = 0;
    while i < v.len()
        invariant
            0 <= i <= v@.len(),
            v@ == input@,
            kept@ == without_joiners(v@.take(i as int)),
        decreases v@.len() - i,
    {
        let c = v[i];
        proof {
            reveal(Seq::filter);
            assert(v@.take(i + 1).drop_last() == v@.take(i as int));
            assert(v@.take(i + 1).last() == c);
        }
        if !is_joiner_char(c) {
            kept.push(c);
        }
        i = i + 1;
    }
    assert(v@.take(v@.len() as int) == v@);
    string_from_chars(&kept)
}


// ---------------------------------------------------------------------------
// HTML entities.

/// Characters that may appear between `&` and `;` in an entity: ASCII letters,
/// ASCII digits and `#`.
pub open spec fn is_body_char(c: char) -> bool {
    ('a' <= c && c <= 'z') || ('A' <= c && c <= 'Z') || ('0' <= c && c <= '9') || c == '#'
}

/// Length of the run of entity-body characters at the start of `s`.
pub open spec fn body_len(s: Seq<char>) -> nat
    decreases s.len(),
{
    if s.len() > 0 && is_body_char(s[0]) {
        1 + body_len(s.drop_first())
    } else {
        0
    }
}

/// The value of a digit in the given radix (10 or 16), if it is one.
pub open spec fn digit_value(c: char, radix: nat) -> Option<nat> {
    if '0' <= c && c <= '9' {
        Some((c as int - '0' as int) as nat)
    } else if radix == 16 && 'a' <= c && c <= 'f' {
        Some((c as int - 'a' as int + 10) as nat)
    } else if radix == 16 && 'A' <= c && c <= 'F' {
        Some((c as int - 'A' as int + 10) as nat)
    } else {
        None
    }
}

/// The number written by the digits of `s` in `radix`, or `None` if some
/// character is not a digit (the empty string reads as zero).
pub open spec fn digits_value(s: Seq<char>, radix: nat) -> Option<nat>
    decreases s.len(),
{
    if s.len() == 0 {
        Some(0)
    } else {
        match (digits_value(s.drop_last(), radix), digit_value(s.last(), radix)) {
            (Some(v), Some(d)) => Some(v * radix + d),
            _ => None,
        }
    }
}

/// An unsigned 32-bit number written in `radix`: at least one digit, only
/// digits, and a value that fits in `u32`.
pub open spec fn parse_u32(s: Seq<char>, radix: nat) -> Option<u32> {
    if s.len() == 0 {
        None
    } else {
        match digits_value(s, radix) {
            Some(v) => if v <= u32::MAX {
                Some(v as u32)
            } else {
                None
            },
            None => None,
        }
    }
}

/// A Unicode scalar value: a code point that is not a surrogate.
pub open spec fn is_scalar(code: u32) -> bool {
    code < 0xD800 || (0xE000 <= code && code <= 0x10FFFF)
}

/// The named entities that podcast feeds reach for by word.
#[verifier::opaque]
pub open spec fn named_value(name: Seq<char>) -> Option<Seq<char>> {
    if name == "amp"@ {
        Some("&"@)
    } else if name == "lt"@ {
        Some("<"@)
    } else if name == "gt"@ {
        Some(">"@)
    } else if name == "quot"@ {
        Some("\""@)
    } else if name == "apos"@ {
        Some("'"@)
    } else if name == "nbsp"@ {
        Some("\u{00A0}"@)
    } else if name == "rsquo"@ {
        Some("\u{2019}"@)
    } else if name == "lsquo"@ {
        Some("\u{2018}"@)
    } else if name == "rdquo"@ {
        Some("\u{201D}"@)
    } else if name == "ldquo"@ {
        Some("\u{201C}"@)
    } else if name == "mdash"@ {
        Some("\u{2014}"@)
    } else if name == "ndash"@ {
        Some("\u{2013}"@)
    } else if name == "hellip"@ {
        Some("\u{2026}"@)
    } else if name == "copy"@ {
        Some("\u{00A9}"@)
    } else if name == "reg"@ {
        Some("\u{00AE}"@)
    } else if name == "trade"@ {
        Some("\u{2122}"@)
    } else if name == "deg"@ {
        Some("\u{00B0}"@)
    } else if name == "eacute"@ {
        Some("\u{00E9}"@)
    } else if name == "egrave"@ {
        Some("\u{00E8}"@)
    } else if name == "agrave"@ {
        Some("\u{00E0}"@)
    } else if name == "uuml"@ {
        Some("\u{00FC}"@)
    } else if name == "ouml"@ {
        Some("\u{00F6}"@)
    } else if name == "auml"@ {
        Some("\u{00E4}"@)
    } else if name == "ccedil"@ {
        Some("\u{00E7}"@)
    } else if name == "ntilde"@ {
        Some("\u{00F1}"@)
    } else if name == "middot"@ {
        Some("\u{00B7}"@)
    } else if name == "bull"@ {
        Some("\u{2022}"@)
    } else {
        None
    }
}

/// What the inside of an entity (`amp`, `#8217`, `#x2019`) stands for, if it
/// is one this decoder knows.
#[verifier::opaque]
pub open spec fn entity_value(body: Seq<char>) -> Option<Seq<char>> {
    if body.len() > 0 && body[0] == '#' {
        let num = body.drop_first();
        let code = if num.len() > 0 && (num[0] == 'x' || num[0] == 'X') {
            parse_u32(num.drop_first(), 16)
        } else {
            parse_u32(num, 10)
        };
        match code {
            Some(c) => if is_scalar(c) {
                Some(seq![c as char])
            } else {
                None
            },
            None => None,
        }
    } else {
        named_value(body)
    }
}

/// Entity decoding, left to right: `&body;` with a non-empty run of body
/// characters is replaced by its value when known and kept verbatim when not;
/// any other `&` is literal text.
pub open spec fn decoded(s: Seq<char>) -> Seq<char>
    decreases s.len(),
{
    if s.len() == 0 {
        s
    } else if s[0] != '&' {
        seq![s[0]] + decoded(s.drop_first())
    } else {
        let rest = s.drop_first();
        let n = body_len(rest);
        if n > 0 && n < rest.len() && rest[n as int] == ';' {
            entity_piece(rest.take(n as int)) + decoded(rest.skip(n + 1 as int))
        } else {
            seq!['&'] + decoded(rest)
        }
    }
}

/// Text without `&` decodes to itself.
pub proof fn lemma_decoded_identity(s: Seq<char>)
    requires
        forall|i: int| 0 <= i < s.len() ==> s[i] != '&',
    ensures
        decoded(s) == s,
    decreases s.len(),
{
    if s.len() > 0 {
        lemma_decoded_identity(s.drop_first());
        assert(seq![s[0]] + s.drop_first() == s);
    }
}

proof fn lemma_body_len(s: Seq<char>, n: int)
    requires
        0 <= n <= s.len(),
        forall|k: int| 0 <= k < n ==> is_body_char(#[trigger] s[k]),
        n == s.len() || !is_body_char(s[n]),
    ensures
        body_len(s) == n,
    decreases n,
{
    if n > 0 {
        lemma_body_len(s.drop_first(), n - 1);
    }
}

fn is_body_char_exec(c: char) -> (r: bool)
    ensures
        r == is_body_char(c),
{
    ('a' <= c && c <= 'z') || ('A' <= c && c <= 'Z') || ('0' <= c && c <= '9') || c == '#'
}

fn digit_value_exec(c: char, radix: u32) -> (r: Option<u32>)
    requires
        radix == 10 || radix == 16,
    ensures
        match digit_value(c, radix as nat) {
            Some(d) => r == Some(d as u32),
            None => r is None,
        },
        r matches Some(d) ==> d < radix,
{
    if '0' <= c && c <= '9' {
        Some((c as u32) - ('0' as u32))
    } else if radix == 16 && 'a' <= c && c <= 'f' {
        Some((c as u32) - ('a' as u32) + 10)
    } else if radix == 16 && 'A' <= c && c <= 'F' {
        Some((c as u32) - ('A' as u32) + 10)
    } else {
        None
    }
}

/// Parses `v[start..end]` as an unsigned 32-bit number in `radix`.
fn parse_u32_exec(v: &Vec<char>, start: usize, end: usize, radix: u32) -> (r: Option<u32>)
    requires
        start <= end <= v@.len(),
        radix == 10 || radix == 16,
    ensures
        r == parse_u32(v@.subrange(start as int, end as int), radix as nat),
{
    let ghost s = v@.subrange(start as int, end as int);
    if start == end {
        return None;
    }
    let cap: u64 = 0x1_0000_0000;
    let mut acc: u64 = 0;
    let mut ok = true;
    let mut i = start;
    while i < end
        invariant
            start <= i <= end <= v@.len(),
            radix == 10 || radix == 16,
            s == v@.subrange(start as int, end as int),
            cap == 0x1_0000_0000,
            ok <==> digits_value(s.take(i - start), radix as nat) is Some,
            ok ==> acc as int == if digits_value(s.take(i - start), radix as nat)->0 < cap {
                digits_value(s.take(i - start), radix as nat)->0 as int
            } else {
                cap as int
            },
            acc <= cap,
        decreases end - i,
    {
        let d = digit_value_exec(v[i], radix);
        proof {
            assert(s.take(i + 1 - start).drop_last() == s.take(i - start));
            assert(s.take(i + 1 - start).last() == v@[i as int]);
        }
        match d {
            Some(dv) => {
                if ok {
                    let ghost p = digits_value(s.take(i - start), radix as nat)->0;
                    let next = acc * (radix as u64) + (dv as u64);
                    proof {
                        if p >= cap {
                            assert(p * radix + dv >= cap) by (nonlinear_arith)
                                requires p >= cap, radix >= 10;
                        } else {
                            assert(acc == p);
                        }
                    }
                    acc = if next < cap { next } else { cap };
                }
            },
            None => {
                ok = false;
            },
        }
        i = i + 1;
    }
    assert(s.take(end - start) == s);
    if ok && acc < cap {
        Some(acc as u32)
    } else {
        None
    }
}

/// Converts a code point to a character (`char::from_u32`): `Some` exactly for
/// Unicode scalar values, carrying that code point.
#[verifier::external_body]
fn char_from_code(code: u32) -> (c: Option<char>)
    ensures
        match c {
            Some(ch) => is_scalar(code) && ch == code as char,
            None => !is_scalar(code),
        },
{
    char::from_u32(code)
}

/// The named HTML entities common in podcast titles and notes.
pub fn named_entity(name: &str) -> (r: Option<&'static str>)
    ensures
        match r {
            Some(x) => named_value(name@) == Some(x@),
            None => named_value(name@) is None,
        },
{
    reveal(named_value);
    if crate::models::str_equal(name, "amp") {
        Some("&")
    } else if crate::models::str_equal(name, "lt") {
        Some("<")
    } else if crate::models::str_equal(name, "gt") {
        Some(">")
    } else if crate::models::str_equal(name, "quot") {
        Some("\"")
    } else if crate::models::str_equal(name, "apos") {
        Some("'")
    } else if crate::models::str_equal(name, "nbsp") {
        Some("\u{00A0}")
    } else if crate::models::str_equal(name, "rsquo") {
        Some("\u{2019}")
    } else if crate::models::str_equal(name, "lsquo") {
        Some("\u{2018}")
    } else if crate::models::str_equal(name, "rdquo") {
        Some("\u{201D}")
    } else if crate::models::str_equal(name, "ldquo") {
        Some("\u{201C}")
    } else if crate::models::str_equal(name, "mdash") {
        Some("\u{2014}")
    } else if crate::models::str_equal(name, "ndash") {
        Some("\u{2013}")
    } else if crate::models::str_equal(name, "hellip") {
        Some("\u{2026}")
    } else if crate::models::str_equal(name, "copy") {
        Some("\u{00A9}")
    } else if crate::models::str_equal(name, "reg") {
        Some("\u{00AE}")
    } else if crate::models::str_equal(name, "trade") {
        Some("\u{2122}")
    } else if crate::models::str_equal(name, "deg") {
        Some("\u{00B0}")
    } else if crate::models::str_equal(name, "eacute") {
        Some("\u{00E9}")
    } else if crate::models::str_equal(name, "egrave") {
        Some("\u{00E8}")
    } else if crate::models::str_equal(name, "agrave") {
        Some("\u{00E0}")
    } else if crate::models::str_equal(name, "uuml") {
        Some("\u{00FC}")
    } else if crate::models::str_equal(name, "ouml") {
        Some("\u{00F6}")
    } else if crate::models::str_equal(name, "auml") {
        Some("\u{00E4}")
    } else if crate::models::str_equal(name, "ccedil") {
        Some("\u{00E7}")
    } else if crate::models::str_equal(name, "ntilde") {
        Some("\u{00F1}")
    } else if crate::models::str_equal(name, "middot") {
        Some("\u{00B7}")
    } else if crate::models::str_equal(name, "bull") {
        Some("\u{2022}")
    } else {
        None
    }
}

/// Resolves the inside of an entity (`amp`, `#8217`, `#x2019`) to its text.
pub fn decode_one(body: &str) -> (r: Option<String>)
    requires
        forall|i: int| 0 <= i < body@.len() ==> is_body_char(#[trigger] body@[i]),
    ensures
        match r {
            Some(x) => entity_value(body@) == Some(x@),
            None => entity_value(body@) is None,
        },
{
    reveal(entity_value);
    let v = chars_of(body);
    if v.len() > 0 && v[0] == '#' {
        let ghost num = v@.drop_first();
        let code = if v.len() > 1 && (v[1] == 'x' || v[1] == 'X') {
            proof {
                assert(num.drop_first() == v@.subrange(2, v@.len() as int));
            }
            parse_u32_exec(&v, 2, v.len(), 16)
        } else {
            proof {
                assert(num == v@.subrange(1, v@.len() as int));
            }
            parse_u32_exec(&v, 1, v.len(), 10)
        };
        match code {
            Some(c) => match char_from_code(c) {
                Some(ch) => {
                    let mut one: Vec<char> = Vec::new();
                    one.push(ch);
                    assert(one@ == seq![ch]);
                    Some(string_from_chars(&one))
                },
                None => None,
            },
            None => None,
        }
    } else {
        match named_entity(body) {
            Some(x) => Some(owned(x)),
            None => None,
        }
    }
}

fn contains_char(v: &Vec<char>, c: char) -> (r: bool)
    ensures
        r == exists|i: int| 0 <= i < v@.len() && v@[i] == c,
{
    let mut i: usize = 0;
    while i < v.len()
        invariant
            0 <= i <= v@.len(),
            forall|k: int| 0 <= k < i ==> v@[k] != c,
        decreases v@.len() - i,
    {
        if v[i] == c {
            return true;
        }
        i = i + 1;
    }
    false
}

/// What an entity body with the `&` and `;` around it becomes in the output.
pub open spec fn entity_piece(body: Seq<char>) -> Seq<char> {
    match entity_value(body) {
        Some(v) => v,
        None => seq!['&'] + body + seq![';'],
    }
}

proof fn lemma_decoded_plain(v: Seq<char>, i: int)
    requires
        0 <= i < v.len(),
        v[i] != '&',
    ensures
        decoded(v.skip(i)) == seq![v[i]] + decoded(v.skip(i + 1)),
{
    assert(v.skip(i).drop_first() == v.skip(i + 1));
}

proof fn lemma_decoded_amp(v: Seq<char>, i: int, j: int)
    requires
        0 <= i < v.len(),
        v[i] == '&',
        i + 1 <= j <= v.len(),
        forall|k: int| i + 1 <= k < j ==> is_body_char(#[trigger] v[k]),
        j == v.len() || !is_body_char(v[j]),
    ensures
        j > i + 1 && j < v.len() && v[j] == ';' ==> decoded(v.skip(i)) == entity_piece(
            v.subrange(i + 1, j),
        ) + decoded(v.skip(j + 1)),
        !(j > i + 1 && j < v.len() && v[j] == ';') ==> decoded(v.skip(i)) == seq!['&']
            + decoded(v.skip(i + 1)),
{
    let s = v.skip(i);
    let rest = s.drop_first();
    assert(rest == v.skip(i + 1));
    let n = j - (i + 1);
    assert forall|k: int| 0 <= k < n implies is_body_char(#[trigger] rest[k]) by {
        assert(rest[k] == v[i + 1 + k]);
    }
    if j < v.len() {
        assert(rest[n] == v[j]);
    }
    lemma_body_len(rest, n);
    if j > i + 1 && j < v.len() && v[j] == ';' {
        assert(rest.take(n) == v.subrange(i + 1, j));
        assert(rest.skip(n + 1) == v.skip(j + 1));
    }
}

pub fn copy_range(v: &Vec<char>, a: usize, b: usize) -> (r: Vec<char>)
    requires
        a <= b <= v@.len(),
    ensures
        r@ == v@.subrange(a as int, b as int),
{
    let mut r: Vec<char> = Vec::new();
    let mut k = a;
    while k < b
        invariant
            a <= k <= b <= v@.len(),
            r@ == v@.subrange(a as int, k as int),
        decreases b - k,
    {
        r.push(v[k]);
        k = k + 1;
    }
    r
}

/// Writes what `&body;` decodes to onto `out`.
fn push_entity(out: &mut Vec<char>, body: &Vec<char>)
    requires
        body@.len() > 0,
        forall|q: int| 0 <= q < body@.len() ==> is_body_char(#[trigger] body@[q]),
    ensures
        final(out)@ == old(out)@ + entity_piece(body@),
{
    let body_str = string_from_chars(body);
    match decode_one(body_str.as_str()) {
        Some(d) => {
            push_str_chars(out, d.as_str());
        },
        None => {
            out.push('&');
            push_str_chars(out, body_str.as_str());
            out.push(';');
        },
    }
}

/// Decode HTML entities in feed text, leaving anything unrecognized untouched.
///
/// Handles numeric decimal (`&#8217;`), numeric hex (`&#x2019;` / `&#X2019;`)
/// and a table of named entities. An unknown entity (`&weird;`) or a bare `&`
/// is passed through verbatim rather than failing the whole string.
pub fn decode_entities(input: &str) -> (out: String)
    ensures
        out@ == decoded(input@),
{
    let v = chars_of(input);
    if !contains_char(&v, '&') {
        proof {
            lemma_decoded_identity(input@);
        }
        return owned(input);
    }
    let mut out: Vec<char> = Vec::new();
    let mut i: usize = 0;
    assert(v@.skip(0) == v@);
    assert(out@ + decoded(v@) =~= decoded(v@));
    while i < v.len()
        invariant
            0 <= i <= v@.len(),
            v@ == input@,
            out@ + decoded(v@.skip(i as int)) == decoded(v@),
        decreases v@.len() - i,
    {
        if v[i] != '&' {
            proof {
                lemma_decoded_plain(v@, i as int);
            }
            out.push(v[i]);
            i = i + 1;
        } else {
            let mut j = i + 1;
            while j < v.len() && is_body_char_exec(v[j])
                invariant
                    i + 1 <= j <= v@.len(),
                    forall|k: int| i + 1 <= k < j ==> is_body_char(#[trigger] v@[k]),
                decreases v@.len() - j,
            {
                j = j + 1;
            }
            proof {
                lemma_decoded_amp(v@, i as int, j as int);
            }
            if j > i + 1 && j < v.len() && v[j] == ';' {
                let body = copy_range(&v, i + 1, j);
                assert forall|q: int| 0 <= q < body@.len() implies is_body_char(
                    #[trigger] body@[q],
                ) by {
                    assert(body@[q] == v@[i + 1 + q]);
                }
                push_entity(&mut out, &body);
                i = j + 1;
            } else {
                out.push('&');
                i = i + 1;
            }
        }
    }
    assert(v@.skip(v@.len() as int) == Seq::<char>::empty());
    assert(out@ + decoded(v@.skip(v@.len() as int)) =~= out@);
    string_from_chars(&out)
}

/// Normalize a feed string for storage: decode entities, then strip the emoji
/// joiners that break terminal width math.
pub fn clean_feed_text(input: &str) -> (out: String)
    ensures
        out@ == without_joiners(decoded(input@)),
{
    let d = decode_entities(input);
    sanitize_display(d.as_str())
}


// ---------------------------------------------------------------------------
// Display width and grapheme clusters.

/// The extended grapheme clusters of a text (Unicode Standard Annex #29), as
/// computed by `unicode-segmentation`.
pub uninterp spec fn grapheme_clusters(s: Seq<char>) -> Seq<Seq<char>>;

/// The number of terminal columns a text occupies, as computed by
/// `unicode-width` (non-CJK context).
pub uninterp spec fn display_width(s: Seq<char>) -> nat;

/// Splits a text into its extended grapheme clusters
/// (`UnicodeSegmentation::graphemes(s, true)`): consecutive non-empty pieces
/// that concatenate back to the text.
#[verifier::external_body]
fn graphemes_of(s: &str) -> (gs: Vec<String>)
    ensures
        gs@.map_values(|g: String| g@) == grapheme_clusters(s@),
        gs@.map_values(|g: String| g@).flatten() == s@,
        forall|k: int| 0 <= k < gs@.len() ==> #[trigger] gs@[k]@.len() > 0,
{
    s.graphemes(true).map(|g| g.to_string()).collect()
}

/// The display width of a text (`UnicodeWidthStr::width`).
#[verifier::external_body]
fn width_of(s: &str) -> (w: usize)
    ensures
        w == display_width(s@),
{
    s.width()
}

/// Greedily keeps leading clusters while their widths, added to `used`, stay
/// within `budget`; stops at the first cluster that would overflow it.
pub open spec fn fitting_clusters(gs: Seq<Seq<char>>, budget: int, used: int) -> Seq<Seq<char>>
    decreases gs.len(),
{
    if gs.len() == 0 {
        gs
    } else if used + display_width(gs[0]) > budget {
        Seq::empty()
    } else {
        seq![gs[0]] + fitting_clusters(gs.drop_first(), budget, used + display_width(gs[0]))
    }
}

/// Sum of the display widths of a list of clusters.
pub open spec fn cluster_widths(gs: Seq<Seq<char>>) -> int
    decreases gs.len(),
{
    if gs.len() == 0 {
        0
    } else {
        display_width(gs[0]) + cluster_widths(gs.drop_first())
    }
}

/// The clipped text: empty when there are no columns at all; unchanged when
/// it fits in `max_cols` columns; otherwise the longest run of whole leading
/// clusters fitting in `max_cols - 1` columns followed by an ellipsis.
pub open spec fn truncated(s: Seq<char>, max_cols: nat) -> Seq<char> {
    if max_cols == 0 {
        Seq::empty()
    } else if display_width(s) <= max_cols {
        s
    } else {
        fitting_clusters(grapheme_clusters(s), max_cols - 1, 0).flatten() + seq!['\u{2026}']
    }
}

proof fn lemma_fitting_step(gs: Seq<Seq<char>>, k: int, budget: int, used: int)
    requires
        0 <= k < gs.len(),
        fitting_clusters(gs, budget, 0) == gs.take(k) + fitting_clusters(gs.skip(k), budget, used),
        used + display_width(gs[k]) <= budget,
    ensures
        fitting_clusters(gs, budget, 0) == gs.take(k + 1) + fitting_clusters(
            gs.skip(k + 1),
            budget,
            used + display_width(gs[k]),
        ),
{
    assert(gs.skip(k)[0] == gs[k]);
    assert(gs.skip(k).drop_first() == gs.skip(k + 1));
    assert(gs.take(k + 1) == gs.take(k) + seq![gs[k]]);
    assert(gs.take(k) + (seq![gs[k]] + fitting_clusters(gs.skip(k + 1), budget, used
        + display_width(gs[k]))) == gs.take(k + 1) + fitting_clusters(
        gs.skip(k + 1),
        budget,
        used + display_width(gs[k]),
    ));
}

/// Truncate to at most `max_cols` display columns, appending an ellipsis when
/// clipped. Grapheme-aware (never splits a cluster) and column-aware (counts
/// terminal cells, not characters). With no columns at all the result is
/// empty.
pub fn truncate_display(input: &str, max_cols: usize) -> (out: String)
    ensures
        out@ == truncated(input@, max_cols as nat),
        max_cols > 0 && display_width(input@) > max_cols ==> exists|k: int|
            0 <= k <= input@.len() && out@ == input@.take(k) + seq!['\u{2026}'],
{
    if max_cols == 0 {
        return string_from_chars(&Vec::new());
    }
    if width_of(input) <= max_cols {
        return owned(input);
    }
    let budget: usize = max_cols - 1;
    let gs = graphemes_of(input);
    let ghost cl = gs@.map_values(|g: String| g@);
    let mut out: Vec<char> = Vec::new();
    let mut used: usize = 0;
    let mut k: usize = 0;
    assert(cl.skip(0) == cl);
    assert(cl.take(0) + fitting_clusters(cl, budget as int, 0) =~= fitting_clusters(cl, budget as int, 0));
    while k < gs.len()
        invariant
            0 <= k <= gs@.len(),
            cl == gs@.map_values(|g: String| g@),
            cl == grapheme_clusters(input@),
            used <= budget,
            out@ == cl.take(k as int).flatten(),
            fitting_clusters(cl, budget as int, 0) == cl.take(k as int) + fitting_clusters(
                cl.skip(k as int),
                budget as int,
                used as int,
            ),
        ensures
            out@ == fitting_clusters(cl, budget as int, 0).flatten(),
        decreases gs@.len() - k,
    {
        let g = &gs[k];
        let w = width_of(g.as_str());
        assert(cl[k as int] == g@);
        if w > budget - used {
            assert(cl.skip(k as int)[0] == cl[k as int]);
            assert(fitting_clusters(cl.skip(k as int), budget as int, used as int) == Seq::<Seq<char>>::empty());
            assert(cl.take(k as int) + Seq::<Seq<char>>::empty() == cl.take(k as int));
            break;
        }
        proof {
            lemma_fitting_step(cl, k as int, budget as int, used as int);
            cl.take(k as int).lemma_flatten_push(g@);
            assert(cl.take(k as int).push(g@) == cl.take(k + 1));
        }
        push_str_chars(&mut out, g.as_str());
        used = used + w;
        k = k + 1;
    }
    proof {
        if k == gs@.len() {
            assert(cl.skip(k as int) == Seq::<Seq<char>>::empty());
            assert(cl.take(k as int) + Seq::<Seq<char>>::empty() == cl.take(k as int));
        }
    }
    proof {
        let f = fitting_clusters(cl, budget as int, 0);
        lemma_fitting_bound(cl, budget as int, 0);
        let m = f.len() as int;
        assert(cl == cl.take(m) + cl.skip(m));
        vstd::seq_lib::lemma_flatten_concat(cl.take(m), cl.skip(m));
        assert(input@ == f.flatten() + cl.skip(m).flatten());
        assert(input@.take(f.flatten().len() as int) == f.flatten());
    }
    out.push('\u{2026}');
    let r = string_from_chars(&out);
    proof {
        let f = fitting_clusters(cl, budget as int, 0);
        assert(r@ == input@.take(f.flatten().len() as int) + seq!['\u{2026}']);
    }
    r
}


// ---------------------------------------------------------------------------
// Laws.

/// Sanitized text holds no joiner, and sanitizing again changes nothing.
pub proof fn lemma_sanitize_complete(s: Seq<char>)
    ensures
        forall|i: int| 0 <= i < without_joiners(s).len() ==> !is_joiner(#[trigger] without_joiners(s)[i]),
        without_joiners(without_joiners(s)) == without_joiners(s),
{
    let pred = |c: char| keeps(c);
    assert forall|i: int| 0 <= i < without_joiners(s).len() implies !is_joiner(#[trigger] without_joiners(s)[i]) by {
        s.lemma_filter_pred(pred, i);
    }
    lemma_without_joiners_identity(without_joiners(s));
}

proof fn lemma_fitting_bound(gs: Seq<Seq<char>>, budget: int, used: int)
    requires
        used <= budget,
    ensures
        used + cluster_widths(fitting_clusters(gs, budget, used)) <= budget,
        fitting_clusters(gs, budget, used).len() <= gs.len(),
        fitting_clusters(gs, budget, used) == gs.take(fitting_clusters(gs, budget, used).len() as int),
    decreases gs.len(),
{
    if gs.len() > 0 && used + display_width(gs[0]) <= budget {
        let rest = fitting_clusters(gs.drop_first(), budget, used + display_width(gs[0]));
        lemma_fitting_bound(gs.drop_first(), budget, used + display_width(gs[0]));
        let f = fitting_clusters(gs, budget, used);
        assert(f == seq![gs[0]] + rest);
        assert(f.drop_first() == rest);
        assert(f[0] == gs[0]);
        assert(gs.drop_first().take(rest.len() as int) == rest);
        assert(seq![gs[0]] + gs.drop_first().take(rest.len() as int) == gs.take(f.len() as int));
    } else if gs.len() > 0 {
        assert(fitting_clusters(gs, budget, used) == Seq::<Seq<char>>::empty());
        assert(gs.take(0) == Seq::<Seq<char>>::empty());
    }
}

/// A clipped text is whole leading clusters of the input whose widths sum
/// to at most `max_cols - 1` columns, followed by one ellipsis (one column):
/// clipping never splits a cluster and never exceeds the column budget.
pub proof fn lemma_truncation_fits(s: Seq<char>, max_cols: nat)
    requires
        display_width(s) > max_cols,
        max_cols >= 1,
    ensures
        ({
            let kept = fitting_clusters(grapheme_clusters(s), max_cols - 1, 0);
            &&& truncated(s, max_cols) == kept.flatten() + seq!['\u{2026}']
            &&& cluster_widths(kept) + 1 <= max_cols
            &&& kept == grapheme_clusters(s).take(kept.len() as int)
        }),
{
    lemma_fitting_bound(grapheme_clusters(s), max_cols - 1, 0);
}

} // verus!
