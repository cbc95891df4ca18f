//! Lyric files: lines of text, each behind a time tag in square brackets,
//! with tags for the title and for an offset among them.
//!
//! The library reads the lines. What the seconds of a time tag come to in
//! milliseconds is told by the caller, who reads them as a decimal fraction.

use crate::text::{chars_of, find_from, first_occurrence, lemma_first_occurrence, matches_at, occurs_at, string_of};
use vstd::prelude::*;

verus! {

/// A set of characters: white space, or one character alone.
#[derive(Clone, Copy, Debug, PartialEq, Eq, Structural)]
pub enum CharClass {
    WhiteSpace,
    Is(char),
}

/// `c` is white space: a character with the Unicode property `White_Space`.
pub open spec fn is_white_space(c: char) -> bool {
    ||| '\u{9}' <= c <= '\u{d}'
    ||| c == ' '
    ||| c == '\u{85}'
    ||| c == '\u{a0}'
    ||| c == '\u{1680}'
    ||| '\u{2000}' <= c <= '\u{200a}'
    ||| c == '\u{2028}'
    ||| c == '\u{2029}'
    ||| c == '\u{202f}'
    ||| c == '\u{205f}'
    ||| c == '\u{3000}'
}

/// `c` belongs to `class`.
pub open spec fn in_class(class: CharClass, c: char) -> bool {
    match class {
        CharClass::WhiteSpace => is_white_space(c),
        CharClass::Is(only) => c == only,
    }
}

/// `s` without the characters of `class` at its end.
pub open spec fn strip_end_of(s: Seq<char>, class: CharClass) -> Seq<char>
    decreases s.len(),
{
    if s.len() > 0 && in_class(class, s.last()) {
        strip_end_of(s.drop_last(), class)
    } else {
        s
    }
}

/// `s` without the characters of `class` at its beginning.
pub open spec fn strip_start_of(s: Seq<char>, class: CharClass) -> Seq<char>
    decreases s.len(),
{
    if s.len() > 0 && in_class(class, s[0]) {
        strip_start_of(s.drop_first(), class)
    } else {
        s
    }
}

/// `s` without white space at either end.
pub open spec fn trim_of(s: Seq<char>) -> Seq<char> {
    strip_start_of(strip_end_of(s, CharClass::WhiteSpace), CharClass::WhiteSpace)
}

/// `s` without `prefix` at its beginning, as often as it stands there.
pub open spec fn strip_prefixes_of(s: Seq<char>, prefix: Seq<char>) -> Seq<char>
    decreases s.len(),
{
    if prefix.len() > 0 && occurs_at(s, prefix, 0) {
        strip_prefixes_of(s.subrange(prefix.len() as int, s.len() as int), prefix)
    } else {
        s
    }
}

/// The index of the first line feed in `s` at or after `from`, and the
/// length of `s` where there is none.
pub open spec fn line_end(s: Seq<char>, from: int) -> int
    decreases s.len() - from,
{
    if from < 0 || from >= s.len() {
        s.len() as int
    } else if s[from] == '\n' {
        from
    } else {
        line_end(s, from + 1)
    }
}

/// `line` without a carriage return at its end.
pub open spec fn without_return(line: Seq<char>) -> Seq<char> {
    if line.len() > 0 && line.last() == '\r' {
        line.drop_last()
    } else {
        line
    }
}

/// The lines of `s` from the index `from` on. A line ends with a line feed,
/// or with a carriage return and a line feed, neither of which belongs to
/// it; the last line may end with the text.
pub open spec fn lines_from(s: Seq<char>, from: int) -> Seq<Seq<char>>
    decreases s.len() - from,
{
    if from < 0 || from >= s.len() {
        Seq::empty()
    } else {
        let end = line_end(s, from);
        if from <= end < s.len() {
            seq![without_return(s.subrange(from, end))] + lines_from(s, end + 1)
        } else {
            seq![s.subrange(from, s.len() as int)]
        }
    }
}

/// The line feed that ends a line lies behind its beginning.
pub proof fn lemma_line_end(s: Seq<char>, from: int)
    requires
        0 <= from,
    ensures
        from <= line_end(s, from) || line_end(s, from) == s.len(),
        line_end(s, from) <= s.len(),
        line_end(s, from) < s.len() ==> s[line_end(s, from)] == '\n',
    decreases s.len() - from,
{
    if from < s.len() && s[from] != '\n' {
        lemma_line_end(s, from + 1);
    }
}

/// Whether `c` is white space.
pub fn white_space(c: char) -> (white: bool)
    ensures
        white == is_white_space(c),
{
    ('\u{9}' <= c && c <= '\u{d}') || c == ' ' || c == '\u{85}' || c == '\u{a0}' || c == '\u{1680}'
        || ('\u{2000}' <= c && c <= '\u{200a}') || c == '\u{2028}' || c == '\u{2029}' || c
        == '\u{202f}' || c == '\u{205f}' || c == '\u{3000}'
}

/// Whether `c` belongs to `class`.
pub fn belongs(class: CharClass, c: char) -> (inside: bool)
    ensures
        inside == in_class(class, c),
{
    match class {
        CharClass::WhiteSpace => white_space(c),
        CharClass::Is(only) => c == only,
    }
}

/// The characters `v[from..to]`.
pub fn sub_vec(v: &Vec<char>, from: usize, to: usize) -> (part: Vec<char>)
    requires
        from <= to <= v.len(),
    ensures
        part@ == v@.subrange(from as int, to as int),
{
    let mut part: Vec<char> = Vec::new();
    let mut i: usize = from;
    while i < to
        invariant
            from <= i <= to <= v.len(),
            part@ == v@.subrange(from as int, i as int),
        decreases to - i,
    {
        part.push(v[i]);
        i = i + 1;
    }
    part
}

/// `v` without the characters of `class` at its end.
pub fn strip_end(v: Vec<char>, class: CharClass) -> (rest: Vec<char>)
    ensures
        rest@ == strip_end_of(v@, class),
{
    let mut rest = v;
    while rest.len() > 0 && belongs(class, rest[rest.len() - 1])
        invariant
            strip_end_of(v@, class) == strip_end_of(rest@, class),
        decreases rest.len(),
    {
        rest.pop();
    }
    rest
}

/// `v` without the characters of `class` at its beginning.
pub fn strip_start(v: Vec<char>, class: CharClass) -> (rest: Vec<char>)
    ensures
        rest@ == strip_start_of(v@, class),
{
    let mut i: usize = 0;
    assert(v@.skip(0) == v@);
    while i < v.len() && belongs(class, v[i])
        invariant
            i <= v.len(),
            strip_start_of(v@, class) == strip_start_of(v@.skip(i as int), class),
        decreases v.len() - i,
    {
        assert(v@.skip(i as int).drop_first() == v@.skip(i + 1));
        i = i + 1;
    }
    sub_vec(&v, i, v.len())
}

/// `v` without white space at either end.
pub fn trim(v: Vec<char>) -> (rest: Vec<char>)
    ensures
        rest@ == trim_of(v@),
{
    strip_start(strip_end(v, CharClass::WhiteSpace), CharClass::WhiteSpace)
}

/// `v` without `prefix` at its beginning, as often as it stands there.
pub fn strip_prefixes(v: Vec<char>, prefix: &Vec<char>) -> (rest: Vec<char>)
    ensures
        rest@ == strip_prefixes_of(v@, prefix@),
{
    if prefix.len() == 0 {
        return v;
    }
    let mut rest = v;
    while matches_at(&rest, prefix, 0)
        invariant
            prefix.len() > 0,
            strip_prefixes_of(v@, prefix@) == strip_prefixes_of(rest@, prefix@),
        decreases rest.len(),
    {
        rest = sub_vec(&rest, prefix.len(), rest.len());
    }
    rest
}

/// The lines of `content`.
pub fn lines(content: &str) -> (found: Vec<Vec<char>>)
    ensures
        found@.len() == lines_from(content@, 0).len(),
        forall|i: int| 0 <= i < found@.len() ==> (#[trigger] found@[i])@ == lines_from(content@, 0)[i],
{
    let text = chars_of(content);
    let mut found: Vec<Vec<char>> = Vec::new();
    let mut from: usize = 0;
    let ghost all = lines_from(text@, 0);
    let ghost mut done: Seq<Seq<char>> = Seq::empty();
    while from < text.len()
        invariant
            from <= text.len(),
            text@ == content@,
            all == lines_from(text@, 0),
            all == done + lines_from(text@, from as int),
            found@.len() == done.len(),
            forall|i: int| 0 <= i < found@.len() ==> (#[trigger] found@[i])@ == done[i],
        decreases text.len() - from,
    {
        let mut end: usize = from;
        while end < text.len() && text[end] != '\n'
            invariant
                from <= end <= text.len(),
                line_end(text@, from as int) == line_end(text@, end as int),
            decreases text.len() - end,
        {
            end = end + 1;
        }
        if end < text.len() {
            let mut stop: usize = end;
            if stop > from && text[stop - 1] == '\r' {
                stop = stop - 1;
            }
            let line = sub_vec(&text, from, stop);
            proof {
                let whole = text@.subrange(from as int, end as int);
                if end > from && text@[end - 1] == '\r' {
                    assert(whole.drop_last() == text@.subrange(from as int, stop as int));
                }
                done = done.push(line@);
            }
            found.push(line);
            from = end + 1;
        } else {
            let line = sub_vec(&text, from, end);
            proof {
                done = done.push(line@);
            }
            found.push(line);
            from = end;
        }
    }
    found
}

/// `c` is a decimal digit.
pub open spec fn is_digit(c: char) -> bool {
    '0' <= c <= '9'
}

/// The value of the decimal digit `c`.
pub open spec fn digit_of(c: char) -> nat {
    if is_digit(c) {
        (c as u32 - 48) as nat
    } else {
        0
    }
}

/// The number that the decimal digits `s` write.
pub open spec fn digits_value(s: Seq<char>) -> nat
    decreases s.len(),
{
    if s.len() == 0 {
        0
    } else {
        digits_value(s.drop_last()) * 10 + digit_of(s.last())
    }
}

/// The number that `s` writes, if `s` is one decimal digit or more and
/// nothing else.
pub open spec fn magnitude_of(s: Seq<char>) -> Option<nat> {
    if s.len() > 0 && (forall|i: int| 0 <= i < s.len() ==> is_digit(#[trigger] s[i])) {
        Some(digits_value(s))
    } else {
        None
    }
}

/// `s` without a plus sign at its beginning.
pub open spec fn unsigned_part(s: Seq<char>) -> Seq<char> {
    if s.len() > 0 && s[0] == '+' {
        s.drop_first()
    } else {
        s
    }
}

/// The number that `s` writes: decimal digits, with a plus sign before them
/// or none. There is none where `s` is anything else, or the number is
/// too large.
pub open spec fn parsed_u64(s: Seq<char>) -> Option<u64> {
    match magnitude_of(unsigned_part(s)) {
        Some(value) => if value <= u64::MAX {
            Some(value as u64)
        } else {
            None
        },
        None => None,
    }
}

/// The number that `s` writes: decimal digits, with a sign before them or
/// none. There is none where `s` is anything else, or the number is out of
/// range.
pub open spec fn parsed_i64(s: Seq<char>) -> Option<i64> {
    if s.len() > 0 && s[0] == '-' {
        match magnitude_of(s.drop_first()) {
            Some(value) => if value <= 0x8000_0000_0000_0000 {
                Some((-(value as int)) as i64)
            } else {
                None
            },
            None => None,
        }
    } else {
        match magnitude_of(unsigned_part(s)) {
            Some(value) => if value <= i64::MAX {
                Some(value as i64)
            } else {
                None
            },
            None => None,
        }
    }
}

/// Digits that follow make a number no smaller.
proof fn lemma_digits_value_grows(s: Seq<char>, k: int)
    requires
        0 <= k <= s.len(),
    ensures
        digits_value(s.take(k)) <= digits_value(s),
    decreases s.len() - k,
{
    if k < s.len() {
        lemma_digits_value_grows(s, k + 1);
        assert(s.take(k + 1).drop_last() == s.take(k));
    } else {
        assert(s.take(k) == s);
    }
}

/// The number that the digits `v[from..]` write, where it fits.
fn read_digits(v: &Vec<char>, from: usize) -> (value: Option<u64>)
    requires
        from <= v.len(),
    ensures
        match value {
            Some(n) => magnitude_of(v@.skip(from as int)) == Some(n as nat),
            None => match magnitude_of(v@.skip(from as int)) {
                Some(large) => large > u64::MAX,
                None => true,
            },
        },
{
    let ghost digits = v@.skip(from as int);
    if from == v.len() {
        return None;
    }
    let mut acc: u64 = 0;
    let mut i: usize = from;
    while i < v.len()
        invariant
            from <= i <= v.len(),
            digits == v@.skip(from as int),
            acc == digits_value(digits.take(i - from)),
            forall|k: int| 0 <= k < i - from ==> is_digit(#[trigger] digits[k]),
        decreases v.len() - i,
    {
        let c = v[i];
        assert(digits[i - from] == c);
        if !('0' <= c && c <= '9') {
            return None;
        }
        let d: u64 = (c as u32 - 48) as u64;
        proof {
            assert(digits.take(i - from + 1).drop_last() == digits.take(i - from));
            lemma_digits_value_grows(digits, i - from + 1);
        }
        let next = match acc.checked_mul(10) {
            Some(tenfold) => tenfold.checked_add(d),
            None => None,
        };
        match next {
            Some(n) => {
                acc = n;
            },
            None => {
                return None;
            },
        }
        i = i + 1;
    }
    assert(digits.take(i - from) == digits);
    Some(acc)
}

/// The number that `v` writes as `parsed_u64` reads it.
pub fn parse_u64(v: &Vec<char>) -> (value: Option<u64>)
    ensures
        value == parsed_u64(v@),
{
    let from: usize = if v.len() > 0 && v[0] == '+' {
        1
    } else {
        0
    };
    proof {
        if from == 0 {
            assert(v@.skip(0) == v@);
        }
    }
    read_digits(v, from)
}

/// The number that `v` writes as `parsed_i64` reads it.
pub fn parse_i64(v: &Vec<char>) -> (value: Option<i64>)
    ensures
        value == parsed_i64(v@),
{
    if v.len() > 0 && v[0] == '-' {
        match read_digits(v, 1) {
            Some(n) => if n < 0x8000_0000_0000_0000 {
                Some(-(n as i64))
            } else if n == 0x8000_0000_0000_0000 {
                Some(i64::MIN)
            } else {
                None
            },
            None => None,
        }
    } else {
        match parse_u64(v) {
            Some(n) => if n <= 0x7fff_ffff_ffff_ffff {
                Some(n as i64)
            } else {
                None
            },
            None => None,
        }
    }
}

/// What a line of a lyric file says.
#[derive(Debug, PartialEq, Eq)]
pub enum LrcItem {
    /// The title of the song.
    Title(String),
    /// The offset of all time tags, where the line gives a number.
    Offset(Option<i64>),
    /// A line of the song: the minutes of its time tag, the seconds of the
    /// tag as they are written, and the words.
    Timed { minutes: u64, seconds: String, text: String },
    /// Nothing that is read.
    Other,
}

/// What a line says, as plain values.
pub enum LrcItemView {
    Title(Seq<char>),
    Offset(Option<i64>),
    Timed { minutes: u64, seconds: Seq<char>, text: Seq<char> },
    Other,
}

impl View for LrcItem {
    type V = LrcItemView;

    open spec fn view(&self) -> LrcItemView {
        match *self {
            LrcItem::Title(title) => LrcItemView::Title(title@),
            LrcItem::Offset(offset) => LrcItemView::Offset(offset),
            LrcItem::Timed { minutes, seconds, text } => LrcItemView::Timed {
                minutes,
                seconds: seconds@,
                text: text@,
            },
            LrcItem::Other => LrcItemView::Other,
        }
    }
}

/// The value of a tag line: the line without the tag at its beginning,
/// without closing brackets at its end, and without white space around what
/// is left.
pub open spec fn tag_value(line: Seq<char>, tag: Seq<char>) -> Seq<char> {
    trim_of(strip_end_of(strip_prefixes_of(line, tag), CharClass::Is(']')))
}

/// What a timed line says. `tag` is what stands before the closing bracket
/// and `words` what stands behind it. The tag holds the minutes and the
/// seconds with a colon between them; the minutes are a whole number.
pub open spec fn timed_item(tag: Seq<char>, words: Seq<char>) -> LrcItemView {
    let time = strip_start_of(tag, CharClass::Is('['));
    match first_occurrence(time, seq![':'], 0) {
        Some(colon) => match parsed_u64(time.subrange(0, colon)) {
            Some(minutes) => LrcItemView::Timed {
                minutes,
                seconds: time.subrange(colon + 1, time.len() as int),
                text: trim_of(words),
            },
            None => LrcItemView::Other,
        },
        None => LrcItemView::Other,
    }
}

/// What the line `line` says. A line that begins with the title tag or the
/// offset tag, white space aside, gives the title or the offset. Any other
/// line is a timed line if it holds one closing bracket and no more.
pub open spec fn item_of(line: Seq<char>) -> LrcItemView {
    let text = trim_of(line);
    if occurs_at(text, "[ti:"@, 0) {
        LrcItemView::Title(tag_value(line, "[ti:"@))
    } else if occurs_at(text, "[offset:"@, 0) {
        LrcItemView::Offset(parsed_i64(tag_value(line, "[offset:"@)))
    } else {
        match first_occurrence(text, seq![']'], 0) {
            Some(close) => {
                let words = text.subrange(close + 1, text.len() as int);
                if first_occurrence(words, seq![']'], 0) is Some {
                    LrcItemView::Other
                } else {
                    timed_item(text.subrange(0, close), words)
                }
            },
            None => LrcItemView::Other,
        }
    }
}

/// A copy of `v`.
fn copy_chars(v: &Vec<char>) -> (copy: Vec<char>)
    ensures
        copy@ == v@,
{
    let copy = sub_vec(v, 0, v.len());
    copy
}

/// The value of the tag line `line` with the tag `tag`.
fn read_tag_value(line: &Vec<char>, tag: &Vec<char>) -> (value: Vec<char>)
    ensures
        value@ == tag_value(line@, tag@),
{
    trim(strip_end(strip_prefixes(copy_chars(line), tag), CharClass::Is(']')))
}

/// What a timed line says, with `tag` before the closing bracket and
/// `words` behind it.
fn read_timed(tag: Vec<char>, words: Vec<char>) -> (item: LrcItem)
    ensures
        item@ == timed_item(tag@, words@),
{
    let time = strip_start(tag, CharClass::Is('['));
    let mark: Vec<char> = vec![':'];
    assert(mark@ == seq![':']);
    match find_from(&time, &mark, 0) {
        Some(colon) => {
            proof {
                lemma_first_occurrence(time@, mark@, 0);
            }
            let total: usize = time.len();
            let minutes = sub_vec(&time, 0, colon);
            match parse_u64(&minutes) {
                Some(minutes) => LrcItem::Timed {
                    minutes,
                    seconds: string_of(&sub_vec(&time, colon + 1, total)),
                    text: string_of(&trim(words)),
                },
                None => LrcItem::Other,
            }
        },
        None => LrcItem::Other,
    }
}

/// What the line `line` says.
pub fn parse_lrc_line(line: &Vec<char>) -> (item: LrcItem)
    ensures
        item@ == item_of(line@),
{
    let text = trim(copy_chars(line));
    let title_tag = chars_of("[ti:");
    let offset_tag = chars_of("[offset:");
    if matches_at(&text, &title_tag, 0) {
        return LrcItem::Title(string_of(&read_tag_value(line, &title_tag)));
    }
    if matches_at(&text, &offset_tag, 0) {
        return LrcItem::Offset(parse_i64(&read_tag_value(line, &offset_tag)));
    }
    let bracket: Vec<char> = vec![']'];
    assert(bracket@ == seq![']']);
    match find_from(&text, &bracket, 0) {
        Some(close) => {
            proof {
                lemma_first_occurrence(text@, bracket@, 0);
            }
            let total: usize = text.len();
            let words = sub_vec(&text, close + 1, total);
            if find_from(&words, &bracket, 0).is_some() {
                LrcItem::Other
            } else {
                read_timed(sub_vec(&text, 0, close), words)
            }
        },
        None => LrcItem::Other,
    }
}

/// What the lines of `content` say, line by line.
pub fn scan_lrc(content: &str) -> (items: Vec<LrcItem>)
    ensures
        items@.len() == lines_from(content@, 0).len(),
        forall|i: int|
            0 <= i < items@.len() ==> (#[trigger] items@[i])@ == item_of(
                lines_from(content@, 0)[i],
            ),
{
    let found = lines(content);
    let mut items: Vec<LrcItem> = Vec::new();
    let mut i: usize = 0;
    while i < found.len()
        invariant
            i <= found.len(),
            items@.len() == i,
            found@.len() == lines_from(content@, 0).len(),
            forall|k: int|
                0 <= k < found@.len() ==> (#[trigger] found@[k])@ == lines_from(content@, 0)[k],
            forall|k: int|
                0 <= k < i ==> (#[trigger] items@[k])@ == item_of(lines_from(content@, 0)[k]),
        decreases found.len() - i,
    {
        let item = parse_lrc_line(&found[i]);
        items.push(item);
        i = i + 1;
    }
    items
}

/// A line of a song, and the time at which it is sung, in milliseconds.
#[derive(Debug, PartialEq, Eq)]
pub struct LrcLine {
    pub timestamp: u64,
    pub text: String,
}

/// What a lyric file says: the title and the offset, where it gives them,
/// and the lines of the song in the order of their times.
#[derive(Debug, PartialEq, Eq)]
pub struct Lrc {
    pub title: Option<String>,
    pub offset: Option<i64>,
    pub content: Vec<LrcLine>,
}

/// The time of a line in milliseconds: 60,000 for each of the minutes and
/// `millis` for the seconds. A time beyond the range of the type wraps
/// around.
pub open spec fn stamp(minutes: u64, millis: u64) -> u64 {
    minutes.wrapping_mul(60_000).wrapping_add(millis)
}

/// The title that `items` give: that of the last line that gives one.
pub open spec fn title_of(items: Seq<LrcItemView>) -> Option<Seq<char>>
    decreases items.len(),
{
    if items.len() == 0 {
        None
    } else {
        match items.last() {
            LrcItemView::Title(title) => Some(title),
            _ => title_of(items.drop_last()),
        }
    }
}

/// The offset that `items` give: that of the last line that gives a number
/// for it.
pub open spec fn offset_of(items: Seq<LrcItemView>) -> Option<i64>
    decreases items.len(),
{
    if items.len() == 0 {
        None
    } else {
        match items.last() {
            LrcItemView::Offset(Some(offset)) => Some(offset),
            _ => offset_of(items.drop_last()),
        }
    }
}

/// The lines of the song among `items`, in the order of the file, each with
/// its time. `millis` tells for each item what the seconds of its time tag
/// come to, in milliseconds; a timed line for which it tells nothing is left
/// out.
pub open spec fn timed_lines(items: Seq<LrcItemView>, millis: Seq<Option<u64>>) -> Seq<
    (u64, Seq<char>),
>
    decreases items.len(),
{
    if items.len() == 0 {
        Seq::empty()
    } else {
        let before = timed_lines(items.drop_last(), millis);
        let at = items.len() - 1;
        match items.last() {
            LrcItemView::Timed { minutes, seconds, text } => if at < millis.len()
                && millis[at] is Some {
                before.push((stamp(minutes, millis[at]->0), text))
            } else {
                before
            },
            _ => before,
        }
    }
}

/// `sorted` with `line` put behind the last line that is not sung later.
pub open spec fn inserted_by_time(sorted: Seq<(u64, Seq<char>)>, line: (u64, Seq<char>)) -> Seq<
    (u64, Seq<char>),
>
    decreases sorted.len(),
{
    if sorted.len() == 0 {
        seq![line]
    } else if sorted.last().0 <= line.0 {
        sorted.push(line)
    } else {
        inserted_by_time(sorted.drop_last(), line).push(sorted.last())
    }
}

/// `lines` in the order of their times. Lines of the same time keep their
/// order.
pub open spec fn sorted_by_time(lines: Seq<(u64, Seq<char>)>) -> Seq<(u64, Seq<char>)>
    decreases lines.len(),
{
    if lines.len() == 0 {
        Seq::empty()
    } else {
        inserted_by_time(sorted_by_time(lines.drop_last()), lines.last())
    }
}

/// The lines `content` as plain values.
pub open spec fn line_views(content: Seq<LrcLine>) -> Seq<(u64, Seq<char>)> {
    content.map_values(|line: LrcLine| (line.timestamp, line.text@))
}

/// The items `items` as plain values.
pub open spec fn item_views(items: Seq<LrcItem>) -> Seq<LrcItemView> {
    items.map_values(|item: LrcItem| item@)
}

/// `lrc` is what `items` and `millis` say.
pub open spec fn is_lrc_of(lrc: Lrc, items: Seq<LrcItemView>, millis: Seq<Option<u64>>) -> bool {
    &&& match lrc.title {
        Some(title) => title_of(items) == Some(title@),
        None => title_of(items) is None,
    }
    &&& lrc.offset == offset_of(items)
    &&& line_views(lrc.content@) == sorted_by_time(timed_lines(items, millis))
}

/// Puts `line` into `content`, which is in the order of its times.
fn insert_by_time(content: &mut Vec<LrcLine>, line: LrcLine)
    ensures
        line_views(final(content)@) == inserted_by_time(
            line_views(old(content)@),
            (line.timestamp, line.text@),
        ),
{
    let ghost all = line_views(content@);
    let ghost added = (line.timestamp, line.text@);
    let mut j: usize = content.len();
    assert(all.take(j as int) == all);
    while j > 0 && content[j - 1].timestamp > line.timestamp
        invariant
            j <= content.len(),
            all == line_views(content@),
            added == (line.timestamp, line.text@),
            inserted_by_time(all, added) == inserted_by_time(all.take(j as int), added) + all.skip(
                j as int,
            ),
        decreases j,
    {
        assert(all.take(j as int).drop_last() == all.take(j - 1));
        j = j - 1;
    }
    content.insert(j, line);
}

/// Gathers what the lines of a lyric file say. `items` are the lines as
/// `scan_lrc` reads them. `millis` tells for each of them what the seconds of
/// its time tag come to, in milliseconds, and `None` where they are no
/// number; it is looked at for timed lines only.
pub fn parse_lrc(items: &Vec<LrcItem>, millis: &Vec<Option<u64>>) -> (lrc: Lrc)
    ensures
        is_lrc_of(lrc, item_views(items@), millis@),
{
    let ghost views = item_views(items@);
    let mut lrc = Lrc { title: None, offset: None, content: Vec::new() };
    let mut i: usize = 0;
    proof {
        assert(line_views(lrc.content@) == Seq::<(u64, Seq<char>)>::empty());
    }
    while i < items.len()
        invariant
            i <= items.len(),
            views == item_views(items@),
            is_lrc_of(lrc, views.take(i as int), millis@),
        decreases items.len() - i,
    {
        proof {
            assert(views.take(i + 1).drop_last() == views.take(i as int));
        }
        match &items[i] {
            LrcItem::Title(title) => {
                lrc.title = Some(title.clone());
            },
            LrcItem::Offset(Some(offset)) => {
                lrc.offset = Some(*offset);
            },
            LrcItem::Timed { minutes, seconds, text } => {
                if i < millis.len() {
                    match millis[i] {
                        Some(part) => {
                            let timestamp = minutes.wrapping_mul(60_000).wrapping_add(part);
                            insert_by_time(
                                &mut lrc.content,
                                LrcLine { timestamp, text: text.clone() },
                            );
                            proof {
                                let before = timed_lines(views.take(i as int), millis@);
                                let line = (timestamp, text@);
                                assert(before.push(line).drop_last() == before);
                            }
                        },
                        None => {},
                    }
                }
            },
            _ => {},
        }
        i = i + 1;
    }
    assert(views.take(items.len() as int) == views);
    lrc
}

} // verus!
