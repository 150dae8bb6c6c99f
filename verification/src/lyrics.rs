//! Lyrics: the LRC format, the server's structured lyrics, and the order in
//! which their lines are sung.
use crate::json::{self, Decode};
use crate::text::{
    self, all_digits, digits_value, integer, lines_of, position, split_once, trimmed,
};
use vstd::prelude::*;
use vstd::slice::slice_subrange;

verus! {

/// One line of lyrics. `start_ms` is the moment at which it is sung, where the
/// source is time-synced.
#[derive(Debug, PartialEq, Eq)]
pub struct LyricLine {
    pub start_ms: Option<i64>,
    pub text: String,
}

/// What a [`LyricLine`] says.
#[verifier::ext_equal]
pub struct LyricView {
    pub start_ms: Option<i64>,
    pub text: Seq<char>,
}

impl View for LyricLine {
    type V = LyricView;

    open spec fn view(&self) -> LyricView {
        LyricView { start_ms: self.start_ms, text: self.text@ }
    }
}

impl Clone for LyricLine {
    fn clone(&self) -> (r: Self)
        ensures
            r == *self,
    {
        LyricLine { start_ms: self.start_ms, text: self.text.clone() }
    }
}

/// What the lines say, in order.
pub open spec fn line_views(lines: Seq<LyricLine>) -> Seq<LyricView> {
    lines.map_values(|l: LyricLine| l@)
}

/// The key that lines are sorted by: a line without a time comes last.
pub open spec fn start_key(line: LyricView) -> i64 {
    match line.start_ms {
        Some(ms) => ms,
        None => i64::MAX,
    }
}

/// `lines` with `line` put behind every line at its end that does not start
/// later.
pub open spec fn put_in_order(lines: Seq<LyricView>, line: LyricView) -> Seq<LyricView>
    decreases lines.len(),
{
    if lines.len() > 0 && start_key(lines.last()) > start_key(line) {
        put_in_order(lines.drop_last(), line).push(lines.last())
    } else {
        lines.push(line)
    }
}

/// `lines` by their start. Lines that start together keep their order.
pub open spec fn in_order(lines: Seq<LyricView>) -> Seq<LyricView>
    decreases lines.len(),
{
    if lines.len() == 0 {
        lines
    } else {
        put_in_order(in_order(lines.drop_last()), lines.last())
    }
}

/// Whether no line starts before the one ahead of it.
pub open spec fn is_ordered(lines: Seq<LyricView>) -> bool {
    forall|i: int, j: int|
        0 <= i <= j < lines.len() ==> start_key(#[trigger] lines[i]) <= start_key(
            #[trigger] lines[j],
        )
}

proof fn putting_keeps_order(lines: Seq<LyricView>, line: LyricView)
    requires
        is_ordered(lines),
    ensures
        is_ordered(put_in_order(lines, line)),
        put_in_order(lines, line).len() == lines.len() + 1,
        put_in_order(lines, line).to_multiset() == lines.to_multiset().insert(line),
        forall|i: int|
            0 <= i < lines.len() + 1 ==> start_key(#[trigger] put_in_order(lines, line)[i])
                <= start_key(line) || lines.len() > 0 && start_key(put_in_order(lines, line)[i])
                <= start_key(lines.last()),
    decreases lines.len(),
{
    broadcast use vstd::seq_lib::group_to_multiset_ensures;

    if lines.len() > 0 && start_key(lines.last()) > start_key(line) {
        let init = lines.drop_last();
        putting_keeps_order(init, line);
        assert(lines =~= init.push(lines.last()));
        assert(put_in_order(lines, line).to_multiset() =~= lines.to_multiset().insert(line));
    }
}

/// Sorting leaves the lines in order, and neither adds nor drops one.
pub proof fn sorting_keeps_lines(lines: Seq<LyricView>)
    ensures
        is_ordered(in_order(lines)),
        in_order(lines).len() == lines.len(),
        in_order(lines).to_multiset() == lines.to_multiset(),
    decreases lines.len(),
{
    broadcast use vstd::seq_lib::group_to_multiset_ensures;

    if lines.len() > 0 {
        sorting_keeps_lines(lines.drop_last());
        putting_keeps_order(in_order(lines.drop_last()), lines.last());
        assert(lines =~= lines.drop_last().push(lines.last()));
    }
}

/// Lines that are in order already stay as they are.
pub proof fn sorting_keeps_order(lines: Seq<LyricView>)
    requires
        is_ordered(lines),
    ensures
        in_order(lines) == lines,
    decreases lines.len(),
{
    if lines.len() > 0 {
        let init = lines.drop_last();
        sorting_keeps_order(init);
        assert(lines =~= init.push(lines.last()));
        if init.len() > 0 {
            assert(init.last() == lines[init.len() - 1]);
        }
    }
}

fn key_of(line: &LyricLine) -> (k: i64)
    ensures
        k == start_key(line@),
{
    match line.start_ms {
        Some(ms) => ms,
        None => i64::MAX,
    }
}

/// Sorts `lines` by their start; lines that start together keep their order.
pub fn sort_lines(lines: Vec<LyricLine>) -> (sorted: Vec<LyricLine>)
    ensures
        line_views(sorted@) == in_order(line_views(lines@)),
{
    let mut sorted: Vec<LyricLine> = Vec::new();
    let mut i: usize = 0;
    assert(line_views(sorted@) =~= in_order(line_views(lines@.take(0))));
    while i < lines.len()
        invariant
            i <= lines.len(),
            line_views(sorted@) == in_order(line_views(lines@.take(i as int))),
        decreases lines.len() - i,
    {
        let line = lines[i].clone();
        let ghost view = line@;
        let ghost before = line_views(sorted@);
        let mut at: usize = sorted.len();
        assert(before.take(at as int) =~= before);
        assert(before.skip(at as int) =~= Seq::<LyricView>::empty());
        assert(put_in_order(before, view) =~= put_in_order(before.take(at as int), view)
            + before.skip(at as int));
        while at > 0 && key_of(&sorted[at - 1]) > key_of(&line)
            invariant
                at <= sorted.len(),
                view == line@,
                before == line_views(sorted@),
                put_in_order(before, view) == put_in_order(before.take(at as int), view)
                    + before.skip(at as int),
            decreases at,
        {
            let ghost part = before.take(at as int);
            assert(part.last() == sorted@[at - 1]@);
            assert(part.drop_last() =~= before.take(at - 1));
            assert(put_in_order(part, view) == put_in_order(before.take(at - 1), view).push(
                part.last(),
            ));
            assert(put_in_order(before.take(at - 1), view).push(part.last()) + before.skip(
                at as int,
            ) =~= put_in_order(before.take(at - 1), view) + before.skip(at - 1));
            at = at - 1;
        }
        let ghost part = before.take(at as int);
        assert(part.len() > 0 ==> part.last() == sorted@[at - 1]@);
        assert(put_in_order(part, view) == part.push(view));
        sorted.insert(at, line);
        assert(line_views(sorted@) =~= part.push(view) + before.skip(at as int));
        assert(line_views(lines@.take(i + 1)).drop_last() =~= line_views(lines@.take(i as int)));
        assert(line_views(lines@.take(i + 1)).last() == view);
        i = i + 1;
    }
    assert(lines@.take(i as int) =~= lines@);
    sorted
}

/// The parts of a timestamp that stands at the start of `s`: minutes, seconds,
/// milliseconds, and what follows it. `[mm:ss.xx]` gives hundredths of a second,
/// `[mm:ss.xxx]` milliseconds.
pub open spec fn stamp(s: Seq<char>) -> Option<(int, int, int, Seq<char>)> {
    let inner = s.skip(1);
    let close = position(inner, ']');
    if s.len() > 0 && s[0] == '[' && close < inner.len() {
        match split_once(inner.take(close), ':') {
            Some((minutes, rest)) => match split_once(rest, '.') {
                Some((seconds, fraction)) => if small(integer(minutes)) && small(integer(seconds))
                    && 2 <= fraction.len() <= 3 && all_digits(fraction) {
                    Some(
                        (
                            integer(minutes)->0,
                            integer(seconds)->0,
                            if fraction.len() == 2 {
                                digits_value(fraction) as int * 10
                            } else {
                                digits_value(fraction) as int
                            },
                            inner.skip(close + 1),
                        ),
                    )
                } else {
                    None
                },
                None => None,
            },
            None => None,
        }
    } else {
        None
    }
}

/// Whether there is a number, and one that an `i64` holds.
pub open spec fn small(n: Option<int>) -> bool {
    n is Some && i64::MIN <= n->0 <= i64::MAX
}

/// The moment that a timestamp gives, in milliseconds.
pub open spec fn moment(minutes: int, seconds: int, millis: int) -> int {
    minutes * 60_000 + seconds * 1_000 + millis
}

/// Whether that moment, and what it is added up from, are numbers that an `i64`
/// holds.
pub open spec fn moment_fits(minutes: int, seconds: int, millis: int) -> bool {
    &&& i64::MIN <= minutes * 60_000 <= i64::MAX
    &&& i64::MIN <= seconds * 1_000 <= i64::MAX
    &&& i64::MIN <= minutes * 60_000 + seconds * 1_000 <= i64::MAX
    &&& i64::MIN <= moment(minutes, seconds, millis) <= i64::MAX
}

/// What stands at the start of a text that may begin with a timestamp.
#[derive(Debug, PartialEq, Eq)]
pub enum Stamp<'a> {
    /// No timestamp.
    Absent,
    /// A timestamp whose moment is no number that an `i64` holds.
    OutOfRange,
    /// A timestamp, in milliseconds, and what follows it.
    At(i64, &'a [char]),
}

/// Reads one timestamp off the front of `s`.
pub fn parse_lrc_timestamp<'a>(s: &'a [char]) -> (r: Stamp<'a>)
    ensures
        match stamp(s@) {
            None => r is Absent,
            Some((minutes, seconds, millis, tail)) => if moment_fits(minutes, seconds, millis) {
                r matches Stamp::At(ms, rest) && ms == moment(minutes, seconds, millis) && rest@
                    == tail && rest@.len() < s@.len()
            } else {
                r is OutOfRange
            },
        },
{
    if s.len() == 0 || s[0] != '[' {
        return Stamp::Absent;
    }
    let inner = slice_subrange(s, 1, s.len());
    assert(inner@ =~= s@.skip(1));
    let close: usize = text::find(inner, ']');
    if close >= inner.len() {
        return Stamp::Absent;
    }
    let tag = slice_subrange(inner, 0, close);
    assert(tag@ =~= inner@.take(close as int));
    let tail = slice_subrange(inner, close + 1, inner.len());
    assert(tail@ =~= inner@.skip(close + 1));
    let (minutes, rest) = match text::split_at_char(tag, ':') {
        Some(halves) => halves,
        None => {
            return Stamp::Absent;
        },
    };
    let (seconds, fraction) = match text::split_at_char(rest, '.') {
        Some(halves) => halves,
        None => {
            return Stamp::Absent;
        },
    };
    let m: i64 = match text::parse_i64(minutes) {
        Some(n) => n,
        None => {
            return Stamp::Absent;
        },
    };
    let sec: i64 = match text::parse_i64(seconds) {
        Some(n) => n,
        None => {
            return Stamp::Absent;
        },
    };
    if fraction.len() < 2 || fraction.len() > 3 || !text::only_digits(fraction) {
        return Stamp::Absent;
    }
    let f: i64 = small_number(fraction);
    let millis: i64 = if fraction.len() == 2 {
        f * 10
    } else {
        f
    };
    let a: i128 = m as i128 * 60_000;
    let b: i128 = sec as i128 * 1_000;
    let ab: i128 = a + b;
    let total: i128 = ab + millis as i128;
    if fits(a) && fits(b) && fits(ab) && fits(total) {
        Stamp::At(total as i64, tail)
    } else {
        Stamp::OutOfRange
    }
}

fn fits(n: i128) -> (r: bool)
    ensures
        r == (i64::MIN <= n <= i64::MAX),
{
    -0x8000_0000_0000_0000 <= n && n <= 0x7fff_ffff_ffff_ffff
}

/// The number that two or three digits write.
fn small_number(s: &[char]) -> (n: i64)
    requires
        2 <= s@.len() <= 3,
        all_digits(s@),
    ensures
        n == digits_value(s@),
        0 <= n < 1000,
{
    let a: i64 = s[0] as i64 - '0' as i64;
    let b: i64 = s[1] as i64 - '0' as i64;
    let ghost two = s@.take(2);
    assert(two.drop_last() =~= s@.take(1));
    assert(s@.take(1).drop_last() =~= Seq::<char>::empty());
    assert(is_digit_at(s@, 0) && is_digit_at(s@, 1));
    proof {
        reveal_with_fuel(digits_value, 4);
    }
    assert(digits_value(two) == a * 10 + b);
    if s.len() == 2 {
        assert(s@ =~= two);
        a * 10 + b
    } else {
        assert(is_digit_at(s@, 2));
        assert(s@.drop_last() =~= two);
        let c: i64 = s[2] as i64 - '0' as i64;
        (a * 10 + b) * 10 + c
    }
}

spec fn is_digit_at(s: Seq<char>, i: int) -> bool {
    text::is_digit(s[i])
}

/// `s` without byte order marks at its start.
pub open spec fn without_bom(s: Seq<char>) -> Seq<char>
    decreases s.len(),
{
    if s.len() > 0 && s[0] == '\u{feff}' {
        without_bom(s.skip(1))
    } else {
        s
    }
}

fn strip_bom(s: &[char]) -> (r: &[char])
    ensures
        r@ == without_bom(s@),
{
    let mut i: usize = 0;
    assert(s@.skip(0) =~= s@);
    while i < s.len() && s[i] == '\u{feff}'
        invariant
            i <= s.len(),
            without_bom(s@) == without_bom(s@.skip(i as int)),
        decreases s.len() - i,
    {
        assert(s@.skip(i as int).skip(1) =~= s@.skip(i + 1));
        i = i + 1;
    }
    let r = slice_subrange(s, i, s.len());
    assert(r@ =~= s@.skip(i as int));
    r
}

/// What stands between the brackets of an offset tag, `[offset:...]`.
pub open spec fn offset_tag(line: Seq<char>) -> Option<Seq<char>> {
    let prefix = "[offset:"@;
    let rest = line.skip(prefix.len() as int);
    if text::stands_at(line, prefix, 0) && rest.len() > 0 && rest.last() == ']' {
        Some(rest.drop_last())
    } else {
        None
    }
}

fn read_offset_tag(line: &[char]) -> (r: Option<&[char]>)
    ensures
        match offset_tag(line@) {
            Some(body) => r matches Some(b) && b@ == body,
            None => r is None,
        },
{
    let prefix = text::chars_of("[offset:");
    if !text::stands_at_index(line, prefix.as_slice(), 0) {
        return None;
    }
    let n: usize = prefix.len();
    let rest = slice_subrange(line, n, line.len());
    assert(rest@ =~= line@.skip(n as int));
    if rest.len() == 0 || rest[rest.len() - 1] != ']' {
        return None;
    }
    let body = slice_subrange(rest, 0, rest.len() - 1);
    assert(body@ =~= rest@.drop_last());
    Some(body)
}

/// The moments of the timestamps that a line begins with, and the rest of it.
pub open spec fn stamps(line: Seq<char>) -> (Seq<int>, Seq<char>)
    decreases line.len(),
    via stamps_shrink
{
    match stamp(line) {
        Some((minutes, seconds, millis, tail)) => {
            let (later, rest) = stamps(tail);
            (seq![moment(minutes, seconds, millis)] + later, rest)
        },
        None => (Seq::empty(), line),
    }
}

#[via_fn]
proof fn stamps_shrink(line: Seq<char>) {
    text::position_is_first(line.skip(1), ']');
}

/// Whether every timestamp that a line begins with gives a moment that an `i64`
/// holds, before and after it is moved by `offset`.
pub open spec fn stamps_fit(line: Seq<char>, offset: int) -> bool
    decreases line.len(),
    via stamps_fit_shrink
{
    match stamp(line) {
        Some((minutes, seconds, millis, tail)) => {
            &&& moment_fits(minutes, seconds, millis)
            &&& i64::MIN <= moment(minutes, seconds, millis) + offset <= i64::MAX
            &&& stamps_fit(tail, offset)
        },
        None => true,
    }
}

#[via_fn]
proof fn stamps_fit_shrink(line: Seq<char>, offset: int) {
    text::position_is_first(line.skip(1), ']');
}

/// One lyric line for each moment.
pub open spec fn sung_at(moments: Seq<int>, offset: int, words: Seq<char>) -> Seq<LyricView> {
    moments.map_values(
        |ms: int| LyricView { start_ms: Some((ms + offset) as i64), text: words },
    )
}

/// The offset in force after a line.
pub open spec fn offset_after(line: Seq<char>, offset: int) -> int {
    match offset_tag(line) {
        Some(body) => if small(integer(body)) {
            integer(body)->0
        } else {
            offset
        },
        None => offset,
    }
}

/// The lyric lines that one line of an LRC text gives: none for an empty line, an
/// offset tag, or a line without a timestamp.
pub open spec fn sung_in(line: Seq<char>, offset: int) -> Seq<LyricView> {
    if line.len() == 0 || offset_tag(line) is Some {
        Seq::empty()
    } else {
        let (moments, rest) = stamps(line);
        sung_at(moments, offset, trimmed(rest))
    }
}

/// A line of an LRC text as it is read.
pub open spec fn lrc_line(raw: Seq<char>) -> Seq<char> {
    without_bom(trimmed(raw))
}

/// The lyric lines of an LRC text, in the order in which they are written.
/// `offset` is in force at its start.
pub open spec fn lrc(raw: Seq<Seq<char>>, offset: int) -> Seq<LyricView>
    decreases raw.len(),
{
    if raw.len() == 0 {
        Seq::empty()
    } else {
        let line = lrc_line(raw[0]);
        sung_in(line, offset) + lrc(raw.skip(1), offset_after(line, offset))
    }
}

/// Whether every moment in an LRC text is a number that an `i64` holds.
pub open spec fn lrc_fits(raw: Seq<Seq<char>>, offset: int) -> bool
    decreases raw.len(),
{
    if raw.len() == 0 {
        true
    } else {
        let line = lrc_line(raw[0]);
        &&& line.len() == 0 || offset_tag(line) is Some || stamps_fit(line, offset)
        &&& lrc_fits(raw.skip(1), offset_after(line, offset))
    }
}

/// Reads one line of an LRC text: `None` where a moment is out of range.
fn read_line(line: &[char], offset: i64) -> (r: Option<Vec<LyricLine>>)
    requires
        line@.len() > 0,
        offset_tag(line@) is None,
    ensures
        r is Some == stamps_fit(line@, offset as int),
        r is Some ==> line_views(r->0@) == sung_in(line@, offset as int),
{
    let mut moments: Vec<i64> = Vec::new();
    let mut rest = line;
    let ghost mut read: Seq<int> = Seq::empty();
    proof {
        assert(read + stamps(rest@).0 =~= stamps(line@).0);
    }
    loop
        invariant
            read + stamps(rest@).0 == stamps(line@).0,
            stamps(rest@).1 == stamps(line@).1,
            stamps_fit(rest@, offset as int) == stamps_fit(line@, offset as int),
            moments@.len() == read.len(),
            forall|i: int| 0 <= i < read.len() ==> #[trigger] moments@[i] == read[i] + offset,
        ensures
            stamps(line@) == (read, rest@),
            stamps_fit(line@, offset as int),
            moments@.len() == read.len(),
            forall|i: int| 0 <= i < read.len() ==> #[trigger] moments@[i] == read[i] + offset,
        decreases rest@.len(),
    {
        match parse_lrc_timestamp(rest) {
            Stamp::Absent => {
                assert(read + Seq::<int>::empty() =~= read);
                break;
            },
            Stamp::OutOfRange => {
                return None;
            },
            Stamp::At(ms, tail) => {
                let moved: i128 = ms as i128 + offset as i128;
                if !fits(moved) {
                    return None;
                }
                moments.push(moved as i64);
                proof {
                    assert(read + (seq![ms as int] + stamps(tail@).0) =~= read.push(ms as int)
                        + stamps(tail@).0);
                    read = read.push(ms as int);
                }
                rest = tail;
            },
        }
    }
    let words: String = text::string_of(text::trim_chars(rest));
    let mut out: Vec<LyricLine> = Vec::new();
    let mut i: usize = 0;
    while i < moments.len()
        invariant
            i <= moments.len(),
            moments@.len() == read.len(),
            words@ == trimmed(rest@),
            forall|i: int| 0 <= i < read.len() ==> #[trigger] moments@[i] == read[i] + offset,
            line_views(out@) == sung_at(read, offset as int, words@).take(i as int),
        decreases moments.len() - i,
    {
        let line = LyricLine { start_ms: Some(moments[i]), text: words.clone() };
        let ghost before = out@;
        out.push(line);
        assert(line_views(out@) =~= line_views(before).push(line@));
        assert(sung_at(read, offset as int, words@)[i as int] == line@);
        i = i + 1;
        assert(line_views(out@) =~= sung_at(read, offset as int, words@).take(i as int));
    }
    assert(sung_at(read, offset as int, words@).take(i as int) =~= sung_at(
        read,
        offset as int,
        words@,
    ));
    Some(out)
}

/// Reads LRC lyrics: lines `[mm:ss.xx]text`, each with any number of timestamps,
/// and offset tags `[offset:ms]` that move what follows. Lines without a
/// timestamp are skipped. The result is in the order of the moments; `None`
/// stands for a moment that is no number of milliseconds that an `i64` holds.
pub fn try_parse_lrc(text: &str) -> (r: Option<Vec<LyricLine>>)
    ensures
        r is Some == lrc_fits(lines_of(text@), 0),
        r is Some ==> line_views(r->0@) == in_order(lrc(lines_of(text@), 0)),
{
    let chars = text::chars_of(text);
    let raw = text::lines(chars.as_slice());
    let ghost all = lines_of(text@);
    assert(text::views(raw@) == all);
    let mut out: Vec<LyricLine> = Vec::new();
    let mut offset: i64 = 0;
    let mut i: usize = 0;
    assert(all.skip(0) =~= all);
    assert(line_views(out@) + lrc(all, 0) =~= lrc(all, 0));
    while i < raw.len()
        invariant
            i <= raw.len(),
            all == lines_of(text@),
            text::views(raw@) == all,
            line_views(out@) + lrc(all.skip(i as int), offset as int) == lrc(all, 0),
            lrc_fits(all.skip(i as int), offset as int) == lrc_fits(all, 0),
        decreases raw.len() - i,
    {
        let ghost before = offset as int;
        let ghost so_far = out@;
        let line = strip_bom(text::trim_chars(raw[i].as_slice()));
        assert(all[i as int] == raw@[i as int]@);
        assert(all.skip(i as int)[0] == raw@[i as int]@);
        assert(all.skip(i as int).skip(1) =~= all.skip(i + 1));
        assert(line@ == lrc_line(all[i as int]));
        if line.len() > 0 {
            match read_offset_tag(line) {
                Some(body) => {
                    match text::parse_i64(body) {
                        Some(ms) => {
                            offset = ms;
                        },
                        None => {},
                    }
                },
                None => {
                    match read_line(line, offset) {
                        Some(mut sung) => {
                            let ghost added = sung@;
                            out.append(&mut sung);
                            assert(line_views(out@) =~= line_views(so_far) + line_views(added));
                        },
                        None => {
                            assert(!lrc_fits(all.skip(i as int), before));
                            return None;
                        },
                    }
                },
            }
        } else {
            assert(offset_tag(line@) is None) by {
                reveal_strlit("[offset:");
            }
        }
        assert(offset == offset_after(line@, before));
        assert(line_views(out@) =~= line_views(so_far) + sung_in(line@, before));
        assert(line_views(out@) + lrc(all.skip(i + 1), offset as int) =~= line_views(so_far) + (
        sung_in(line@, before) + lrc(all.skip(i + 1), offset as int)));
        i = i + 1;
    }
    assert(all.skip(i as int) =~= Seq::<Seq<char>>::empty());
    assert(line_views(out@) =~= lrc(all, 0));
    Some(sort_lines(out))
}

/// Reads LRC lyrics whose moments are all numbers of milliseconds that an `i64`
/// holds, see [`try_parse_lrc`].
pub fn parse_lrc(text: &str) -> (lines: Vec<LyricLine>)
    requires
        lrc_fits(lines_of(text@), 0),
    ensures
        line_views(lines@) == in_order(lrc(lines_of(text@), 0)),
{
    match try_parse_lrc(text) {
        Some(lines) => lines,
        None => Vec::new(),
    }
}

/// One line of lyrics as the server sends it.
#[derive(Debug, PartialEq, Eq)]
pub struct StructuredLyricLine {
    pub start: Option<i64>,
    pub value: String,
}

/// Lyrics as the server sends them: one language or version of them.
#[derive(Debug, PartialEq, Eq)]
pub struct StructuredLyrics {
    pub synced: bool,
    pub offset: Option<i64>,
    pub line: Vec<StructuredLyricLine>,
}

/// What a [`StructuredLyrics`] says.
#[verifier::ext_equal]
pub struct VersionView {
    pub synced: bool,
    pub offset: Option<i64>,
    pub line: Seq<LyricView>,
}

impl View for StructuredLyricLine {
    type V = LyricView;

    open spec fn view(&self) -> LyricView {
        LyricView { start_ms: self.start, text: self.value@ }
    }
}

impl View for StructuredLyrics {
    type V = VersionView;

    open spec fn view(&self) -> VersionView {
        VersionView {
            synced: self.synced,
            offset: self.offset,
            line: json::item_views(self.line@),
        }
    }
}

impl Decode for StructuredLyricLine {
    open spec fn decoded(value: Seq<char>) -> Option<LyricView> {
        let start = json::maybe_integer(json::field_of(value, 0, "start"@));
        let words = json::text_or_empty(json::field_of(value, 1, "value"@));
        if json::is_record(value, 2) && start is Some && words is Some {
            Some(LyricView { start_ms: start->0, text: words->0 })
        } else {
            None
        }
    }

    fn decode(value: &str) -> (r: Option<Self>) {
        if !json::record(value, 2) {
            return None;
        }
        let start = match json::read_maybe_integer(json::field(value, 0, "start")) {
            Some(x) => x,
            None => {
                return None;
            },
        };
        let words = match json::read_text_or_empty(json::field(value, 1, "value")) {
            Some(x) => x,
            None => {
                return None;
            },
        };
        Some(StructuredLyricLine { start, value: words })
    }
}

impl Decode for StructuredLyrics {
    open spec fn decoded(value: Seq<char>) -> Option<VersionView> {
        let synced = json::flag_or_false(json::field_of(value, 0, "synced"@));
        let offset = json::maybe_integer(json::field_of(value, 1, "offset"@));
        let line = json::list_or_empty::<StructuredLyricLine>(json::field_of(value, 2, "line"@));
        if json::is_record(value, 3) && synced is Some && offset is Some && line is Some {
            Some(VersionView { synced: synced->0, offset: offset->0, line: line->0 })
        } else {
            None
        }
    }

    fn decode(value: &str) -> (r: Option<Self>) {
        if !json::record(value, 3) {
            return None;
        }
        let synced = match json::read_flag_or_false(json::field(value, 0, "synced")) {
            Some(x) => x,
            None => {
                return None;
            },
        };
        let offset = match json::read_maybe_integer(json::field(value, 1, "offset")) {
            Some(x) => x,
            None => {
                return None;
            },
        };
        let line = match json::read_list_or_empty(json::field(value, 2, "line")) {
            Some(x) => x,
            None => {
                return None;
            },
        };
        Some(StructuredLyrics { synced, offset, line })
    }
}

/// The place of the first time-synced version, or the number of versions where
/// there is none.
pub open spec fn first_synced(versions: Seq<VersionView>) -> int
    decreases versions.len(),
{
    if versions.len() == 0 || versions[0].synced {
        0
    } else {
        1 + first_synced(versions.skip(1))
    }
}

/// Which of the server's versions is shown: the first that is time-synced, else
/// the first.
pub open spec fn chosen_version(versions: Seq<VersionView>) -> VersionView {
    let k = first_synced(versions);
    if k < versions.len() {
        versions[k]
    } else {
        versions[0]
    }
}

/// The offset of a version; zero where it names none.
pub open spec fn version_offset(version: VersionView) -> i64 {
    match version.offset {
        Some(ms) => ms,
        None => 0,
    }
}

/// Whether a line, moved by an offset, starts at a number that an `i64` holds.
pub open spec fn line_fits(line: LyricView, offset: i64) -> bool {
    line.start_ms is Some ==> i64::MIN <= line.start_ms->0 + offset <= i64::MAX
}

/// Whether every line of a version, moved by its offset, starts at a number that
/// an `i64` holds.
pub open spec fn version_fits(version: VersionView) -> bool {
    forall|i: int|
        0 <= i < version.line.len() ==> line_fits(
            #[trigger] version.line[i],
            version_offset(version),
        )
}

/// A line moved by an offset.
pub open spec fn moved_line(line: LyricView, offset: i64) -> LyricView {
    LyricView {
        start_ms: match line.start_ms {
            Some(ms) => Some((ms + offset) as i64),
            None => None,
        },
        text: line.text,
    }
}

/// The lines of a version, each moved by its offset.
pub open spec fn version_lines(version: VersionView) -> Seq<LyricView> {
    version.line.map_values(|l: LyricView| moved_line(l, version_offset(version)))
}

/// The lines that the server's structured lyrics show, in order: those of the
/// first time-synced version, else of the first; none without a version.
pub open spec fn structured_lines(versions: Seq<VersionView>) -> Seq<LyricView> {
    if versions.len() == 0 {
        Seq::empty()
    } else {
        in_order(version_lines(chosen_version(versions)))
    }
}

/// Whether those lines all start at a number that an `i64` holds.
pub open spec fn structured_fits(versions: Seq<VersionView>) -> bool {
    versions.len() == 0 || version_fits(chosen_version(versions))
}

fn choose_version(versions: &Vec<StructuredLyrics>) -> (k: usize)
    requires
        versions@.len() > 0,
    ensures
        k < versions@.len(),
        versions@[k as int]@ == chosen_version(json::item_views(versions@)),
{
    let ghost all = json::item_views(versions@);
    let mut i: usize = 0;
    assert(all.skip(0) =~= all);
    while i < versions.len()
        invariant
            i <= versions.len(),
            all == json::item_views(versions@),
            first_synced(all) == i + first_synced(all.skip(i as int)),
        decreases versions.len() - i,
    {
        assert(all.skip(i as int)[0] == versions@[i as int]@);
        assert(all.skip(i as int).skip(1) =~= all.skip(i + 1));
        if versions[i].synced {
            return i;
        }
        i = i + 1;
    }
    assert(all.skip(i as int) =~= Seq::<VersionView>::empty());
    0
}

/// The lines that the server's structured lyrics show. `None` stands for a line
/// that its version's offset moves past what an `i64` holds.
pub fn lyrics_by_song_id(versions: &Vec<StructuredLyrics>) -> (r: Option<Vec<LyricLine>>)
    ensures
        r is Some == structured_fits(json::item_views(versions@)),
        r is Some ==> line_views(r->0@) == structured_lines(json::item_views(versions@)),
{
    if versions.len() == 0 {
        let none: Vec<LyricLine> = Vec::new();
        assert(line_views(none@) =~= Seq::<LyricView>::empty());
        return Some(none);
    }
    let k: usize = choose_version(versions);
    let version = &versions[k];
    let ghost chosen = version@;
    let offset: i64 = match version.offset {
        Some(ms) => ms,
        None => 0,
    };
    let mut out: Vec<LyricLine> = Vec::new();
    let mut i: usize = 0;
    while i < version.line.len()
        invariant
            i <= version.line.len(),
            chosen == version@,
            offset == version_offset(chosen),
            versions@.len() > 0,
            chosen == chosen_version(json::item_views(versions@)),
            line_views(out@) == version_lines(chosen).take(i as int),
            forall|j: int| 0 <= j < i ==> line_fits(#[trigger] chosen.line[j], offset),
        decreases version.line.len() - i,
    {
        let ghost sent = chosen.line[i as int];
        assert(sent == version.line@[i as int]@);
        let start: Option<i64> = match version.line[i].start {
            Some(ms) => {
                let moved: i128 = ms as i128 + offset as i128;
                if !fits(moved) {
                    assert(!line_fits(sent, offset));
                    return None;
                }
                Some(moved as i64)
            },
            None => None,
        };
        let line = LyricLine { start_ms: start, text: version.line[i].value.clone() };
        let ghost before = out@;
        out.push(line);
        assert(line_views(out@) =~= line_views(before).push(line@));
        assert(line@ == moved_line(sent, offset));
        i = i + 1;
        assert(line_views(out@) =~= version_lines(chosen).take(i as int));
    }
    assert(version_lines(chosen).take(i as int) =~= version_lines(chosen));
    Some(sort_lines(out))
}

/// The lines that a plain lyrics text shows. A text of white space alone shows
/// none; one that reads as LRC shows its lines; any other is one block without a
/// time.
pub open spec fn plain_lines(words: Seq<char>) -> Seq<LyricView> {
    let sung = lrc(lines_of(words), 0);
    if trimmed(words).len() == 0 {
        Seq::empty()
    } else if sung.len() > 0 {
        in_order(sung)
    } else {
        seq![LyricView { start_ms: None, text: words }]
    }
}

/// Whether those lines all start at a number that an `i64` holds.
pub open spec fn plain_fits(words: Seq<char>) -> bool {
    trimmed(words).len() == 0 || lrc_fits(lines_of(words), 0)
}

/// The lines that a plain lyrics text shows. `None` stands for an LRC text with a
/// moment out of range.
pub fn lyrics_legacy(text: String) -> (r: Option<Vec<LyricLine>>)
    ensures
        r is Some == plain_fits(text@),
        r is Some ==> line_views(r->0@) == plain_lines(text@),
{
    if text::trim(text.as_str()).as_str().is_empty() {
        let none: Vec<LyricLine> = Vec::new();
        assert(line_views(none@) =~= Seq::<LyricView>::empty());
        return Some(none);
    }
    match try_parse_lrc(text.as_str()) {
        None => None,
        Some(parsed) => {
            proof {
                sorting_keeps_lines(lrc(lines_of(text@), 0));
            }
            if parsed.len() > 0 {
                Some(parsed)
            } else {
                let mut out: Vec<LyricLine> = Vec::new();
                out.push(LyricLine { start_ms: None, text });
                assert(line_views(out@) =~= seq![LyricView { start_ms: None, text: text@ }]);
                Some(out)
            }
        },
    }
}

/// What comes of the answer to the request for structured lyrics.
#[derive(Debug, PartialEq, Eq)]
pub enum LyricsStep {
    /// These are the lyrics.
    Found(Vec<LyricLine>),
    /// The plain lyrics have to be asked for.
    AskLegacy,
}

/// What comes of the structured lyrics: they are shown if there are any, else the
/// plain ones are asked for. A failed request gave none.
pub fn after_structured(found: Option<Vec<LyricLine>>) -> (step: LyricsStep)
    ensures
        match found {
            Some(lines) => if lines@.len() > 0 {
                step == LyricsStep::Found(lines)
            } else {
                step is AskLegacy
            },
            None => step is AskLegacy,
        },
{
    match found {
        Some(lines) => if lines.len() > 0 {
            LyricsStep::Found(lines)
        } else {
            LyricsStep::AskLegacy
        },
        None => LyricsStep::AskLegacy,
    }
}

/// What comes of the plain lyrics: a failed request shows no lines, and no error.
pub fn after_legacy(found: Option<Vec<LyricLine>>) -> (lines: Vec<LyricLine>)
    ensures
        match found {
            Some(l) => lines == l,
            None => lines@.len() == 0,
        },
{
    match found {
        Some(lines) => lines,
        None => Vec::new(),
    }
}

/// The lyric lines that an LRC text shows start in order.
pub proof fn lrc_is_sung_in_order(raw: Seq<Seq<char>>)
    ensures
        is_ordered(in_order(lrc(raw, 0))),
{
    sorting_keeps_lines(lrc(raw, 0));
}

/// A whole number as a tag writes it.
pub open spec fn written(n: int) -> Seq<char> {
    if n < 0 {
        seq!['-'] + text::decimal((-n) as nat)
    } else {
        text::decimal(n as nat)
    }
}

/// Whether no line of an LRC text is an offset tag.
pub open spec fn has_no_tag(raw: Seq<Seq<char>>) -> bool {
    forall|i: int|
        0 <= i < raw.len() ==> !("[offset:"@.is_prefix_of(lrc_line(#[trigger] raw[i])))
}

proof fn no_tag_means_none(line: Seq<char>)
    requires
        !("[offset:"@.is_prefix_of(line)),
    ensures
        offset_tag(line) is None,
{
    let prefix = "[offset:"@;
    if text::stands_at(line, prefix, 0) {
        assert(line.subrange(0, prefix.len() as int) =~= prefix);
    }
}

proof fn written_reads_back(n: int)
    ensures
        integer(written(n)) == Some(n),
{
    if n < 0 {
        text::decimal_reads_back((-n) as nat);
        assert(written(n).skip(1) =~= text::decimal((-n) as nat));
    } else {
        text::decimal_reads_back(n as nat);
    }
}

proof fn tag_is_read(ms: int)
    ensures
        lrc_line("[offset:"@ + written(ms) + "]"@) == "[offset:"@ + written(ms) + "]"@,
        offset_tag("[offset:"@ + written(ms) + "]"@) == Some(written(ms)),
{
    reveal_strlit("[offset:");
    reveal_strlit("]");
    let tag = "[offset:"@ + written(ms) + "]"@;
    assert(tag[0] == '[' && tag.last() == ']');
    assert(tag.subrange(0, 8) =~= "[offset:"@);
    assert(tag.skip(8).drop_last() =~= written(ms));
}

proof fn stamps_fit_each(line: Seq<char>, offset: int)
    requires
        stamps_fit(line, offset),
    ensures
        forall|i: int|
            0 <= i < stamps(line).0.len() ==> i64::MIN <= #[trigger] stamps(line).0[i] + offset
                <= i64::MAX,
    decreases line.len(),
{
    text::position_is_first(line.skip(1), ']');
    match stamp(line) {
        Some((minutes, seconds, millis, tail)) => {
            stamps_fit_each(tail, offset);
            let first = seq![moment(minutes, seconds, millis)];
            assert forall|i: int| 0 <= i < stamps(line).0.len() implies i64::MIN
                <= #[trigger] stamps(line).0[i] + offset <= i64::MAX by {
                if i > 0 {
                    assert(stamps(line).0[i] == stamps(tail).0[i - 1]);
                }
            }
        },
        None => {},
    }
}

/// Read at two offsets, an LRC text without offset tags gives the same words in the
/// same order, every one of them later by the difference of the two.
pub proof fn offset_moves_every_line(raw: Seq<Seq<char>>, one: int, other: int)
    requires
        has_no_tag(raw),
        lrc_fits(raw, one),
        lrc_fits(raw, other),
    ensures
        lrc(raw, one).len() == lrc(raw, other).len(),
        forall|i: int|
            #![trigger lrc(raw, one)[i]]
            #![trigger lrc(raw, other)[i]]
            0 <= i < lrc(raw, one).len() ==> {
                &&& lrc(raw, one)[i].text == lrc(raw, other)[i].text
                &&& lrc(raw, one)[i].start_ms is Some
                &&& lrc(raw, other)[i].start_ms is Some
                &&& lrc(raw, other)[i].start_ms->0 - lrc(raw, one)[i].start_ms->0 == other - one
            },
    decreases raw.len(),
{
    if raw.len() > 0 {
        let line = lrc_line(raw[0]);
        let rest = raw.skip(1);
        no_tag_means_none(line);
        assert forall|i: int| 0 <= i < rest.len() implies !("[offset:"@.is_prefix_of(
            lrc_line(#[trigger] rest[i]),
        )) by {
            assert(rest[i] == raw[i + 1]);
        }
        offset_moves_every_line(rest, one, other);
        if line.len() > 0 {
            stamps_fit_each(line, one);
            stamps_fit_each(line, other);
        }
        let a = sung_in(line, one);
        let b = sung_in(line, other);
        assert(a.len() == b.len());
        assert forall|i: int|
            #![trigger lrc(raw, one)[i]]
            #![trigger lrc(raw, other)[i]]
            0 <= i < lrc(raw, one).len() implies {
            &&& lrc(raw, one)[i].text == lrc(raw, other)[i].text
            &&& lrc(raw, one)[i].start_ms is Some
            &&& lrc(raw, other)[i].start_ms is Some
            &&& lrc(raw, other)[i].start_ms->0 - lrc(raw, one)[i].start_ms->0 == other - one
        } by {
            if i < a.len() {
                let m = stamps(line).0[i];
                assert(lrc(raw, one)[i] == a[i]);
                assert(lrc(raw, other)[i] == b[i]);
            } else {
                assert(lrc(raw, one)[i] == lrc(rest, one)[i - a.len()]);
                assert(lrc(raw, other)[i] == lrc(rest, other)[i - a.len()]);
            }
        }
    }
}

/// An LRC text that begins with the tag `[offset:k]`, and has no other, is read as what
/// follows the tag, with every line, however many there are, moved by `k`
/// milliseconds.
pub proof fn leading_tag_moves_every_line(raw: Seq<Seq<char>>, ms: int)
    requires
        raw.len() > 0,
        raw[0] == "[offset:"@ + written(ms) + "]"@,
        i64::MIN <= ms <= i64::MAX,
        has_no_tag(raw.skip(1)),
        lrc_fits(raw, 0),
        lrc_fits(raw.skip(1), 0),
    ensures
        lrc(raw, 0).len() == lrc(raw.skip(1), 0).len(),
        forall|i: int|
            0 <= i < lrc(raw, 0).len() ==> {
                &&& (#[trigger] lrc(raw, 0)[i]).text == lrc(raw.skip(1), 0)[i].text
                &&& lrc(raw, 0)[i].start_ms is Some
                &&& lrc(raw.skip(1), 0)[i].start_ms is Some
                &&& lrc(raw, 0)[i].start_ms->0 == lrc(raw.skip(1), 0)[i].start_ms->0 + ms
            },
{
    tag_moves_what_follows(raw, ms, 0);
    assert(lrc_fits(raw.skip(1), ms)) by {
        tag_is_read(ms);
        written_reads_back(ms);
    }
    offset_moves_every_line(raw.skip(1), 0, ms);
}

/// What follows the tag `[offset:k]` is read at the offset `k`, whatever the offset was
/// before it; the tag itself is not sung.
pub proof fn tag_moves_what_follows(raw: Seq<Seq<char>>, ms: int, before: int)
    requires
        raw.len() > 0,
        raw[0] == "[offset:"@ + written(ms) + "]"@,
        i64::MIN <= ms <= i64::MAX,
    ensures
        lrc(raw, before) == lrc(raw.skip(1), ms),
{
    tag_is_read(ms);
    written_reads_back(ms);
    assert(lrc(raw, before) =~= lrc(raw.skip(1), ms));
}

/// A text without offset tags is read one part after the other.
pub proof fn parts_are_read_in_turn(first: Seq<Seq<char>>, second: Seq<Seq<char>>, offset: int)
    requires
        has_no_tag(first),
    ensures
        lrc(first + second, offset) == lrc(first, offset) + lrc(second, offset),
    decreases first.len(),
{
    if first.len() == 0 {
        assert(first + second =~= second);
        assert(lrc(first, offset) + lrc(second, offset) =~= lrc(second, offset));
    } else {
        let line = lrc_line(first[0]);
        let rest = first.skip(1);
        no_tag_means_none(line);
        assert forall|i: int| 0 <= i < rest.len() implies !("[offset:"@.is_prefix_of(
            lrc_line(#[trigger] rest[i]),
        )) by {
            assert(rest[i] == first[i + 1]);
        }
        parts_are_read_in_turn(rest, second, offset);
        assert((first + second).skip(1) =~= rest + second);
        assert(lrc(first + second, offset) =~= lrc(first, offset) + lrc(second, offset));
    }
}

/// Whether `after` is `before` with every line later by `ms`.
pub open spec fn is_moved(before: Seq<LyricView>, after: Seq<LyricView>, ms: int) -> bool {
    &&& before.len() == after.len()
    &&& forall|i: int|
        #![trigger before[i]]
        #![trigger after[i]]
        0 <= i < before.len() ==> {
            &&& before[i].text == after[i].text
            &&& before[i].start_ms is Some
            &&& after[i].start_ms is Some
            &&& after[i].start_ms->0 == before[i].start_ms->0 + ms
        }
}

proof fn putting_keeps_moved(
    before: Seq<LyricView>,
    after: Seq<LyricView>,
    line: LyricView,
    moved: LyricView,
    ms: int,
)
    requires
        is_moved(before, after, ms),
        is_moved(seq![line], seq![moved], ms),
    ensures
        is_moved(put_in_order(before, line), put_in_order(after, moved), ms),
    decreases before.len(),
{
    assert(seq![line][0] == line && seq![moved][0] == moved);
    if before.len() > 0 {
        assert(before.last() == before[before.len() - 1]);
        assert(after.last() == after[after.len() - 1]);
        if start_key(before.last()) > start_key(line) {
            putting_keeps_moved(before.drop_last(), after.drop_last(), line, moved, ms);
        }
    }
}

/// Lines that are all later by `ms` come in the same order, all later by `ms`.
pub proof fn sorting_keeps_moved(before: Seq<LyricView>, after: Seq<LyricView>, ms: int)
    requires
        is_moved(before, after, ms),
    ensures
        is_moved(in_order(before), in_order(after), ms),
    decreases before.len(),
{
    if before.len() > 0 {
        sorting_keeps_moved(before.drop_last(), after.drop_last(), ms);
        assert(before.last() == before[before.len() - 1]);
        assert(after.last() == after[after.len() - 1]);
        putting_keeps_moved(
            in_order(before.drop_last()),
            in_order(after.drop_last()),
            before.last(),
            after.last(),
            ms,
        );
    }
}

/// The lyrics that a text shows behind a leading tag `[offset:k]`, its only one, are
/// those that it shows without the tag, each later by `k` milliseconds.
pub proof fn leading_tag_moves_the_lyrics(raw: Seq<Seq<char>>, ms: int)
    requires
        raw.len() > 0,
        raw[0] == "[offset:"@ + written(ms) + "]"@,
        i64::MIN <= ms <= i64::MAX,
        has_no_tag(raw.skip(1)),
        lrc_fits(raw, 0),
        lrc_fits(raw.skip(1), 0),
    ensures
        is_moved(in_order(lrc(raw.skip(1), 0)), in_order(lrc(raw, 0)), ms),
{
    leading_tag_moves_every_line(raw, ms);
    let before = lrc(raw.skip(1), 0);
    let after = lrc(raw, 0);
    assert forall|i: int|
        #![trigger before[i]]
        #![trigger after[i]]
        0 <= i < before.len() implies {
        &&& before[i].text == after[i].text
        &&& before[i].start_ms is Some
        &&& after[i].start_ms is Some
        &&& after[i].start_ms->0 == before[i].start_ms->0 + ms
    } by {
        assert(lrc(raw, 0)[i].text == lrc(raw.skip(1), 0)[i].text);
    }
    sorting_keeps_moved(before, after, ms);
}

proof fn position_behind(front: Seq<char>, c: char, tail: Seq<char>)
    requires
        !front.contains(c),
    ensures
        position(front + seq![c] + tail, c) == front.len(),
{
    let s = front + seq![c] + tail;
    text::position_is_first(s, c);
    let k = position(s, c);
    assert(s[front.len() as int] == c);
    if k < front.len() {
        assert(s[k] == front[k]);
        assert(front.contains(c));
    }
}

proof fn split_between(front: Seq<char>, c: char, tail: Seq<char>)
    requires
        !front.contains(c),
    ensures
        split_once(front + seq![c] + tail, c) == Some((front, tail)),
{
    position_behind(front, c, tail);
    let s = front + seq![c] + tail;
    assert(s.take(front.len() as int) =~= front);
    assert(s.skip(front.len() as int + 1) =~= tail);
}

proof fn digits_hold_no_sign(digits: Seq<char>, c: char)
    requires
        all_digits(digits),
        !text::is_digit(c),
    ensures
        !digits.contains(c),
{
    if digits.contains(c) {
        let i = choose|i: int| 0 <= i < digits.len() && digits[i] == c;
        assert(text::is_digit(digits[i]));
    }
}

/// The timestamp `[m:s.f]`, ahead of `tail`.
pub open spec fn stamped(minutes: nat, seconds: nat, fraction: Seq<char>, tail: Seq<char>) -> Seq<
    char,
> {
    seq!['['] + text::decimal(minutes) + seq![':'] + text::decimal(seconds) + seq!['.'] + fraction
        + seq![']'] + tail
}

proof fn stamp_is_read(minutes: nat, seconds: nat, fraction: Seq<char>, tail: Seq<char>)
    requires
        minutes <= i64::MAX,
        seconds <= i64::MAX,
        all_digits(fraction),
        2 <= fraction.len() <= 3,
    ensures
        stamp(stamped(minutes, seconds, fraction, tail)) == Some(
            (
                minutes as int,
                seconds as int,
                if fraction.len() == 2 {
                    10 * digits_value(fraction) as int
                } else {
                    digits_value(fraction) as int
                },
                tail,
            ),
        ),
{
    let m = text::decimal(minutes);
    let sec = text::decimal(seconds);
    text::decimal_reads_back(minutes);
    text::decimal_reads_back(seconds);
    let line = stamped(minutes, seconds, fraction, tail);
    let inner = line.skip(1);
    let tag = m + seq![':'] + (sec + seq!['.'] + fraction);
    assert(inner =~= tag + seq![']'] + tail);
    digits_hold_no_sign(m, ':');
    digits_hold_no_sign(sec, '.');
    digits_hold_no_sign(m, ']');
    digits_hold_no_sign(sec, ']');
    digits_hold_no_sign(fraction, ']');
    if tag.contains(']') {
        let i = choose|i: int| 0 <= i < tag.len() && tag[i] == ']';
        if i < m.len() {
            assert(m[i] == ']');
            assert(m.contains(']'));
        } else if m.len() < i < m.len() + 1 + sec.len() {
            assert(sec[i - m.len() - 1] == ']');
            assert(sec.contains(']'));
        } else if i > m.len() + 1 + sec.len() {
            assert(fraction[i - m.len() - sec.len() - 2] == ']');
            assert(fraction.contains(']'));
        }
        assert(false);
    }
    position_behind(tag, ']', tail);
    assert(inner.take(tag.len() as int) =~= tag);
    assert(inner.skip(tag.len() as int + 1) =~= tail);
    split_between(m, ':', sec + seq!['.'] + fraction);
    split_between(sec, '.', fraction);
    assert(line[0] == '[');
}

/// A timestamp `[m:s.f]` stands for `m` minutes, `s` seconds and `f` hundredths, or, if
/// it has three digits, thousandths of a second. The words behind it are sung at that
/// moment, moved by the offset, and at those of the timestamps that follow it.
pub proof fn timestamp_is_a_moment(
    minutes: nat,
    seconds: nat,
    fraction: Seq<char>,
    tail: Seq<char>,
)
    requires
        minutes <= i64::MAX,
        seconds <= i64::MAX,
        all_digits(fraction),
        2 <= fraction.len() <= 3,
    ensures
        ({
            let millis = if fraction.len() == 2 {
                10 * digits_value(fraction)
            } else {
                digits_value(fraction)
            };
            let line = stamped(minutes, seconds, fraction, tail);
            &&& stamps(line).0 == seq![
                (60_000 * minutes + 1_000 * seconds + millis) as int,
            ] + stamps(tail).0
            &&& stamps(line).1 == stamps(tail).1
        }),
{
    stamp_is_read(minutes, seconds, fraction, tail);
}

/// A line of words behind one timestamp is sung once, at its moment moved by the offset,
/// with white space around the words left out.
pub proof fn stamped_line_is_sung_once(
    minutes: nat,
    seconds: nat,
    fraction: Seq<char>,
    words: Seq<char>,
    offset: int,
)
    requires
        minutes <= i64::MAX,
        seconds <= i64::MAX,
        all_digits(fraction),
        fraction.len() == 2,
        words.len() == 0 || words[0] != '[',
        i64::MIN <= 60_000 * minutes + 1_000 * seconds + 10 * digits_value(fraction) + offset
            <= i64::MAX,
    ensures
        ({
            let sung = sung_in(stamped(minutes, seconds, fraction, words), offset);
            &&& sung.len() == 1
            &&& sung[0].text == trimmed(words)
            &&& sung[0].start_ms is Some
            &&& sung[0].start_ms->0 == 60_000 * minutes + 1_000 * seconds + 10 * digits_value(
                fraction,
            ) + offset
        }),
{
    timestamp_is_a_moment(minutes, seconds, fraction, words);
    text::decimal_reads_back(minutes);
    let line = stamped(minutes, seconds, fraction, words);
    assert(offset_tag(line) is None) by {
        reveal_strlit("[offset:");
        if text::stands_at(line, "[offset:"@, 0) {
            assert(line.subrange(0, 8)[1] == line[1]);
            assert(line[1] == text::decimal(minutes)[0]);
            assert(text::is_digit(text::decimal(minutes)[0]));
        }
    }
}

/// The words of a line are sung at each of its timestamps, and all words are the same.
pub proof fn timestamps_share_the_words(line: Seq<char>, offset: int)
    ensures
        forall|i: int, j: int|
            0 <= i < sung_in(line, offset).len() && 0 <= j < sung_in(line, offset).len() ==> (
            #[trigger] sung_in(line, offset)[i]).text == (#[trigger] sung_in(line, offset)[j]).text,
        line.len() == 0 || line[0] != '[' ==> sung_in(line, offset).len() == 0,
{
}

/// The version that is shown is time-synced if any is, and is the first such; else it
/// is the first of all.
pub proof fn synced_version_is_preferred(versions: Seq<VersionView>, k: int)
    requires
        0 <= k < versions.len(),
        forall|i: int| 0 <= i < k ==> !(#[trigger] versions[i]).synced,
    ensures
        versions[k].synced ==> chosen_version(versions) == versions[k],
        k == versions.len() - 1 && !versions[k].synced ==> chosen_version(versions) == versions[0],
{
    first_synced_is_first(versions, k);
}

proof fn first_synced_is_first(versions: Seq<VersionView>, k: int)
    requires
        0 <= k < versions.len(),
        forall|i: int| 0 <= i < k ==> !(#[trigger] versions[i]).synced,
    ensures
        versions[k].synced ==> first_synced(versions) == k,
        k == versions.len() - 1 && !versions[k].synced ==> first_synced(versions)
            == versions.len(),
    decreases k,
{
    reveal_with_fuel(first_synced, 2);
    if k > 0 {
        assert(!versions[0].synced);
        let rest = versions.skip(1);
        assert forall|i: int| 0 <= i < k - 1 implies !(#[trigger] rest[i]).synced by {
            assert(rest[i] == versions[i + 1]);
        }
        first_synced_is_first(rest, k - 1);
    }
}

/// The lines of structured lyrics are those of the version shown, each later by its
/// offset, or as sent where it names none. They are sung in order.
pub proof fn structured_lines_are_moved(versions: Seq<VersionView>, ms: int)
    requires
        versions.len() > 0,
        structured_fits(versions),
        chosen_version(versions).offset == Some(ms as i64),
        i64::MIN <= ms <= i64::MAX,
        forall|i: int|
            0 <= i < chosen_version(versions).line.len() ==> (
            #[trigger] chosen_version(versions).line[i]).start_ms is Some,
    ensures
        is_moved(in_order(chosen_version(versions).line), structured_lines(versions), ms),
        is_ordered(structured_lines(versions)),
{
    let version = chosen_version(versions);
    let after = version_lines(version);
    assert forall|i: int|
        #![trigger version.line[i]]
        #![trigger after[i]]
        0 <= i < version.line.len() implies {
        &&& version.line[i].text == after[i].text
        &&& version.line[i].start_ms is Some
        &&& after[i].start_ms is Some
        &&& after[i].start_ms->0 == version.line[i].start_ms->0 + ms
    } by {
        assert(line_fits(version.line[i], version_offset(version)));
        assert(chosen_version(versions).line[i].start_ms is Some);
    }
    sorting_keeps_moved(version.line, after, ms);
    sorting_keeps_lines(after);
}

/// Structured lyrics without an offset are shown as they were sent, in order.
pub proof fn structured_lines_without_offset(versions: Seq<VersionView>)
    requires
        versions.len() > 0,
        chosen_version(versions).offset is None || chosen_version(versions).offset == Some(0i64),
    ensures
        structured_lines(versions) == in_order(chosen_version(versions).line),
{
    assert(version_lines(chosen_version(versions)) =~= chosen_version(versions).line);
}

/// Plain lyrics with a timestamp anywhere are read as LRC; others that are not blank are
/// shown whole, as they are and without a time.
pub proof fn plain_lyrics_are_kept(words: Seq<char>)
    requires
        trimmed(words).len() > 0,
    ensures
        plain_lines(words).len() > 0,
        lrc(lines_of(words), 0).len() == 0 ==> plain_lines(words).len() == 1 && plain_lines(
            words,
        )[0].text == words && plain_lines(words)[0].start_ms is None,
        lrc(lines_of(words), 0).len() > 0 ==> plain_lines(words).to_multiset() == lrc(
            lines_of(words),
            0,
        ).to_multiset(),
{
    sorting_keeps_lines(lrc(lines_of(words), 0));
}

/// An LRC text without offset tags is read whenever each of its lines is, and a line of
/// words is: only a moment that an `i64` does not hold is refused.
pub proof fn fitting_lines_are_read(raw: Seq<Seq<char>>, offset: int)
    requires
        has_no_tag(raw),
    ensures
        lrc_fits(raw, offset) <==> forall|i: int|
            0 <= i < raw.len() ==> lrc_line(#[trigger] raw[i]).len() == 0 || stamps_fit(
                lrc_line(raw[i]),
                offset,
            ),
    decreases raw.len(),
{
    if raw.len() > 0 {
        let rest = raw.skip(1);
        no_tag_means_none(lrc_line(raw[0]));
        assert forall|i: int| 0 <= i < rest.len() implies !("[offset:"@.is_prefix_of(
            lrc_line(#[trigger] rest[i]),
        )) by {
            assert(rest[i] == raw[i + 1]);
        }
        fitting_lines_are_read(rest, offset);
        assert forall|i: int| 1 <= i < raw.len() implies #[trigger] raw[i] == rest[i - 1] by {}
        assert forall|i: int| 0 <= i < rest.len() implies #[trigger] rest[i] == raw[i + 1] by {}
    }
}

/// A line is refused only for a moment that an `i64` does not hold.
pub proof fn stamped_line_is_read(
    minutes: nat,
    seconds: nat,
    fraction: Seq<char>,
    tail: Seq<char>,
    offset: int,
)
    requires
        60_000 * minutes + 1_000 * seconds + 1_000 <= i64::MAX,
        all_digits(fraction),
        2 <= fraction.len() <= 3,
        i64::MIN <= offset <= 0,
        stamps_fit(tail, offset),
    ensures
        stamps_fit(stamped(minutes, seconds, fraction, tail), offset),
{
    stamp_is_read(minutes, seconds, fraction, tail);
    reveal_with_fuel(digits_value, 4);
    assert(text::is_digit(fraction[fraction.len() - 1]));
    assert(text::is_digit(fraction[fraction.len() - 2]));
    assert(text::is_digit(fraction[0]));
    assert(digits_value(fraction) <= 999);
    assert(fraction.len() == 2 ==> digits_value(fraction) <= 99);
}

/// A line of structured lyrics is read from an object; its start and its words may be
/// missing.
pub proof fn structured_line_says_what_was_sent(value: Seq<char>)
    requires
        json::members_of(value) is Some,
        json::items_of(value) is None,
    ensures
        StructuredLyricLine::decoded(value) is Some <==> {
            &&& (json::member_of(value, "start"@) is Some ==> json::member_of(value, "start"@)->0 == "null"@ || json::integer_in(json::member_of(value, "start"@)->0) is Some)
            &&& (json::member_of(value, "value"@) is Some ==> json::string_in(json::member_of(value, "value"@)->0) is Some)
        },
        StructuredLyricLine::decoded(value) matches Some(v) ==> {
            &&& json::member_of(value, "start"@) is Some && json::member_of(value, "start"@)->0 != "null"@ ==> json::integer_in(json::member_of(value, "start"@)->0) == v.start_ms
            &&& json::member_of(value, "start"@) is None || json::member_of(value, "start"@)->0 == "null"@ ==> v.start_ms is None
            &&& json::member_of(value, "value"@) is Some ==> json::string_in(json::member_of(value, "value"@)->0) == Some(v.text)
            &&& json::member_of(value, "value"@) is None ==> v.text.len() == 0
        },
{
}

/// A version of structured lyrics is read from an object, with all its lines in order. It
/// is not time-synced unless it says so.
pub proof fn version_says_what_was_sent(value: Seq<char>)
    requires
        json::members_of(value) is Some,
        json::items_of(value) is None,
    ensures
        StructuredLyrics::decoded(value) is Some <==> {
            &&& (json::member_of(value, "synced"@) is Some ==> json::member_of(value, "synced"@)->0 == "true"@ || json::member_of(value, "synced"@)->0 == "false"@)
            &&& (json::member_of(value, "offset"@) is Some ==> json::member_of(value, "offset"@)->0 == "null"@ || json::integer_in(json::member_of(value, "offset"@)->0) is Some)
            &&& (json::member_of(value, "line"@) is Some ==> json::member_of(value, "line"@)->0 != "null"@ && json::decoded_list::<StructuredLyricLine>(json::member_of(value, "line"@)) is Some)
        },
        StructuredLyrics::decoded(value) matches Some(v) ==> {
            &&& json::member_of(value, "synced"@) is Some && v.synced ==> json::member_of(value, "synced"@)->0 == "true"@
            &&& json::member_of(value, "synced"@) is Some && !v.synced ==> json::member_of(value, "synced"@)->0 == "false"@
            &&& json::member_of(value, "synced"@) is None ==> !v.synced
            &&& json::member_of(value, "offset"@) is Some && json::member_of(value, "offset"@)->0 != "null"@ ==> json::integer_in(json::member_of(value, "offset"@)->0) == v.offset
            &&& json::member_of(value, "offset"@) is None || json::member_of(value, "offset"@)->0 == "null"@ ==> v.offset is None
            &&& json::member_of(value, "line"@) is Some ==> json::decoded_list::<StructuredLyricLine>(json::member_of(value, "line"@)) == Some(v.line)
            &&& json::member_of(value, "line"@) is None ==> v.line.len() == 0
        },
{
}

/// Byte order marks ahead of a line are left out, and nothing else is.
pub proof fn byte_order_marks_are_left_out(line: Seq<char>)
    ensures
        line.len() == 0 || line[0] != '\u{feff}' ==> without_bom(line) == line,
        without_bom(seq!['\u{feff}'] + line) == without_bom(line),
{
    assert((seq!['\u{feff}'] + line).skip(1) =~= line);
}

/// An offset tag that gives no whole number changes nothing, and is not sung; a line that
/// is no offset tag leaves the offset as it is.
pub proof fn other_lines_keep_the_offset(line: Seq<char>, words: Seq<char>, offset: int)
    ensures
        !("[offset:"@.is_prefix_of(line)) ==> offset_after(line, offset) == offset,
        integer(words) is None ==> offset_after("[offset:"@ + words + "]"@, offset) == offset,
        sung_in("[offset:"@ + words + "]"@, offset).len() == 0,
{
    if !("[offset:"@.is_prefix_of(line)) {
        no_tag_means_none(line);
    }
    reveal_strlit("[offset:");
    reveal_strlit("]");
    let tag = "[offset:"@ + words + "]"@;
    assert(tag.subrange(0, 8) =~= "[offset:"@);
    assert(tag.skip(8).drop_last() =~= words);
    assert(tag.skip(8).last() == ']');
}

} // verus!
