//! Decimal text: rendering integers with and without an explicit sign, and
//! reading them back defensively.

use vstd::prelude::*;
use crate::constants::{CLOCK_FORMAT, DAY_FORMAT, DAY_ZONE};

verus! {

/// The character that writes the digit `d`.
pub open spec fn digit_char(d: int) -> char {
    if d == 0 {
        '0'
    } else if d == 1 {
        '1'
    } else if d == 2 {
        '2'
    } else if d == 3 {
        '3'
    } else if d == 4 {
        '4'
    } else if d == 5 {
        '5'
    } else if d == 6 {
        '6'
    } else if d == 7 {
        '7'
    } else if d == 8 {
        '8'
    } else {
        '9'
    }
}

/// `c` is one of the ten ASCII digits.
pub open spec fn is_digit(c: char) -> bool {
    '0' <= c && c <= '9'
}

/// The number a digit stands for; 0 for any other character.
pub open spec fn digit_value(c: char) -> nat {
    if is_digit(c) {
        (c as int - '0' as int) as nat
    } else {
        0
    }
}

/// The shortest decimal writing of `n`: no sign, no leading zero.
pub open spec fn decimal(n: nat) -> Seq<char>
    decreases n,
{
    if n < 10 {
        seq![digit_char(n as int)]
    } else {
        decimal(n / 10).push(digit_char((n % 10) as int))
    }
}

/// An integer as it is usually printed: a minus sign for negative numbers only.
pub open spec fn plain_decimal(n: int) -> Seq<char> {
    if n < 0 {
        seq!['-'] + decimal((-n) as nat)
    } else {
        decimal(n as nat)
    }
}

/// An integer with its sign spelled out: `+` for positive numbers, `-` for
/// negative ones, and a bare `0` for zero.
pub open spec fn signed_decimal(n: int) -> Seq<char> {
    if n > 0 {
        seq!['+'] + decimal(n as nat)
    } else if n < 0 {
        seq!['-'] + decimal((-n) as nat)
    } else {
        seq!['0']
    }
}

/// Every character of `s` is a digit.
pub open spec fn all_digits(s: Seq<char>) -> bool {
    forall|i: int| 0 <= i < s.len() ==> is_digit(#[trigger] s[i])
}

/// The number that a run of digits writes, most significant digit first.
pub open spec fn digits_value(s: Seq<char>) -> nat
    decreases s.len(),
{
    if s.len() == 0 {
        0
    } else {
        digits_value(s.drop_last()) * 10 + digit_value(s.last())
    }
}

/// The number written by `s` when `s` is a non-empty run of digits.
pub open spec fn digits_number(s: Seq<char>) -> Option<nat> {
    if s.len() > 0 && all_digits(s) {
        Some(digits_value(s))
    } else {
        None
    }
}

/// An unsigned decimal literal: digits, optionally after one `+`.
pub open spec fn unsigned_literal(s: Seq<char>) -> Option<nat> {
    if s.len() > 0 && s[0] == '+' {
        digits_number(s.skip(1))
    } else {
        digits_number(s)
    }
}

/// A signed decimal literal: digits, optionally after one `+` or one `-`.
pub open spec fn signed_literal(s: Seq<char>) -> Option<int> {
    if s.len() > 0 && s[0] == '-' {
        match digits_number(s.skip(1)) {
            Some(v) => Some(-(v as int)),
            None => None,
        }
    } else {
        match unsigned_literal(s) {
            Some(v) => Some(v as int),
            None => None,
        }
    }
}

/// What an unsigned literal reads as when only values up to `max` are representable.
pub open spec fn unsigned_within(s: Seq<char>, max: nat) -> Option<nat> {
    match unsigned_literal(s) {
        Some(v) => if v <= max {
            Some(v)
        } else {
            None
        },
        None => None,
    }
}

/// What a signed literal reads as when only values from `min` to `max` are representable.
pub open spec fn signed_within(s: Seq<char>, min: int, max: int) -> Option<int> {
    match signed_literal(s) {
        Some(v) => if min <= v <= max {
            Some(v)
        } else {
            None
        },
        None => None,
    }
}

/// The defensive reading of a count: the literal's value where it has one
/// that fits, and 0 for everything else (a negative number included).
pub open spec fn unsigned_or_zero(s: Seq<char>) -> nat {
    match unsigned_within(s, usize::MAX as nat) {
        Some(v) => v,
        None => 0,
    }
}

proof fn lemma_prefix_value(s: Seq<char>, k: int)
    requires
        0 <= k <= s.len(),
    ensures
        digits_value(s.take(k)) <= digits_value(s),
    decreases s.len(),
{
    if k == s.len() {
        assert(s.take(k) =~= s);
    } else {
        lemma_prefix_value(s.drop_last(), k);
        assert(s.drop_last().take(k) =~= s.take(k));
    }
}

/// The decimal writing of a number is a run of digits that writes that number.
pub proof fn lemma_decimal_reads_back(n: nat)
    ensures
        decimal(n).len() > 0,
        all_digits(decimal(n)),
        digits_value(decimal(n)) == n,
    decreases n,
{
    let text = decimal(n);
    if n < 10 {
        assert(text.drop_last() =~= Seq::<char>::empty());
        assert(digits_value(text.drop_last()) == 0);
        assert(text.last() == digit_char(n as int));
        assert(digit_value(digit_char(n as int)) == n);
    } else {
        lemma_decimal_reads_back(n / 10);
        assert(text.drop_last() =~= decimal(n / 10));
        assert(text.last() == digit_char((n % 10) as int));
        assert(digit_value(digit_char((n % 10) as int)) == n % 10);
        assert forall|i: int| 0 <= i < text.len() implies is_digit(#[trigger] text[i]) by {
            if i < text.len() - 1 {
                assert(text[i] == decimal(n / 10)[i]);
            }
        }
    }
}

/// What was written with an explicit sign reads back defensively as itself
/// where it is a count that fits, and as 0 where it is negative or too large.
pub proof fn lemma_signed_text_reads_back(n: int)
    ensures
        unsigned_or_zero(signed_decimal(n)) == if 0 <= n <= usize::MAX {
            n as nat
        } else {
            0
        },
{
    let text = signed_decimal(n);
    if n > 0 {
        lemma_decimal_reads_back(n as nat);
        assert(text[0] == '+');
        assert(text.skip(1) =~= decimal(n as nat));
    } else if n < 0 {
        assert(text[0] == '-');
        assert(!is_digit(text[0]));
    } else {
        lemma_decimal_reads_back(0);
        assert(text =~= decimal(0));
    }
}

/// The characters of a string, in order.
pub fn chars_of(s: &str) -> (chars: Vec<char>)
    ensures
        chars@ == s@,
{
    let mut chars: Vec<char> = Vec::new();
    for c in it: s.chars()
        invariant
            chars@ == it.seq().take(it.index() as int),
            it.seq() == s@,
    {
        chars.push(c);
    }
    chars
}

fn digit_text(d: u8) -> (text: &'static str)
    requires
        d < 10,
    ensures
        text@ == seq![digit_char(d as int)],
{
    proof {
        reveal_strlit("0");
        reveal_strlit("1");
        reveal_strlit("2");
        reveal_strlit("3");
        reveal_strlit("4");
        reveal_strlit("5");
        reveal_strlit("6");
        reveal_strlit("7");
        reveal_strlit("8");
        reveal_strlit("9");
    }
    let text = if d == 0 {
        "0"
    } else if d == 1 {
        "1"
    } else if d == 2 {
        "2"
    } else if d == 3 {
        "3"
    } else if d == 4 {
        "4"
    } else if d == 5 {
        "5"
    } else if d == 6 {
        "6"
    } else if d == 7 {
        "7"
    } else if d == 8 {
        "8"
    } else {
        "9"
    };
    assert(text@ =~= seq![digit_char(d as int)]);
    text
}

/// Appends the decimal writing of `n` to `out`.
pub fn append_decimal(out: &mut String, n: u128)
    ensures
        final(out)@ == old(out)@ + decimal(n as nat),
    decreases n,
{
    if n >= 10 {
        append_decimal(out, n / 10);
    }
    let d: u8 = (n % 10) as u8;
    out.append(digit_text(d));
    assert(final(out)@ =~= old(out)@ + decimal(n as nat));
}

/// The decimal writing of `n`.
pub fn decimal_text(n: u128) -> (text: String)
    ensures
        text@ == decimal(n as nat),
{
    let mut text = String::new();
    append_decimal(&mut text, n);
    assert(text@ =~= decimal(n as nat));
    text
}

fn magnitude(n: i128) -> (m: u128)
    requires
        n < 0,
    ensures
        m == -n,
{
    let below: i128 = -(n + 1);
    below as u128 + 1
}

/// Appends `n` as it is usually printed, with a minus sign if it is negative.
pub fn append_integer(out: &mut String, n: i128)
    ensures
        final(out)@ == old(out)@ + plain_decimal(n as int),
{
    if n < 0 {
        proof {
            reveal_strlit("-");
        }
        out.append("-");
        append_decimal(out, magnitude(n));
        assert(final(out)@ =~= old(out)@ + plain_decimal(n as int));
    } else {
        append_decimal(out, n as u128);
    }
}

/// `n` as it is usually printed, with a minus sign if it is negative.
pub fn integer_text(n: i128) -> (text: String)
    ensures
        text@ == plain_decimal(n as int),
{
    let mut text = String::new();
    append_integer(&mut text, n);
    assert(text@ =~= plain_decimal(n as int));
    text
}

/// Renders a number with an explicit sign: `+n` above zero, `-n` below, and
/// a bare `0` for zero.
pub fn format_signed(num: i128) -> (text: String)
    ensures
        text@ == signed_decimal(num as int),
{
    proof {
        reveal_strlit("0");
        reveal_strlit("+");
        reveal_strlit("-");
    }
    if num == 0 {
        let text = String::from_str("0");
        assert(text@ =~= signed_decimal(0));
        text
    } else if num > 0 {
        let mut text = String::from_str("+");
        append_decimal(&mut text, num as u128);
        assert(text@ =~= signed_decimal(num as int));
        text
    } else {
        let mut text = String::from_str("-");
        append_decimal(&mut text, magnitude(num));
        assert(text@ =~= signed_decimal(num as int));
        text
    }
}

fn digit_of(c: char) -> (d: Option<u8>)
    ensures
        d is Some <==> is_digit(c),
        d matches Some(v) ==> v == digit_value(c) && v < 10,
{
    if c >= '0' && c <= '9' {
        let code: u32 = c as u32;
        Some((code - 48) as u8)
    } else {
        None
    }
}

/// Reads the digits of `chars` from position `start` on as a number no greater than `max`.
fn read_digits(chars: &Vec<char>, start: usize, max: u128) -> (r: Option<u128>)
    requires
        start <= chars.len(),
        max <= u64::MAX,
    ensures
        r == match digits_number(chars@.skip(start as int)) {
            Some(v) => if v <= max {
                Some(v as u128)
            } else {
                None
            },
            None => None,
        },
{
    let ghost body = chars@.skip(start as int);
    if start == chars.len() {
        return None;
    }
    let mut value: u128 = 0;
    let mut i: usize = start;
    while i < chars.len()
        invariant
            start <= i <= chars.len(),
            max <= u64::MAX,
            body == chars@.skip(start as int),
            value == digits_value(body.take(i - start)),
            value <= max,
            all_digits(body.take(i - start)),
        decreases chars.len() - i,
    {
        let ghost seen = body.take(i - start);
        let ghost next = body.take(i + 1 - start);
        proof {
            assert(next.drop_last() =~= seen);
            assert(next.last() == chars@[i as int]);
        }
        match digit_of(chars[i]) {
            None => {
                proof {
                    assert(body[i - start] == chars@[i as int]);
                    assert(!all_digits(body));
                }
                return None;
            },
            Some(d) => {
                let grown: u128 = value * 10 + d as u128;
                proof {
                    assert(grown == digits_value(next));
                    assert forall|j: int| 0 <= j < next.len() implies is_digit(#[trigger] next[j]) by {
                        if j < seen.len() {
                            assert(next[j] == seen[j]);
                        }
                    }
                }
                if grown > max {
                    proof {
                        lemma_prefix_value(body, i + 1 - start);
                    }
                    return None;
                }
                value = grown;
            },
        }
        i = i + 1;
    }
    proof {
        assert(body.take(i - start) =~= body);
    }
    Some(value)
}

/// Reads an unsigned literal whose value is at most `max`.
pub fn parse_unsigned(s: &str, max: u64) -> (r: Option<u64>)
    ensures
        r is Some <==> unsigned_within(s@, max as nat) is Some,
        r matches Some(v) ==> unsigned_within(s@, max as nat) == Some(v as nat),
{
    let chars = chars_of(s);
    let start: usize = if chars.len() > 0 && chars[0] == '+' {
        1
    } else {
        0
    };
    proof {
        assert(chars@.skip(0) =~= chars@);
    }
    match read_digits(&chars, start, max as u128) {
        Some(v) => Some(v as u64),
        None => None,
    }
}

/// Reads a signed literal whose value fits in 64 bits.
pub fn parse_signed(s: &str) -> (r: Option<i64>)
    ensures
        r is Some <==> signed_within(s@, i64::MIN as int, i64::MAX as int) is Some,
        r matches Some(v) ==> signed_literal(s@) == Some(v as int),
{
    let chars = chars_of(s);
    proof {
        assert(chars@.skip(0) =~= chars@);
    }
    if chars.len() > 0 && chars[0] == '-' {
        match read_digits(&chars, 1, 0x8000_0000_0000_0000u128) {
            Some(v) => {
                if v == 0x8000_0000_0000_0000u128 {
                    Some(i64::MIN)
                } else {
                    let below: i64 = v as i64;
                    Some(-below)
                }
            },
            None => None,
        }
    } else {
        let start: usize = if chars.len() > 0 && chars[0] == '+' {
            1
        } else {
            0
        };
        match read_digits(&chars, start, 0x7fff_ffff_ffff_ffffu128) {
            Some(v) => Some(v as i64),
            None => None,
        }
    }
}

/// Reads a count defensively: the value of an unsigned literal that fits,
/// and 0 for any other text, a negative number included.
pub fn parse_unsigned_int(s: &str) -> (n: usize)
    ensures
        n == unsigned_or_zero(s@),
{
    match parse_unsigned(s, usize::MAX as u64) {
        Some(v) => v as usize,
        None => 0,
    }
}

/// Whether two texts hold the same characters.
pub fn text_eq(a: &str, b: &str) -> (same: bool)
    ensures
        same == (a@ == b@),
{
    let x = String::from_str(a);
    let y = String::from_str(b);
    x == y
}

/// The parts written one after another with `sep` between neighbours.
pub open spec fn joined(parts: Seq<Seq<char>>, sep: Seq<char>) -> Seq<char>
    decreases parts.len(),
{
    if parts.len() == 0 {
        Seq::empty()
    } else if parts.len() == 1 {
        parts[0]
    } else {
        joined(parts.drop_last(), sep) + sep + parts.last()
    }
}

/// Joins the parts with `sep` between neighbours.
pub fn join(parts: &Vec<String>, sep: &str) -> (text: String)
    ensures
        text@ == joined(parts.deep_view(), sep@),
{
    let mut text = String::new();
    let ghost all = parts.deep_view();
    let mut i: usize = 0;
    while i < parts.len()
        invariant
            i <= parts.len(),
            all == parts.deep_view(),
            text@ == joined(all.take(i as int), sep@),
        decreases parts.len() - i,
    {
        let ghost before = all.take(i as int);
        let ghost after = all.take(i + 1);
        proof {
            assert(after.drop_last() =~= before);
            assert(after.last() == parts[i as int]@);
        }
        if i > 0 {
            text.append(sep);
        }
        text.append(parts[i].as_str());
        proof {
            assert(text@ =~= joined(after, sep@));
        }
        i = i + 1;
    }
    proof {
        assert(all.take(i as int) =~= all);
    }
    text
}

/// What `str::to_lowercase` makes of a text.
pub uninterp spec fn lowercase(text: Seq<char>) -> Seq<char>;

/// Calls `str::to_lowercase`, which returns the lowercase form of its
/// argument as Unicode defines it. The contract only names that result: it
/// depends on the characters of the argument and on nothing else.
#[verifier::external_body]
pub(crate) fn to_lowercase(s: &str) -> (lowered: String)
    ensures
        lowered@ == lowercase(s@),
{
    s.to_lowercase()
}

/// What is shown for a timestamp of 0.
pub open spec fn unknown_time() -> Seq<char> {
    "未知时间"@
}

/// What is shown for a timestamp that has no local time.
pub open spec fn invalid_time() -> Seq<char> {
    "时间格式错误"@
}

/// The timestamps that chrono can turn into a date: from the first second
/// of the year -262143 to the last second of the year 262142, in UTC.
pub open spec fn in_chrono_range(timestamp: i64) -> bool {
    -8_334_601_228_800 <= timestamp <= 8_210_266_876_799
}

/// An offset from UTC, in seconds, that chrono accepts: less than a day
/// either way.
pub open spec fn is_offset(offset: i32) -> bool {
    -86_400 < offset < 86_400
}

/// `text` is written as a date and a time of day: a year of four or more
/// digits, with a sign where it lies outside 0 to 9999, then `-MM-DD HH:MM:SS`.
pub open spec fn clock_shaped(text: Seq<char>) -> bool {
    let body = if text.len() > 0 && (text[0] == '+' || text[0] == '-') {
        text.skip(1)
    } else {
        text
    };
    let year = body.len() - 15;
    &&& year >= 4
    &&& all_digits(body.take(year))
    &&& body[year] == '-'
    &&& is_digit(body[year + 1])
    &&& is_digit(body[year + 2])
    &&& body[year + 3] == '-'
    &&& is_digit(body[year + 4])
    &&& is_digit(body[year + 5])
    &&& body[year + 6] == ' '
    &&& is_digit(body[year + 7])
    &&& is_digit(body[year + 8])
    &&& body[year + 9] == ':'
    &&& is_digit(body[year + 10])
    &&& is_digit(body[year + 11])
    &&& body[year + 12] == ':'
    &&& is_digit(body[year + 13])
    &&& is_digit(body[year + 14])
}

/// What chrono writes for the instant `timestamp` seen at `offset` seconds
/// east of UTC, in the given format; nothing where it has no such time.
pub uninterp spec fn chrono_text(timestamp: i64, offset: i32, format: Seq<char>) -> Option<Seq<char>>;

/// `text` is the date and time of `timestamp` at some offset from UTC.
pub open spec fn local_rendering(timestamp: i64, text: Seq<char>) -> bool {
    exists|offset: i32|
        is_offset(offset) && #[trigger] chrono_text(timestamp, offset, CLOCK_FORMAT@) == Some(text)
}

/// What is shown for a timestamp whose conversion to local time gave `local`.
pub open spec fn time_label(timestamp: i64, local: Option<Seq<char>>) -> Seq<char> {
    if timestamp == 0 {
        unknown_time()
    } else {
        match local {
            Some(text) => text,
            None => invalid_time(),
        }
    }
}

/// A text in the form of a date and time is neither of the two texts that
/// stand for a missing time.
pub proof fn lemma_clock_text_is_no_sentinel(text: Seq<char>)
    requires
        clock_shaped(text),
    ensures
        text != unknown_time(),
        text != invalid_time(),
{
    reveal_strlit("未知时间");
    reveal_strlit("时间格式错误");
}

/// Calls chrono's `TimeZone::timestamp_opt` on `Local` with `timestamp`
/// seconds and no nanoseconds and, of a single result, reads the offset
/// with `DateTime::offset` and `FixedOffset::local_minus_utc`. chrono gives
/// a single result exactly for the seconds it can turn into a date, and
/// every offset it builds lies within a day of UTC; which offset it is
/// depends on the time zone of the machine. chrono panics where the
/// machine's zone data cannot be read.
#[verifier::external_body]
pub(crate) fn local_offset(timestamp: i64) -> (offset: Option<i32>)
    ensures
        offset is Some <==> in_chrono_range(timestamp),
        offset matches Some(seconds) ==> is_offset(seconds),
{
    match chrono::TimeZone::timestamp_opt(&chrono::Local, timestamp, 0) {
        chrono::LocalResult::Single(time) => Some(time.offset().local_minus_utc()),
        _ => None,
    }
}

/// Calls chrono's `FixedOffset::east_opt` with `offset`, then
/// `TimeZone::timestamp_opt` on that offset with `timestamp` seconds and no
/// nanoseconds, and formats a single result with `DateTime::format`. The
/// text depends on the three arguments alone, so the contract names it.
/// chrono has a result exactly where the offset lies within a day of UTC
/// and the seconds are in its range, and in the clock format it writes the
/// year with four digits or more, signed outside 0 to 9999, and every other
/// field with two digits.
#[verifier::external_body]
pub(crate) fn clock_text_at(timestamp: i64, offset: i32, format: &str) -> (text: Option<String>)
    requires
        format@ == CLOCK_FORMAT@,
    ensures
        text.deep_view() == chrono_text(timestamp, offset, format@),
        text is Some <==> (in_chrono_range(timestamp) && is_offset(offset)),
        text matches Some(written) ==> clock_shaped(written@),
{
    let zone = chrono::FixedOffset::east_opt(offset)?;
    match chrono::TimeZone::timestamp_opt(&zone, timestamp, 0) {
        chrono::LocalResult::Single(time) => Some(time.format(format).to_string()),
        _ => None,
    }
}

/// Looks the zone up by its name with chrono-tz's `Tz::from_str`, calls
/// chrono's `Local::now`, moves the time to that zone with
/// `DateTime::with_timezone` and formats it with `DateTime::format`. Only
/// the zone and the format of the statistics' day may be handed in: the
/// zone is one that chrono-tz knows, and the format one that chrono can
/// write. The text depends on the clock, so nothing is claimed of it.
#[verifier::external_body]
pub(crate) fn today_in_zone(zone: &str, format: &str) -> String
    requires
        zone@ == DAY_ZONE@,
        format@ == DAY_FORMAT@,
{
    let zone: chrono_tz::Tz = zone.parse().unwrap();
    chrono::Local::now().with_timezone(&zone).format(format).to_string()
}

/// What is shown for a timestamp, given the outcome of its conversion to
/// local time: 0 is never converted and has a text of its own.
pub fn time_text(timestamp: i64, local: Option<String>) -> (text: String)
    ensures
        text@ == time_label(timestamp, local.deep_view()),
{
    if timestamp == 0 {
        String::from_str("未知时间")
    } else {
        match local {
            Some(text) => text,
            None => String::from_str("时间格式错误"),
        }
    }
}

/// Renders a Unix timestamp in local time as `YYYY-MM-DD HH:MM:SS`. A
/// timestamp of 0 is shown as unknown without being converted, and one that
/// has no date as invalid.
pub fn format_timestamp(timestamp: i64) -> (text: String)
    ensures
        timestamp == 0 ==> text@ == unknown_time(),
        timestamp != 0 && !in_chrono_range(timestamp) ==> text@ == invalid_time(),
        timestamp != 0 && in_chrono_range(timestamp) ==> clock_shaped(text@),
        timestamp != 0 && in_chrono_range(timestamp) ==> local_rendering(timestamp, text@),
{
    if timestamp == 0 {
        return time_text(timestamp, None);
    }
    let local = match local_offset(timestamp) {
        Some(offset) => clock_text_at(timestamp, offset, CLOCK_FORMAT),
        None => None,
    };
    time_text(timestamp, local)
}

} // verus!
