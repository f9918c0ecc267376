//! Calendar fields of an instant, the current UTC time read from `chrono`,
//! and the two textual forms the log uses: an ISO-8601 UTC timestamp and a
//! compact date. (The local date, which names the log file, is read by the
//! program around this library: chrono's local time zone lookup can panic.)
use vstd::prelude::*;
use chrono::Datelike;
use chrono::Timelike;

use crate::digits::{
    decimal, digit_char, digits_value, fixed_digits, is_digit, lemma_digit_char_value,
    lemma_fixed_digits_shape, push_decimal, push_fixed_digits,
};

verus! {

/// A calendar date and time of day, field by field, as `chrono`'s
/// `Datelike` and `Timelike` accessors report them.
#[derive(Clone, Copy, Debug, PartialEq, Eq)]
pub struct DateTimeFields {
    pub year: i32,
    pub month: u32,
    pub day: u32,
    pub hour: u32,
    pub minute: u32,
    pub second: u32,
    pub nanosecond: u32,
}

/// Whether `year` is a leap year of the proleptic Gregorian calendar.
pub open spec fn is_leap_year(year: int) -> bool {
    year % 4 == 0 && (year % 100 != 0 || year % 400 == 0)
}

/// The number of days of `month` (1..=12) in `year`.
pub open spec fn days_in_month(year: int, month: int) -> int {
    if month == 2 {
        if is_leap_year(year) {
            29
        } else {
            28
        }
    } else if month == 4 || month == 6 || month == 9 || month == 11 {
        30
    } else {
        31
    }
}

/// The smallest and largest years that `chrono` can represent.
pub open spec fn min_year() -> int {
    -262143
}

pub open spec fn max_year() -> int {
    262142
}

impl DateTimeFields {
    /// Whether the fields are a real date of `chrono`'s range and a time of
    /// day without a leap second (see `wf`).
    pub fn is_valid(&self) -> (r: bool)
        ensures
            r == self.wf(),
    {
        let leap = self.year % 4 == 0 && (self.year % 100 != 0 || self.year % 400 == 0);
        let days: u32 = if self.month == 2 {
            if leap {
                29
            } else {
                28
            }
        } else if self.month == 4 || self.month == 6 || self.month == 9 || self.month == 11 {
            30
        } else {
            31
        };
        -262143 <= self.year && self.year <= 262142 && 1 <= self.month && self.month <= 12 && 1
            <= self.day && self.day <= days && self.hour < 24 && self.minute < 60 && self.second
            < 60 && self.nanosecond < 1_000_000_000
    }

    /// A real date of `chrono`'s range and a time of day without a leap second.
    pub open spec fn wf(self) -> bool {
        &&& min_year() <= self.year <= max_year()
        &&& 1 <= self.month <= 12
        &&& 1 <= self.day <= days_in_month(self.year as int, self.month as int)
        &&& self.hour < 24
        &&& self.minute < 60
        &&& self.second < 60
        &&& self.nanosecond < 1_000_000_000
    }
}

/// The current UTC date and time.
///
/// Calls `chrono::DateTime::<Utc>::from(SystemTime::now())` and reads its
/// fields. That conversion handles clocks before 1970 as well as after; it
/// unwraps the result of `Utc.timestamp_opt`, which fails only for an instant
/// outside chrono's years, and the system clock of Windows (whose time is
/// counted from 1601 in 64 bits) never gets there. The contract claims what
/// every outcome has: a valid date, and a time of day whose nanoseconds stay
/// below one second, since the conversion takes them from
/// `Duration::subsec_nanos`. Which instant it is depends on the clock and is
/// not stated.
#[verifier::external_body]
fn utc_now_fields() -> (t: DateTimeFields)
    ensures
        t.wf(),
{
    let now = chrono::DateTime::<chrono::Utc>::from(std::time::SystemTime::now());
    DateTimeFields {
        year: now.year(),
        month: now.month(),
        day: now.day(),
        hour: now.hour(),
        minute: now.minute(),
        second: now.second(),
        nanosecond: now.nanosecond(),
    }
}

/// The year as `%Y` writes it: four zero-padded digits for years 0..=9999,
/// otherwise an explicit sign followed by at least four digits.
pub open spec fn year_text(year: int) -> Seq<char> {
    if 0 <= year <= 9999 {
        fixed_digits(year as nat, 4)
    } else {
        let mag: nat = if year < 0 { (-year) as nat } else { year as nat };
        let digits = if mag < 10000 { fixed_digits(mag, 4) } else { decimal(mag) };
        if year < 0 { seq!['-'] + digits } else { seq!['+'] + digits }
    }
}

/// Two zero-padded digits.
pub open spec fn two_digits(v: nat) -> Seq<char> {
    fixed_digits(v, 2)
}

/// `YYYY-MM-DDTHH:MM:SS.mmmZ`: the form of JavaScript's `Date.toISOString()`.
pub open spec fn iso_text(t: DateTimeFields) -> Seq<char> {
    year_text(t.year as int) + seq!['-'] + two_digits(t.month as nat) + seq!['-'] + two_digits(
        t.day as nat,
    ) + seq!['T'] + two_digits(t.hour as nat) + seq![':'] + two_digits(t.minute as nat) + seq![
        ':',
    ] + two_digits(t.second as nat) + seq!['.'] + fixed_digits(
        (t.nanosecond / 1_000_000) as nat,
        3,
    ) + seq!['Z']
}

/// `YYYYMMDD`: the date part of a log file's name.
pub open spec fn compact_date_text(t: DateTimeFields) -> Seq<char> {
    year_text(t.year as int) + two_digits(t.month as nat) + two_digits(t.day as nat)
}

/// Appends `lit`, whose text is the single character `c`.
fn push_lit(out: &mut String, lit: &str, Ghost(c): Ghost<char>)
    requires
        lit@.len() == 1,
        lit@[0] == c,
    ensures
        final(out)@ == old(out)@ + seq![c],
{
    out.append(lit);
    proof {
        assert(lit@ =~= seq![c]);
    }
}

/// Appends the year as `%Y` writes it.
fn push_year(out: &mut String, year: i32)
    requires
        min_year() <= year <= max_year(),
    ensures
        final(out)@ == old(out)@ + year_text(year as int),
{
    proof {
        reveal_strlit("-");
        reveal_strlit("+");
    }
    if 0 <= year && year <= 9999 {
        push_fixed_digits(out, year as u64, 4);
    } else {
        let mag: u64 = if year < 0 { (-(year as i64)) as u64 } else { year as u64 };
        if year < 0 {
            push_lit(out, "-", Ghost('-'));
        } else {
            push_lit(out, "+", Ghost('+'));
        }
        if mag < 10000 {
            push_fixed_digits(out, mag, 4);
        } else {
            push_decimal(out, mag);
        }
        proof {
            assert(final(out)@ =~= old(out)@ + year_text(year as int));
        }
    }
}

/// Renders `t` as `YYYY-MM-DDTHH:MM:SS.mmmZ`.
pub fn format_iso_utc(t: &DateTimeFields) -> (r: String)
    requires
        t.wf(),
    ensures
        r@ == iso_text(*t),
{
    proof {
        reveal_strlit("-");
        reveal_strlit("T");
        reveal_strlit(":");
        reveal_strlit(".");
        reveal_strlit("Z");
    }
    let mut s = String::new();
    push_year(&mut s, t.year);
    push_lit(&mut s, "-", Ghost('-'));
    push_fixed_digits(&mut s, t.month as u64, 2);
    push_lit(&mut s, "-", Ghost('-'));
    push_fixed_digits(&mut s, t.day as u64, 2);
    push_lit(&mut s, "T", Ghost('T'));
    push_fixed_digits(&mut s, t.hour as u64, 2);
    push_lit(&mut s, ":", Ghost(':'));
    push_fixed_digits(&mut s, t.minute as u64, 2);
    push_lit(&mut s, ":", Ghost(':'));
    push_fixed_digits(&mut s, t.second as u64, 2);
    push_lit(&mut s, ".", Ghost('.'));
    push_fixed_digits(&mut s, (t.nanosecond / 1_000_000) as u64, 3);
    push_lit(&mut s, "Z", Ghost('Z'));
    proof {
        assert(s@ =~= iso_text(*t));
    }
    s
}

/// Renders the date of `t` as `YYYYMMDD`.
pub fn format_date_compact(t: &DateTimeFields) -> (r: String)
    requires
        t.wf(),
    ensures
        r@ == compact_date_text(*t),
{
    let mut s = String::new();
    push_year(&mut s, t.year);
    push_fixed_digits(&mut s, t.month as u64, 2);
    push_fixed_digits(&mut s, t.day as u64, 2);
    proof {
        assert(s@ =~= compact_date_text(*t));
    }
    s
}

/// The current UTC time as `YYYY-MM-DDTHH:MM:SS.mmmZ`, like JavaScript's
/// `Date.toISOString()` (for example `2026-09-15T13:28:45.123Z`): the clock's
/// reading rendered by [`format_iso_utc`].
///
/// The reading depends on the moment of the call, so the contract can only
/// say that the text is the rendering of some valid instant; what the
/// rendering of given fields is, `format_iso_utc` states exactly.
pub fn iso_utc_now() -> (r: String)
    ensures
        exists|t: DateTimeFields| t.wf() && r@ == iso_text(t),
{
    format_iso_utc(&utc_now_fields())
}

/// For years 0..=9999 the timestamp has the 24-character shape of
/// `Date.toISOString()`: digits everywhere but `-` at 4 and 7, `T` at 10,
/// `:` at 13 and 16, `.` at 19 and `Z` at 23.
pub proof fn lemma_iso_text_shape(t: DateTimeFields)
    requires
        t.wf(),
        0 <= t.year <= 9999,
    ensures
        iso_text(t).len() == 24,
        iso_text(t)[4] == '-' && iso_text(t)[7] == '-' && iso_text(t)[10] == 'T',
        iso_text(t)[13] == ':' && iso_text(t)[16] == ':' && iso_text(t)[19] == '.',
        iso_text(t)[23] == 'Z',
        forall|i: int|
            0 <= i < 24 && i != 4 && i != 7 && i != 10 && i != 13 && i != 16 && i != 19 && i
                != 23 ==> is_digit(#[trigger] iso_text(t)[i]),
{
    lemma_fixed_digits_shape(t.year as nat, 4);
    lemma_fixed_digits_shape(t.month as nat, 2);
    lemma_fixed_digits_shape(t.day as nat, 2);
    lemma_fixed_digits_shape(t.hour as nat, 2);
    lemma_fixed_digits_shape(t.minute as nat, 2);
    lemma_fixed_digits_shape(t.second as nat, 2);
    lemma_fixed_digits_shape((t.nanosecond / 1_000_000) as nat, 3);
}

/// For years 0..=9999 the compact date is exactly eight digits.
pub proof fn lemma_compact_date_shape(t: DateTimeFields)
    requires
        t.wf(),
        0 <= t.year <= 9999,
    ensures
        compact_date_text(t).len() == 8,
        forall|i: int| 0 <= i < 8 ==> is_digit(#[trigger] compact_date_text(t)[i]),
{
    lemma_fixed_digits_shape(t.year as nat, 4);
    lemma_fixed_digits_shape(t.month as nat, 2);
    lemma_fixed_digits_shape(t.day as nat, 2);
}

/// For years 0..=9999 each field can be read back from its place in the
/// timestamp: the year from characters 0..4, the month from 5..7, the day
/// from 8..10, the hour from 11..13, the minute from 14..16, the second from
/// 17..19 and the milliseconds from 20..23.
pub proof fn lemma_iso_text_fields(t: DateTimeFields)
    requires
        t.wf(),
        0 <= t.year <= 9999,
    ensures
        digits_value(iso_text(t).subrange(0, 4)) == t.year,
        digits_value(iso_text(t).subrange(5, 7)) == t.month,
        digits_value(iso_text(t).subrange(8, 10)) == t.day,
        digits_value(iso_text(t).subrange(11, 13)) == t.hour,
        digits_value(iso_text(t).subrange(14, 16)) == t.minute,
        digits_value(iso_text(t).subrange(17, 19)) == t.second,
        digits_value(iso_text(t).subrange(20, 23)) == t.nanosecond / 1_000_000,
{
    let y = fixed_digits(t.year as nat, 4);
    let mo = fixed_digits(t.month as nat, 2);
    let d = fixed_digits(t.day as nat, 2);
    let h = fixed_digits(t.hour as nat, 2);
    let mi = fixed_digits(t.minute as nat, 2);
    let se = fixed_digits(t.second as nat, 2);
    let ms = fixed_digits((t.nanosecond / 1_000_000) as nat, 3);
    lemma_fixed_digits_shape(t.year as nat, 4);
    lemma_fixed_digits_shape(t.month as nat, 2);
    lemma_fixed_digits_shape(t.day as nat, 2);
    lemma_fixed_digits_shape(t.hour as nat, 2);
    lemma_fixed_digits_shape(t.minute as nat, 2);
    lemma_fixed_digits_shape(t.second as nat, 2);
    lemma_fixed_digits_shape((t.nanosecond / 1_000_000) as nat, 3);
    lemma_fixed_digits_value(t.year as nat, 4);
    lemma_fixed_digits_value(t.month as nat, 2);
    lemma_fixed_digits_value(t.day as nat, 2);
    lemma_fixed_digits_value(t.hour as nat, 2);
    lemma_fixed_digits_value(t.minute as nat, 2);
    lemma_fixed_digits_value(t.second as nat, 2);
    lemma_fixed_digits_value((t.nanosecond / 1_000_000) as nat, 3);
    assert(pow10(2) == 100 && pow10(3) == 1000 && pow10(4) == 10000) by {
        reveal_with_fuel(pow10, 5);
    }
    vstd::arithmetic::div_mod::lemma_small_mod(t.year as nat, 10000);
    vstd::arithmetic::div_mod::lemma_small_mod(t.month as nat, 100);
    vstd::arithmetic::div_mod::lemma_small_mod(t.day as nat, 100);
    vstd::arithmetic::div_mod::lemma_small_mod(t.hour as nat, 100);
    vstd::arithmetic::div_mod::lemma_small_mod(t.minute as nat, 100);
    vstd::arithmetic::div_mod::lemma_small_mod(t.second as nat, 100);
    vstd::arithmetic::div_mod::lemma_small_mod((t.nanosecond / 1_000_000) as nat, 1000);
    let s = iso_text(t);
    assert(s =~= y + seq!['-'] + mo + seq!['-'] + d + seq!['T'] + h + seq![':'] + mi + seq![':']
        + se + seq!['.'] + ms + seq!['Z']);
    assert(s.subrange(0, 4) =~= y);
    assert(s.subrange(5, 7) =~= mo);
    assert(s.subrange(8, 10) =~= d);
    assert(s.subrange(11, 13) =~= h);
    assert(s.subrange(14, 16) =~= mi);
    assert(s.subrange(17, 19) =~= se);
    assert(s.subrange(20, 23) =~= ms);
}

/// For years 0..=9999 the compact date reads back as the date: the year from
/// characters 0..4, the month from 4..6 and the day from 6..8.
pub proof fn lemma_compact_date_fields(t: DateTimeFields)
    requires
        t.wf(),
        0 <= t.year <= 9999,
    ensures
        digits_value(compact_date_text(t).subrange(0, 4)) == t.year,
        digits_value(compact_date_text(t).subrange(4, 6)) == t.month,
        digits_value(compact_date_text(t).subrange(6, 8)) == t.day,
{
    let y = fixed_digits(t.year as nat, 4);
    let mo = fixed_digits(t.month as nat, 2);
    let d = fixed_digits(t.day as nat, 2);
    lemma_fixed_digits_shape(t.year as nat, 4);
    lemma_fixed_digits_shape(t.month as nat, 2);
    lemma_fixed_digits_shape(t.day as nat, 2);
    lemma_fixed_digits_value(t.year as nat, 4);
    lemma_fixed_digits_value(t.month as nat, 2);
    lemma_fixed_digits_value(t.day as nat, 2);
    assert(pow10(2) == 100 && pow10(4) == 10000) by {
        reveal_with_fuel(pow10, 5);
    }
    vstd::arithmetic::div_mod::lemma_small_mod(t.year as nat, 10000);
    vstd::arithmetic::div_mod::lemma_small_mod(t.month as nat, 100);
    vstd::arithmetic::div_mod::lemma_small_mod(t.day as nat, 100);
    let s = compact_date_text(t);
    assert(s =~= y + mo + d);
    assert(s.subrange(0, 4) =~= y);
    assert(s.subrange(4, 6) =~= mo);
    assert(s.subrange(6, 8) =~= d);
}

/// `a` comes before `b` in dictionary order: at the first place where they
/// differ, within both, `a` has the smaller character.
pub open spec fn text_lt(a: Seq<char>, b: Seq<char>) -> bool {
    exists|i: int| 0 <= i < a.len() && i < b.len() && a.subrange(0, i) == b.subrange(0, i) && a[i] < b[i]
}

/// `a` is an earlier instant than `b`, to the millisecond.
pub open spec fn earlier(a: DateTimeFields, b: DateTimeFields) -> bool {
    let ma = a.nanosecond / 1_000_000;
    let mb = b.nanosecond / 1_000_000;
    ||| a.year < b.year
    ||| a.year == b.year && a.month < b.month
    ||| a.year == b.year && a.month == b.month && a.day < b.day
    ||| a.year == b.year && a.month == b.month && a.day == b.day && a.hour < b.hour
    ||| a.year == b.year && a.month == b.month && a.day == b.day && a.hour == b.hour && a.minute
        < b.minute
    ||| a.year == b.year && a.month == b.month && a.day == b.day && a.hour == b.hour && a.minute
        == b.minute && a.second < b.second
    ||| a.year == b.year && a.month == b.month && a.day == b.day && a.hour == b.hour && a.minute
        == b.minute && a.second == b.second && ma < mb
}

/// `10^w`.
pub open spec fn pow10(w: nat) -> nat
    decreases w,
{
    if w == 0 {
        1
    } else {
        10 * pow10((w - 1) as nat)
    }
}

/// Zero-padded digits read back as the number they were written for, modulo
/// the power of ten that the width leaves room for.
pub proof fn lemma_fixed_digits_value(v: nat, width: nat)
    ensures
        digits_value(fixed_digits(v, width)) == v % pow10(width),
    decreases width,
{
    if width == 0 {
        assert(fixed_digits(v, 0).len() == 0);
    } else {
        let w1 = (width - 1) as nat;
        lemma_fixed_digits_value(v / 10, w1);
        let f = fixed_digits(v, width);
        assert(f.drop_last() =~= fixed_digits(v / 10, w1));
        assert(f.last() == digit_char((v % 10) as int));
        lemma_digit_char_value((v % 10) as int);
        assert(pow10(w1) > 0) by {
            lemma_pow10_positive(w1);
        }
        vstd::arithmetic::div_mod::lemma_breakdown(v as int, 10, pow10(w1) as int);
    }
}

/// Powers of ten are positive.
proof fn lemma_pow10_positive(w: nat)
    ensures
        pow10(w) > 0,
    decreases w,
{
    if w > 0 {
        lemma_pow10_positive((w - 1) as nat);
    }
}

/// The concatenation of `parts`, from the first to the last.
pub open spec fn concat_all(parts: Seq<Seq<char>>) -> Seq<char>
    decreases parts.len(),
{
    if parts.len() == 0 {
        seq![]
    } else {
        concat_all(parts.drop_last()) + parts.last()
    }
}

/// The pieces of `iso_text`.
spec fn iso_parts(t: DateTimeFields) -> Seq<Seq<char>> {
    seq![
        year_text(t.year as int),
        seq!['-'],
        two_digits(t.month as nat),
        seq!['-'],
        two_digits(t.day as nat),
        seq!['T'],
        two_digits(t.hour as nat),
        seq![':'],
        two_digits(t.minute as nat),
        seq![':'],
        two_digits(t.second as nat),
        seq!['.'],
        fixed_digits((t.nanosecond / 1_000_000) as nat, 3),
        seq!['Z'],
    ]
}

proof fn lemma_digit_char_order(x: int, y: int)
    requires
        0 <= x < y < 10,
    ensures
        crate::digits::digit_char(x) < crate::digits::digit_char(y),
{
    assert(crate::digits::digit_char(0) == '0');
    assert(crate::digits::digit_char(1) == '1');
    assert(crate::digits::digit_char(2) == '2');
    assert(crate::digits::digit_char(3) == '3');
    assert(crate::digits::digit_char(4) == '4');
    assert(crate::digits::digit_char(5) == '5');
    assert(crate::digits::digit_char(6) == '6');
    assert(crate::digits::digit_char(7) == '7');
    assert(crate::digits::digit_char(8) == '8');
    assert(crate::digits::digit_char(9) == '9');
}

/// Zero-padded digits of the same width sort as the numbers do.
proof fn lemma_fixed_digits_order(v: nat, u: nat, w: nat)
    requires
        v < u < pow10(w),
    ensures
        text_lt(fixed_digits(v, w), fixed_digits(u, w)),
    decreases w,
{
    lemma_fixed_digits_shape(v, w);
    lemma_fixed_digits_shape(u, w);
    let a = fixed_digits(v, w);
    let b = fixed_digits(u, w);
    let pa = fixed_digits(v / 10, (w - 1) as nat);
    let pb = fixed_digits(u / 10, (w - 1) as nat);
    lemma_fixed_digits_shape(v / 10, (w - 1) as nat);
    if v / 10 < u / 10 {
        lemma_fixed_digits_order(v / 10, u / 10, (w - 1) as nat);
        let i = choose|i: int|
            0 <= i < pa.len() && i < pb.len() && pa.subrange(0, i) == pb.subrange(0, i) && pa[i]
                < pb[i];
        assert(a.subrange(0, i) =~= pa.subrange(0, i));
        assert(b.subrange(0, i) =~= pb.subrange(0, i));
        assert(a[i] == pa[i] && b[i] == pb[i]);
    } else {
        lemma_digit_char_order((v % 10) as int, (u % 10) as int);
        let i = (w - 1) as int;
        assert(a.subrange(0, i) =~= pa);
        assert(b.subrange(0, i) =~= pb);
    }
}

/// Concatenations of equal lengths keep the order of what comes first.
proof fn lemma_text_lt_append(a: Seq<char>, b: Seq<char>, x: Seq<char>, y: Seq<char>)
    requires
        text_lt(a, b),
    ensures
        text_lt(a + x, b + y),
{
    let i = choose|i: int| 0 <= i < a.len() && i < b.len() && a.subrange(0, i) == b.subrange(0, i) && a[i] < b[i];
    assert((a + x).subrange(0, i) =~= a.subrange(0, i));
    assert((b + y).subrange(0, i) =~= b.subrange(0, i));
    assert((a + x)[i] == a[i] && (b + y)[i] == b[i]);
}

/// A common beginning keeps the order of what follows.
proof fn lemma_text_lt_prepend(p: Seq<char>, x: Seq<char>, y: Seq<char>)
    requires
        text_lt(x, y),
    ensures
        text_lt(p + x, p + y),
{
    let i = choose|i: int| 0 <= i < x.len() && i < y.len() && x.subrange(0, i) == y.subrange(0, i) && x[i] < y[i];
    let k = p.len() + i;
    assert((p + x).subrange(0, k) =~= p + x.subrange(0, i));
    assert((p + y).subrange(0, k) =~= p + y.subrange(0, i));
    assert((p + x)[k] == x[i] && (p + y)[k] == y[i]);
}

/// Parts of equal lengths make concatenations of equal lengths.
proof fn lemma_concat_all_len(pa: Seq<Seq<char>>, pb: Seq<Seq<char>>)
    requires
        pa.len() == pb.len(),
        forall|i: int| 0 <= i < pa.len() ==> #[trigger] pa[i].len() == pb[i].len(),
    ensures
        concat_all(pa).len() == concat_all(pb).len(),
    decreases pa.len(),
{
    if pa.len() > 0 {
        lemma_concat_all_len(pa.drop_last(), pb.drop_last());
    }
}

/// Parts of equal lengths that agree before part `k`, where `pa` is smaller,
/// concatenate to texts in that order.
proof fn lemma_concat_all_order(pa: Seq<Seq<char>>, pb: Seq<Seq<char>>, k: int)
    requires
        pa.len() == pb.len(),
        0 <= k < pa.len(),
        forall|i: int| 0 <= i < pa.len() ==> #[trigger] pa[i].len() == pb[i].len(),
        forall|i: int| 0 <= i < k ==> #[trigger] pa[i] == pb[i],
        text_lt(pa[k], pb[k]),
    ensures
        text_lt(concat_all(pa), concat_all(pb)),
    decreases pa.len(),
{
    let n = pa.len() as int;
    if k == n - 1 {
        assert(pa.drop_last() =~= pb.drop_last());
        lemma_text_lt_prepend(concat_all(pa.drop_last()), pa.last(), pb.last());
    } else {
        lemma_concat_all_order(pa.drop_last(), pb.drop_last(), k);
        lemma_text_lt_append(concat_all(pa.drop_last()), concat_all(pb.drop_last()), pa.last(), pb.last());
    }
}

/// Timestamps sort as the times do: for years 0..=9999, an earlier instant
/// (to the millisecond) has a timestamp that comes first in dictionary
/// order, and the same instant has the same timestamp.
#[verifier::spinoff_prover]
pub proof fn lemma_iso_text_sorts(a: DateTimeFields, b: DateTimeFields)
    requires
        a.wf(),
        b.wf(),
        0 <= a.year <= 9999,
        0 <= b.year <= 9999,
    ensures
        earlier(a, b) ==> text_lt(iso_text(a), iso_text(b)),
        (a.year == b.year && a.month == b.month && a.day == b.day && a.hour == b.hour && a.minute
            == b.minute && a.second == b.second && a.nanosecond / 1_000_000 == b.nanosecond
            / 1_000_000) ==> iso_text(a) == iso_text(b),
{
    let pa = iso_parts(a);
    let pb = iso_parts(b);
    reveal_with_fuel(concat_all, 15);
    assert(concat_all(pa) =~= iso_text(a));
    assert(concat_all(pb) =~= iso_text(b));
    reveal_with_fuel(pow10, 5);
    lemma_fixed_digits_shape(a.year as nat, 4);
    lemma_fixed_digits_shape(b.year as nat, 4);
    lemma_fixed_digits_shape(a.month as nat, 2);
    lemma_fixed_digits_shape(b.month as nat, 2);
    lemma_fixed_digits_shape(a.day as nat, 2);
    lemma_fixed_digits_shape(b.day as nat, 2);
    lemma_fixed_digits_shape(a.hour as nat, 2);
    lemma_fixed_digits_shape(b.hour as nat, 2);
    lemma_fixed_digits_shape(a.minute as nat, 2);
    lemma_fixed_digits_shape(b.minute as nat, 2);
    lemma_fixed_digits_shape(a.second as nat, 2);
    lemma_fixed_digits_shape(b.second as nat, 2);
    lemma_fixed_digits_shape((a.nanosecond / 1_000_000) as nat, 3);
    lemma_fixed_digits_shape((b.nanosecond / 1_000_000) as nat, 3);
    assert forall|i: int| 0 <= i < pa.len() implies #[trigger] pa[i].len() == pb[i].len() by {}
    if earlier(a, b) {
        if a.year < b.year {
            lemma_fixed_digits_order(a.year as nat, b.year as nat, 4);
            lemma_concat_all_order(pa, pb, 0);
        } else if a.month < b.month {
            lemma_fixed_digits_order(a.month as nat, b.month as nat, 2);
            lemma_concat_all_order(pa, pb, 2);
        } else if a.day < b.day {
            lemma_fixed_digits_order(a.day as nat, b.day as nat, 2);
            lemma_concat_all_order(pa, pb, 4);
        } else if a.hour < b.hour {
            lemma_fixed_digits_order(a.hour as nat, b.hour as nat, 2);
            lemma_concat_all_order(pa, pb, 6);
        } else if a.minute < b.minute {
            lemma_fixed_digits_order(a.minute as nat, b.minute as nat, 2);
            lemma_concat_all_order(pa, pb, 8);
        } else if a.second < b.second {
            lemma_fixed_digits_order(a.second as nat, b.second as nat, 2);
            lemma_concat_all_order(pa, pb, 10);
        } else {
            lemma_fixed_digits_order(
                (a.nanosecond / 1_000_000) as nat,
                (b.nanosecond / 1_000_000) as nat,
                3,
            );
            lemma_concat_all_order(pa, pb, 12);
        }
    }
}

} // verus!
