//! How times are shown: `HH:MM` for the last day, `MM/DD` before that.
use vstd::prelude::*;
use crate::clock::{CALENDAR_BOUND_MS, LocalTime, local_time, now_millis, TIMESTAMP_BOUND_MS};
use crate::text::{digit_char, push_char};

verus! {

/// One day in milliseconds.
pub const DAY_MS: i64 = 86_400_000;

/// A number below one hundred as two digits, with a leading zero.
pub open spec fn two_digits(n: nat) -> Seq<char> {
    seq![digit_char(n / 10), digit_char(n % 10)]
}

/// The number a decimal digit character stands for.
pub open spec fn digit_value(c: char) -> int {
    c as int - '0' as int
}

/// Two digits read back give the number they were made from: the first is
/// the tens and the second the units, for every number below one hundred.
pub proof fn lemma_two_digits_reads_back(n: nat)
    requires
        n < 100,
    ensures
        two_digits(n).len() == 2,
        0 <= digit_value(two_digits(n)[0]) < 10,
        0 <= digit_value(two_digits(n)[1]) < 10,
        10 * digit_value(two_digits(n)[0]) + digit_value(two_digits(n)[1]) == n,
{
    let t = n / 10;
    let u = n % 10;
    assert(t < 10 && u < 10);
    assert(digit_value(digit_char(t)) == t);
    assert(digit_value(digit_char(u)) == u);
}

/// A time of day shown as `HH:MM` reads back as that hour and minute, and
/// a date shown as `MM/DD` as that month and day.
pub proof fn lemma_clock_texts_read_back(t: LocalTime)
    requires
        t.hour < 100,
        t.minute < 100,
        t.month < 100,
        t.day < 100,
    ensures
        hhmm_seq(t).len() == 5,
        hhmm_seq(t)[2] == ':',
        10 * digit_value(hhmm_seq(t)[0]) + digit_value(hhmm_seq(t)[1]) == t.hour,
        10 * digit_value(hhmm_seq(t)[3]) + digit_value(hhmm_seq(t)[4]) == t.minute,
        mmdd_seq(t).len() == 5,
        mmdd_seq(t)[2] == '/',
        10 * digit_value(mmdd_seq(t)[0]) + digit_value(mmdd_seq(t)[1]) == t.month,
        10 * digit_value(mmdd_seq(t)[3]) + digit_value(mmdd_seq(t)[4]) == t.day,
{
    lemma_two_digits_reads_back(t.hour as nat);
    lemma_two_digits_reads_back(t.minute as nat);
    lemma_two_digits_reads_back(t.month as nat);
    lemma_two_digits_reads_back(t.day as nat);
    let h = two_digits(t.hour as nat);
    let m = two_digits(t.minute as nat);
    assert(hhmm_seq(t)[0] == h[0] && hhmm_seq(t)[1] == h[1]);
    assert(hhmm_seq(t)[3] == m[0] && hhmm_seq(t)[4] == m[1]);
    let mo = two_digits(t.month as nat);
    let d = two_digits(t.day as nat);
    assert(mmdd_seq(t)[0] == mo[0] && mmdd_seq(t)[1] == mo[1]);
    assert(mmdd_seq(t)[3] == d[0] && mmdd_seq(t)[4] == d[1]);
}

/// `HH:MM` (chrono's `%H:%M`).
pub open spec fn hhmm_seq(t: LocalTime) -> Seq<char> {
    two_digits(t.hour as nat) + seq![':'] + two_digits(t.minute as nat)
}

/// `MM/DD` (chrono's `%m/%d`).
pub open spec fn mmdd_seq(t: LocalTime) -> Seq<char> {
    two_digits(t.month as nat) + seq!['/'] + two_digits(t.day as nat)
}

/// How a time `t` is shown at `now`: the date once at least a whole day
/// has passed, the time of day before that; nothing for a time the
/// calendar cannot place.
pub open spec fn friendly_seq(now: int, t: int, local: Option<LocalTime>) -> Seq<char> {
    match local {
        None => seq![],
        Some(lt) => if now - t >= DAY_MS { mmdd_seq(lt) } else { hhmm_seq(lt) },
    }
}

fn digit(d: u32) -> (c: char)
    requires
        d < 10,
    ensures
        c == digit_char(d as nat),
{
    if d == 0 { '0' }
    else if d == 1 { '1' }
    else if d == 2 { '2' }
    else if d == 3 { '3' }
    else if d == 4 { '4' }
    else if d == 5 { '5' }
    else if d == 6 { '6' }
    else if d == 7 { '7' }
    else if d == 8 { '8' }
    else { '9' }
}

fn push_two_digits(s: &mut String, n: u32)
    requires
        n < 100,
    ensures
        final(s)@ == old(s)@ + two_digits(n as nat),
{
    push_char(s, digit(n / 10));
    push_char(s, digit(n % 10));
    assert(final(s)@ =~= old(s)@ + two_digits(n as nat));
}

/// The time of day, `HH:MM`.
pub fn format_hhmm(t: LocalTime) -> (r: String)
    requires
        t.hour < 100,
        t.minute < 100,
    ensures
        r@ == hhmm_seq(t),
{
    let mut s = String::new();
    push_two_digits(&mut s, t.hour);
    push_char(&mut s, ':');
    push_two_digits(&mut s, t.minute);
    assert(s@ =~= hhmm_seq(t));
    s
}

/// The date, `MM/DD`.
pub fn format_mmdd(t: LocalTime) -> (r: String)
    requires
        t.month < 100,
        t.day < 100,
    ensures
        r@ == mmdd_seq(t),
{
    let mut s = String::new();
    push_two_digits(&mut s, t.month);
    push_char(&mut s, '/');
    push_two_digits(&mut s, t.day);
    assert(s@ =~= mmdd_seq(t));
    s
}

/// How the time `t` is shown at `now`, given the local calendar reading of
/// `t`.
pub fn format_time_friendly_at(now: i64, t: i64, local: Option<LocalTime>) -> (r: String)
    requires
        -TIMESTAMP_BOUND_MS < now < TIMESTAMP_BOUND_MS,
        -TIMESTAMP_BOUND_MS < t < TIMESTAMP_BOUND_MS,
        local matches Some(lt) ==> lt.month < 100 && lt.day < 100 && lt.hour < 100 && lt.minute
            < 100,
    ensures
        r@ == friendly_seq(now as int, t as int, local),
{
    match local {
        None => String::new(),
        Some(lt) => if now - t >= DAY_MS { format_mmdd(lt) } else { format_hhmm(lt) },
    }
}

/// How the time `t` is shown now.
pub fn format_time_friendly(t: i64) -> (r: String)
    requires
        -TIMESTAMP_BOUND_MS < t < TIMESTAMP_BOUND_MS,
    ensures
        exists|now: int, local: Option<LocalTime>| r@ == #[trigger] friendly_seq(now, t as int, local),
        -CALENDAR_BOUND_MS < t < CALENDAR_BOUND_MS ==> exists|now: int, lt: LocalTime|
            1 <= lt.month <= 12 && 1 <= lt.day <= 31 && lt.hour < 24 && lt.minute < 60
                && r@ == #[trigger] friendly_seq(now, t as int, Some(lt)),
{
    let now = now_millis();
    let local = local_time(t);
    format_time_friendly_at(now, t, local)
}

/// The time of day of `t`, as the chat bubbles show it (nothing for an
/// instant the calendar cannot place).
pub fn format_time_hhmm(t: i64) -> (r: String)
    ensures
        r@.len() == 0 || exists|lt: LocalTime|
            lt.hour < 24 && lt.minute < 60 && r@ == #[trigger] hhmm_seq(lt),
        -CALENDAR_BOUND_MS < t < CALENDAR_BOUND_MS ==> exists|lt: LocalTime|
            lt.hour < 24 && lt.minute < 60 && r@ == #[trigger] hhmm_seq(lt),
{
    match local_time(t) {
        Some(lt) => format_hhmm(lt),
        None => String::new(),
    }
}

} // verus!
