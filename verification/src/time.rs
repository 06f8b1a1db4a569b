//! Points in time, as the screens use them: to order rows, to count the days
//! until a credential expires, and to print a calendar date.

use crate::text::{cat3, count, decimal, number};
use vstd::prelude::*;
use vstd::string::*;

verus! {

/// Nanoseconds in a second.
pub const SECOND: i128 = 1_000_000_000;

/// Nanoseconds in a minute.
pub const MINUTE: i128 = 60_000_000_000;

/// Nanoseconds in an hour.
pub const HOUR: i128 = 3_600_000_000_000;

/// Nanoseconds in a day.
pub const DAY: i128 = 86_400_000_000_000;

/// The first second of the calendar, from the start of 1970 in UTC.
pub const FIRST_SECOND: i64 = -8_334_601_228_800;

/// The last second of the calendar, from the start of 1970 in UTC.
pub const LAST_SECOND: i64 = 8_210_266_876_799;

/// A point in time, to the nanosecond. Its view is the number of nanoseconds
/// since the start of 1970 in UTC.
#[derive(Clone, Copy, Debug, PartialEq, Eq)]
pub struct Timestamp {
    secs: i64,
    nanos: u32,
}

impl View for Timestamp {
    type V = int;

    closed spec fn view(&self) -> int {
        self.secs * SECOND + self.nanos
    }
}

impl Timestamp {
    #[verifier::type_invariant]
    spec fn on_the_calendar(self) -> bool {
        FIRST_SECOND <= self.secs <= LAST_SECOND && self.nanos < SECOND
    }

    /// The point `nanos` nanoseconds after the second `secs`, or nothing where
    /// the calendar does not reach or `nanos` is a second or more.
    pub fn new(secs: i64, nanos: u32) -> (r: Option<Timestamp>)
        ensures
            r is Some <==> FIRST_SECOND <= secs <= LAST_SECOND && nanos < SECOND,
            r matches Some(t) ==> t@ == secs * SECOND + nanos,
            r matches Some(t) ==> t@ == secs * 1_000_000_000 + nanos,
    {
        if FIRST_SECOND <= secs && secs <= LAST_SECOND && nanos < 1_000_000_000 {
            Some(Timestamp { secs, nanos })
        } else {
            None
        }
    }

    /// Whether this point is no later than `other`.
    pub fn not_after(self, other: Timestamp) -> (r: bool)
        ensures
            r == (self@ <= other@),
    {
        proof {
            use_type_invariant(self);
            use_type_invariant(other);
        }
        self.secs < other.secs || (self.secs == other.secs && self.nanos <= other.nanos)
    }

    /// The nanoseconds since the start of 1970 in UTC.
    pub fn instant(self) -> (r: i128)
        ensures
            r == self@,
    {
        proof {
            use_type_invariant(self);
        }
        self.secs as i128 * SECOND + self.nanos as i128
    }

    /// The day this point falls on, counted from the first day of 1970 in UTC.
    pub fn day(self) -> (r: i64)
        ensures
            r == self@ / (DAY as int),
            r == self@ / 86_400_000_000_000,
    {
        proof {
            use_type_invariant(self);
            assert(self@ / (DAY as int) == (self.secs as int) / 86_400) by {
                let q = (self.secs as int) / 86_400;
                let m = (self.secs as int) % 86_400;
                assert(self@ == q * DAY + (m * SECOND + self.nanos));
                assert(0 <= m * SECOND + self.nanos < DAY);
                vstd::arithmetic::div_mod::lemma_fundamental_div_mod_converse(
                    self@,
                    DAY as int,
                    q,
                    m * SECOND + self.nanos,
                );
            }
        }
        if self.secs >= 0 {
            self.secs / 86_400
        } else {
            -1 - (-1 - self.secs) / 86_400
        }
    }
}

/// Division that drops the fraction, whichever sign it has.
pub open spec fn whole_part(a: int, b: int) -> int {
    if a >= 0 {
        a / b
    } else {
        -((-a) / b)
    }
}

/// The whole days from one point to another; negative where the other lies
/// before.
pub open spec fn days_from(now: int, end: int) -> int {
    whole_part(end - now, DAY as int)
}

/// `chrono::TimeDelta::num_days` of the difference of two `chrono::DateTime`s:
/// the whole days between them, the fraction dropped.
#[verifier::external_body]
pub(crate) fn num_days(now: Timestamp, end: Timestamp) -> (r: i64)
    ensures
        r == days_from(now@, end@),
{
    let e = chrono::DateTime::from_timestamp(end.secs, end.nanos).unwrap();
    let n = chrono::DateTime::from_timestamp(now.secs, now.nanos).unwrap();
    (e - n).num_days()
}

/// The calendar date of a point in time, year, month and day in digits with a
/// hyphen between them, as `chrono` prints it.
pub uninterp spec fn calendar_date(at: int) -> Seq<char>;

/// The `Display` text of `chrono::DateTime::date_naive`, which `chrono` gives
/// for the format `%Y-%m-%d` too: it depends on the point in time alone.
#[verifier::external_body]
pub(crate) fn date_text(at: Timestamp) -> (r: String)
    ensures
        r@ == calendar_date(at@),
{
    chrono::DateTime::from_timestamp(at.secs, at.nanos).unwrap().date_naive().to_string()
}

/// A whole number with its sign.
pub open spec fn signed_decimal(n: int) -> Seq<char> {
    if n >= 0 {
        decimal(n as nat)
    } else {
        "-"@ + decimal((-n) as nat)
    }
}

/// A whole number with its sign.
pub fn signed_number(n: i64) -> (r: String)
    ensures
        r@ == signed_decimal(n as int),
{
    if n >= 0 {
        number(n as u64)
    } else {
        let mut s = "-".to_owned();
        s.append(number((-(n + 1)) as u64 + 1).as_str());
        s
    }
}

/// A date is shown in digits, a missing one as a dash.
pub open spec fn date_cell(at: Option<Timestamp>) -> Seq<char> {
    match at {
        Some(t) => calendar_date(t@),
        None => "—"@,
    }
}

/// The text of a date column.
pub fn fmt_date(at: Option<Timestamp>) -> (r: String)
    ensures
        r@ == date_cell(at),
        at matches Some(t) ==> r@ == calendar_date(t@),
        at is None ==> r@ == "—"@,
{
    match at {
        Some(t) => date_text(t),
        None => "—".to_owned(),
    }
}

/// "s" unless there is exactly one.
pub open spec fn plural(n: nat) -> Seq<char> {
    if n == 1 {
        ""@
    } else {
        "s"@
    }
}

/// "s" unless there is exactly one.
pub fn plural_text(n: usize) -> (r: &'static str)
    ensures
        r@ == plural(n as nat),
        r@ == if n == 1 {
            ""@
        } else {
            "s"@
        },
{
    if n == 1 {
        ""
    } else {
        "s"
    }
}

/// The whole days from `now` to `end`; negative where `end` lies before `now`
/// by a day or more.
pub fn days_until(now: Timestamp, end: Timestamp) -> (r: i64)
    ensures
        r == days_from(now@, end@),
{
    num_days(now, end)
}

/// A number of units in the past: `"3 days ago"`, `"1 day ago"`.
pub open spec fn ago(n: int, unit: Seq<char>) -> Seq<char> {
    decimal(n as nat) + " "@ + unit + plural(n as nat) + " ago"@
}

/// How long ago a point in time was, in the largest unit that fits.
pub open spec fn relative_phrase(elapsed: int) -> Seq<char> {
    if elapsed < MINUTE {
        "just now"@
    } else if elapsed < HOUR {
        ago(elapsed / (MINUTE as int), "minute"@)
    } else if elapsed < DAY {
        ago(elapsed / (HOUR as int), "hour"@)
    } else {
        ago(elapsed / (DAY as int), "day"@)
    }
}

fn ago_text(n: u64, unit: &str) -> (r: String)
    ensures
        r@ == ago(n as int, unit@),
{
    let mut s = cat3(number(n).as_str(), " ", unit);
    if n != 1 {
        s.append("s");
    } else {
        proof {
            reveal_strlit("");
            assert(s@ + ""@ =~= s@);
        }
    }
    s.append(" ago");
    s
}

/// How long before `now` the point `then` was, in the largest unit that fits.
pub fn relative_time(now: Timestamp, past: Timestamp) -> (r: String)
    ensures
        r@ == relative_phrase(now@ - past@),
{
    proof {
        use_type_invariant(now);
        use_type_invariant(past);
    }
    let elapsed: i128 = (now.secs as i128 - past.secs as i128) * SECOND + now.nanos as i128
        - past.nanos as i128;
    if elapsed < MINUTE {
        "just now".to_owned()
    } else if elapsed < HOUR {
        ago_text((elapsed / MINUTE) as u64, "minute")
    } else if elapsed < DAY {
        ago_text((elapsed / HOUR) as u64, "hour")
    } else {
        proof {
            assert(elapsed / DAY <= 20_000_000_000_000);
        }
        ago_text((elapsed / DAY) as u64, "day")
    }
}

/// The whole days to a point in time: so many days fit, and one more would not; a
/// point in the past is as many days away as one in the future, with a minus sign.
pub proof fn whole_days_fit(now: int, end: int)
    ensures
        end >= now ==> 0 <= days_from(now, end) * 86_400_000_000_000 <= end - now < (days_from(
            now,
            end,
        ) + 1) * 86_400_000_000_000,
        days_from(end, now) == -days_from(now, end),
{
    if end >= now {
        vstd::arithmetic::div_mod::lemma_fundamental_div_mod(end - now, DAY as int);
        vstd::arithmetic::div_mod::lemma_mod_bound(end - now, DAY as int);
    }
}

/// How long ago something was is said in the largest unit of which at least one has
/// passed, with the number of whole units that have.
pub proof fn the_past_is_told_in_whole_units(elapsed: int, n: nat)
    ensures
        elapsed < 60_000_000_000 ==> relative_phrase(elapsed) == "just now"@,
        1 <= n < 60 && n * 60_000_000_000 <= elapsed < (n + 1) * 60_000_000_000 ==> relative_phrase(
            elapsed,
        ) == decimal(n) + " "@ + "minute"@ + (if n == 1 {
            ""@
        } else {
            "s"@
        }) + " ago"@,
        1 <= n < 24 && n * 3_600_000_000_000 <= elapsed < (n + 1) * 3_600_000_000_000
            ==> relative_phrase(elapsed) == decimal(n) + " "@ + "hour"@ + (if n == 1 {
            ""@
        } else {
            "s"@
        }) + " ago"@,
        1 <= n && n * 86_400_000_000_000 <= elapsed < (n + 1) * 86_400_000_000_000
            ==> relative_phrase(elapsed) == decimal(n) + " "@ + "day"@ + (if n == 1 {
            ""@
        } else {
            "s"@
        }) + " ago"@,
{
    if 1 <= n && n * 86_400_000_000_000 <= elapsed < (n + 1) * 86_400_000_000_000 {
        assert(elapsed / 86_400_000_000_000 == n) by (nonlinear_arith)
            requires
                n * 86_400_000_000_000 <= elapsed < (n + 1) * 86_400_000_000_000,
        ;
    }
}

/// A negative number is its opposite with a minus sign in front.
pub proof fn a_minus_sign_stands_in_front(n: nat)
    ensures
        signed_decimal(n as int) == decimal(n),
        n > 0 ==> signed_decimal(-(n as int)) == "-"@ + decimal(n),
{
}

} // verus!
