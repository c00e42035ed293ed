use vstd::prelude::*;

verus! {

/// An instant in UTC: whole seconds since 1970-01-01T00:00:00 and the
/// nanoseconds past that second (beyond 999_999_999 only within a leap second).
#[derive(Clone, Copy, Debug, PartialEq, Eq, Structural)]
pub struct Timestamp {
    pub secs: i64,
    pub nanos: u32,
}

/// Seconds in one calendar day of UTC.
pub const SECONDS_PER_DAY: i64 = 86400;

/// `a` lies strictly after `b`.
pub open spec fn is_after(a: Timestamp, b: Timestamp) -> bool {
    a.secs > b.secs || (a.secs == b.secs && a.nanos > b.nanos)
}

/// `t` moved forward by whole days, as exact numbers.
pub open spec fn shifted_secs(t: Timestamp, days: nat) -> int {
    t.secs + SECONDS_PER_DAY * days
}

/// The first second that the calendar library represents: January 1 of the
/// year -262143, 00:00:00 UTC.
pub const MIN_SECS: i64 = -8334601228800;

/// The last second that the calendar library represents: December 31 of the
/// year 262142, 23:59:59 UTC.
pub const MAX_SECS: i64 = 8210266876799;

/// Nanoseconds below one second, or below two within a leap second (which
/// the library places at the last second of a minute).
pub open spec fn valid_nanos(secs: i64, nanos: u32) -> bool {
    nanos < 1_000_000_000 || (nanos < 2_000_000_000 && (secs as int) % 60 == 59)
}

/// The calendar library represents `t`.
pub open spec fn representable(t: Timestamp) -> bool {
    MIN_SECS <= t.secs <= MAX_SECS && valid_nanos(t.secs, t.nanos)
}

/// The calendar library can move `t` forward by `days` days: `t` is
/// representable, and so is the result (at the very last second, only
/// without a leap second).
pub open spec fn day_shift_in_range(t: Timestamp, days: u64) -> bool {
    representable(t) && (days == 0 || {
        let end = shifted_secs(t, days as nat);
        end < MAX_SECS || (end == MAX_SECS && t.nanos < 1_000_000_000)
    })
}

/// What the timestamp parser reads from the start of a text (seconds and
/// nanoseconds), or `None` where the text does not start with a timestamp.
pub uninterp spec fn timestamp_in_text(s: Seq<char>) -> Option<(i64, u32)>;

/// `a` does not lie before `b`.
pub open spec fn not_before(a: Timestamp, b: Timestamp) -> bool {
    !is_after(b, a)
}

/// Whether an item published at `date` is still within its retention period at
/// `now`: the shift by `days` days is out of the representable range (kept,
/// as the safe choice), or the end of the period is now or later.
pub open spec fn retained_by_age(date: Timestamp, days: u64, now: Timestamp) -> bool {
    let end = shifted_secs(date, days as nat);
    !day_shift_in_range(date, days)
        || end > now.secs
        || (end == now.secs && date.nanos >= now.nanos)
}

/// Within the representable range, an item is kept exactly while the end of
/// its retention period has not passed: it is kept where the end is later
/// than now or equal to it, so an item younger than the period (in whole
/// seconds) is kept, and an older one is not.
pub proof fn lemma_retention_by_age(date: Timestamp, days: u64, now: Timestamp)
    requires
        day_shift_in_range(date, days),
    ensures
        retained_by_age(date, days, now) <==> (shifted_secs(date, days as nat) > now.secs
            || (shifted_secs(date, days as nat) == now.secs && date.nanos >= now.nanos)),
        shifted_secs(date, days as nat) == now.secs && date.nanos == now.nanos ==> retained_by_age(date, days, now),
        now.secs - date.secs < SECONDS_PER_DAY * days ==> retained_by_age(date, days, now),
        now.secs - date.secs > SECONDS_PER_DAY * days ==> !retained_by_age(date, days, now),
{
}

/// Retention is monotonic: among representable instants, an item published
/// no earlier, or kept for no fewer days, is never kept less.
pub proof fn lemma_retention_monotonic(d1: Timestamp, days1: u64, d2: Timestamp, days2: u64, now: Timestamp)
    requires
        representable(d1),
        representable(d2),
        not_before(d2, d1),
        days1 <= days2,
    ensures
        retained_by_age(d1, days1, now) ==> retained_by_age(d2, days2, now),
{
    assert(SECONDS_PER_DAY * days1 <= SECONDS_PER_DAY * days2);
}

impl Timestamp {
    /// `self` lies strictly after `other`.
    pub fn is_later_than(&self, other: &Timestamp) -> (r: bool)
        ensures
            r == is_after(*self, *other),
    {
        self.secs > other.secs || (self.secs == other.secs && self.nanos > other.nanos)
    }
}

/// Relies on chrono's `DateTime::<Utc>::from_timestamp` and
/// `DateTime::checked_add_days`: in UTC, adding days moves the date part and
/// keeps the time of day, so the instant moves by whole days of 86400 seconds;
/// both give `None` exactly outside the library's range of dates.
#[verifier::external_body]
fn add_days(t: Timestamp, days: u64) -> (r: Option<Timestamp>)
    ensures
        r.is_some() == day_shift_in_range(t, days),
        r matches Some(s) ==> s.secs == shifted_secs(t, days as nat) && s.nanos == t.nanos,
{
    chrono::DateTime::<chrono::Utc>::from_timestamp(t.secs, t.nanos)
        .and_then(|d| d.checked_add_days(chrono::Days::new(days)))
        .map(|d| Timestamp { secs: d.timestamp(), nanos: d.timestamp_subsec_nanos() })
}

/// Relies on chrono's `NaiveDateTime::parse_and_remainder` with the format
/// `%Y-%m-%dT%H:%M:%S%.6f`, read as UTC; text after the timestamp is ignored.
#[verifier::external_body]
fn parse_timestamp(s: &str) -> (r: Option<Timestamp>)
    ensures
        match r {
            Some(t) => timestamp_in_text(s@) == Some((t.secs, t.nanos)) && representable(t),
            None => timestamp_in_text(s@).is_none(),
        },
{
    chrono::NaiveDateTime::parse_and_remainder(s, "%Y-%m-%dT%H:%M:%S%.6f")
        .ok()
        .map(|(d, _rest)| d.and_utc())
        .map(|d| Timestamp { secs: d.timestamp(), nanos: d.timestamp_subsec_nanos() })
}

/// Reads a publication time as the remote service writes it
/// (`YYYY-MM-DDTHH:MM:SS.ffffff`, UTC, anything after it ignored).
pub fn deserialize_date(s: &str) -> (r: Option<Timestamp>)
    ensures
        match r {
            Some(t) => timestamp_in_text(s@) == Some((t.secs, t.nanos)) && representable(t),
            None => timestamp_in_text(s@).is_none(),
        },
{
    parse_timestamp(s)
}

/// Decides retention from the end of the retention period: kept while the
/// end is now or later, and where it could not be computed (`None`).
pub fn retained_after_shift(end: Option<Timestamp>, now: Timestamp) -> (r: bool)
    ensures
        r == match end {
            Some(e) => not_before(e, now),
            None => true,
        },
{
    match end {
        Some(e) => !now.is_later_than(&e),
        None => true,
    }
}

/// Whether an item published at `date` is kept at `now` under a retention
/// period of `days` days.
pub fn within_days(date: Timestamp, days: u64, now: Timestamp) -> (r: bool)
    ensures
        r == retained_by_age(date, days, now),
{
    let end = add_days(date, days);
    retained_after_shift(end, now)
}

} // verus!
