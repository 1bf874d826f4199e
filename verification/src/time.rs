//! Timestamps: the instants that entities carry, and their RFC 3339 text in
//! the database.

use vstd::prelude::*;

verus! {

/// An instant in UTC: whole seconds since 1970-01-01T00:00:00Z and the
/// nanoseconds past that second (up to 1 999 999 999 during a leap second),
/// the two numbers by which `chrono::DateTime<Utc>` is made and read back.
#[derive(Debug, Clone, Copy, PartialEq, Eq)]
pub struct Timestamp {
    /// Seconds since the Unix epoch.
    pub secs: i64,
    /// Nanoseconds past `secs`.
    pub nanos: u32,
}

/// The first second that `chrono::DateTime<Utc>` can hold: January 1st of the
/// year -262143 (`NaiveDate::MIN`), at midnight.
pub const MIN_TIMESTAMP_SECS: i64 = -8334601228800i64;

/// The last second that `chrono::DateTime<Utc>` can hold: December 31st of the
/// year 262142 (`NaiveDate::MAX`), at 23:59:59.
pub const MAX_TIMESTAMP_SECS: i64 = 8210266876799i64;

/// Whether `chrono::DateTime::<Utc>::from_timestamp(secs, nanos)` gives an
/// instant: the seconds lie in the calendar's range, and the nanoseconds stay
/// under one second, or under two during the last second of a minute.
pub open spec fn representable(t: Timestamp) -> bool {
    &&& MIN_TIMESTAMP_SECS <= t.secs <= MAX_TIMESTAMP_SECS
    &&& t.nanos < 2_000_000_000
    &&& t.nanos >= 1_000_000_000 ==> t.secs % 60 == 59
}

/// The Unix epoch, where unreadable timestamps fall back to.
pub open spec fn epoch() -> Timestamp {
    Timestamp { secs: 0, nanos: 0 }
}

/// The RFC 3339 text that `DateTime::<Utc>::to_rfc3339` writes for an instant.
pub uninterp spec fn rfc3339_text(secs: i64, nanos: u32) -> Seq<char>;

/// The instant that `DateTime::parse_from_rfc3339` reads from a text, if any.
pub uninterp spec fn rfc3339_instant(text: Seq<char>) -> Option<Timestamp>;

/// The instants from 0000-01-01T00:00:00Z to 9999-12-31T23:59:59Z and the
/// fractions of that last second: those whose year RFC 3339 writes with four
/// digits.
pub open spec fn four_digit_year(t: Timestamp) -> bool {
    -62167219200 <= t.secs <= 253402300799
}

/// `t` comes before `u` in time.
pub open spec fn before(t: Timestamp, u: Timestamp) -> bool {
    t.secs < u.secs || (t.secs == u.secs && t.nanos < u.nanos)
}

/// `a` comes before `b` character by character (byte by byte, for ASCII
/// text): at the first place where they differ, `a` has the smaller
/// character, or `a` has ended.
pub open spec fn text_before(a: Seq<char>, b: Seq<char>) -> bool {
    exists|i: int|
        #![trigger a.subrange(0, i), b.subrange(0, i)]
        0 <= i <= a.len() && i <= b.len() && a.subrange(0, i) == b.subrange(0, i) && ((i
            == a.len() && i < b.len()) || (i < a.len() && i < b.len() && (a[i] as u32) < (
        b[i] as u32)))
}

/// A representable instant of a four-digit year, outside a leap second: the
/// instants whose RFC 3339 texts sort as the instants do.
pub open spec fn sortable(t: Timestamp) -> bool {
    representable(t) && four_digit_year(t) && t.nanos < 1_000_000_000
}

/// For a sortable instant `t` written as `text`, and every sortable `u`:
/// `t` comes before `u` exactly when `text` comes before the text of `u`.
pub open spec fn sorts_as_time(t: Timestamp, text: Seq<char>) -> bool {
    forall|u: Timestamp|
        #![trigger rfc3339_text(u.secs, u.nanos)]
        sortable(t) && sortable(u) ==> (before(t, u) <==> text_before(
            text,
            rfc3339_text(u.secs, u.nanos),
        ))
}

/// Calls `chrono::DateTime::<Utc>::from_timestamp` and `to_rfc3339` on the
/// instant: the result is named by `rfc3339_text`. For a four-digit year,
/// `to_rfc3339` writes the year with four digits, the seconds (`60` during a
/// leap second), the nanoseconds as a fraction of 3, 6 or 9 digits when there
/// are any, and the offset `+00:00`; `parse_from_rfc3339` reads that text back
/// as the same instant, which the second clause states. A year outside that
/// range is written with a sign and more digits, which the reader refuses.
/// Outside a leap second, such texts have the date and time at fixed width,
/// and the fraction, trimmed only of whole groups of three zeros, is followed
/// by `+`, which sorts below `.` and the digits: their character order is the
/// instants' order, which the third clause states.
#[verifier::external_body]
fn rfc3339_write(t: Timestamp) -> (s: String)
    requires
        representable(t),
    ensures
        s@ == rfc3339_text(t.secs, t.nanos),
        four_digit_year(t) ==> rfc3339_instant(s@) == Some(t),
        sorts_as_time(t, s@),
{
    chrono::DateTime::from_timestamp(t.secs, t.nanos).unwrap_or_default().to_rfc3339()
}

/// Calls `chrono::DateTime::parse_from_rfc3339` and reads the instant back with
/// `timestamp` and `timestamp_subsec_nanos`: the result is named by
/// `rfc3339_instant`, and an instant read this way is representable, since
/// `from_timestamp` round-trips with those two readings.
#[verifier::external_body]
fn rfc3339_read(s: &str) -> (r: Option<Timestamp>)
    ensures
        r == rfc3339_instant(s@),
        r matches Some(t) ==> representable(t),
{
    match chrono::DateTime::parse_from_rfc3339(s) {
        Ok(dt) => Some(Timestamp { secs: dt.timestamp(), nanos: dt.timestamp_subsec_nanos() }),
        Err(_) => None,
    }
}

/// Calls `chrono::Utc::now`, which reads the system clock as a duration since
/// the epoch (panicking before it) and makes the instant from its whole
/// seconds and its nanoseconds under one second: the instant is at or after
/// the epoch and never inside a leap second. Which instant it is depends on
/// the clock, so nothing more is stated.
#[verifier::external_body]
fn utc_now() -> (t: Timestamp)
    ensures
        representable(t),
        0 <= t.secs,
        t.nanos < 1_000_000_000,
{
    let dt = chrono::Utc::now();
    Timestamp { secs: dt.timestamp(), nanos: dt.timestamp_subsec_nanos() }
}

/// The instant stored as `text`: its RFC 3339 reading, or the epoch when the
/// text is not RFC 3339.
pub open spec fn stored_instant(text: Seq<char>) -> Timestamp {
    match rfc3339_instant(text) {
        Some(t) => t,
        None => epoch(),
    }
}

/// `text` is what an instant is stored as: its RFC 3339 text, which reads
/// back as the instant itself when its year has four digits, and sorts among
/// such texts as the instant does in time.
pub open spec fn is_text_of(t: Timestamp, text: Seq<char>) -> bool {
    &&& text == rfc3339_text(t.secs, t.nanos)
    &&& four_digit_year(t) ==> rfc3339_instant(text) == Some(t)
    &&& sorts_as_time(t, text)
}

/// Whether `text` is what some instant that the clock can give is stored as:
/// a representable instant at or after the epoch, outside a leap second.
pub open spec fn is_instant_text(text: Seq<char>) -> bool {
    exists|t: Timestamp|
        representable(t) && 0 <= t.secs && t.nanos < 1_000_000_000 && is_text_of(t, text)
}

impl Timestamp {
    /// The current instant: at or after the epoch, and outside a leap second.
    pub fn now() -> (t: Timestamp)
        ensures
            representable(t),
            0 <= t.secs,
            t.nanos < 1_000_000_000,
    {
        utc_now()
    }

    /// Whether this instant can be held by `chrono::DateTime<Utc>`.
    pub fn is_representable(&self) -> (b: bool)
        ensures
            b == representable(*self),
    {
        MIN_TIMESTAMP_SECS <= self.secs && self.secs <= MAX_TIMESTAMP_SECS && self.nanos
            < 2_000_000_000 && (self.nanos < 1_000_000_000 || self.secs % 60 == 59 || self.secs
            % 60 == -1)
    }
}

/// Parse an RFC 3339 string into an instant, falling back to the epoch on failure.
pub fn parse_datetime(s: &str) -> (t: Timestamp)
    ensures
        t == stored_instant(s@),
        representable(t),
{
    match rfc3339_read(s) {
        Some(t) => t,
        None => Timestamp { secs: 0, nanos: 0 },
    }
}

/// Format an instant as an RFC 3339 string. Parsing the string gives the
/// instant back, nanoseconds included, whenever its year has four digits.
pub fn format_datetime(t: Timestamp) -> (s: String)
    requires
        representable(t),
    ensures
        is_text_of(t, s@),
        four_digit_year(t) ==> stored_instant(s@) == t,
{
    rfc3339_write(t)
}

/// What `format_datetime` writes for an instant of a four-digit year,
/// `parse_datetime` reads back as that same instant, nanoseconds and leap
/// seconds included.
pub proof fn lemma_stored_text_reads_back(t: Timestamp, text: Seq<char>)
    requires
        representable(t),
        four_digit_year(t),
        is_text_of(t, text),
    ensures
        stored_instant(text) == t,
{
}

/// Stored instants compare as their texts do: for two instants of four-digit
/// years outside leap seconds, one comes before the other exactly when its
/// text comes before the other's, and they are equal exactly when their texts
/// are.
pub proof fn lemma_text_order_is_time_order(t: Timestamp, u: Timestamp, st: Seq<char>, su: Seq<char>)
    requires
        sortable(t),
        sortable(u),
        is_text_of(t, st),
        is_text_of(u, su),
    ensures
        before(t, u) <==> text_before(st, su),
        t == u <==> st == su,
{
    assert(su == rfc3339_text(u.secs, u.nanos));
}

/// The current time as an RFC 3339 string.
pub fn now_iso() -> (s: String)
    ensures
        is_instant_text(s@),
{
    let t = utc_now();
    format_datetime(t)
}

} // verus!
