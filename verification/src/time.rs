//! Instants of time, and the clock and text forms that `chrono` gives them.

use crate::model::opt_view;
use crate::Error;
use vstd::prelude::*;

verus! {

/// The first second that an instant can hold: the start of year 1.
pub const MIN_SECS: i64 = -62_135_596_800;

/// The last second that an instant can hold: the end of year 9999.
pub const MAX_SECS: i64 = 253_402_300_799;

/// The number of nanoseconds in a second.
pub const NANOS_PER_SEC: u32 = 1_000_000_000;

/// An instant: whole seconds since the start of 1970 in UTC, and the
/// nanoseconds into that second.
#[derive(Clone, Copy, Debug, PartialEq, Eq, Hash, Structural)]
pub struct Timestamp {
    secs: i64,
    nanos: u32,
}

impl Timestamp {
    #[verifier::type_invariant]
    pub closed spec fn inv(self) -> bool {
        MIN_SECS <= self.secs <= MAX_SECS && self.nanos < NANOS_PER_SEC
    }

    /// Whole seconds since the start of 1970.
    pub closed spec fn spec_secs(self) -> int {
        self.secs as int
    }

    /// Nanoseconds into the second.
    pub closed spec fn spec_nanos(self) -> int {
        self.nanos as int
    }

    /// Nanoseconds since the start of 1970: the order of instants is the
    /// order of these numbers.
    pub open spec fn total_nanos(self) -> int {
        self.spec_secs() * 1_000_000_000 + self.spec_nanos()
    }

    /// Whether a pair of numbers is an instant.
    pub open spec fn in_range(secs: int, nanos: int) -> bool {
        MIN_SECS <= secs <= MAX_SECS && 0 <= nanos < NANOS_PER_SEC
    }

    /// The instant of the given second and nanosecond, for a pair in range.
    pub closed spec fn at(secs: int, nanos: int) -> Timestamp {
        Timestamp { secs: secs as i64, nanos: nanos as u32 }
    }

    /// An instant is made of its seconds and nanoseconds, and holds what it
    /// was made of.
    pub proof fn lemma_at(secs: int, nanos: int)
        requires
            Self::in_range(secs, nanos),
        ensures
            Self::at(secs, nanos).spec_secs() == secs,
            Self::at(secs, nanos).spec_nanos() == nanos,
            Self::at(secs, nanos).total_nanos() == secs * 1_000_000_000 + nanos,
    {
    }

    /// Two instants with the same seconds and nanoseconds are the same.
    pub proof fn lemma_same(self, other: Timestamp)
        requires
            self.spec_secs() == other.spec_secs(),
            self.spec_nanos() == other.spec_nanos(),
        ensures
            self == other,
    {
    }

    /// The instant of the given second and nanosecond, where they are in
    /// range.
    pub fn new(secs: i64, nanos: u32) -> (r: Option<Timestamp>)
        ensures
            match r {
                Some(t) => Self::in_range(secs as int, nanos as int) && t == Self::at(
                    secs as int,
                    nanos as int,
                ),
                None => !Self::in_range(secs as int, nanos as int),
            },
    {
        if MIN_SECS <= secs && secs <= MAX_SECS && nanos < NANOS_PER_SEC {
            Some(Timestamp { secs, nanos })
        } else {
            None
        }
    }

    pub fn secs(&self) -> (r: i64)
        ensures
            r == self.spec_secs(),
            MIN_SECS <= r <= MAX_SECS,
    {
        proof {
            use_type_invariant(self);
        }
        self.secs
    }

    pub fn nanos(&self) -> (r: u32)
        ensures
            r == self.spec_nanos(),
            r < NANOS_PER_SEC,
    {
        proof {
            use_type_invariant(self);
        }
        self.nanos
    }

    /// Whether this instant is earlier than `other`.
    pub fn is_before(&self, other: &Timestamp) -> (r: bool)
        ensures
            r == (self.total_nanos() < other.total_nanos()),
    {
        proof {
            use_type_invariant(self);
            use_type_invariant(other);
        }
        self.secs < other.secs || (self.secs == other.secs && self.nanos < other.nanos)
    }

    /// Whether this instant is later than `other`.
    pub fn is_after(&self, other: &Timestamp) -> (r: bool)
        ensures
            r == (self.total_nanos() > other.total_nanos()),
    {
        other.is_before(self)
    }

    /// The whole seconds from `earlier` to this instant, rounded towards
    /// zero.
    pub open spec fn spec_seconds_since(self, earlier: Timestamp) -> int {
        let d = self.total_nanos() - earlier.total_nanos();
        if d >= 0 {
            d / 1_000_000_000
        } else {
            -((-d) / 1_000_000_000)
        }
    }

    /// The whole seconds from `earlier` to this instant, rounded towards
    /// zero.
    pub fn seconds_since(&self, earlier: &Timestamp) -> (r: i64)
        ensures
            r == self.spec_seconds_since(*earlier),
    {
        proof {
            use_type_invariant(self);
            use_type_invariant(earlier);
        }
        let ds: i64 = self.secs - earlier.secs;
        let a: i64 = self.nanos as i64;
        let b: i64 = earlier.nanos as i64;
        let ghost d = self.total_nanos() - earlier.total_nanos();
        assert(d == ds * 1_000_000_000 + (a - b));
        if ds > 0 && a < b {
            assert(d / 1_000_000_000 == ds - 1) by (nonlinear_arith)
                requires
                    d == ds * 1_000_000_000 + (a - b),
                    -1_000_000_000 < a - b < 0,
            ;
            ds - 1
        } else if ds < 0 && a > b {
            assert((-d) / 1_000_000_000 == -ds - 1) by (nonlinear_arith)
                requires
                    d == ds * 1_000_000_000 + (a - b),
                    0 < a - b < 1_000_000_000,
                    ds < 0,
            ;
            ds + 1
        } else if ds > 0 {
            assert(d >= 0 && d / 1_000_000_000 == ds) by (nonlinear_arith)
                requires
                    d == ds * 1_000_000_000 + (a - b),
                    ds > 0,
                    0 <= a - b < 1_000_000_000,
            ;
            ds
        } else if ds == 0 {
            assert(-1_000_000_000 < d < 1_000_000_000);
            0
        } else {
            assert(d <= 0 && (-d) / 1_000_000_000 == -ds) by (nonlinear_arith)
                requires
                    d == ds * 1_000_000_000 + (a - b),
                    ds < 0,
                    -1_000_000_000 < a - b <= 0,
            ;
            ds
        }
    }

    /// Whether more than `seconds` seconds lie between `earlier` and this
    /// instant.
    pub fn is_more_than_after(&self, seconds: i64, earlier: &Timestamp) -> (r: bool)
        ensures
            r == (self.total_nanos() - earlier.total_nanos() > seconds * 1_000_000_000),
    {
        proof {
            use_type_invariant(self);
            use_type_invariant(earlier);
        }
        let d: i128 = (self.secs as i128 - earlier.secs as i128) * 1_000_000_000 + (self.nanos as i128
            - earlier.nanos as i128);
        d > (seconds as i128) * 1_000_000_000
    }

    /// The current time, or nothing where the clock shows a time that is no
    /// instant.
    pub fn now() -> (r: Option<Timestamp>) {
        let (secs, nanos) = clock_now();
        Timestamp::new(secs, nanos)
    }

    /// The RFC 3339 text of the instant, or nothing where `chrono` has none
    /// for it.
    pub fn to_rfc3339(&self) -> (r: Option<String>)
        ensures
            opt_view(r) == rfc3339_text(self.spec_secs(), self.spec_nanos()),
    {
        format_rfc3339(self.secs(), self.nanos())
    }

    /// What a text parses to: the instant that `chrono` reads from it, where
    /// it reads one and that one is in range.
    pub open spec fn spec_parse(s: Seq<char>) -> Option<Timestamp> {
        match rfc3339_instant(s) {
            Some((secs, nanos)) => if Self::in_range(secs as int, nanos as int) {
                Some(Self::at(secs as int, nanos as int))
            } else {
                None
            },
            None => None,
        }
    }

    /// Parses an RFC 3339 text; `BadRequest` where it is none, or stands
    /// for a time that is no instant.
    pub fn parse_from_rfc3339(s: &str) -> (r: Result<Timestamp, Error>)
        ensures
            match Self::spec_parse(s@) {
                Some(t) => r == Ok::<Timestamp, Error>(t),
                None => r == Err::<Timestamp, Error>(Error::BadRequest),
            },
    {
        match parse_rfc3339(s) {
            Some((secs, nanos)) => match Timestamp::new(secs, nanos) {
                Some(t) => Ok(t),
                None => Err(Error::BadRequest),
            },
            None => Err(Error::BadRequest),
        }
    }
}

/// Reads the clock: seconds since the start of 1970 and nanoseconds into
/// the second, as `chrono::Utc::now` reports them. Nothing is claimed of the
/// result. Where the clock of the machine stands before 1970, `chrono`
/// panics.
#[verifier::external_body]
fn clock_now() -> (r: (i64, u32)) {
    let now = chrono::Utc::now();
    (now.timestamp(), now.timestamp_subsec_nanos())
}

/// The RFC 3339 text that `chrono` writes for the time `secs` seconds and
/// `nanos` nanoseconds after the start of 1970 in UTC
/// (`DateTime::to_rfc3339` on `DateTime::from_timestamp`), or nothing where
/// `chrono` has no such time.
pub uninterp spec fn rfc3339_text(secs: int, nanos: int) -> Option<Seq<char>>;

/// Writes a time as RFC 3339 text with `chrono`. Trusted: the result is the
/// text that `DateTime::to_rfc3339` gives for the time that
/// `DateTime::from_timestamp` makes of the two numbers, a function of the
/// two numbers alone. Only the years that an instant can hold are asked
/// for.
#[verifier::external_body]
fn format_rfc3339(secs: i64, nanos: u32) -> (r: Option<String>)
    requires
        Timestamp::in_range(secs as int, nanos as int),
    ensures
        opt_view(r) == rfc3339_text(secs as int, nanos as int),
{
    match chrono::DateTime::from_timestamp(secs, nanos) {
        Some(t) => Some(t.to_rfc3339()),
        None => None,
    }
}

/// The time that `chrono` reads from an RFC 3339 text
/// (`DateTime::parse_from_rfc3339`), as seconds since the start of 1970 in
/// UTC and nanoseconds into the second, or nothing where the text is none.
pub uninterp spec fn rfc3339_instant(s: Seq<char>) -> Option<(i64, u32)>;

/// Reads a time from RFC 3339 text with `chrono`. Trusted: the result is
/// what `DateTime::parse_from_rfc3339` reads from the text, taken to UTC, a
/// function of the text alone.
#[verifier::external_body]
fn parse_rfc3339(s: &str) -> (r: Option<(i64, u32)>)
    ensures
        r == rfc3339_instant(s@),
{
    match chrono::DateTime::parse_from_rfc3339(s) {
        Ok(t) => Some((t.timestamp(), t.timestamp_subsec_nanos())),
        Err(_) => None,
    }
}

} // verus!
