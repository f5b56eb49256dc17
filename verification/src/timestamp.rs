//! Points in time as the registry holds them: whole seconds since the Unix
//! epoch plus nanoseconds, within the years that RFC 3339 can write.

use vstd::prelude::*;

verus! {

/// Seconds from the epoch to 0000-01-01T00:00:00Z.
pub const MIN_SECS: i64 = -62_167_219_200;

/// Seconds from the epoch to 9999-12-31T23:59:59Z.
pub const MAX_SECS: i64 = 253_402_300_799;

/// Nanoseconds in one second.
pub const NANOS_PER_SEC: u32 = 1_000_000_000;

/// A point in time as a pair of mathematical integers.
pub struct Instant {
    pub secs: int,
    pub nanos: int,
}

impl Instant {
    /// The pair lies within the years 0000 to 9999 and its nanoseconds are
    /// less than a second.
    pub open spec fn wf(self) -> bool {
        &&& MIN_SECS <= self.secs <= MAX_SECS
        &&& 0 <= self.nanos < NANOS_PER_SEC
    }

    /// Nanoseconds since the epoch: the number by which instants are ordered.
    pub open spec fn total_nanos(self) -> int {
        self.secs * NANOS_PER_SEC + self.nanos
    }

    /// `self` is strictly earlier than `other`.
    pub open spec fn before(self, other: Instant) -> bool {
        self.total_nanos() < other.total_nanos()
    }

    /// The last instant that is well-formed.
    pub open spec fn last() -> Instant {
        Instant { secs: MAX_SECS as int, nanos: NANOS_PER_SEC - 1 }
    }

    /// The instant one nanosecond later.
    pub open spec fn successor(self) -> Instant {
        if self.nanos + 1 < NANOS_PER_SEC {
            Instant { secs: self.secs, nanos: self.nanos + 1 }
        } else {
            Instant { secs: self.secs + 1, nanos: 0 }
        }
    }

    /// The time to stamp on a change made at clock reading `now` to something
    /// last stamped `prev`: the reading itself where it is later than `prev`,
    /// else the nanosecond after `prev`; nothing where `prev` is the last
    /// instant and the clock has not passed it.
    pub open spec fn stamp_after(prev: Instant, now: Instant) -> Option<Instant> {
        if prev.before(now) {
            Some(now)
        } else if prev == Instant::last() {
            None
        } else {
            Some(prev.successor())
        }
    }
}

/// Well-formed instants are ordered by seconds first, then by nanoseconds.
pub proof fn lemma_before_is_lexicographic(a: Instant, b: Instant)
    requires
        a.wf(),
        b.wf(),
    ensures
        a.before(b) <==> (a.secs < b.secs || (a.secs == b.secs && a.nanos < b.nanos)),
        a.total_nanos() == b.total_nanos() <==> a == b,
{
    let n = NANOS_PER_SEC as int;
    if a.secs < b.secs {
        assert(a.secs * n + n <= b.secs * n) by (nonlinear_arith)
            requires
                a.secs + 1 <= b.secs,
                n > 0,
        ;
    } else if b.secs < a.secs {
        assert(b.secs * n + n <= a.secs * n) by (nonlinear_arith)
            requires
                b.secs + 1 <= a.secs,
                n > 0,
        ;
    }
}

/// The successor of a well-formed instant other than the last is well-formed
/// and exactly one nanosecond later.
pub proof fn lemma_successor(a: Instant)
    requires
        a.wf(),
        a != Instant::last(),
    ensures
        a.successor().wf(),
        a.successor().total_nanos() == a.total_nanos() + 1,
{
    let n = NANOS_PER_SEC as int;
    assert((a.secs + 1) * n == a.secs * n + n) by (nonlinear_arith);
}

/// Whatever the clock reads, the stamp of a change is well-formed, strictly
/// later than the stamp before it, and never earlier than the reading.
pub proof fn lemma_stamp_after(prev: Instant, now: Instant)
    requires
        prev.wf(),
        now.wf(),
    ensures
        Instant::stamp_after(prev, now) is None <==> (prev == Instant::last() && !prev.before(now)),
        Instant::stamp_after(prev, now) matches Some(t) ==> t.wf() && prev.before(t) && !t.before(
            now,
        ),
        prev.before(now) ==> Instant::stamp_after(prev, now) == Some(now),
{
    if !prev.before(now) && prev != Instant::last() {
        lemma_successor(prev);
    }
}

/// The text that chrono writes for the UTC date and time `secs` seconds and
/// `nanos` nanoseconds after the Unix epoch, in RFC 3339 form.
pub uninterp spec fn rfc3339_text(secs: int, nanos: int) -> Seq<char>;

/// Calls chrono's `DateTime::<Utc>::from_timestamp` and, where that gives a
/// date, `DateTime::to_rfc3339` on it. Claimed: a pair within the years 0000
/// to 9999 with less than a second of nanoseconds always gives a date, and the
/// text written depends on the pair alone.
#[verifier::external_body]
fn chrono_rfc3339(secs: i64, nanos: u32) -> (r: Option<String>)
    ensures
        (Instant { secs: secs as int, nanos: nanos as int }).wf() ==> r is Some,
        r matches Some(s) ==> s@ == rfc3339_text(secs as int, nanos as int),
{
    match chrono::DateTime::from_timestamp(secs, nanos) {
        Some(date) => Some(date.to_rfc3339()),
        None => None,
    }
}

/// A point in time, UTC, between 0000-01-01T00:00:00Z and the last nanosecond
/// of the year 9999.
#[derive(Clone, Copy, Debug, PartialEq, Eq, Structural)]
pub struct Timestamp {
    secs: i64,
    nanos: u32,
}

impl View for Timestamp {
    type V = Instant;

    closed spec fn view(&self) -> Instant {
        Instant { secs: self.secs as int, nanos: self.nanos as int }
    }
}

impl Timestamp {
    /// Every timestamp is a well-formed instant.
    #[verifier::type_invariant]
    pub open spec fn inv(self) -> bool {
        self@.wf()
    }

    /// The timestamp `secs` seconds and `nanos` nanoseconds after the epoch,
    /// if that is a well-formed instant.
    pub fn new(secs: i64, nanos: u32) -> (r: Option<Timestamp>)
        ensures
            r is Some <==> (Instant { secs: secs as int, nanos: nanos as int }).wf(),
            r matches Some(t) ==> t@ == (Instant { secs: secs as int, nanos: nanos as int }),
    {
        if MIN_SECS <= secs && secs <= MAX_SECS && nanos < NANOS_PER_SEC {
            Some(Timestamp { secs, nanos })
        } else {
            None
        }
    }

    /// Whole seconds since the epoch.
    pub fn secs(&self) -> (s: i64)
        ensures
            s == self@.secs,
            self@.wf(),
    {
        proof {
            use_type_invariant(self);
        }
        self.secs
    }

    /// Nanoseconds since the last whole second.
    pub fn subsec_nanos(&self) -> (n: u32)
        ensures
            n == self@.nanos,
            self@.wf(),
    {
        proof {
            use_type_invariant(self);
        }
        self.nanos
    }

    /// Whether `self` is strictly earlier than `other`.
    pub fn is_before(&self, other: &Timestamp) -> (b: bool)
        ensures
            b == self@.before(other@),
    {
        proof {
            use_type_invariant(self);
            use_type_invariant(other);
            lemma_before_is_lexicographic(self@, other@);
        }
        self.secs < other.secs || (self.secs == other.secs && self.nanos < other.nanos)
    }

    /// The timestamp one nanosecond later, if there is one.
    pub fn successor(&self) -> (r: Option<Timestamp>)
        ensures
            r is None <==> self@ == Instant::last(),
            r matches Some(t) ==> t@ == self@.successor(),
    {
        proof {
            use_type_invariant(self);
        }
        if self.nanos + 1 < NANOS_PER_SEC {
            Some(Timestamp { secs: self.secs, nanos: self.nanos + 1 })
        } else if self.secs < MAX_SECS {
            Some(Timestamp { secs: self.secs + 1, nanos: 0 })
        } else {
            None
        }
    }

    /// The time to stamp on a change made at clock reading `now` to something
    /// last stamped `prev`.
    pub fn stamp_after(prev: Timestamp, now: Timestamp) -> (r: Option<Timestamp>)
        ensures
            r is Some <==> Instant::stamp_after(prev@, now@) is Some,
            r matches Some(t) ==> Instant::stamp_after(prev@, now@) == Some(t@),
    {
        if prev.is_before(&now) {
            Some(now)
        } else {
            prev.successor()
        }
    }

    /// The timestamp in RFC 3339 form, as chrono writes it for UTC.
    pub fn to_rfc3339(&self) -> (s: String)
        ensures
            s@ == rfc3339_text(self@.secs, self@.nanos),
    {
        proof {
            use_type_invariant(self);
        }
        match chrono_rfc3339(self.secs, self.nanos) {
            Some(text) => text,
            None => String::new(),
        }
    }
}

} // verus!
