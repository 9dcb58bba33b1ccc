//! Exact physical time: TAI-nanosecond instants, signed durations and closed intervals.
use core::marker::PhantomData;
use vstd::prelude::*;

verus! {

/// Smallest representable exact count of nanoseconds.
pub open spec fn i128_min() -> int {
    -0x8000_0000_0000_0000_0000_0000_0000_0000
}

/// Largest representable exact count of nanoseconds.
pub open spec fn i128_max() -> int {
    0x7fff_ffff_ffff_ffff_ffff_ffff_ffff_ffff
}

/// Whether an exact nanosecond count fits the `i128` representation.
pub open spec fn fits_i128(n: int) -> bool {
    i128_min() <= n <= i128_max()
}

/// Errors produced by exact time arithmetic.
#[derive(Debug, Clone, Copy, PartialEq, Eq)]
pub enum Error {
    /// An exact nanosecond computation left the representable range.
    Overflow {
        /// Stable description of the failed operation.
        operation: &'static str,
    },
    /// A closed interval was requested with its end before its start.
    InvertedInterval {
        /// Rejected start as TAI nanoseconds since 1900-01-01 TAI.
        start_tai_nanoseconds: i128,
        /// Rejected end in the same representation.
        end_tai_nanoseconds: i128,
    },
}

/// A time scale in which instants are represented.
pub trait TimeScale: Copy + Clone + core::fmt::Debug + Eq {
    /// The conventional abbreviation of the scale.
    spec fn spec_name() -> Seq<char>;

    /// Returns the conventional abbreviation of the scale.
    fn name() -> (name: &'static str)
        ensures
            name@ == Self::spec_name(),
    ;
}

/// International Atomic Time.
#[derive(Debug, Clone, Copy, PartialEq, Eq, Hash, PartialOrd, Ord)]
pub struct Tai;

/// Terrestrial Time.
#[derive(Debug, Clone, Copy, PartialEq, Eq, Hash, PartialOrd, Ord)]
pub struct Tt;

/// Universal Time UT1.
#[derive(Debug, Clone, Copy, PartialEq, Eq, Hash, PartialOrd, Ord)]
pub struct Ut1;

/// Coordinated Universal Time.
#[derive(Debug, Clone, Copy, PartialEq, Eq, Hash, PartialOrd, Ord)]
pub struct Utc;

/// Barycentric Dynamical Time.
#[derive(Debug, Clone, Copy, PartialEq, Eq, Hash, PartialOrd, Ord)]
pub struct Tdb;

impl TimeScale for Tai {
    open spec fn spec_name() -> Seq<char> {
        "TAI"@
    }

    fn name() -> (name: &'static str) {
        "TAI"
    }
}

impl TimeScale for Tt {
    open spec fn spec_name() -> Seq<char> {
        "TT"@
    }

    fn name() -> (name: &'static str) {
        "TT"
    }
}

impl TimeScale for Ut1 {
    open spec fn spec_name() -> Seq<char> {
        "UT1"@
    }

    fn name() -> (name: &'static str) {
        "UT1"
    }
}

impl TimeScale for Utc {
    open spec fn spec_name() -> Seq<char> {
        "UTC"@
    }

    fn name() -> (name: &'static str) {
        "UTC"
    }
}

impl TimeScale for Tdb {
    open spec fn spec_name() -> Seq<char> {
        "TDB"@
    }

    fn name() -> (name: &'static str) {
        "TDB"
    }
}

/// Nanoseconds in one SI second.
pub const NANOSECONDS_PER_SECOND: i128 = 1_000_000_000;

/// Nanoseconds in one day of 86 400 SI seconds.
pub const NANOSECONDS_PER_DAY: i128 = 86_400_000_000_000;

/// A signed exact physical duration counted in nanoseconds.
#[derive(Debug, Clone, Copy, PartialEq, Eq, Hash, PartialOrd, Ord)]
pub struct Duration {
    nanoseconds: i128,
}

impl View for Duration {
    type V = int;

    closed spec fn view(&self) -> int {
        self.nanoseconds as int
    }
}

impl Duration {
    /// Every duration's nanosecond count is representable.
    pub proof fn view_fits(self)
        ensures
            fits_i128(self@),
    {
    }

    /// The zero-length duration.
    pub fn zero() -> (d: Self)
        ensures
            d@ == 0,
    {
        Duration { nanoseconds: 0 }
    }

    /// The duration of an exact nanosecond count.
    pub closed spec fn spec_from_nanoseconds(nanoseconds: i128) -> Self {
        Duration { nanoseconds }
    }

    /// Constructs a duration from an exact nanosecond count.
    pub fn from_nanoseconds(nanoseconds: i128) -> (d: Self)
        ensures
            d@ == nanoseconds,
            d == Self::spec_from_nanoseconds(nanoseconds),
    {
        Duration { nanoseconds }
    }

    /// Constructs a duration from whole microseconds.
    pub fn from_microseconds(microseconds: i128) -> (r: Result<Self, Error>)
        ensures
            fits_i128(microseconds * 1000) <==> r is Ok,
            r matches Ok(d) ==> d@ == microseconds * 1000,
            r matches Err(e) ==> e == (Error::Overflow { operation: "converting microseconds to a duration" }),
    {
        match microseconds.checked_mul(1000) {
            Some(n) => Ok(Duration { nanoseconds: n }),
            None => Err(Error::Overflow { operation: "converting microseconds to a duration" }),
        }
    }

    /// Returns the exact nanosecond count.
    pub fn as_nanoseconds(self) -> (n: i128)
        ensures
            n == self@,
    {
        self.nanoseconds
    }

    /// Returns the magnitude of the duration.
    pub fn checked_abs(self) -> (r: Result<Self, Error>)
        ensures
            r is Ok <==> fits_i128(if self@ < 0 { -self@ } else { self@ }),
            r matches Ok(d) ==> d@ == (if self@ < 0 { -self@ } else { self@ }),
            r matches Err(e) ==> e == (Error::Overflow { operation: "taking the magnitude of a duration" }),
    {
        if self.nanoseconds >= 0 {
            Ok(self)
        } else if self.nanoseconds == i128::MIN {
            Err(Error::Overflow { operation: "taking the magnitude of a duration" })
        } else {
            Ok(Duration { nanoseconds: -self.nanoseconds })
        }
    }

    /// Returns the duration with its sign reversed.
    pub fn checked_neg(self) -> (r: Result<Self, Error>)
        ensures
            r is Ok <==> fits_i128(-self@),
            r matches Ok(d) ==> d@ == -self@,
            r matches Err(e) ==> e == (Error::Overflow { operation: "negating a duration" }),
    {
        if self.nanoseconds == i128::MIN {
            Err(Error::Overflow { operation: "negating a duration" })
        } else {
            Ok(Duration { nanoseconds: -self.nanoseconds })
        }
    }

    /// Returns the exact sum of two durations.
    pub fn checked_add(self, other: Self) -> (r: Result<Self, Error>)
        ensures
            r is Ok <==> fits_i128(self@ + other@),
            r matches Ok(d) ==> d@ == self@ + other@,
            r matches Err(e) ==> e == (Error::Overflow { operation: "adding durations" }),
    {
        match self.nanoseconds.checked_add(other.nanoseconds) {
            Some(n) => Ok(Duration { nanoseconds: n }),
            None => Err(Error::Overflow { operation: "adding durations" }),
        }
    }

    /// Returns the shorter of two durations.
    pub fn min(self, other: Self) -> (d: Self)
        ensures
            d@ == (if self@ <= other@ { self@ } else { other@ }),
    {
        if self.nanoseconds <= other.nanoseconds {
            self
        } else {
            other
        }
    }

    /// Returns the longer of two durations.
    pub fn max(self, other: Self) -> (d: Self)
        ensures
            d@ == (if self@ >= other@ { self@ } else { other@ }),
    {
        if self.nanoseconds >= other.nanoseconds {
            self
        } else {
            other
        }
    }
}

/// One physical instant represented in the time scale `S`.
///
/// The instant is stored exactly as TAI nanoseconds since 1900-01-01 TAI;
/// the scale only selects the representation used by conversions.
#[derive(Debug, Copy, PartialEq, Eq, Hash, PartialOrd, Ord)]
pub struct Instant<S: TimeScale> {
    tai_nanoseconds: i128,
    scale: PhantomData<S>,
}

impl<S: TimeScale> Clone for Instant<S> {
    fn clone(&self) -> (r: Self)
        ensures
            r == *self,
    {
        *self
    }
}

impl<S: TimeScale> View for Instant<S> {
    type V = int;

    closed spec fn view(&self) -> int {
        self.tai_nanoseconds as int
    }
}

impl<S: TimeScale> Instant<S> {
    /// Every instant's nanosecond count is representable.
    pub proof fn view_fits(self)
        ensures
            fits_i128(self@),
    {
    }

    /// Advancing an instant by a duration never loses either: whenever
    /// `checked_add` succeeds, `duration_since` the starting instant succeeds
    /// with the same duration, and `checked_sub` of the duration succeeds with
    /// the starting instant.
    pub proof fn advance_round_trip(self, duration: Duration)
        requires
            fits_i128(self@ + duration@),
        ensures
            fits_i128((self@ + duration@) - self@),
            (self@ + duration@) - self@ == duration@,
            fits_i128((self@ + duration@) - duration@),
            (self@ + duration@) - duration@ == self@,
    {
        self.view_fits();
        duration.view_fits();
    }

    /// Constructs an instant from TAI nanoseconds since 1900-01-01 TAI.
    pub fn from_tai_nanoseconds_since_1900(tai_nanoseconds: i128) -> (t: Self)
        ensures
            t@ == tai_nanoseconds,
    {
        Instant { tai_nanoseconds, scale: PhantomData }
    }

    /// Returns TAI nanoseconds since 1900-01-01 TAI.
    pub fn tai_nanoseconds_since_1900(self) -> (n: i128)
        ensures
            n == self@,
    {
        self.tai_nanoseconds
    }

    /// Returns the instant a duration later (or earlier, for a negative duration).
    pub fn checked_add(self, duration: Duration) -> (r: Result<Self, Error>)
        ensures
            r is Ok <==> fits_i128(self@ + duration@),
            r matches Ok(t) ==> t@ == self@ + duration@,
            r matches Err(e) ==> e == (Error::Overflow { operation: "advancing an instant" }),
    {
        match self.tai_nanoseconds.checked_add(duration.as_nanoseconds()) {
            Some(n) => Ok(Instant { tai_nanoseconds: n, scale: PhantomData }),
            None => Err(Error::Overflow { operation: "advancing an instant" }),
        }
    }

    /// Returns the instant a duration earlier (or later, for a negative duration).
    pub fn checked_sub(self, duration: Duration) -> (r: Result<Self, Error>)
        ensures
            r is Ok <==> fits_i128(self@ - duration@),
            r matches Ok(t) ==> t@ == self@ - duration@,
            r matches Err(e) ==> e == (Error::Overflow { operation: "retarding an instant" }),
    {
        match self.tai_nanoseconds.checked_sub(duration.as_nanoseconds()) {
            Some(n) => Ok(Instant { tai_nanoseconds: n, scale: PhantomData }),
            None => Err(Error::Overflow { operation: "retarding an instant" }),
        }
    }

    /// Returns the signed physical duration from `earlier` to `self`.
    pub fn duration_since(self, earlier: Self) -> (r: Result<Duration, Error>)
        ensures
            r is Ok <==> fits_i128(self@ - earlier@),
            r matches Ok(d) ==> d@ == self@ - earlier@,
            r matches Err(e) ==> e == (Error::Overflow { operation: "differencing instants" }),
    {
        match self.tai_nanoseconds.checked_sub(earlier.tai_nanoseconds) {
            Some(n) => Ok(Duration::from_nanoseconds(n)),
            None => Err(Error::Overflow { operation: "differencing instants" }),
        }
    }

    /// Returns whether `self` is strictly earlier than `other`.
    pub fn is_before(self, other: Self) -> (b: bool)
        ensures
            b == (self@ < other@),
    {
        self.tai_nanoseconds < other.tai_nanoseconds
    }

    /// Returns whether both values name the same physical instant.
    pub fn same_instant(self, other: Self) -> (b: bool)
        ensures
            b == (self@ == other@),
    {
        self.tai_nanoseconds == other.tai_nanoseconds
    }
}

/// A closed physical-time interval `[start, end]` with `start <= end`.
#[derive(Debug, Copy, PartialEq, Eq, Hash)]
pub struct TimeInterval<S: TimeScale> {
    start: Instant<S>,
    end: Instant<S>,
}

impl<S: TimeScale> Clone for TimeInterval<S> {
    fn clone(&self) -> (r: Self)
        ensures
            r == *self,
    {
        *self
    }
}

impl<S: TimeScale> TimeInterval<S> {
    /// The first instant of the interval.
    pub closed spec fn start_spec(self) -> Instant<S> {
        self.start
    }

    /// The last instant of the interval.
    pub closed spec fn end_spec(self) -> Instant<S> {
        self.end
    }

    /// Every interval is ordered.
    #[verifier::type_invariant]
    closed spec fn ordered(self) -> bool {
        self.start@ <= self.end@
    }

    /// Constructs a closed interval, rejecting an end earlier than the start.
    pub fn new(start: Instant<S>, end: Instant<S>) -> (r: Result<Self, Error>)
        ensures
            r is Ok <==> start@ <= end@,
            r matches Ok(i) ==> i.start_spec() == start && i.end_spec() == end,
            r matches Err(e) ==> e == (Error::InvertedInterval {
                start_tai_nanoseconds: start@ as i128,
                end_tai_nanoseconds: end@ as i128,
            }),
    {
        if end.tai_nanoseconds_since_1900() < start.tai_nanoseconds_since_1900() {
            Err(Error::InvertedInterval {
                start_tai_nanoseconds: start.tai_nanoseconds_since_1900(),
                end_tai_nanoseconds: end.tai_nanoseconds_since_1900(),
            })
        } else {
            Ok(TimeInterval { start, end })
        }
    }

    /// Returns the inclusive start.
    pub fn start(self) -> (t: Instant<S>)
        ensures
            t == self.start_spec(),
            t@ <= self.end_spec()@,
    {
        proof { use_type_invariant(&self); }
        self.start
    }

    /// Returns the inclusive end.
    pub fn end(self) -> (t: Instant<S>)
        ensures
            t == self.end_spec(),
            self.start_spec()@ <= t@,
    {
        proof { use_type_invariant(&self); }
        self.end
    }

    /// Returns whether an instant lies in the closed interval.
    pub fn contains(self, instant: Instant<S>) -> (b: bool)
        ensures
            b == (self.start_spec()@ <= instant@ <= self.end_spec()@),
    {
        self.start.tai_nanoseconds_since_1900() <= instant.tai_nanoseconds_since_1900()
            && instant.tai_nanoseconds_since_1900() <= self.end.tai_nanoseconds_since_1900()
    }

    /// Returns the exact interval length.
    pub fn duration(self) -> (r: Result<Duration, Error>)
        ensures
            r is Ok <==> fits_i128(self.end_spec()@ - self.start_spec()@),
            r matches Ok(d) ==> d@ == self.end_spec()@ - self.start_spec()@ && d@ >= 0,
            r matches Err(e) ==> e == (Error::Overflow { operation: "differencing instants" }),
    {
        proof { use_type_invariant(&self); }
        self.end.duration_since(self.start)
    }
}

} // verus!
