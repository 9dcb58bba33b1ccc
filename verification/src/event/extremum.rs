use vstd::prelude::*;

use crate::ephem::CelestialBody;
use crate::time::{Instant, TimeScale};

use super::{AstrometricMode, Error, ExtremumEvidence, RelativeBodyQuery};

verus! {

/// Selects a local minimum or local maximum.
#[derive(Debug, Clone, Copy, PartialEq, Eq, Hash, Structural)]
#[non_exhaustive]
pub enum ExtremumKind {
    /// A local minimum.
    Minimum,
    /// A local maximum.
    Maximum,
}

/// The sense in which a bounded extremum search compares samples.
#[derive(Debug, Clone, Copy, PartialEq, Eq, Structural)]
pub(crate) enum ExtremumSense {
    Minimum,
    Maximum,
}

impl ExtremumKind {
    pub(crate) fn sense(self) -> (s: ExtremumSense)
        ensures
            (self == ExtremumKind::Minimum) <==> (s == ExtremumSense::Minimum),
            (self == ExtremumKind::Maximum) <==> (s == ExtremumSense::Maximum),
    {
        match self {
            ExtremumKind::Minimum => ExtremumSense::Minimum,
            ExtremumKind::Maximum => ExtremumSense::Maximum,
        }
    }
}

/// A query for local extrema of the true angular separation between two bodies.
#[derive(Debug, Clone, Copy, PartialEq, Eq, Hash)]
pub struct AngularSeparationExtremumQuery {
    /// Ordered body pair and astrometric semantics.
    pub bodies: RelativeBodyQuery,
    /// Whether local minima or maxima are requested.
    pub kind: ExtremumKind,
}

impl AngularSeparationExtremumQuery {
    /// Constructs an angular-separation extremum query.
    pub fn new(bodies: RelativeBodyQuery, kind: ExtremumKind) -> (q: Self)
        ensures
            q == (AngularSeparationExtremumQuery { bodies, kind }),
    {
        AngularSeparationExtremumQuery { bodies, kind }
    }

    /// Returns the ordered body pair and astrometric semantics.
    pub fn bodies(self) -> (b: RelativeBodyQuery)
        ensures
            b == self.bodies,
    {
        self.bodies
    }

    /// Returns whether local minima or maxima are requested.
    pub fn kind(self) -> (k: ExtremumKind)
        ensures
            k == self.kind,
    {
        self.kind
    }
}

/// A geometric target-centre distance extremum query for two distinct bodies.
#[derive(Debug, Clone, Copy, PartialEq, Eq, Hash)]
pub struct DistanceExtremumQuery {
    target: CelestialBody,
    center: CelestialBody,
    kind: ExtremumKind,
}

impl DistanceExtremumQuery {
    /// The body whose centre-to-centre state is evaluated.
    pub closed spec fn target_spec(self) -> CelestialBody {
        self.target
    }

    /// The centre from which geometric distance is measured.
    pub closed spec fn center_spec(self) -> CelestialBody {
        self.center
    }

    /// Whether minima or maxima are requested.
    pub closed spec fn kind_spec(self) -> ExtremumKind {
        self.kind
    }

    /// Target and centre are distinct bodies.
    #[verifier::type_invariant]
    closed spec fn distinct_bodies(self) -> bool {
        self.target != self.center
    }

    /// Constructs a geometric distance query; fails exactly when both bodies coincide.
    pub fn new(target: CelestialBody, center: CelestialBody, kind: ExtremumKind) -> (r: Result<Self, Error>)
        ensures
            r is Ok <==> target != center,
            r matches Ok(q) ==> q.target_spec() == target && q.center_spec() == center
                && q.kind_spec() == kind,
            r is Err ==> r == Err::<Self, Error>(Error::IdenticalEventBodies { body: target }),
    {
        if target == center {
            return Err(Error::IdenticalEventBodies { body: target });
        }
        Ok(DistanceExtremumQuery { target, center, kind })
    }

    /// Returns the body whose centre-to-centre state is evaluated.
    pub fn target(self) -> (b: CelestialBody)
        ensures
            b == self.target_spec(),
            b != self.center_spec(),
    {
        proof { use_type_invariant(self); }
        self.target
    }

    /// Returns the centre from which geometric distance is measured.
    pub fn center(self) -> (b: CelestialBody)
        ensures
            b == self.center_spec(),
            b != self.target_spec(),
    {
        proof { use_type_invariant(self); }
        self.center
    }

    /// Returns whether local minima or maxima are requested.
    pub fn kind(self) -> (k: ExtremumKind)
        ensures
            k == self.kind_spec(),
    {
        self.kind
    }
}

/// One local geometric target-centre distance extremum.
///
/// The geometric state `T` and distance `D` are carried unchanged.
#[derive(Debug, Copy, PartialEq)]
pub struct DistanceExtremumEvent<S: TimeScale, T, D> {
    /// Complete defining query.
    pub query: DistanceExtremumQuery,
    /// Geometric extremum instant (the epoch of `state`).
    pub instant: Instant<S>,
    /// Full geometric target-centre state at the extremum.
    pub state: T,
    /// Locally extremal centre-to-centre distance.
    pub distance: D,
    /// Numerical bounded-extremum evidence.
    pub evidence: ExtremumEvidence<S>,
}

impl<S: TimeScale, T: Copy, D: Copy> Clone for DistanceExtremumEvent<S, T, D> {
    fn clone(&self) -> (r: Self)
        ensures
            r == *self,
    {
        *self
    }
}

impl<S: TimeScale, T, D> DistanceExtremumEvent<S, T, D> {
    /// Retains one refined distance extremum.
    pub fn new(query: DistanceExtremumQuery, instant: Instant<S>, state: T, distance: D, evidence: ExtremumEvidence<S>) -> (e: Self)
        ensures
            e == (DistanceExtremumEvent { query, instant, state, distance, evidence }),
    {
        DistanceExtremumEvent { query, instant, state, distance, evidence }
    }

    /// Returns the complete defining query.
    pub fn query(&self) -> (q: DistanceExtremumQuery)
        ensures
            q == self.query,
    {
        self.query
    }

    /// Returns the geometric extremum instant.
    pub fn instant(&self) -> (t: Instant<S>)
        ensures
            t == self.instant,
    {
        self.instant
    }

    /// Returns the full geometric target-centre state at the extremum.
    pub fn state(&self) -> (t: &T)
        ensures
            *t == self.state,
    {
        &self.state
    }

    /// Returns the locally extremal centre-to-centre distance.
    pub fn distance(&self) -> (d: &D)
        ensures
            *d == self.distance,
    {
        &self.distance
    }

    /// Returns numerical bounded-extremum evidence.
    pub fn evidence(&self) -> (e: ExtremumEvidence<S>)
        ensures
            e == self.evidence,
    {
        self.evidence
    }
}

/// Signed angular coordinate used for extrema and zero crossings.
#[derive(Debug, Clone, Copy, PartialEq, Eq, Hash, Structural)]
#[non_exhaustive]
pub enum EventCoordinate {
    /// Latitude on the true ecliptic and equinox of date.
    EclipticLatitude,
    /// Declination on the true equator and equinox of date.
    Declination,
}

/// A query for local extrema of one body's signed angular coordinate.
#[derive(Debug, Clone, Copy, PartialEq, Eq, Hash)]
pub struct CoordinateExtremumQuery {
    /// Evaluated body.
    pub body: CelestialBody,
    /// Geometric or apparent-place semantics.
    pub mode: AstrometricMode,
    /// Signed coordinate being extremized.
    pub coordinate: EventCoordinate,
    /// Whether local minima or maxima are requested.
    pub kind: ExtremumKind,
}

impl CoordinateExtremumQuery {
    /// Constructs a coordinate-extremum query.
    pub fn new(body: CelestialBody, mode: AstrometricMode, coordinate: EventCoordinate, kind: ExtremumKind) -> (q: Self)
        ensures
            q == (CoordinateExtremumQuery { body, mode, coordinate, kind }),
    {
        CoordinateExtremumQuery { body, mode, coordinate, kind }
    }

    /// Returns the evaluated body.
    pub fn body(self) -> (b: CelestialBody)
        ensures
            b == self.body,
    {
        self.body
    }

    /// Returns the selected geometric or apparent-place semantics.
    pub fn mode(self) -> (m: AstrometricMode)
        ensures
            m == self.mode,
    {
        self.mode
    }

    /// Returns the signed coordinate being extremized.
    pub fn coordinate(self) -> (c: EventCoordinate)
        ensures
            c == self.coordinate,
    {
        self.coordinate
    }

    /// Returns whether local minima or maxima are requested.
    pub fn kind(self) -> (k: ExtremumKind)
        ensures
            k == self.kind,
    {
        self.kind
    }
}

/// Direction in which a signed coordinate crosses zero.
#[derive(Debug, Clone, Copy, PartialEq, Eq, Hash, Structural)]
#[non_exhaustive]
pub enum CoordinateCrossingKind {
    /// The coordinate changes from negative to positive.
    Ascending,
    /// The coordinate changes from positive to negative.
    Descending,
}

/// A query for zero crossings of one body's signed angular coordinate.
#[derive(Debug, Clone, Copy, PartialEq, Eq, Hash)]
pub struct CoordinateCrossingQuery {
    /// Evaluated body.
    pub body: CelestialBody,
    /// Geometric or apparent-place semantics.
    pub mode: AstrometricMode,
    /// Signed coordinate whose zero crossing is requested.
    pub coordinate: EventCoordinate,
}

impl CoordinateCrossingQuery {
    /// Constructs a coordinate-crossing query.
    pub fn new(body: CelestialBody, mode: AstrometricMode, coordinate: EventCoordinate) -> (q: Self)
        ensures
            q == (CoordinateCrossingQuery { body, mode, coordinate }),
    {
        CoordinateCrossingQuery { body, mode, coordinate }
    }

    /// Returns the evaluated body.
    pub fn body(self) -> (b: CelestialBody)
        ensures
            b == self.body,
    {
        self.body
    }

    /// Returns the selected geometric or apparent-place semantics.
    pub fn mode(self) -> (m: AstrometricMode)
        ensures
            m == self.mode,
    {
        self.mode
    }

    /// Returns the signed coordinate whose zero crossing is requested.
    pub fn coordinate(self) -> (c: EventCoordinate)
        ensures
            c == self.coordinate,
    {
        self.coordinate
    }
}

} // verus!
