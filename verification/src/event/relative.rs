use vstd::prelude::*;

use crate::ephem::CelestialBody;

use super::Error;

verus! {

/// Selects whether an event criterion uses simultaneous geometry or reception-time apparent places.
#[derive(Debug, Clone, Copy, PartialEq, Eq, Hash, Structural)]
#[non_exhaustive]
pub enum AstrometricMode {
    /// Evaluates both bodies at the common event epoch without light-time or astrometric corrections.
    Geometric,
    /// Uses converged reception light time, solar deflection, aberration, and orientation corrections.
    Apparent,
}

/// A validated pair of distinct bodies and the astrometric semantics used to compare them.
#[derive(Debug, Clone, Copy, PartialEq, Eq, Hash)]
pub struct RelativeBodyQuery {
    target: CelestialBody,
    reference: CelestialBody,
    mode: AstrometricMode,
}

impl RelativeBodyQuery {
    /// The body on the left side of relative differences.
    pub closed spec fn target_spec(self) -> CelestialBody {
        self.target
    }

    /// The body on the right side of relative differences.
    pub closed spec fn reference_spec(self) -> CelestialBody {
        self.reference
    }

    /// The selected astrometric semantics.
    pub closed spec fn mode_spec(self) -> AstrometricMode {
        self.mode
    }

    /// The target and reference of every query are distinct bodies.
    #[verifier::type_invariant]
    closed spec fn distinct_bodies(self) -> bool {
        self.target != self.reference
    }

    /// Constructs a relative-body query with an explicit target-minus-reference ordering.
    ///
    /// Fails exactly when target and reference are the same body.
    pub fn new(target: CelestialBody, reference: CelestialBody, mode: AstrometricMode) -> (r: Result<Self, Error>)
        ensures
            r is Ok <==> target != reference,
            r matches Ok(q) ==> q.target_spec() == target && q.reference_spec() == reference
                && q.mode_spec() == mode,
            r is Err ==> r == Err::<Self, Error>(Error::IdenticalEventBodies { body: target }),
    {
        if target == reference {
            return Err(Error::IdenticalEventBodies { body: target });
        }
        Ok(RelativeBodyQuery { target, reference, mode })
    }

    /// Returns the body whose coordinates form the left side of relative differences.
    pub fn target(self) -> (b: CelestialBody)
        ensures
            b == self.target_spec(),
            b != self.reference_spec(),
    {
        proof { use_type_invariant(self); }
        self.target
    }

    /// Returns the body whose coordinates form the right side of relative differences.
    pub fn reference(self) -> (b: CelestialBody)
        ensures
            b == self.reference_spec(),
            b != self.target_spec(),
    {
        proof { use_type_invariant(self); }
        self.reference
    }

    /// Returns the selected geometric or apparent-place semantics.
    pub fn mode(self) -> (m: AstrometricMode)
        ensures
            m == self.mode_spec(),
    {
        self.mode
    }
}

/// Identifies the physical origin from which event directions and distances were evaluated.
#[derive(Debug, Clone, Copy, PartialEq, Eq, Hash, Structural)]
#[non_exhaustive]
pub enum ObservationOrigin {
    /// The centre of the Earth.
    Geocenter,
    /// A caller-supplied fixed terrestrial site.
    FixedSite,
}

} // verus!
