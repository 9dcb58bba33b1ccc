//! Identities of the solar-system bodies that events refer to.
use vstd::prelude::*;

verus! {

/// A solar-system body or barycentre with an ephemeris identity.
#[derive(Debug, Clone, Copy, PartialEq, Eq, Hash, Structural)]
#[non_exhaustive]
pub enum CelestialBody {
    /// The solar-system barycentre.
    SolarSystemBarycenter,
    /// The Sun.
    Sun,
    /// Mercury.
    Mercury,
    /// Venus.
    Venus,
    /// The Earth.
    Earth,
    /// The Moon.
    Moon,
    /// Mars.
    Mars,
    /// Jupiter.
    Jupiter,
    /// Saturn.
    Saturn,
    /// Uranus.
    Uranus,
    /// Neptune.
    Neptune,
}

/// A spherical model of one body's figure.
#[derive(Debug, Clone, Copy, PartialEq, Eq, Hash)]
pub struct SphericalBodyFigure {
    /// Body whose figure is modelled.
    pub body: CelestialBody,
    /// Sphere radius in whole millimetres.
    pub radius_millimetres: u64,
}

impl SphericalBodyFigure {
    /// The IAU 2015 Resolution B3 nominal solar figure (radius 695 700 km).
    pub open spec fn iau_2015_nominal_sun_spec() -> SphericalBodyFigure {
        SphericalBodyFigure { body: CelestialBody::Sun, radius_millimetres: 695_700_000_000 }
    }

    /// The IAU WGCCRE 2015 mean lunar figure (radius 1737.4 km).
    pub open spec fn iau_wgccre_2015_moon_spec() -> SphericalBodyFigure {
        SphericalBodyFigure { body: CelestialBody::Moon, radius_millimetres: 1_737_400_000 }
    }

    /// The IAU 2015 Resolution B3 nominal solar figure (radius 695 700 km).
    pub fn iau_2015_nominal_sun() -> (f: SphericalBodyFigure)
        ensures
            f == Self::iau_2015_nominal_sun_spec(),
    {
        SphericalBodyFigure { body: CelestialBody::Sun, radius_millimetres: 695_700_000_000 }
    }

    /// The IAU WGCCRE 2015 mean lunar figure (radius 1737.4 km).
    pub fn iau_wgccre_2015_moon() -> (f: SphericalBodyFigure)
        ensures
            f == Self::iau_wgccre_2015_moon_spec(),
    {
        SphericalBodyFigure { body: CelestialBody::Moon, radius_millimetres: 1_737_400_000 }
    }

    /// Constructs a spherical figure for one body.
    pub fn new(body: CelestialBody, radius_millimetres: u64) -> (f: Self)
        ensures
            f == (SphericalBodyFigure { body, radius_millimetres }),
    {
        SphericalBodyFigure { body, radius_millimetres }
    }

    /// Returns the body whose figure is modelled.
    pub fn body(self) -> (b: CelestialBody)
        ensures
            b == self.body,
    {
        self.body
    }

    /// Returns the sphere radius in whole millimetres.
    pub fn radius_millimetres(self) -> (r: u64)
        ensures
            r == self.radius_millimetres,
    {
        self.radius_millimetres
    }
}

} // verus!
