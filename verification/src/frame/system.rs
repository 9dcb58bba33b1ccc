use vstd::prelude::*;

use super::sealed::Sealed;

verus! {

/// Stable identity of a supported astronomical reference system.
#[derive(Debug, Clone, Copy, PartialEq, Eq, Hash, Structural)]
#[non_exhaustive]
pub enum ReferenceSystemId {
    /// International Celestial Reference System.
    Icrs,
    /// Barycentric Celestial Reference System.
    Bcrs,
    /// Geocentric Celestial Reference System.
    Gcrs,
    /// Celestial Intermediate Reference System.
    Cirs,
    /// Terrestrial Intermediate Reference System.
    Tirs,
    /// International Terrestrial Reference System.
    Itrs,
}

/// Stable identity of an origin carried by a coordinate frame.
#[derive(Debug, Clone, Copy, PartialEq, Eq, Hash, Structural)]
#[non_exhaustive]
pub enum OriginId {
    /// Solar-system barycentre.
    SolarSystemBarycenter,
    /// Centre of mass of the Earth system.
    EarthCenter,
    /// No origin is part of the definition (ICRS is a pure orientation).
    NotApplicable,
}

/// Orientation family used by a coordinate frame.
#[derive(Debug, Clone, Copy, PartialEq, Eq, Hash, Structural)]
#[non_exhaustive]
pub enum Axes {
    /// Axes aligned with the International Celestial Reference System.
    IcrsAligned,
    /// Kinematically non-rotating geocentric celestial axes.
    Gcrs,
    /// Celestial intermediate axes defined by the CIP and CIO.
    CelestialIntermediate,
    /// Terrestrial intermediate axes after applying Earth rotation.
    TerrestrialIntermediate,
    /// Earth-fixed terrestrial axes.
    Terrestrial,
}

/// Handedness of a coordinate frame's Cartesian axes.
#[derive(Debug, Clone, Copy, PartialEq, Eq, Hash, Structural)]
#[non_exhaustive]
pub enum Handedness {
    /// Right-handed Cartesian axes.
    Right,
    /// Left-handed Cartesian axes.
    Left,
}

/// Reference epoch attached to a frame definition.
#[derive(Debug, Clone, Copy, PartialEq, Eq, Hash, Structural)]
#[non_exhaustive]
pub enum ReferenceEpoch {
    /// No reference epoch is part of the definition.
    NotApplicable,
    /// Julian epoch J2000.0.
    J2000,
    /// Besselian epoch B1950.0.
    B1950,
    /// The definition varies with the requested observation date.
    OfDate,
}

/// Equinox attached to a frame definition.
#[derive(Debug, Clone, Copy, PartialEq, Eq, Hash, Structural)]
#[non_exhaustive]
pub enum Equinox {
    /// The frame is not equinox based.
    NotApplicable,
    /// J2000.0 equinox.
    J2000,
    /// B1950.0 equinox.
    B1950,
    /// Equinox of the requested observation date.
    OfDate,
}

/// Queryable metadata that completely identifies a static coordinate frame.
#[derive(Debug, Clone, Copy, PartialEq, Eq, Hash)]
pub struct FrameDefinition {
    /// Conventional short name.
    pub name: &'static str,
    /// Ideal reference system represented by the frame.
    pub system: ReferenceSystemId,
    /// Frame origin.
    pub origin: OriginId,
    /// Axis orientation family.
    pub axes: Axes,
    /// Handedness of the Cartesian axes.
    pub handedness: Handedness,
    /// Reference epoch attached to the definition.
    pub reference_epoch: ReferenceEpoch,
    /// Equinox attached to the definition.
    pub equinox: Equinox,
}

impl FrameDefinition {
    pub(crate) fn new(
        name: &'static str,
        system: ReferenceSystemId,
        origin: OriginId,
        axes: Axes,
        handedness: Handedness,
        reference_epoch: ReferenceEpoch,
        equinox: Equinox,
    ) -> (d: Self)
        ensures
            d == (FrameDefinition { name, system, origin, axes, handedness, reference_epoch, equinox }),
    {
        FrameDefinition { name, system, origin, axes, handedness, reference_epoch, equinox }
    }

    /// Returns the conventional short name of the coordinate frame.
    pub fn name(self) -> (r: &'static str)
        ensures
            r == self.name,
    {
        self.name
    }

    /// Returns the ideal reference system represented by the frame.
    pub fn system(self) -> (r: ReferenceSystemId)
        ensures
            r == self.system,
    {
        self.system
    }

    /// Returns the frame origin.
    pub fn origin(self) -> (r: OriginId)
        ensures
            r == self.origin,
    {
        self.origin
    }

    /// Returns the frame's axis orientation family.
    pub fn axes(self) -> (r: Axes)
        ensures
            r == self.axes,
    {
        self.axes
    }

    /// Returns the handedness of the Cartesian axes.
    pub fn handedness(self) -> (r: Handedness)
        ensures
            r == self.handedness,
    {
        self.handedness
    }

    /// Returns the reference epoch attached to the frame definition.
    pub fn reference_epoch(self) -> (r: ReferenceEpoch)
        ensures
            r == self.reference_epoch,
    {
        self.reference_epoch
    }

    /// Returns the equinox attached to the frame definition.
    pub fn equinox(self) -> (r: Equinox)
        ensures
            r == self.equinox,
    {
        self.equinox
    }
}

/// A sealed marker for a supported coordinate origin.
pub trait Origin: Sealed + Copy + Clone + Eq {
    /// Stable origin identity.
    spec fn spec_id() -> OriginId;

    /// Returns the stable origin identity.
    fn id() -> (r: OriginId)
        ensures
            r == Self::spec_id(),
    ;

    /// The conventional origin name.
    spec fn spec_name() -> Seq<char>;

    /// Returns the conventional origin name.
    fn name() -> (r: &'static str)
        ensures
            r@ == Self::spec_name(),
    ;
}

/// A sealed marker carrying complete static coordinate-frame semantics.
pub trait CoordinateFrame: Sealed + Copy + Clone + Eq {
    /// Ideal reference system underlying this frame.
    type System: Sealed;

    /// Origin fixed by this frame.
    type Origin: Origin;

    /// The complete static metadata of this frame.
    spec fn spec_definition() -> FrameDefinition;

    /// Returns the frame's complete static metadata.
    fn definition() -> (d: FrameDefinition)
        ensures
            d == Self::spec_definition(),
    ;
}

/// A coordinate frame that is itself an ideal reference system.
pub trait ReferenceSystem: CoordinateFrame<System = Self> {}

/// Solar-system barycentre origin.
#[derive(Debug, Clone, Copy, PartialEq, Eq, Hash)]
pub struct SolarSystemBarycenter;

impl Sealed for SolarSystemBarycenter {}

impl Origin for SolarSystemBarycenter {
    open spec fn spec_id() -> OriginId {
        OriginId::SolarSystemBarycenter
    }

    fn id() -> (r: OriginId) {
        OriginId::SolarSystemBarycenter
    }

    open spec fn spec_name() -> Seq<char> {
        "solar-system barycentre"@
    }

    fn name() -> (r: &'static str) {
        "solar-system barycentre"
    }
}

/// Centre-of-mass origin of the Earth system.
#[derive(Debug, Clone, Copy, PartialEq, Eq, Hash)]
pub struct EarthCenter;

impl Sealed for EarthCenter {}

impl Origin for EarthCenter {
    open spec fn spec_id() -> OriginId {
        OriginId::EarthCenter
    }

    fn id() -> (r: OriginId) {
        OriginId::EarthCenter
    }

    open spec fn spec_name() -> Seq<char> {
        "Earth centre"@
    }

    fn name() -> (r: &'static str) {
        "Earth centre"
    }
}

/// International Celestial Reference System coordinate frame.
#[derive(Debug, Clone, Copy, PartialEq, Eq, Hash)]
pub struct Icrs;

impl Sealed for Icrs {}

impl CoordinateFrame for Icrs {
    type System = Self;
    type Origin = SolarSystemBarycenter;

    open spec fn spec_definition() -> FrameDefinition {
        FrameDefinition {
            name: "ICRS",
            system: ReferenceSystemId::Icrs,
            origin: OriginId::NotApplicable,
            axes: Axes::IcrsAligned,
            handedness: Handedness::Right,
            reference_epoch: ReferenceEpoch::NotApplicable,
            equinox: Equinox::NotApplicable,
        }
    }

    fn definition() -> (d: FrameDefinition) {
        FrameDefinition::new(
            "ICRS",
            ReferenceSystemId::Icrs,
            OriginId::NotApplicable,
            Axes::IcrsAligned,
            Handedness::Right,
            ReferenceEpoch::NotApplicable,
            Equinox::NotApplicable,
        )
    }
}

impl ReferenceSystem for Icrs {}

/// Barycentric Celestial Reference System coordinate frame.
#[derive(Debug, Clone, Copy, PartialEq, Eq, Hash)]
pub struct Bcrs;

impl Sealed for Bcrs {}

impl CoordinateFrame for Bcrs {
    type System = Self;
    type Origin = SolarSystemBarycenter;

    open spec fn spec_definition() -> FrameDefinition {
        FrameDefinition {
            name: "BCRS",
            system: ReferenceSystemId::Bcrs,
            origin: OriginId::SolarSystemBarycenter,
            axes: Axes::IcrsAligned,
            handedness: Handedness::Right,
            reference_epoch: ReferenceEpoch::NotApplicable,
            equinox: Equinox::NotApplicable,
        }
    }

    fn definition() -> (d: FrameDefinition) {
        FrameDefinition::new(
            "BCRS",
            ReferenceSystemId::Bcrs,
            OriginId::SolarSystemBarycenter,
            Axes::IcrsAligned,
            Handedness::Right,
            ReferenceEpoch::NotApplicable,
            Equinox::NotApplicable,
        )
    }
}

impl ReferenceSystem for Bcrs {}

/// Geocentric Celestial Reference System coordinate frame.
#[derive(Debug, Clone, Copy, PartialEq, Eq, Hash)]
pub struct Gcrs;

impl Sealed for Gcrs {}

impl CoordinateFrame for Gcrs {
    type System = Self;
    type Origin = EarthCenter;

    open spec fn spec_definition() -> FrameDefinition {
        FrameDefinition {
            name: "GCRS",
            system: ReferenceSystemId::Gcrs,
            origin: OriginId::EarthCenter,
            axes: Axes::Gcrs,
            handedness: Handedness::Right,
            reference_epoch: ReferenceEpoch::NotApplicable,
            equinox: Equinox::NotApplicable,
        }
    }

    fn definition() -> (d: FrameDefinition) {
        FrameDefinition::new(
            "GCRS",
            ReferenceSystemId::Gcrs,
            OriginId::EarthCenter,
            Axes::Gcrs,
            Handedness::Right,
            ReferenceEpoch::NotApplicable,
            Equinox::NotApplicable,
        )
    }
}

impl ReferenceSystem for Gcrs {}

/// Celestial Intermediate Reference System coordinate frame.
#[derive(Debug, Clone, Copy, PartialEq, Eq, Hash)]
pub struct Cirs;

impl Sealed for Cirs {}

impl CoordinateFrame for Cirs {
    type System = Self;
    type Origin = EarthCenter;

    open spec fn spec_definition() -> FrameDefinition {
        FrameDefinition {
            name: "CIRS",
            system: ReferenceSystemId::Cirs,
            origin: OriginId::EarthCenter,
            axes: Axes::CelestialIntermediate,
            handedness: Handedness::Right,
            reference_epoch: ReferenceEpoch::OfDate,
            equinox: Equinox::NotApplicable,
        }
    }

    fn definition() -> (d: FrameDefinition) {
        FrameDefinition::new(
            "CIRS",
            ReferenceSystemId::Cirs,
            OriginId::EarthCenter,
            Axes::CelestialIntermediate,
            Handedness::Right,
            ReferenceEpoch::OfDate,
            Equinox::NotApplicable,
        )
    }
}

impl ReferenceSystem for Cirs {}

/// Terrestrial Intermediate Reference System coordinate frame.
#[derive(Debug, Clone, Copy, PartialEq, Eq, Hash)]
pub struct Tirs;

impl Sealed for Tirs {}

impl CoordinateFrame for Tirs {
    type System = Self;
    type Origin = EarthCenter;

    open spec fn spec_definition() -> FrameDefinition {
        FrameDefinition {
            name: "TIRS",
            system: ReferenceSystemId::Tirs,
            origin: OriginId::EarthCenter,
            axes: Axes::TerrestrialIntermediate,
            handedness: Handedness::Right,
            reference_epoch: ReferenceEpoch::OfDate,
            equinox: Equinox::NotApplicable,
        }
    }

    fn definition() -> (d: FrameDefinition) {
        FrameDefinition::new(
            "TIRS",
            ReferenceSystemId::Tirs,
            OriginId::EarthCenter,
            Axes::TerrestrialIntermediate,
            Handedness::Right,
            ReferenceEpoch::OfDate,
            Equinox::NotApplicable,
        )
    }
}

impl ReferenceSystem for Tirs {}

/// International Terrestrial Reference System coordinate frame.
#[derive(Debug, Clone, Copy, PartialEq, Eq, Hash)]
pub struct Itrs;

impl Sealed for Itrs {}

impl CoordinateFrame for Itrs {
    type System = Self;
    type Origin = EarthCenter;

    open spec fn spec_definition() -> FrameDefinition {
        FrameDefinition {
            name: "ITRS",
            system: ReferenceSystemId::Itrs,
            origin: OriginId::EarthCenter,
            axes: Axes::Terrestrial,
            handedness: Handedness::Right,
            reference_epoch: ReferenceEpoch::NotApplicable,
            equinox: Equinox::NotApplicable,
        }
    }

    fn definition() -> (d: FrameDefinition) {
        FrameDefinition::new(
            "ITRS",
            ReferenceSystemId::Itrs,
            OriginId::EarthCenter,
            Axes::Terrestrial,
            Handedness::Right,
            ReferenceEpoch::NotApplicable,
            Equinox::NotApplicable,
        )
    }
}

impl ReferenceSystem for Itrs {}

} // verus!
