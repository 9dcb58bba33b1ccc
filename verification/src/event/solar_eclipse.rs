use vstd::prelude::*;

use crate::ephem::{CelestialBody, SphericalBodyFigure};

use super::{AngularEventSearchOptions, Error};

verus! {

/// Spherical Sun and Moon figures used for local-disk and global shadow-cone geometry.
#[derive(Debug, Clone, Copy, PartialEq, Eq)]
pub struct SolarEclipseModel {
    sun: SphericalBodyFigure,
    moon: SphericalBodyFigure,
}

impl SolarEclipseModel {
    /// The solar-limb figure.
    pub closed spec fn sun_spec(self) -> SphericalBodyFigure {
        self.sun
    }

    /// The lunar-limb figure.
    pub closed spec fn moon_spec(self) -> SphericalBodyFigure {
        self.moon
    }

    /// The solar figure represents the Sun and the lunar figure the Moon.
    #[verifier::type_invariant]
    closed spec fn identified(self) -> bool {
        self.sun.body == CelestialBody::Sun && self.moon.body == CelestialBody::Moon
    }

    /// Constructs an explicitly identified spherical-disk model.
    ///
    /// Fails when the solar figure is not the Sun's, and otherwise when the
    /// lunar figure is not the Moon's.
    pub fn new(sun: SphericalBodyFigure, moon: SphericalBodyFigure) -> (r: Result<Self, Error>)
        ensures
            r is Ok <==> sun.body == CelestialBody::Sun && moon.body == CelestialBody::Moon,
            r matches Ok(m) ==> m.sun_spec() == sun && m.moon_spec() == moon,
            sun.body != CelestialBody::Sun ==> r == Err::<Self, Error>(Error::InvalidSolarEclipseFigure {
                role: "Sun",
                expected: CelestialBody::Sun,
                actual: sun.body,
            }),
            sun.body == CelestialBody::Sun && moon.body != CelestialBody::Moon ==> r == Err::<Self, Error>(
                Error::InvalidSolarEclipseFigure { role: "Moon", expected: CelestialBody::Moon, actual: moon.body },
            ),
    {
        if sun.body != CelestialBody::Sun {
            return Err(Error::InvalidSolarEclipseFigure {
                role: "Sun",
                expected: CelestialBody::Sun,
                actual: sun.body,
            });
        }
        if moon.body != CelestialBody::Moon {
            return Err(Error::InvalidSolarEclipseFigure {
                role: "Moon",
                expected: CelestialBody::Moon,
                actual: moon.body,
            });
        }
        Ok(SolarEclipseModel { sun, moon })
    }

    /// Returns the IAU 2015 nominal solar sphere and IAU WGCCRE 2015 lunar sphere.
    pub fn standard() -> (m: Self)
        ensures
            m.sun_spec() == SphericalBodyFigure::iau_2015_nominal_sun_spec(),
            m.moon_spec() == SphericalBodyFigure::iau_wgccre_2015_moon_spec(),
    {
        SolarEclipseModel {
            sun: SphericalBodyFigure::iau_2015_nominal_sun(),
            moon: SphericalBodyFigure::iau_wgccre_2015_moon(),
        }
    }

    /// Returns the spherical solar-limb model.
    pub fn sun(self) -> (f: SphericalBodyFigure)
        ensures
            f == self.sun_spec(),
            f.body == CelestialBody::Sun,
    {
        proof { use_type_invariant(self); }
        self.sun
    }

    /// Returns the spherical lunar-limb model.
    pub fn moon(self) -> (f: SphericalBodyFigure)
        ensures
            f == self.moon_spec(),
            f.body == CelestialBody::Moon,
    {
        proof { use_type_invariant(self); }
        self.moon
    }
}

/// Search controls and spherical figures shared by local and global solar eclipses.
#[derive(Debug, Copy, PartialEq)]
pub struct SolarEclipseSearchOptions<A, L> {
    /// Controls used for new-Moon seeding and numerical refinement.
    pub angular_search: AngularEventSearchOptions<A, L>,
    /// Solar and lunar spherical figures used for every apparent disk.
    pub model: SolarEclipseModel,
}

impl<A: Copy, L: Copy> Clone for SolarEclipseSearchOptions<A, L> {
    fn clone(&self) -> (r: Self)
        ensures
            r == *self,
    {
        *self
    }
}

impl<A: Copy, L: Copy> SolarEclipseSearchOptions<A, L> {
    /// Combines validated angular-event controls with an explicit disk model.
    pub fn new(angular_search: AngularEventSearchOptions<A, L>, model: SolarEclipseModel) -> (o: Self)
        ensures
            o == (SolarEclipseSearchOptions { angular_search, model }),
    {
        SolarEclipseSearchOptions { angular_search, model }
    }

    /// Returns standard angular-event controls and the standard IAU figures.
    ///
    /// The standard angular tolerance and light-time controls are supplied.
    pub fn standard(angular_tolerance: A, light_time: L) -> (o: Self)
        ensures
            o.angular_search == AngularEventSearchOptions::standard_spec(angular_tolerance, light_time),
            o.model.sun_spec() == SphericalBodyFigure::iau_2015_nominal_sun_spec(),
            o.model.moon_spec() == SphericalBodyFigure::iau_wgccre_2015_moon_spec(),
    {
        SolarEclipseSearchOptions::new(
            AngularEventSearchOptions::standard(angular_tolerance, light_time),
            SolarEclipseModel::standard(),
        )
    }

    /// Returns the controls used for new-Moon seeding and numerical refinement.
    pub fn angular_search(self) -> (o: AngularEventSearchOptions<A, L>)
        ensures
            o == self.angular_search,
    {
        self.angular_search
    }

    /// Returns the solar and lunar spherical figures used for every apparent disk.
    pub fn model(self) -> (m: SolarEclipseModel)
        ensures
            m == self.model,
    {
        self.model
    }
}

/// Local geometric solar-eclipse classification at greatest magnitude.
#[derive(Debug, Clone, Copy, PartialEq, Eq, Hash, Structural)]
#[non_exhaustive]
pub enum LocalSolarEclipseKind {
    /// The lunar disk overlaps but never lies strictly inside or contains the solar disk.
    Partial,
    /// The smaller lunar disk lies strictly inside the solar disk around maximum eclipse.
    Annular,
    /// The lunar disk strictly contains the solar disk around maximum eclipse.
    Total,
}

/// The local solar-eclipse kind at greatest magnitude, or `None` without an eclipse.
///
/// `disks_overlap` states that the lunar and solar disks overlap,
/// `one_disk_inside_other` that one lies strictly inside the other (each within
/// the angular tolerance), and `moon_smaller` that the lunar disk is the smaller.
pub fn classify_local_solar_eclipse(disks_overlap: bool, one_disk_inside_other: bool, moon_smaller: bool) -> (k: Option<LocalSolarEclipseKind>)
    ensures
        k == (if !disks_overlap {
            None
        } else if !one_disk_inside_other {
            Some(LocalSolarEclipseKind::Partial)
        } else if moon_smaller {
            Some(LocalSolarEclipseKind::Annular)
        } else {
            Some(LocalSolarEclipseKind::Total)
        }),
{
    if !disks_overlap {
        None
    } else if !one_disk_inside_other {
        Some(LocalSolarEclipseKind::Partial)
    } else if moon_smaller {
        Some(LocalSolarEclipseKind::Annular)
    } else {
        Some(LocalSolarEclipseKind::Total)
    }
}

/// Identity of one local solar-eclipse contact.
#[derive(Debug, Clone, Copy, PartialEq, Eq, Hash, Structural)]
#[non_exhaustive]
pub enum SolarEclipseContactKind {
    /// C1, first exterior contact or initial tangency.
    First,
    /// C2, beginning of totality or annularity.
    Second,
    /// C3, end of totality or annularity.
    Third,
    /// C4, final exterior contact or final tangency.
    Fourth,
}

impl SolarEclipseContactKind {
    /// Returns whether the contact is internal (second or third).
    pub fn is_internal(self) -> (b: bool)
        ensures
            b == (self == SolarEclipseContactKind::Second || self == SolarEclipseContactKind::Third),
    {
        match self {
            SolarEclipseContactKind::Second | SolarEclipseContactKind::Third => true,
            _ => false,
        }
    }

    /// Returns the stable description used in contact-bracketing errors.
    pub fn description(self) -> (d: &'static str)
        ensures
            d@ == (match self {
                SolarEclipseContactKind::First => "local solar-eclipse first contact"@,
                SolarEclipseContactKind::Second => "local solar-eclipse second contact"@,
                SolarEclipseContactKind::Third => "local solar-eclipse third contact"@,
                SolarEclipseContactKind::Fourth => "local solar-eclipse fourth contact"@,
            }),
    {
        match self {
            SolarEclipseContactKind::First => "local solar-eclipse first contact",
            SolarEclipseContactKind::Second => "local solar-eclipse second contact",
            SolarEclipseContactKind::Third => "local solar-eclipse third contact",
            SolarEclipseContactKind::Fourth => "local solar-eclipse fourth contact",
        }
    }
}

/// Complete Earth-attitude provenance retained by a local solar-eclipse result.
///
/// The prediction dispositions `D` are carried unchanged.
#[derive(Debug, Clone, PartialEq, Eq)]
pub struct SolarEclipseEarthAttitudeProvenance<D> {
    source: String,
    predicted: bool,
    delta_t_model: Option<String>,
    delta_t_disposition: Option<D>,
    offset_model: Option<String>,
    offset_disposition: Option<D>,
}

/// The text of an optional model identifier.
pub open spec fn optional_text(s: Option<String>) -> Option<Seq<char>> {
    match s {
        Some(t) => Some(t@),
        None => None,
    }
}

/// Borrows the text of an optional owned string.
fn as_optional_str(s: &Option<String>) -> (r: Option<&str>)
    ensures
        (match r {
            Some(t) => Some(t@),
            None => None::<Seq<char>>,
        }) == optional_text(*s),
{
    match s {
        Some(t) => Some(t.as_str()),
        None => None,
    }
}

impl<D: Copy> SolarEclipseEarthAttitudeProvenance<D> {
    /// The table version or scenario identifier.
    pub closed spec fn source_spec(&self) -> Seq<char> {
        self.source@
    }

    /// Whether an explicit modeled scenario was used.
    pub closed spec fn predicted_spec(&self) -> bool {
        self.predicted
    }

    /// The Delta T model identifier.
    pub closed spec fn delta_t_model_spec(&self) -> Option<Seq<char>> {
        optional_text(self.delta_t_model)
    }

    /// The Delta T disposition.
    pub closed spec fn delta_t_disposition_spec(&self) -> Option<D> {
        self.delta_t_disposition
    }

    /// The pole-offset model identifier.
    pub closed spec fn offset_model_spec(&self) -> Option<Seq<char>> {
        optional_text(self.offset_model)
    }

    /// The pole-offset disposition.
    pub closed spec fn offset_disposition_spec(&self) -> Option<D> {
        self.offset_disposition
    }

    /// Records the provenance of the Earth attitude used by one result.
    pub fn new(
        source: String,
        predicted: bool,
        delta_t_model: Option<String>,
        delta_t_disposition: Option<D>,
        offset_model: Option<String>,
        offset_disposition: Option<D>,
    ) -> (p: Self)
        ensures
            p.source_spec() == source@,
            p.predicted_spec() == predicted,
            p.delta_t_model_spec() == optional_text(delta_t_model),
            p.delta_t_disposition_spec() == delta_t_disposition,
            p.offset_model_spec() == optional_text(offset_model),
            p.offset_disposition_spec() == offset_disposition,
    {
        SolarEclipseEarthAttitudeProvenance {
            source,
            predicted,
            delta_t_model,
            delta_t_disposition,
            offset_model,
            offset_disposition,
        }
    }

    /// Returns the table version or prediction-scenario identifier.
    pub fn source(&self) -> (s: &str)
        ensures
            s@ == self.source_spec(),
    {
        self.source.as_str()
    }

    /// Returns whether the result used an explicit modeled scenario.
    pub fn is_predicted(&self) -> (b: bool)
        ensures
            b == self.predicted_spec(),
    {
        self.predicted
    }

    /// Returns the direct Delta T model identifier, when applicable.
    pub fn delta_t_model(&self) -> (m: Option<&str>)
        ensures
            (match m {
                Some(t) => Some(t@),
                None => None::<Seq<char>>,
            }) == self.delta_t_model_spec(),
    {
        as_optional_str(&self.delta_t_model)
    }

    /// Returns whether Delta T was predicted or explicitly assumed.
    pub fn delta_t_disposition(&self) -> (d: Option<D>)
        ensures
            d == self.delta_t_disposition_spec(),
    {
        self.delta_t_disposition
    }

    /// Returns the pole-offset model identifier, when applicable.
    pub fn offset_model(&self) -> (m: Option<&str>)
        ensures
            (match m {
                Some(t) => Some(t@),
                None => None::<Seq<char>>,
            }) == self.offset_model_spec(),
    {
        as_optional_str(&self.offset_model)
    }

    /// Returns whether pole offsets were predicted or explicitly assumed.
    pub fn offset_disposition(&self) -> (d: Option<D>)
        ensures
            d == self.offset_disposition_spec(),
    {
        self.offset_disposition
    }
}

} // verus!
