use vstd::prelude::*;

use crate::ephem::CelestialBody;

verus! {

/// Errors produced by astronomical event bookkeeping.
#[derive(Debug, Clone, Copy, PartialEq, Eq)]
#[non_exhaustive]
pub enum Error {
    /// A time value or time computation was invalid.
    Time(crate::time::Error),
    /// A duration-valued search option was zero, negative, or inconsistent.
    InvalidSearchDuration {
        /// Name of the invalid option.
        field: &'static str,
        /// Rejected exact duration.
        nanoseconds: i128,
        /// Inclusive maximum accepted duration.
        maximum_nanoseconds: i128,
    },
    /// An angular event tolerance was zero, negative, or too large.
    InvalidAngularTolerance {
        /// Name of the invalid angular tolerance.
        field: &'static str,
    },
    /// An iteration or evaluation budget was zero.
    InvalidSearchLimit {
        /// Name of the invalid budget.
        field: &'static str,
        /// Rejected budget.
        value: u32,
    },
    /// The explicit astronomical-event evaluation budget was exhausted.
    EvaluationLimitExceeded {
        /// Maximum permitted astrometric evaluations.
        maximum: u32,
    },
    /// A bounded extremum refinement exhausted its iteration budget.
    ExtremumSearchDidNotConverge {
        /// Maximum refinement iterations attempted.
        iterations: u32,
    },
    /// A relative event query named one body as both target and reference.
    IdenticalEventBodies {
        /// Rejected target and reference body.
        body: CelestialBody,
    },
    /// A local Gregorian year did not contain exactly one occurrence of every solar term.
    IncompleteSolarTermYear {
        /// Requested astronomical Gregorian year.
        year: i32,
        /// Number of terms found in that local year.
        found: usize,
    },
    /// A yearly result contained a solar term in an unexpected chronological position.
    UnexpectedSolarTermSequence {
        /// Requested Gregorian year.
        year: i32,
        /// Zero-based chronological index.
        index: usize,
        /// Expected English solar-term name.
        expected: &'static str,
        /// Actual English solar-term name.
        actual: &'static str,
    },
    /// Cycle statistics were requested without a complete measured cycle.
    EmptyCycleSample,
    /// A local solar-eclipse model assigned the wrong physical body to one limb.
    InvalidSolarEclipseFigure {
        /// Stable role name in the eclipse geometry.
        role: &'static str,
        /// Required physical body.
        expected: CelestialBody,
        /// Body carried by the rejected figure.
        actual: CelestialBody,
    },
    /// A local solar-eclipse contact remained inside the selected limb boundary for twelve hours.
    SolarEclipseContactNotBracketed {
        /// Stable contact description.
        contact: &'static str,
        /// Greatest-eclipse instant as TAI nanoseconds since 1900-01-01 TAI.
        maximum_tai_nanoseconds: i128,
    },
    /// A lunar-eclipse model assigned the wrong physical body to one spherical figure.
    InvalidLunarEclipseFigure {
        /// Stable role name in the eclipse geometry.
        role: &'static str,
        /// Required physical body.
        expected: CelestialBody,
        /// Body carried by the rejected figure.
        actual: CelestialBody,
    },
    /// A global lunar-eclipse contact remained inside its shadow boundary for eight hours.
    LunarEclipseContactNotBracketed {
        /// Stable contact description.
        contact: &'static str,
        /// Greatest-eclipse instant as TAI nanoseconds since 1900-01-01 TAI.
        maximum_tai_nanoseconds: i128,
    },
    /// Fixed-site visibility was requested with a different ephemeris than the global eclipse.
    LunarEclipseVisibilityEphemerisMismatch,
    /// Fixed-site visibility combined a site and global eclipse using different Earth ellipsoids.
    LunarEclipseVisibilityEarthMismatch,
    /// A central shadow-axis limit remained on the ellipsoid for twelve hours from maximum.
    GlobalSolarEclipsePathLimitNotBracketed {
        /// Stable identity of the missing path limit.
        limit: &'static str,
        /// Greatest-eclipse instant as TAI nanoseconds since 1900-01-01 TAI.
        maximum_tai_nanoseconds: i128,
    },
    /// An eclipse record's contacts were missing or superfluous for its kind, mislabelled,
    /// or out of chronological order.
    InconsistentEclipseContacts {
        /// Stable description of the rejected record.
        eclipse: &'static str,
    },
    /// A central-path calculation requested a surface radius where the axis missed Earth.
    ShadowAxisDoesNotIntersectEarth {
        /// Failed epoch as TAI nanoseconds since 1900-01-01 TAI.
        epoch_tai_nanoseconds: i128,
    },
    /// A Besselian limb model omitted its stable provenance identifier.
    EmptyBesselianLimbModelIdentifier,
    /// A Besselian limb model omitted its source citation.
    EmptyBesselianLimbModelSource,
    /// A Besselian polynomial was evaluated outside its closed validity interval.
    BesselianPolynomialOutsideValidity {
        /// Rejected epoch as TAI nanoseconds since 1900-01-01 TAI.
        epoch_tai_nanoseconds: i128,
        /// Inclusive validity start in the same representation.
        start_tai_nanoseconds: i128,
        /// Inclusive validity end in the same representation.
        end_tai_nanoseconds: i128,
    },
    /// Geographic circumstances were requested for a non-central solar eclipse.
    SolarEclipseHasNoCentralPath,
    /// A geographic path combined different reference ellipsoids.
    BesselianPathEarthMismatch,
    /// A geographic path combined different ephemeris provenance.
    BesselianPathEphemerisMismatch,
    /// Delta T was resolved at an epoch other than the polynomial reference epoch.
    BesselianPathDeltaTEpochMismatch {
        /// Polynomial reference epoch as TAI nanoseconds since 1900-01-01 TAI.
        expected_tai_nanoseconds: i128,
        /// Delta T epoch in the same representation.
        actual_tai_nanoseconds: i128,
    },
    /// A six-hour polynomial did not cover the complete central-path interval.
    BesselianPathValidityTooShort {
        /// Polynomial validity start as TAI nanoseconds since 1900-01-01 TAI.
        validity_start_tai_nanoseconds: i128,
        /// Polynomial validity end in the same representation.
        validity_end_tai_nanoseconds: i128,
        /// Central-path start in the same representation.
        path_start_tai_nanoseconds: i128,
        /// Central-path end in the same representation.
        path_end_tai_nanoseconds: i128,
    },
    /// The northern and southern path-envelope roots could not both be isolated.
    BesselianPathLimitsUnavailable {
        /// Failed epoch as TAI nanoseconds since 1900-01-01 TAI.
        epoch_tai_nanoseconds: i128,
        /// Number of distinct roots found around the shadow cone.
        found: usize,
    },
    /// Second or third contact could not be bracketed inside polynomial validity.
    BesselianCentralContactNotBracketed {
        /// `"C2"` or `"C3"`.
        contact: &'static str,
        /// Centre-line epoch as TAI nanoseconds since 1900-01-01 TAI.
        epoch_tai_nanoseconds: i128,
    },
    /// Ellipsoidal inverse-geodesic iteration failed for one path cross-section.
    BesselianPathWidthDidNotConverge {
        /// Failed epoch as TAI nanoseconds since 1900-01-01 TAI.
        epoch_tai_nanoseconds: i128,
    },
    /// A geographic path sampling cadence was outside the supported range.
    InvalidBesselianPathSampleStep {
        /// Rejected exact duration.
        nanoseconds: i128,
        /// Inclusive minimum accepted duration.
        minimum_nanoseconds: i128,
        /// Inclusive maximum accepted duration.
        maximum_nanoseconds: i128,
    },
}

impl From<crate::time::Error> for Error {
    fn from(error: crate::time::Error) -> (e: Self) {
        Error::Time(error)
    }
}

impl vstd::std_specs::convert::FromSpecImpl<crate::time::Error> for Error {
    open spec fn obeys_from_spec() -> bool {
        true
    }

    open spec fn from_spec(v: crate::time::Error) -> Self {
        Error::Time(v)
    }
}

} // verus!
