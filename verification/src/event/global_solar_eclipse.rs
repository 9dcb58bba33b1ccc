use vstd::prelude::*;

use crate::frame::EquatorialDirectionAt;
use crate::time::{Duration, Instant, TimeScale, NANOSECONDS_PER_SECOND};

use super::Error;

verus! {

/// Method used to derive one set of Besselian-element rates.
#[derive(Debug, Clone, Copy, PartialEq, Eq, Hash)]
#[non_exhaustive]
pub enum BesselianDerivativeMethod {
    /// Symmetric numerical difference with the stated half-step.
    SymmetricDifference {
        /// Time from the centre sample to either side sample.
        half_step: Duration,
    },
    /// Exact derivative of a retained Besselian polynomial.
    AnalyticPolynomial,
}

impl BesselianDerivativeMethod {
    /// Returns the symmetric numerical half-step, or `None` for analytic polynomial derivatives.
    pub fn numerical_time_step(self) -> (d: Option<Duration>)
        ensures
            d == (match self {
                BesselianDerivativeMethod::SymmetricDifference { half_step } => Some(half_step),
                BesselianDerivativeMethod::AnalyticPolynomial => None,
            }),
    {
        match self {
            BesselianDerivativeMethod::SymmetricDifference { half_step } => Some(half_step),
            BesselianDerivativeMethod::AnalyticPolynomial => None,
        }
    }
}

/// Global solar-eclipse classification by the shadow that reaches Earth.
#[derive(Debug, Clone, Copy, PartialEq, Eq, Hash)]
#[non_exhaustive]
pub enum GlobalSolarEclipseKind {
    /// Only the lunar penumbra reaches Earth.
    Partial,
    /// The antumbra reaches Earth throughout the central path.
    Annular,
    /// The umbra reaches Earth throughout the central path.
    Total,
    /// Both antumbra and umbra reach different portions of the central path.
    Hybrid,
}

/// Annular or total character at one point on a central eclipse path.
#[derive(Debug, Clone, Copy, PartialEq, Eq, Hash, Structural)]
#[non_exhaustive]
pub enum CentralSolarEclipseCharacter {
    /// The shadow section is antumbral and produces an annular eclipse.
    Annular,
    /// The shadow section is umbral and produces a total eclipse.
    Total,
}

impl CentralSolarEclipseCharacter {
    /// The character of a shadow section: total where it is umbral, otherwise annular.
    pub fn from_umbral(umbral: bool) -> (c: Self)
        ensures
            c == (if umbral { CentralSolarEclipseCharacter::Total } else { CentralSolarEclipseCharacter::Annular }),
    {
        if umbral {
            CentralSolarEclipseCharacter::Total
        } else {
            CentralSolarEclipseCharacter::Annular
        }
    }
}

/// Identity of one endpoint of the interval in which the shadow axis intersects Earth.
#[derive(Debug, Clone, Copy, PartialEq, Eq, Hash, Structural)]
#[non_exhaustive]
pub enum CentralSolarEclipsePathLimitKind {
    /// First instant at which the shadow axis touches the reference ellipsoid.
    Start,
    /// Last instant at which the shadow axis touches the reference ellipsoid.
    End,
}

/// The global classification of one eclipse.
///
/// `central_path` describes the shadow-axis path across Earth when there is one:
/// the character at greatest eclipse and whether the character changes along the
/// path. Without a path, the umbra reaching Earth makes the eclipse total, else the
/// antumbra reaching Earth makes it annular, else it is partial.
pub open spec fn global_kind_spec(
    central_path: Option<(CentralSolarEclipseCharacter, bool)>,
    umbra_intersects_earth: bool,
    antumbra_intersects_earth: bool,
) -> GlobalSolarEclipseKind {
    match central_path {
        Some((greatest, has_transitions)) => if has_transitions {
            GlobalSolarEclipseKind::Hybrid
        } else {
            match greatest {
                CentralSolarEclipseCharacter::Annular => GlobalSolarEclipseKind::Annular,
                CentralSolarEclipseCharacter::Total => GlobalSolarEclipseKind::Total,
            }
        },
        None => if umbra_intersects_earth {
            GlobalSolarEclipseKind::Total
        } else if antumbra_intersects_earth {
            GlobalSolarEclipseKind::Annular
        } else {
            GlobalSolarEclipseKind::Partial
        },
    }
}

/// Classifies a global solar eclipse from its central path and maximum-eclipse shadow contacts.
pub fn classify_global_solar_eclipse(
    central_path: Option<(CentralSolarEclipseCharacter, bool)>,
    umbra_intersects_earth: bool,
    antumbra_intersects_earth: bool,
) -> (k: GlobalSolarEclipseKind)
    ensures
        k == global_kind_spec(central_path, umbra_intersects_earth, antumbra_intersects_earth),
{
    match central_path {
        Some((greatest, has_transitions)) => {
            if has_transitions {
                GlobalSolarEclipseKind::Hybrid
            } else {
                match greatest {
                    CentralSolarEclipseCharacter::Annular => GlobalSolarEclipseKind::Annular,
                    CentralSolarEclipseCharacter::Total => GlobalSolarEclipseKind::Total,
                }
            }
        },
        None => {
            if umbra_intersects_earth {
                GlobalSolarEclipseKind::Total
            } else if antumbra_intersects_earth {
                GlobalSolarEclipseKind::Annular
            } else {
                GlobalSolarEclipseKind::Partial
            }
        },
    }
}

/// Whether a classified eclipse is central in kind but its shadow axis misses Earth.
pub fn is_non_central(kind: GlobalSolarEclipseKind, has_central_path: bool) -> (b: bool)
    ensures
        b == (kind != GlobalSolarEclipseKind::Partial && !has_central_path),
{
    !matches!(kind, GlobalSolarEclipseKind::Partial) && !has_central_path
}

/// Fundamental plane through Earth's centre and normal to the lunar shadow axis.
///
/// The retained shadow-axis direction is point `Z`, directed from the Moon towards
/// the Sun on true-of-date equatorial axes `F`; its right ascension `R` and
/// declination `D` are carried unchanged.
#[derive(Debug)]
pub struct BesselianFundamentalPlane<F, S: TimeScale, R, D> {
    shadow_axis: EquatorialDirectionAt<F, S, R, D>,
}

impl<F, S: TimeScale, R: Copy, D: Copy> Clone for BesselianFundamentalPlane<F, S, R, D> {
    fn clone(&self) -> (r: Self)
        ensures
            r == *self,
    {
        *self
    }
}

impl<F, S: TimeScale, R: Copy, D: Copy> Copy for BesselianFundamentalPlane<F, S, R, D> {}

impl<F, S: TimeScale, R: Copy, D: Copy> BesselianFundamentalPlane<F, S, R, D> {
    /// Point `Z`, the Moon-to-Sun shadow-axis direction.
    pub closed spec fn shadow_axis_spec(self) -> EquatorialDirectionAt<F, S, R, D> {
        self.shadow_axis
    }

    /// Constructs the plane normal to a shadow-axis direction.
    pub fn new(shadow_axis: EquatorialDirectionAt<F, S, R, D>) -> (p: Self)
        ensures
            p.shadow_axis_spec() == shadow_axis,
    {
        BesselianFundamentalPlane { shadow_axis }
    }

    /// Returns the physical epoch of the plane.
    pub fn epoch(self) -> (t: Instant<S>)
        ensures
            t == self.shadow_axis_spec().epoch_spec(),
    {
        self.shadow_axis.epoch()
    }

    /// Returns point `Z`, the Moon-to-Sun shadow-axis direction.
    pub fn shadow_axis(self) -> (z: EquatorialDirectionAt<F, S, R, D>)
        ensures
            z == self.shadow_axis_spec(),
    {
        self.shadow_axis
    }
}

/// Instantaneous Besselian-element controls: one limb convention `M` and
/// reception light-time controls `L`, both carried unchanged.
#[derive(Debug, Clone, Copy, PartialEq)]
pub struct BesselianElementsOptions<M, L> {
    limb_model: M,
    light_time: L,
}

impl<M: Copy, L: Copy> BesselianElementsOptions<M, L> {
    /// The selected limb convention.
    pub closed spec fn limb_model_spec(self) -> M {
        self.limb_model
    }

    /// The reception light-time controls.
    pub closed spec fn light_time_spec(self) -> L {
        self.light_time
    }

    /// Combines one explicit limb convention with reception light-time controls.
    pub fn new(limb_model: M, light_time: L) -> (o: Self)
        ensures
            o.limb_model_spec() == limb_model,
            o.light_time_spec() == light_time,
    {
        BesselianElementsOptions { limb_model, light_time }
    }

    /// Returns the selected Besselian limb convention.
    pub fn limb_model(self) -> (m: M)
        ensures
            m == self.limb_model_spec(),
    {
        self.limb_model
    }

    /// Returns the reception light-time controls.
    pub fn light_time(self) -> (l: L)
        ensures
            l == self.light_time_spec(),
    {
        self.light_time
    }
}

/// Six hours in nanoseconds: the largest validity half-span of a Besselian polynomial.
pub open spec fn spec_besselian_maximum_half_span() -> int {
    21_600_000_000_000int
}

/// Fit controls for a short-lived Besselian-element polynomial: the sampled
/// element controls `E`, carried unchanged, and half the validity interval.
#[derive(Debug, Copy, PartialEq)]
pub struct BesselianPolynomialOptions<E> {
    elements: E,
    validity_half_span: Duration,
}

impl<E: Copy> Clone for BesselianPolynomialOptions<E> {
    fn clone(&self) -> (r: Self)
        ensures
            r == *self,
    {
        *self
    }
}

impl<E> BesselianPolynomialOptions<E> {
    /// The half-span lies in `(0, 6 h]`.
    #[verifier::type_invariant]
    closed spec fn within_limits(self) -> bool {
        0 < self.validity_half_span@ <= spec_besselian_maximum_half_span()
    }
}

impl<E: Copy> BesselianPolynomialOptions<E> {
    /// The instantaneous-element controls sampled by the fit.
    pub closed spec fn elements_spec(self) -> E {
        self.elements
    }

    /// Half the closed validity interval.
    pub closed spec fn validity_half_span_spec(self) -> Duration {
        self.validity_half_span
    }

    /// Constructs validated fit controls; the half-span must lie in `(0, 6 h]`.
    pub fn new(elements: E, validity_half_span: Duration) -> (r: Result<Self, Error>)
        ensures
            r is Ok <==> 0 < validity_half_span@ <= spec_besselian_maximum_half_span(),
            r matches Ok(o) ==> o.elements_spec() == elements && o.validity_half_span_spec() == validity_half_span,
            r matches Err(e) ==> e == (Error::InvalidSearchDuration {
                field: "Besselian polynomial validity half-span",
                nanoseconds: validity_half_span@ as i128,
                maximum_nanoseconds: spec_besselian_maximum_half_span() as i128,
            }),
    {
        let span = validity_half_span.as_nanoseconds();
        let maximum = 6 * 3_600 * NANOSECONDS_PER_SECOND;
        if span <= 0 || span > maximum {
            return Err(Error::InvalidSearchDuration {
                field: "Besselian polynomial validity half-span",
                nanoseconds: span,
                maximum_nanoseconds: maximum,
            });
        }
        Ok(BesselianPolynomialOptions { elements, validity_half_span })
    }

    /// A six-hour validity window (three-hour half-span) around the supplied
    /// NASA Five Millennium Canon element controls.
    pub fn nasa_six_hour(elements: E) -> (o: Self)
        ensures
            o.elements_spec() == elements,
            o.validity_half_span_spec()@ == 3 * 3_600 * 1_000_000_000int,
    {
        BesselianPolynomialOptions { elements, validity_half_span: Duration::from_nanoseconds(3 * 3_600 * NANOSECONDS_PER_SECOND) }
    }

    /// A six-hour validity window (three-hour half-span) around the supplied
    /// physical element controls.
    pub fn physical_six_hour(elements: E) -> (o: Self)
        ensures
            o.elements_spec() == elements,
            o.validity_half_span_spec()@ == 3 * 3_600 * 1_000_000_000int,
    {
        BesselianPolynomialOptions { elements, validity_half_span: Duration::from_nanoseconds(3 * 3_600 * NANOSECONDS_PER_SECOND) }
    }

    /// Returns the instantaneous-element controls sampled by the fit.
    pub fn elements(self) -> (e: E)
        ensures
            e == self.elements_spec(),
    {
        self.elements
    }

    /// Returns half the closed validity interval.
    pub fn validity_half_span(self) -> (d: Duration)
        ensures
            d == self.validity_half_span_spec(),
            0 < d@ <= spec_besselian_maximum_half_span(),
    {
        proof { use_type_invariant(self); }
        self.validity_half_span
    }
}

} // verus!
