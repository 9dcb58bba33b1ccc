use vstd::prelude::*;

use crate::ephem::{CelestialBody, SphericalBodyFigure};
use crate::time::{fits_i128, Duration, Instant, TimeInterval, TimeScale};

use super::sorting::{ranked_key, sort_by_key, sorted_by, stable_under};
use super::{AngularEventSearchOptions, Error, HorizonEvent, HorizonEventKind};

verus! {

/// Global lunar-eclipse classification at greatest eclipse.
#[derive(Debug, Clone, Copy, PartialEq, Eq, Hash, Structural)]
#[non_exhaustive]
pub enum LunarEclipseKind {
    /// The Moon enters only Earth's penumbra.
    Penumbral,
    /// Part, but not all, of the Moon enters Earth's umbra.
    Partial,
    /// The complete lunar disk enters Earth's umbra.
    Total,
}

impl LunarEclipseKind {
    /// Nesting rank of the phase: penumbral 0, partial 1, total 2.
    pub open spec fn spec_rank(self) -> u8 {
        match self {
            LunarEclipseKind::Penumbral => 0,
            LunarEclipseKind::Partial => 1,
            LunarEclipseKind::Total => 2,
        }
    }

    /// Returns the nesting rank of the phase: penumbral 0, partial 1, total 2.
    pub fn rank(self) -> (r: u8)
        ensures
            r == self.spec_rank(),
            r < 3,
    {
        match self {
            LunarEclipseKind::Penumbral => 0,
            LunarEclipseKind::Partial => 1,
            LunarEclipseKind::Total => 2,
        }
    }
}

/// The global lunar-eclipse kind at greatest eclipse, or `None` without an eclipse.
///
/// `reaches_penumbra` states that the Moon touches Earth's penumbra,
/// `reaches_umbra` that it touches the umbra, and `wholly_immersed` that its
/// disk lies entirely inside the umbra; each is judged within the angular tolerance.
pub fn classify_lunar_eclipse(reaches_penumbra: bool, reaches_umbra: bool, wholly_immersed: bool) -> (k: Option<LunarEclipseKind>)
    ensures
        k == (if !reaches_penumbra {
            None
        } else if !reaches_umbra {
            Some(LunarEclipseKind::Penumbral)
        } else if !wholly_immersed {
            Some(LunarEclipseKind::Partial)
        } else {
            Some(LunarEclipseKind::Total)
        }),
{
    if !reaches_penumbra {
        None
    } else if !reaches_umbra {
        Some(LunarEclipseKind::Penumbral)
    } else if !wholly_immersed {
        Some(LunarEclipseKind::Partial)
    } else {
        Some(LunarEclipseKind::Total)
    }
}

/// Identity of one global lunar-eclipse contact.
#[derive(Debug, Clone, Copy, PartialEq, Eq, Hash, Structural)]
#[non_exhaustive]
pub enum LunarEclipseContactKind {
    /// P1: exterior ingress into the penumbra.
    PenumbralIngress,
    /// U1: exterior ingress into the umbra.
    UmbralIngress,
    /// U2: interior ingress marking the start of totality.
    TotalityIngress,
    /// U3: interior egress marking the end of totality.
    TotalityEgress,
    /// U4: exterior egress from the umbra.
    UmbralEgress,
    /// P4: exterior egress from the penumbra.
    PenumbralEgress,
}

impl LunarEclipseContactKind {
    /// Returns the stable description used in contact-bracketing errors.
    pub fn description(self) -> (d: &'static str)
        ensures
            d@ == (match self {
                LunarEclipseContactKind::PenumbralIngress => "lunar-eclipse P1 contact"@,
                LunarEclipseContactKind::UmbralIngress => "lunar-eclipse U1 contact"@,
                LunarEclipseContactKind::TotalityIngress => "lunar-eclipse U2 contact"@,
                LunarEclipseContactKind::TotalityEgress => "lunar-eclipse U3 contact"@,
                LunarEclipseContactKind::UmbralEgress => "lunar-eclipse U4 contact"@,
                LunarEclipseContactKind::PenumbralEgress => "lunar-eclipse P4 contact"@,
            }),
    {
        match self {
            LunarEclipseContactKind::PenumbralIngress => "lunar-eclipse P1 contact",
            LunarEclipseContactKind::UmbralIngress => "lunar-eclipse U1 contact",
            LunarEclipseContactKind::TotalityIngress => "lunar-eclipse U2 contact",
            LunarEclipseContactKind::TotalityEgress => "lunar-eclipse U3 contact",
            LunarEclipseContactKind::UmbralEgress => "lunar-eclipse U4 contact",
            LunarEclipseContactKind::PenumbralEgress => "lunar-eclipse P4 contact",
        }
    }
}

/// A documented convention for enlarging Earth's geometric lunar-eclipse shadows.
///
/// The two scale factors keep apart changing Earth's effective parallax and scaling the
/// completed umbral and penumbral radii; the Danjon and Chauvenet conventions are not
/// algebraically equivalent. Each factor is held exactly, in millionths.
#[derive(Debug, Clone, Copy, PartialEq, Eq, Hash)]
pub struct LunarShadowConvention {
    identifier: &'static str,
    earth_parallax_scale_millionths: u32,
    shadow_radius_scale_millionths: u32,
}

impl LunarShadowConvention {
    /// The stable model identifier.
    pub closed spec fn identifier_spec(self) -> Seq<char> {
        self.identifier@
    }

    /// The multiplier applied to equatorial lunar horizontal parallax, in millionths.
    pub closed spec fn earth_parallax_scale_spec(self) -> u32 {
        self.earth_parallax_scale_millionths
    }

    /// The multiplier applied after forming each shadow radius, in millionths.
    pub closed spec fn shadow_radius_scale_spec(self) -> u32 {
        self.shadow_radius_scale_millionths
    }

    /// Pure spherical geometry with no empirical atmospheric enlargement.
    pub fn geometric() -> (c: Self)
        ensures
            c.identifier_spec() == "geometric spherical Earth shadow"@,
            c.earth_parallax_scale_spec() == 1_000_000,
            c.shadow_radius_scale_spec() == 1_000_000,
    {
        LunarShadowConvention {
            identifier: "geometric spherical Earth shadow",
            earth_parallax_scale_millionths: 1_000_000,
            shadow_radius_scale_millionths: 1_000_000,
        }
    }

    /// Danjon's conventional effective-Earth correction used by the NASA Five Millennium catalog.
    ///
    /// The factor 1.01 combines the conventional atmospheric enlargement with a mean
    /// oblateness correction; the completed shadow radii are not scaled a second time.
    pub fn danjon() -> (c: Self)
        ensures
            c.identifier_spec() == "Danjon 1.01 effective Earth parallax"@,
            c.earth_parallax_scale_spec() == 1_010_000,
            c.shadow_radius_scale_spec() == 1_000_000,
    {
        LunarShadowConvention {
            identifier: "Danjon 1.01 effective Earth parallax",
            earth_parallax_scale_millionths: 1_010_000,
            shadow_radius_scale_millionths: 1_000_000,
        }
    }

    /// Chauvenet's traditional two-percent enlargement of both completed shadow radii.
    ///
    /// The 0.998340 factor first converts equatorial lunar parallax to the conventional mean
    /// Earth radius at latitude 45 degrees, then both radii are multiplied by 1.02.
    pub fn chauvenet() -> (c: Self)
        ensures
            c.identifier_spec() == "Chauvenet 0.998340 parallax and 1.02 shadow scale"@,
            c.earth_parallax_scale_spec() == 998_340,
            c.shadow_radius_scale_spec() == 1_020_000,
    {
        LunarShadowConvention {
            identifier: "Chauvenet 0.998340 parallax and 1.02 shadow scale",
            earth_parallax_scale_millionths: 998_340,
            shadow_radius_scale_millionths: 1_020_000,
        }
    }

    /// Returns the stable model identifier.
    pub fn identifier(self) -> (s: &'static str)
        ensures
            s@ == self.identifier_spec(),
    {
        self.identifier
    }

    /// Returns the multiplier applied to equatorial lunar horizontal parallax, in millionths.
    pub fn earth_parallax_scale_millionths(self) -> (n: u32)
        ensures
            n == self.earth_parallax_scale_spec(),
    {
        self.earth_parallax_scale_millionths
    }

    /// Returns the multiplier applied after forming each shadow radius, in millionths.
    pub fn shadow_radius_scale_millionths(self) -> (n: u32)
        ensures
            n == self.shadow_radius_scale_spec(),
    {
        self.shadow_radius_scale_millionths
    }
}

/// Identified spherical Sun and Moon figures and one explicit terrestrial-shadow convention.
#[derive(Debug, Copy, PartialEq)]
pub struct LunarEclipseModel {
    sun: SphericalBodyFigure,
    moon: SphericalBodyFigure,
    shadow: LunarShadowConvention,
}

impl Clone for LunarEclipseModel {
    fn clone(&self) -> (r: Self)
        ensures
            r == *self,
    {
        *self
    }
}

impl LunarEclipseModel {
    /// The solar figure represents the Sun and the lunar figure the Moon.
    #[verifier::type_invariant]
    closed spec fn identified(self) -> bool {
        self.sun.body == CelestialBody::Sun && self.moon.body == CelestialBody::Moon
    }

    /// The spherical solar figure.
    pub closed spec fn sun_spec(self) -> SphericalBodyFigure {
        self.sun
    }

    /// The spherical lunar figure.
    pub closed spec fn moon_spec(self) -> SphericalBodyFigure {
        self.moon
    }

    /// The terrestrial-shadow convention.
    pub closed spec fn shadow_spec(self) -> LunarShadowConvention {
        self.shadow
    }

    /// Constructs an explicitly identified lunar-eclipse geometry model.
    ///
    /// Fails when the solar figure is not the Sun's, and otherwise when the
    /// lunar figure is not the Moon's.
    pub fn new(sun: SphericalBodyFigure, moon: SphericalBodyFigure, shadow: LunarShadowConvention) -> (r: Result<Self, Error>)
        ensures
            r is Ok <==> sun.body == CelestialBody::Sun && moon.body == CelestialBody::Moon,
            r matches Ok(m) ==> m.sun_spec() == sun && m.moon_spec() == moon && m.shadow_spec() == shadow,
            sun.body != CelestialBody::Sun ==> r == Err::<Self, Error>(Error::InvalidLunarEclipseFigure {
                role: "Sun",
                expected: CelestialBody::Sun,
                actual: sun.body,
            }),
            sun.body == CelestialBody::Sun && moon.body != CelestialBody::Moon ==> r == Err::<Self, Error>(
                Error::InvalidLunarEclipseFigure { role: "Moon", expected: CelestialBody::Moon, actual: moon.body },
            ),
    {
        if sun.body != CelestialBody::Sun {
            return Err(Error::InvalidLunarEclipseFigure { role: "Sun", expected: CelestialBody::Sun, actual: sun.body });
        }
        if moon.body != CelestialBody::Moon {
            return Err(Error::InvalidLunarEclipseFigure { role: "Moon", expected: CelestialBody::Moon, actual: moon.body });
        }
        Ok(LunarEclipseModel { sun, moon, shadow })
    }

    /// Returns the IAU reference spheres and the Danjon convention used by the NASA catalog.
    pub fn standard() -> (m: Self)
        ensures
            m.sun_spec() == SphericalBodyFigure::iau_2015_nominal_sun_spec(),
            m.moon_spec() == SphericalBodyFigure::iau_wgccre_2015_moon_spec(),
            m.shadow_spec().identifier_spec() == "Danjon 1.01 effective Earth parallax"@,
            m.shadow_spec().earth_parallax_scale_spec() == 1_010_000,
            m.shadow_spec().shadow_radius_scale_spec() == 1_000_000,
    {
        LunarEclipseModel {
            sun: SphericalBodyFigure::iau_2015_nominal_sun(),
            moon: SphericalBodyFigure::iau_wgccre_2015_moon(),
            shadow: LunarShadowConvention::danjon(),
        }
    }

    /// Returns the spherical solar figure.
    pub fn sun(self) -> (f: SphericalBodyFigure)
        ensures
            f == self.sun_spec(),
            f.body == CelestialBody::Sun,
    {
        proof { use_type_invariant(self); }
        self.sun
    }

    /// Returns the spherical lunar figure.
    pub fn moon(self) -> (f: SphericalBodyFigure)
        ensures
            f == self.moon_spec(),
            f.body == CelestialBody::Moon,
    {
        proof { use_type_invariant(self); }
        self.moon
    }

    /// Returns the selected terrestrial-shadow convention.
    pub fn shadow(self) -> (c: LunarShadowConvention)
        ensures
            c == self.shadow_spec(),
    {
        self.shadow
    }
}

/// Search controls and the eclipse model `M` shared by global and local lunar eclipses.
#[derive(Debug, Copy, PartialEq)]
pub struct LunarEclipseSearchOptions<A, L, M> {
    /// Controls used for full-Moon seeding and numerical refinement.
    pub angular_search: AngularEventSearchOptions<A, L>,
    /// Physical figures and terrestrial-shadow convention.
    pub model: M,
}

impl<A: Copy, L: Copy, M: Copy> Clone for LunarEclipseSearchOptions<A, L, M> {
    fn clone(&self) -> (r: Self)
        ensures
            r == *self,
    {
        *self
    }
}

impl<A: Copy, L: Copy, M: Copy> LunarEclipseSearchOptions<A, L, M> {
    /// Combines validated angular-event controls with an explicit eclipse model.
    pub fn new(angular_search: AngularEventSearchOptions<A, L>, model: M) -> (o: Self)
        ensures
            o == (LunarEclipseSearchOptions { angular_search, model }),
    {
        LunarEclipseSearchOptions { angular_search, model }
    }

    /// Returns standard angular-event controls around the supplied standard eclipse model.
    ///
    /// The standard angular tolerance, light-time controls and model are supplied.
    pub fn standard(angular_tolerance: A, light_time: L, model: M) -> (o: Self)
        ensures
            o.angular_search == AngularEventSearchOptions::standard_spec(angular_tolerance, light_time),
            o.model == model,
    {
        LunarEclipseSearchOptions::new(AngularEventSearchOptions::standard(angular_tolerance, light_time), model)
    }

    /// Returns the controls used for full-Moon seeding and numerical refinement.
    pub fn angular_search(self) -> (o: AngularEventSearchOptions<A, L>)
        ensures
            o == self.angular_search,
    {
        self.angular_search
    }

    /// Returns the physical figures and shadow convention.
    pub fn model(self) -> (m: M)
        ensures
            m == self.model,
    {
        self.model
    }
}

/// One named global lunar-eclipse phase and its complete closed interval.
#[derive(Debug, Copy, PartialEq)]
pub struct LunarEclipsePhaseInterval<S: TimeScale> {
    /// Penumbral, partial, or total phase identity.
    pub kind: LunarEclipseKind,
    /// Closed phase interval.
    pub interval: TimeInterval<S>,
}

impl<S: TimeScale> Clone for LunarEclipsePhaseInterval<S> {
    fn clone(&self) -> (r: Self)
        ensures
            r == *self,
    {
        *self
    }
}

impl<S: TimeScale> LunarEclipsePhaseInterval<S> {
    /// Names one phase interval.
    pub fn new(kind: LunarEclipseKind, interval: TimeInterval<S>) -> (p: Self)
        ensures
            p == (LunarEclipsePhaseInterval { kind, interval }),
    {
        LunarEclipsePhaseInterval { kind, interval }
    }

    /// Returns the penumbral, partial, or total phase identity.
    pub fn kind(self) -> (k: LunarEclipseKind)
        ensures
            k == self.kind,
    {
        self.kind
    }

    /// Returns the closed phase interval.
    pub fn interval(self) -> (i: TimeInterval<S>)
        ensures
            i == self.interval,
    {
        self.interval
    }

    /// The phase between an ingress and an egress contact.
    ///
    /// Fails when the egress precedes the ingress.
    pub fn from_contacts(kind: LunarEclipseKind, ingress: Instant<S>, egress: Instant<S>) -> (r: Result<Self, Error>)
        ensures
            r is Ok <==> ingress@ <= egress@,
            r matches Ok(p) ==> p.kind == kind && p.interval.start_spec() == ingress && p.interval.end_spec() == egress,
            r matches Err(e) ==> e == Error::Time(crate::time::Error::InvertedInterval {
                start_tai_nanoseconds: ingress@ as i128,
                end_tai_nanoseconds: egress@ as i128,
            }),
    {
        match TimeInterval::new(ingress, egress) {
            Ok(interval) => Ok(LunarEclipsePhaseInterval { kind, interval }),
            Err(e) => Err(Error::from(e)),
        }
    }

    /// The phase between an ingress and an egress contact when the eclipse reaches both.
    ///
    /// Returns `None` when either contact is missing, and fails when the
    /// egress precedes the ingress.
    pub fn from_optional_contacts(
        kind: LunarEclipseKind,
        ingress: Option<Instant<S>>,
        egress: Option<Instant<S>>,
    ) -> (r: Result<Option<Self>, Error>)
        ensures
            (ingress is None || egress is None) ==> r == Ok::<Option<Self>, Error>(None),
            ingress matches Some(a) ==> (egress matches Some(b) ==> {
                &&& (r is Ok <==> a@ <= b@)
                &&& (r matches Ok(Some(p)) ==> p.kind == kind && p.interval.start_spec() == a && p.interval.end_spec() == b)
                &&& (r matches Ok(o) ==> o is Some)
                &&& (r matches Err(e) ==> e == Error::Time(crate::time::Error::InvertedInterval {
                    start_tai_nanoseconds: a@ as i128,
                    end_tai_nanoseconds: b@ as i128,
                }))
            }),
    {
        match (ingress, egress) {
            (Some(a), Some(b)) => match Self::from_contacts(kind, a, b) {
                Ok(p) => Ok(Some(p)),
                Err(e) => Err(e),
            },
            _ => Ok(None),
        }
    }

    /// Returns the exact phase duration.
    pub fn duration(self) -> (r: Result<Duration, crate::time::Error>)
        ensures
            r is Ok <==> fits_i128(self.interval.end_spec()@ - self.interval.start_spec()@),
            r matches Ok(d) ==> d@ == self.interval.end_spec()@ - self.interval.start_spec()@,
            r matches Err(e) ==> e == (crate::time::Error::Overflow { operation: "differencing instants" }),
    {
        self.interval.end().duration_since(self.interval.start())
    }
}

/// Observer controls for reducing a global lunar eclipse to one fixed site.
///
/// The horizon criterion `K`, low-altitude threshold `A`, and rise/set search
/// controls `H` are carried unchanged.
#[derive(Debug, Clone, Copy, PartialEq)]
pub struct LunarEclipseVisibilityOptions<K, A, H> {
    /// Altitude, coordinate stage, and disk point defining visibility.
    pub horizon: K,
    /// Centre-altitude threshold below which samples carry a low-altitude warning.
    pub low_altitude_threshold: A,
    /// Rise/set scanning and refinement controls.
    pub horizon_search: H,
}

impl<K: Copy, A: Copy, H: Copy> LunarEclipseVisibilityOptions<K, A, H> {
    /// Constructs explicit visibility, low-altitude, and rise/set controls.
    pub fn new(horizon: K, low_altitude_threshold: A, horizon_search: H) -> (o: Self)
        ensures
            o == (LunarEclipseVisibilityOptions { horizon, low_altitude_threshold, horizon_search }),
    {
        LunarEclipseVisibilityOptions { horizon, low_altitude_threshold, horizon_search }
    }

    /// Returns the altitude, coordinate stage, and disk point defining visibility.
    pub fn horizon(self) -> (k: K)
        ensures
            k == self.horizon,
    {
        self.horizon
    }

    /// Returns the centre-altitude threshold below which samples carry a low-altitude warning.
    pub fn low_altitude_threshold(self) -> (a: A)
        ensures
            a == self.low_altitude_threshold,
    {
        self.low_altitude_threshold
    }

    /// Returns the rise/set scanning and refinement controls.
    pub fn horizon_search(self) -> (h: H)
        ensures
            h == self.horizon_search,
    {
        self.horizon_search
    }
}

/// Named global circumstance sampled for one terrestrial observer.
#[derive(Debug, Clone, Copy, PartialEq, Eq, Hash, Structural)]
#[non_exhaustive]
pub enum LunarEclipseVisibilityStage {
    /// P1.
    PenumbralIngress,
    /// U1.
    UmbralIngress,
    /// U2.
    TotalityIngress,
    /// Greatest eclipse.
    Greatest,
    /// U3.
    TotalityEgress,
    /// U4.
    UmbralEgress,
    /// P4.
    PenumbralEgress,
}

/// Natural-sky background inferred from topocentric vacuum solar-centre altitude.
#[derive(Debug, Clone, Copy, PartialEq, Eq, Hash, Structural)]
#[non_exhaustive]
pub enum LunarEclipseSkyBackground {
    /// The solar centre is at or above the astronomical horizon.
    Daylight,
    /// The solar centre is between 0 and −6 degrees.
    CivilTwilight,
    /// The solar centre is between −6 and −12 degrees.
    NauticalTwilight,
    /// The solar centre is between −12 and −18 degrees.
    AstronomicalTwilight,
    /// The solar centre is below −18 degrees.
    Night,
}

/// One fixed-site Moon observation at an eclipse contact or greatest eclipse.
///
/// The vacuum place `V`, optional refracted place `O`, and solar altitude `A`
/// are carried unchanged.
#[derive(Debug, Clone, Copy, PartialEq)]
pub struct LocalLunarEclipseSample<S: TimeScale, V, O, A> {
    /// Sampled eclipse circumstance.
    pub stage: LunarEclipseVisibilityStage,
    /// Sample instant (the reception epoch of `vacuum`).
    pub instant: Instant<S>,
    /// Topocentric vacuum Moon place.
    pub vacuum: V,
    /// Refracted Moon place when the horizon criterion requested one.
    pub observed: Option<O>,
    /// Topocentric vacuum solar-centre altitude.
    pub solar_altitude: A,
    /// Daylight, twilight, or night background classification.
    pub sky_background: LunarEclipseSkyBackground,
    /// Whether the selected centre or limb is above the horizon criterion.
    pub above_horizon: bool,
    /// Whether the visible sample's centre altitude is at or below the warning threshold.
    pub low_altitude: bool,
}

impl<S: TimeScale, V: Copy, O: Copy, A: Copy> LocalLunarEclipseSample<S, V, O, A> {
    /// Returns the sampled eclipse circumstance.
    pub fn stage(self) -> (s: LunarEclipseVisibilityStage)
        ensures
            s == self.stage,
    {
        self.stage
    }

    /// Returns the sample instant.
    pub fn instant(self) -> (t: Instant<S>)
        ensures
            t == self.instant,
    {
        self.instant
    }

    /// Returns the topocentric vacuum Moon place.
    pub fn vacuum_place(self) -> (v: V)
        ensures
            v == self.vacuum,
    {
        self.vacuum
    }

    /// Returns the refracted Moon place when the selected horizon criterion requested one.
    pub fn observed_place(self) -> (o: Option<O>)
        ensures
            o == self.observed,
    {
        self.observed
    }

    /// Returns the topocentric vacuum solar-centre altitude at this lunar circumstance.
    pub fn solar_altitude(self) -> (a: A)
        ensures
            a == self.solar_altitude,
    {
        self.solar_altitude
    }

    /// Returns the daylight, twilight, or night background classification.
    pub fn sky_background(self) -> (b: LunarEclipseSkyBackground)
        ensures
            b == self.sky_background,
    {
        self.sky_background
    }

    /// Returns whether the selected centre or limb is above the selected horizon criterion.
    pub fn is_above_horizon(self) -> (b: bool)
        ensures
            b == self.above_horizon,
    {
        self.above_horizon
    }

    /// Returns whether a visible sample's centre altitude is at or below the warning threshold.
    pub fn is_low_altitude(self) -> (b: bool)
        ensures
            b == self.low_altitude,
    {
        self.low_altitude
    }
}

/// A visible portion of one nested penumbral, partial, or total eclipse phase.
#[derive(Debug, Copy, PartialEq)]
pub struct VisibleLunarEclipsePhase<S: TimeScale> {
    /// Penumbral, partial, or total phase identity.
    pub kind: LunarEclipseKind,
    /// Above-horizon intersection with the global phase.
    pub interval: TimeInterval<S>,
    /// Whether moonrise or the eclipse interval clipped the global phase start.
    pub truncated_at_start: bool,
    /// Whether moonset or the eclipse interval clipped the global phase end.
    pub truncated_at_end: bool,
}

impl<S: TimeScale> Clone for VisibleLunarEclipsePhase<S> {
    fn clone(&self) -> (r: Self)
        ensures
            r == *self,
    {
        *self
    }
}

impl<S: TimeScale> VisibleLunarEclipsePhase<S> {
    /// Returns the penumbral, partial, or total phase identity.
    pub fn kind(self) -> (k: LunarEclipseKind)
        ensures
            k == self.kind,
    {
        self.kind
    }

    /// Returns the above-horizon intersection with the global phase.
    pub fn interval(self) -> (i: TimeInterval<S>)
        ensures
            i == self.interval,
    {
        self.interval
    }

    /// Returns whether moonrise or the requested eclipse interval clipped the global phase start.
    pub fn is_truncated_at_start(self) -> (b: bool)
        ensures
            b == self.truncated_at_start,
    {
        self.truncated_at_start
    }

    /// Returns whether moonset or the requested eclipse interval clipped the global phase end.
    pub fn is_truncated_at_end(self) -> (b: bool)
        ensures
            b == self.truncated_at_end,
    {
        self.truncated_at_end
    }
}

/// The bounds of an interval as exact TAI nanosecond counts.
pub open spec fn bounds<S: TimeScale>(interval: TimeInterval<S>) -> (int, int) {
    (interval.start_spec()@, interval.end_spec()@)
}

/// One step of the above-horizon scan: a rise opens a stretch unless one is
/// open, a set closes the open stretch (kept when it has positive length), and
/// other events change nothing.
pub open spec fn scan_step(
    open: Option<int>,
    done: Seq<(int, int)>,
    kind: HorizonEventKind,
    instant: int,
) -> (Option<int>, Seq<(int, int)>) {
    match kind {
        HorizonEventKind::Rise => if open is None {
            (Some(instant), done)
        } else {
            (open, done)
        },
        HorizonEventKind::Setting => match open {
            Some(start) => if start < instant {
                (None, done.push((start, instant)))
            } else {
                (None, done)
            },
            None => (None, done),
        },
        _ => (open, done),
    }
}

/// The above-horizon state after a sequence of horizon events: the start of a
/// still-open visible stretch, and the completed stretches in order.
pub open spec fn visibility_scan<S: TimeScale, V, O, R>(
    events: Seq<HorizonEvent<S, V, O, R>>,
    initial: Option<int>,
) -> (Option<int>, Seq<(int, int)>)
    decreases events.len(),
{
    if events.len() == 0 {
        (initial, Seq::empty())
    } else {
        let (open, done) = visibility_scan(events.drop_last(), initial);
        scan_step(open, done, events.last().kind, events.last().instant@)
    }
}

/// The closed stretches of an eclipse interval during which the Moon is above
/// the horizon, from its rises and sets and whether it is up at the start.
pub open spec fn above_horizon_bounds<S: TimeScale, V, O, R>(
    interval: (int, int),
    events: Seq<HorizonEvent<S, V, O, R>>,
    starts_visible: bool,
) -> Seq<(int, int)> {
    let (open, done) = visibility_scan(events, if starts_visible { Some(interval.0) } else { None });
    match open {
        Some(start) => if start < interval.1 {
            done.push((start, interval.1))
        } else {
            done
        },
        None => done,
    }
}

/// The latest instant a scan has reached: the last event's, or `lo` before any event.
pub open spec fn scan_frontier<S: TimeScale, V, O, R>(events: Seq<HorizonEvent<S, V, O, R>>, lo: int) -> int {
    if events.len() == 0 { lo } else { events.last().instant@ }
}

/// Stretches are ordered, of positive length, and lie within `[lo, hi]`.
pub open spec fn ordered_stretches(stretches: Seq<(int, int)>, lo: int, hi: int) -> bool {
    &&& forall|k: int| 0 <= k < stretches.len() ==> lo <= (#[trigger] stretches[k]).0 < stretches[k].1 <= hi
    &&& forall|k: int| 0 <= k < stretches.len() - 1 ==> (#[trigger] stretches[k]).1 <= stretches[k + 1].0
}

/// Events are in time order and none precedes `lo`.
pub open spec fn time_ordered_from<S: TimeScale, V, O, R>(events: Seq<HorizonEvent<S, V, O, R>>, lo: int) -> bool {
    &&& forall|i: int, j: int| 0 <= i <= j < events.len() ==> (#[trigger] events[i]).instant@ <= (#[trigger] events[j]).instant@
    &&& forall|i: int| 0 <= i < events.len() ==> lo <= (#[trigger] events[i]).instant@
}

proof fn scan_step_ordered(open0: Option<int>, done0: Seq<(int, int)>, kind: HorizonEventKind, t: int, lo: int, f0: int)
    requires
        lo <= f0 <= t,
        ordered_stretches(done0, lo, f0),
        open0 matches Some(start) ==> lo <= start <= f0 && (done0.len() > 0 ==> done0.last().1 <= start),
    ensures
        ordered_stretches(scan_step(open0, done0, kind, t).1, lo, t),
        scan_step(open0, done0, kind, t).0 matches Some(start) ==> {
            &&& lo <= start <= t
            &&& scan_step(open0, done0, kind, t).1.len() > 0 ==> scan_step(open0, done0, kind, t).1.last().1 <= start
        },
{
    let done = scan_step(open0, done0, kind, t).1;
    if done.len() == done0.len() + 1 {
        assert(done == done0.push((open0->0, t)));
        assert forall|k: int| 0 <= k < done.len() implies lo <= (#[trigger] done[k]).0 < done[k].1 <= t by {
            if k < done0.len() {
                assert(done[k] == done0[k]);
            }
        }
        assert forall|k: int| 0 <= k < done.len() - 1 implies (#[trigger] done[k]).1 <= done[k + 1].0 by {
            if k < done0.len() - 1 {
                assert(done[k] == done0[k] && done[k + 1] == done0[k + 1]);
            } else {
                assert(done[k] == done0.last());
            }
        }
    } else {
        assert(done == done0);
        assert forall|k: int| 0 <= k < done.len() implies lo <= (#[trigger] done[k]).0 < done[k].1 <= t by {
            assert(done[k] == done0[k]);
        }
    }
}

proof fn visibility_scan_ordered<S: TimeScale, V, O, R>(
    events: Seq<HorizonEvent<S, V, O, R>>,
    lo: int,
    initial: Option<int>,
)
    requires
        time_ordered_from(events, lo),
        initial is None || initial == Some(lo),
    ensures
        lo <= scan_frontier(events, lo),
        ordered_stretches(visibility_scan(events, initial).1, lo, scan_frontier(events, lo)),
        visibility_scan(events, initial).0 matches Some(start) ==> {
            &&& lo <= start <= scan_frontier(events, lo)
            &&& visibility_scan(events, initial).1.len() > 0 ==> visibility_scan(events, initial).1.last().1 <= start
        },
    decreases events.len(),
{
    if events.len() > 0 {
        let earlier = events.drop_last();
        assert(time_ordered_from(earlier, lo)) by {
            assert forall|i: int, j: int| 0 <= i <= j < earlier.len() implies (#[trigger] earlier[i]).instant@
                <= (#[trigger] earlier[j]).instant@ by {
                assert(earlier[i] == events[i] && earlier[j] == events[j]);
            }
            assert forall|i: int| 0 <= i < earlier.len() implies lo <= (#[trigger] earlier[i]).instant@ by {
                assert(earlier[i] == events[i]);
            }
        }
        visibility_scan_ordered(earlier, lo, initial);
        let last = events.len() - 1;
        let f0 = scan_frontier(earlier, lo);
        let t = events[last].instant@;
        assert(lo <= t);
        if earlier.len() > 0 {
            assert(earlier.last() == events[last - 1]);
            assert(f0 <= t);
        }
        let (open0, done0) = visibility_scan(earlier, initial);
        scan_step_ordered(open0, done0, events[last].kind, t, lo, f0);
    }
}

/// The above-horizon stretches of an eclipse interval, built from time-ordered
/// rises and sets within it, are ordered, of positive length, non-overlapping,
/// and lie within the interval.
pub proof fn above_horizon_stretches_are_ordered<S: TimeScale, V, O, R>(
    interval: (int, int),
    events: Seq<HorizonEvent<S, V, O, R>>,
    starts_visible: bool,
)
    requires
        interval.0 <= interval.1,
        time_ordered_from(events, interval.0),
        forall|i: int| 0 <= i < events.len() ==> (#[trigger] events[i]).instant@ <= interval.1,
    ensures
        ordered_stretches(above_horizon_bounds(interval, events, starts_visible), interval.0, interval.1),
{
    let lo = interval.0;
    let hi = interval.1;
    let initial = if starts_visible { Some(lo) } else { None };
    visibility_scan_ordered(events, lo, initial);
    let f = scan_frontier(events, lo);
    if events.len() > 0 {
        assert(f <= hi);
    }
    let (open, done) = visibility_scan(events, initial);
    let r = above_horizon_bounds(interval, events, starts_visible);
    assert forall|k: int| 0 <= k < done.len() implies lo <= (#[trigger] done[k]).0 < done[k].1 <= hi by {
    }
    if r.len() == done.len() + 1 {
        assert(r == done.push((open->0, hi)));
        assert forall|k: int| 0 <= k < r.len() implies lo <= (#[trigger] r[k]).0 < r[k].1 <= hi by {
            if k < done.len() {
                assert(r[k] == done[k]);
            }
        }
        assert forall|k: int| 0 <= k < r.len() - 1 implies (#[trigger] r[k]).1 <= r[k + 1].0 by {
            if k < done.len() - 1 {
                assert(r[k] == done[k] && r[k + 1] == done[k + 1]);
            } else {
                assert(r[k] == done.last());
            }
        }
    } else {
        assert(r == done);
    }
}

/// Some event of `events` is a rise at nanosecond `t`.
pub open spec fn rises_at<S: TimeScale, V, O, R>(events: Seq<HorizonEvent<S, V, O, R>>, t: int) -> bool {
    exists|i: int| 0 <= i < events.len() && (#[trigger] events[i]).kind == HorizonEventKind::Rise && events[i].instant@ == t
}

/// Some event of `events` is a set at nanosecond `t`.
pub open spec fn sets_at<S: TimeScale, V, O, R>(events: Seq<HorizonEvent<S, V, O, R>>, t: int) -> bool {
    exists|i: int| 0 <= i < events.len() && (#[trigger] events[i]).kind == HorizonEventKind::Setting && events[i].instant@
        == t
}

proof fn rises_and_sets_extend<S: TimeScale, V, O, R>(events: Seq<HorizonEvent<S, V, O, R>>)
    requires
        events.len() > 0,
    ensures
        forall|t: int| #[trigger] rises_at(events.drop_last(), t) ==> rises_at(events, t),
        forall|t: int| #[trigger] sets_at(events.drop_last(), t) ==> sets_at(events, t),
        events.last().kind == HorizonEventKind::Rise ==> rises_at(events, events.last().instant@),
        events.last().kind == HorizonEventKind::Setting ==> sets_at(events, events.last().instant@),
{
    let earlier = events.drop_last();
    assert forall|t: int| #[trigger] rises_at(earlier, t) implies rises_at(events, t) by {
        let i = choose|i: int| 0 <= i < earlier.len() && (#[trigger] earlier[i]).kind == HorizonEventKind::Rise
            && earlier[i].instant@ == t;
        assert(events[i] == earlier[i]);
    }
    assert forall|t: int| #[trigger] sets_at(earlier, t) implies sets_at(events, t) by {
        let i = choose|i: int| 0 <= i < earlier.len() && (#[trigger] earlier[i]).kind == HorizonEventKind::Setting
            && earlier[i].instant@ == t;
        assert(events[i] == earlier[i]);
    }
    let last = events.len() - 1;
    if events.last().kind == HorizonEventKind::Rise {
        assert(events[last].kind == HorizonEventKind::Rise);
    }
    if events.last().kind == HorizonEventKind::Setting {
        assert(events[last].kind == HorizonEventKind::Setting);
    }
}

proof fn visibility_scan_origins<S: TimeScale, V, O, R>(events: Seq<HorizonEvent<S, V, O, R>>, initial: Option<int>)
    ensures
        visibility_scan(events, initial).0 matches Some(start) ==> Some(start) == initial || rises_at(events, start),
        forall|k: int| 0 <= k < visibility_scan(events, initial).1.len() ==> {
            &&& (Some((#[trigger] visibility_scan(events, initial).1[k]).0) == initial || rises_at(
                events,
                visibility_scan(events, initial).1[k].0,
            ))
            &&& sets_at(events, visibility_scan(events, initial).1[k].1)
        },
    decreases events.len(),
{
    if events.len() > 0 {
        let earlier = events.drop_last();
        visibility_scan_origins(earlier, initial);
        rises_and_sets_extend(events);
        let (open0, done0) = visibility_scan(earlier, initial);
        let done = visibility_scan(events, initial).1;
        assert forall|k: int| 0 <= k < done.len() implies {
            &&& (Some((#[trigger] done[k]).0) == initial || rises_at(events, done[k].0))
            &&& sets_at(events, done[k].1)
        } by {
            if k < done0.len() {
                assert(done[k] == done0[k]);
            }
        }
    }
}

/// Every above-horizon stretch opens at the interval start, when the Moon starts above
/// the horizon, or at a rise, and closes at the interval end or at a set: transits and
/// other events never open or close a stretch.
pub proof fn above_horizon_stretches_come_from_rises_and_sets<S: TimeScale, V, O, R>(
    interval: (int, int),
    events: Seq<HorizonEvent<S, V, O, R>>,
    starts_visible: bool,
)
    ensures
        forall|k: int| 0 <= k < above_horizon_bounds(interval, events, starts_visible).len() ==> {
            let stretch = #[trigger] above_horizon_bounds(interval, events, starts_visible)[k];
            &&& (starts_visible && stretch.0 == interval.0) || rises_at(events, stretch.0)
            &&& stretch.1 == interval.1 || sets_at(events, stretch.1)
        },
{
    let initial = if starts_visible { Some(interval.0) } else { None };
    visibility_scan_origins(events, initial);
    let (open, done) = visibility_scan(events, initial);
    let r = above_horizon_bounds(interval, events, starts_visible);
    assert forall|k: int| 0 <= k < r.len() implies {
        let stretch = #[trigger] r[k];
        &&& (starts_visible && stretch.0 == interval.0) || rises_at(events, stretch.0)
        &&& stretch.1 == interval.1 || sets_at(events, stretch.1)
    } by {
        if k < done.len() {
            assert(r[k] == done[k]);
        }
    }
}

proof fn transit_invisible_in_scan<S: TimeScale, V, O, R>(
    before: Seq<HorizonEvent<S, V, O, R>>,
    transit: HorizonEvent<S, V, O, R>,
    after: Seq<HorizonEvent<S, V, O, R>>,
    initial: Option<int>,
)
    requires
        transit.kind == HorizonEventKind::UpperTransit || transit.kind == HorizonEventKind::LowerTransit,
    ensures
        visibility_scan(before + seq![transit] + after, initial) == visibility_scan(before + after, initial),
    decreases after.len(),
{
    if after.len() == 0 {
        assert(before + seq![transit] + after == before.push(transit));
        assert(before.push(transit).drop_last() == before);
        assert(before + after == before);
    } else {
        let shorter = after.drop_last();
        transit_invisible_in_scan(before, transit, shorter, initial);
        let with = before + seq![transit] + after;
        let without = before + after;
        assert(with.drop_last() == before + seq![transit] + shorter);
        assert(without.drop_last() == before + shorter);
        assert(with.last() == after.last());
        assert(without.last() == after.last());
    }
}

/// Upper and lower transits never change the above-horizon stretches: inserting one
/// anywhere among the events leaves the stretches as they were.
pub proof fn transits_leave_above_horizon_stretches_unchanged<S: TimeScale, V, O, R>(
    interval: (int, int),
    before: Seq<HorizonEvent<S, V, O, R>>,
    transit: HorizonEvent<S, V, O, R>,
    after: Seq<HorizonEvent<S, V, O, R>>,
    starts_visible: bool,
)
    requires
        transit.kind == HorizonEventKind::UpperTransit || transit.kind == HorizonEventKind::LowerTransit,
    ensures
        above_horizon_bounds(interval, before + seq![transit] + after, starts_visible) == above_horizon_bounds(
            interval,
            before + after,
            starts_visible,
        ),
{
    transit_invisible_in_scan(before, transit, after, if starts_visible { Some(interval.0) } else { None });
}

proof fn scan_append_congruent<S: TimeScale, V, O, R>(
    x: Seq<HorizonEvent<S, V, O, R>>,
    y: Seq<HorizonEvent<S, V, O, R>>,
    after: Seq<HorizonEvent<S, V, O, R>>,
    initial: Option<int>,
)
    requires
        visibility_scan(x, initial) == visibility_scan(y, initial),
    ensures
        visibility_scan(x + after, initial) == visibility_scan(y + after, initial),
    decreases after.len(),
{
    if after.len() == 0 {
        assert(x + after == x);
        assert(y + after == y);
    } else {
        let shorter = after.drop_last();
        scan_append_congruent(x, y, shorter, initial);
        assert((x + after).drop_last() == x + shorter);
        assert((y + after).drop_last() == y + shorter);
        assert((x + after).last() == after.last());
        assert((y + after).last() == after.last());
    }
}

/// A rise while the Moon is already up changes nothing: of two rises with no set between
/// them, the stretch opens at the first.
pub proof fn second_rise_leaves_above_horizon_stretches_unchanged<S: TimeScale, V, O, R>(
    interval: (int, int),
    before: Seq<HorizonEvent<S, V, O, R>>,
    first: HorizonEvent<S, V, O, R>,
    second: HorizonEvent<S, V, O, R>,
    after: Seq<HorizonEvent<S, V, O, R>>,
    starts_visible: bool,
)
    requires
        first.kind == HorizonEventKind::Rise,
        second.kind == HorizonEventKind::Rise,
    ensures
        above_horizon_bounds(interval, before.push(first).push(second) + after, starts_visible) == above_horizon_bounds(
            interval,
            before.push(first) + after,
            starts_visible,
        ),
{
    let initial = if starts_visible { Some(interval.0) } else { None };
    let x = before.push(first).push(second);
    let y = before.push(first);
    assert(x.drop_last() == y);
    assert(y.drop_last() == before);
    scan_append_congruent(x, y, after, initial);
}

/// A set while the Moon is already down changes nothing: of two sets with no rise between
/// them, the second opens and closes no stretch.
pub proof fn second_set_leaves_above_horizon_stretches_unchanged<S: TimeScale, V, O, R>(
    interval: (int, int),
    before: Seq<HorizonEvent<S, V, O, R>>,
    first: HorizonEvent<S, V, O, R>,
    second: HorizonEvent<S, V, O, R>,
    after: Seq<HorizonEvent<S, V, O, R>>,
    starts_visible: bool,
)
    requires
        first.kind == HorizonEventKind::Setting,
        second.kind == HorizonEventKind::Setting,
    ensures
        above_horizon_bounds(interval, before.push(first).push(second) + after, starts_visible) == above_horizon_bounds(
            interval,
            before.push(first) + after,
            starts_visible,
        ),
{
    let initial = if starts_visible { Some(interval.0) } else { None };
    let x = before.push(first).push(second);
    let y = before.push(first);
    assert(x.drop_last() == y);
    assert(y.drop_last() == before);
    scan_append_congruent(x, y, after, initial);
}

/// Splits an eclipse interval into the stretches during which the Moon is above the horizon.
///
/// Walks the time-ordered rises and sets: a rise opens a stretch unless one is
/// open, a set closes the open stretch (kept when it has positive length), and
/// a stretch still open at the end is closed at the interval end.
pub fn lunar_above_horizon_intervals<S: TimeScale, V, O, R>(
    interval: TimeInterval<S>,
    events: &Vec<HorizonEvent<S, V, O, R>>,
    starts_visible: bool,
) -> (r: Vec<TimeInterval<S>>)
    ensures
        r@.map_values(|i: TimeInterval<S>| bounds(i)) == above_horizon_bounds(bounds(interval), events@, starts_visible),
        forall|k: int| 0 <= k < r@.len() ==> {
            let stretch = #[trigger] r@[k];
            &&& (starts_visible && stretch.start_spec()@ == interval.start_spec()@) || rises_at(
                events@,
                stretch.start_spec()@,
            )
            &&& stretch.end_spec()@ == interval.end_spec()@ || sets_at(events@, stretch.end_spec()@)
        },
{
    let mut open: Option<Instant<S>> = if starts_visible { Some(interval.start()) } else { None };
    let mut intervals: Vec<TimeInterval<S>> = Vec::new();
    let ghost initial: Option<int> = if starts_visible { Some(interval.start_spec()@) } else { None };
    let mut i: usize = 0;
    while i < events.len()
        invariant
            i <= events@.len(),
            initial == (if starts_visible { Some(interval.start_spec()@) } else { None::<int> }),
            (match open { Some(t) => Some(t@), None => None::<int> }) == visibility_scan(events@.take(i as int), initial).0,
            intervals@.map_values(|i: TimeInterval<S>| bounds(i)) == visibility_scan(events@.take(i as int), initial).1,
        decreases events@.len() - i,
    {
        proof {
            assert(events@.take(i as int + 1).drop_last() == events@.take(i as int));
        }
        let event = &events[i];
        match event.kind {
            HorizonEventKind::Rise => {
                if open.is_none() {
                    open = Some(event.instant);
                }
            },
            HorizonEventKind::Setting => {
                if let Some(start) = open {
                    if start.is_before(event.instant) {
                        let stretch = TimeInterval::new(start, event.instant).unwrap();
                        let ghost before = intervals@;
                        intervals.push(stretch);
                        proof {
                            assert(intervals@.map_values(|i: TimeInterval<S>| bounds(i))
                                == before.map_values(|i: TimeInterval<S>| bounds(i)).push(bounds(stretch)));
                        }
                    }
                }
                open = None;
            },
            _ => {},
        }
        i = i + 1;
    }
    proof {
        assert(events@.take(events@.len() as int) == events@);
    }
    if let Some(start) = open {
        if start.is_before(interval.end()) {
            let stretch = TimeInterval::new(start, interval.end()).unwrap();
            let ghost before = intervals@;
            intervals.push(stretch);
            proof {
                assert(intervals@.map_values(|i: TimeInterval<S>| bounds(i))
                    == before.map_values(|i: TimeInterval<S>| bounds(i)).push(bounds(stretch)));
            }
        }
    }
    proof {
        above_horizon_stretches_come_from_rises_and_sets(bounds(interval), events@, starts_visible);
        let mapped = intervals@.map_values(|i: TimeInterval<S>| bounds(i));
        let expected = above_horizon_bounds(bounds(interval), events@, starts_visible);
        assert forall|k: int| 0 <= k < intervals@.len() implies {
            let stretch = #[trigger] intervals@[k];
            &&& (starts_visible && stretch.start_spec()@ == interval.start_spec()@) || rises_at(
                events@,
                stretch.start_spec()@,
            )
            &&& stretch.end_spec()@ == interval.end_spec()@ || sets_at(events@, stretch.end_spec()@)
        } by {
            assert(bounds(intervals@[k]) == mapped[k]);
            assert(mapped[k] == expected[k]);
        }
    }
    intervals
}


/// A visible phase as plain values: kind, exact bounds, and truncation flags.
pub open spec fn visible_view<S: TimeScale>(v: VisibleLunarEclipsePhase<S>) -> (LunarEclipseKind, int, int, bool, bool) {
    (v.kind, v.interval.start_spec()@, v.interval.end_spec()@, v.truncated_at_start, v.truncated_at_end)
}

/// A global phase as plain values: kind and exact bounds.
pub open spec fn phase_view<S: TimeScale>(p: LunarEclipsePhaseInterval<S>) -> (LunarEclipseKind, int, int) {
    (p.kind, p.interval.start_spec()@, p.interval.end_spec()@)
}

/// The visible part of one global phase within one above-horizon stretch, if it has positive length.
pub open spec fn clip(phase: (LunarEclipseKind, int, int), visible: (int, int)) -> Option<(LunarEclipseKind, int, int, bool, bool)> {
    let start = if phase.1 > visible.0 { phase.1 } else { visible.0 };
    let end = if phase.2 < visible.1 { phase.2 } else { visible.1 };
    if start < end {
        Some((phase.0, start, end, start > phase.1, end < phase.2))
    } else {
        None
    }
}

/// The visible parts of one global phase, one per overlapping above-horizon stretch, in stretch order.
pub open spec fn phase_parts(phase: (LunarEclipseKind, int, int), above: Seq<(int, int)>) -> Seq<(LunarEclipseKind, int, int, bool, bool)>
    decreases above.len(),
{
    if above.len() == 0 {
        Seq::empty()
    } else {
        let earlier = phase_parts(phase, above.drop_last());
        match clip(phase, above.last()) {
            Some(part) => earlier.push(part),
            None => earlier,
        }
    }
}

/// The visible parts of every global phase, phase by phase.
pub open spec fn all_parts(phases: Seq<(LunarEclipseKind, int, int)>, above: Seq<(int, int)>) -> Seq<(LunarEclipseKind, int, int, bool, bool)>
    decreases phases.len(),
{
    if phases.len() == 0 {
        Seq::empty()
    } else {
        all_parts(phases.drop_last(), above) + phase_parts(phases.last(), above)
    }
}

/// A visible part is the overlap of one global phase with one above-horizon stretch:
/// it has the phase's kind and positive length, lies inside both, and is flagged
/// truncated exactly where it starts after, or ends before, the phase.
pub open spec fn part_of(
    part: (LunarEclipseKind, int, int, bool, bool),
    phase: (LunarEclipseKind, int, int),
    stretch: (int, int),
) -> bool {
    &&& part.0 == phase.0
    &&& phase.1 <= part.1 < part.2 <= phase.2
    &&& stretch.0 <= part.1 && part.2 <= stretch.1
    &&& part.3 == (part.1 > phase.1)
    &&& part.4 == (part.2 < phase.2)
}

/// A part is the overlap of `phase` with one of the stretches.
pub open spec fn overlaps_some_stretch(
    part: (LunarEclipseKind, int, int, bool, bool),
    phase: (LunarEclipseKind, int, int),
    above: Seq<(int, int)>,
) -> bool {
    exists|j: int| 0 <= j < above.len() && #[trigger] part_of(part, phase, above[j])
}

/// A part is the overlap of one of the phases with one of the stretches.
pub open spec fn overlaps_some_phase(
    part: (LunarEclipseKind, int, int, bool, bool),
    phases: Seq<(LunarEclipseKind, int, int)>,
    above: Seq<(int, int)>,
) -> bool {
    exists|i: int| 0 <= i < phases.len() && #[trigger] overlaps_some_stretch(part, phases[i], above)
}

/// A part is reported among `parts`.
pub open spec fn reported(parts: Seq<(LunarEclipseKind, int, int, bool, bool)>, part: (LunarEclipseKind, int, int, bool, bool)) -> bool {
    exists|k: int| 0 <= k < parts.len() && #[trigger] parts[k] == part
}

proof fn phase_parts_are_overlaps(phase: (LunarEclipseKind, int, int), above: Seq<(int, int)>)
    ensures
        forall|k: int| 0 <= k < phase_parts(phase, above).len() ==> overlaps_some_stretch(
            #[trigger] phase_parts(phase, above)[k],
            phase,
            above,
        ),
        forall|j: int| 0 <= j < above.len() && (#[trigger] clip(phase, above[j])) is Some ==> reported(
            phase_parts(phase, above),
            clip(phase, above[j])->0,
        ),
    decreases above.len(),
{
    if above.len() > 0 {
        let earlier = above.drop_last();
        phase_parts_are_overlaps(phase, earlier);
        let parts = phase_parts(phase, above);
        let before = phase_parts(phase, earlier);
        let last = above.len() - 1;
        assert(earlier =~= above.take(last));
        assert forall|k: int| 0 <= k < parts.len() implies overlaps_some_stretch(#[trigger] parts[k], phase, above) by {
            if k < before.len() {
                assert(parts[k] == before[k]);
                assert(overlaps_some_stretch(before[k], phase, earlier));
                let j = choose|j: int| 0 <= j < earlier.len() && #[trigger] part_of(before[k], phase, earlier[j]);
                assert(above[j] == earlier[j]);
                assert(part_of(parts[k], phase, above[j]));
            } else {
                assert(part_of(parts[k], phase, above[last]));
            }
        }
        assert forall|j: int| 0 <= j < above.len() && (#[trigger] clip(phase, above[j])) is Some implies reported(
            parts,
            clip(phase, above[j])->0,
        ) by {
            if j < last {
                assert(above[j] == earlier[j]);
                assert(reported(before, clip(phase, earlier[j])->0));
                let k = choose|k: int| 0 <= k < before.len() && #[trigger] before[k] == clip(phase, earlier[j])->0;
                assert(parts[k] == before[k]);
            } else {
                assert(parts[before.len() as int] == clip(phase, above[j])->0);
            }
        }
    }
}

/// The visible lunar-eclipse phases are exactly the positive-length overlaps of the
/// global phases with the above-horizon stretches: every reported part is such an
/// overlap, and every such overlap is reported.
pub proof fn visible_phases_are_exactly_the_overlaps(phases: Seq<(LunarEclipseKind, int, int)>, above: Seq<(int, int)>)
    ensures
        forall|k: int| 0 <= k < all_parts(phases, above).len() ==> overlaps_some_phase(
            #[trigger] all_parts(phases, above)[k],
            phases,
            above,
        ),
        forall|i: int, j: int| 0 <= i < phases.len() && 0 <= j < above.len() && (#[trigger] clip(phases[i], above[j])) is Some
            ==> reported(all_parts(phases, above), clip(phases[i], above[j])->0),
    decreases phases.len(),
{
    if phases.len() > 0 {
        let earlier = phases.drop_last();
        let last_index = phases.len() - 1;
        let last = phases[last_index];
        visible_phases_are_exactly_the_overlaps(earlier, above);
        phase_parts_are_overlaps(last, above);
        let parts = all_parts(phases, above);
        let before = all_parts(earlier, above);
        let tail = phase_parts(last, above);
        assert(parts =~= before + tail);
        assert forall|k: int| 0 <= k < parts.len() implies overlaps_some_phase(#[trigger] parts[k], phases, above) by {
            if k < before.len() {
                assert(parts[k] == before[k]);
                assert(overlaps_some_phase(before[k], earlier, above));
                let i = choose|i: int| 0 <= i < earlier.len() && #[trigger] overlaps_some_stretch(before[k], earlier[i], above);
                assert(phases[i] == earlier[i]);
                assert(overlaps_some_stretch(parts[k], phases[i], above));
            } else {
                let t = k - before.len();
                assert(parts[k] == tail[t]);
                assert(overlaps_some_stretch(tail[t], last, above));
                assert(overlaps_some_stretch(parts[k], phases[last_index], above));
            }
        }
        assert forall|i: int, j: int| 0 <= i < phases.len() && 0 <= j < above.len() && (#[trigger] clip(phases[i], above[j])) is Some
            implies reported(parts, clip(phases[i], above[j])->0) by {
            if i < last_index {
                assert(phases[i] == earlier[i]);
                assert(reported(before, clip(earlier[i], above[j])->0));
                let k = choose|k: int| 0 <= k < before.len() && #[trigger] before[k] == clip(earlier[i], above[j])->0;
                assert(parts[k] == before[k]);
            } else {
                assert(reported(tail, clip(last, above[j])->0));
                let t = choose|t: int| 0 <= t < tail.len() && #[trigger] tail[t] == clip(last, above[j])->0;
                assert(parts[before.len() + t] == tail[t]);
            }
        }
    }
}

/// Intersects each global phase with each above-horizon stretch, phase by phase.
///
/// Each overlap of positive length becomes a visible phase, flagged as
/// truncated where the stretch cut off the global phase's start or end.
pub fn clip_visible_phases<S: TimeScale>(
    phases: &Vec<LunarEclipsePhaseInterval<S>>,
    above_horizon: &Vec<TimeInterval<S>>,
) -> (r: Vec<VisibleLunarEclipsePhase<S>>)
    ensures
        r@.map_values(|v: VisibleLunarEclipsePhase<S>| visible_view(v)) == all_parts(
            phases@.map_values(|p: LunarEclipsePhaseInterval<S>| phase_view(p)),
            above_horizon@.map_values(|i: TimeInterval<S>| bounds(i)),
        ),
{
    let ghost pv = phases@.map_values(|p: LunarEclipsePhaseInterval<S>| phase_view(p));
    let ghost av = above_horizon@.map_values(|i: TimeInterval<S>| bounds(i));
    let mut result: Vec<VisibleLunarEclipsePhase<S>> = Vec::new();
    let mut i: usize = 0;
    while i < phases.len()
        invariant
            i <= phases@.len(),
            pv == phases@.map_values(|p: LunarEclipsePhaseInterval<S>| phase_view(p)),
            av == above_horizon@.map_values(|i: TimeInterval<S>| bounds(i)),
            result@.map_values(|v: VisibleLunarEclipsePhase<S>| visible_view(v)) == all_parts(pv.take(i as int), av),
        decreases phases@.len() - i,
    {
        let phase = phases[i];
        let ghost base = result@.map_values(|v: VisibleLunarEclipsePhase<S>| visible_view(v));
        let mut j: usize = 0;
        while j < above_horizon.len()
            invariant
                i < phases@.len(),
                j <= above_horizon@.len(),
                phase == phases@[i as int],
                av == above_horizon@.map_values(|i: TimeInterval<S>| bounds(i)),
                result@.map_values(|v: VisibleLunarEclipsePhase<S>| visible_view(v))
                    == base + phase_parts(phase_view(phase), av.take(j as int)),
            decreases above_horizon@.len() - j,
        {
            proof {
                assert(av.take(j as int + 1).drop_last() == av.take(j as int));
                assert(av.take(j as int + 1).last() == bounds(above_horizon@[j as int]));
            }
            let visible = above_horizon[j];
            let phase_start = phase.interval.start();
            let phase_end = phase.interval.end();
            let visible_start = visible.start();
            let visible_end = visible.end();
            let start = if visible_start.is_before(phase_start) { phase_start } else { visible_start };
            let end = if phase_end.is_before(visible_end) { phase_end } else { visible_end };
            if start.is_before(end) {
                let part = VisibleLunarEclipsePhase {
                    kind: phase.kind,
                    interval: TimeInterval::new(start, end).unwrap(),
                    truncated_at_start: phase_start.is_before(start),
                    truncated_at_end: end.is_before(phase_end),
                };
                let ghost before = result@;
                result.push(part);
                proof {
                    assert(result@.map_values(|v: VisibleLunarEclipsePhase<S>| visible_view(v))
                        == before.map_values(|v: VisibleLunarEclipsePhase<S>| visible_view(v)).push(visible_view(part)));
                }
            }
            j = j + 1;
        }
        proof {
            assert(av.take(above_horizon@.len() as int) == av);
            assert(pv.take(i as int + 1).drop_last() == pv.take(i as int));
            assert(pv.take(i as int + 1).last() == phase_view(phase));
        }
        i = i + 1;
    }
    proof {
        assert(pv.take(phases@.len() as int) == pv);
    }
    result
}

/// The ordering key of a visible phase: its start, then its nesting rank.
pub open spec fn visible_phase_key<S: TimeScale>() -> spec_fn(VisibleLunarEclipsePhase<S>) -> int {
    |v: VisibleLunarEclipsePhase<S>| ranked_key(v.interval.start_spec()@ as i128, v.kind.spec_rank())
}

fn visible_phase_sort_key<S: TimeScale>(v: &VisibleLunarEclipsePhase<S>) -> (k: (i128, u8))
    ensures
        k.1 < 3,
        ranked_key(k.0, k.1) == visible_phase_key()(*v),
{
    proof { v.interval.start_spec().view_fits(); }
    (v.interval.start().tai_nanoseconds_since_1900(), v.kind.rank())
}

/// Orders visible phases by start and, at equal starts, from penumbral to total.
pub fn order_visible_phases<S: TimeScale>(phases: Vec<VisibleLunarEclipsePhase<S>>) -> (r: Vec<VisibleLunarEclipsePhase<S>>)
    ensures
        r@.to_multiset() == phases@.to_multiset(),
        sorted_by(r@, visible_phase_key()),
        stable_under(r@, phases@, visible_phase_key()),
{
    sort_by_key(phases, Ghost(visible_phase_key()), visible_phase_sort_key::<S>)
}

/// The visible portions of nested global phases, ordered by start and then nesting.
pub fn visible_lunar_eclipse_phases<S: TimeScale>(
    phases: &Vec<LunarEclipsePhaseInterval<S>>,
    above_horizon: &Vec<TimeInterval<S>>,
) -> (r: Vec<VisibleLunarEclipsePhase<S>>)
    ensures
        sorted_by(r@, visible_phase_key()),
        exists|parts: Seq<VisibleLunarEclipsePhase<S>>| #![trigger parts.to_multiset()] {
            &&& parts.map_values(|v: VisibleLunarEclipsePhase<S>| visible_view(v)) == all_parts(
                phases@.map_values(|p: LunarEclipsePhaseInterval<S>| phase_view(p)),
                above_horizon@.map_values(|i: TimeInterval<S>| bounds(i)),
            )
            &&& r@.to_multiset() == parts.to_multiset()
            &&& stable_under(r@, parts, visible_phase_key())
        },
{
    let parts = clip_visible_phases(phases, above_horizon);
    let ghost parts_seq = parts@;
    let r = order_visible_phases(parts);
    proof {
        assert(r@.to_multiset() == parts_seq.to_multiset());
        assert(stable_under(r@, parts_seq, visible_phase_key()));
    }
    r
}

} // verus!
