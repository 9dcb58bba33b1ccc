use vstd::prelude::*;

use crate::ephem::CelestialBody;
use crate::time::{fits_i128, Duration, Instant, TimeInterval, TimeScale, NANOSECONDS_PER_SECOND};

use super::sorting::{sort_by_key, sorted_by, stable_under};
use super::{Error, EventEvidence};
use super::search::{check_positive_duration, check_positive_limit, scan_step_error};

verus! {

/// Coordinate stage used by an altitude-crossing criterion.
///
/// The atmospheric conditions `C` are carried unchanged.
#[derive(Debug, Clone, Copy, PartialEq)]
#[non_exhaustive]
pub enum HorizonReference<C> {
    /// Topocentric vacuum altitude.
    Vacuum,
    /// Altitude after applying the retained atmospheric conditions.
    Refracted(C),
}

/// Point on a spherical apparent disk whose altitude defines a horizon contact.
///
/// The spherical body figure `F` of a limb is carried unchanged.
#[derive(Debug, Clone, Copy, PartialEq)]
#[non_exhaustive]
pub enum HorizonDiskPoint<F> {
    /// The apparent disk centre.
    Center,
    /// The vertically upper limb of the selected spherical figure.
    UpperLimb(F),
    /// The vertically lower limb of the selected spherical figure.
    LowerLimb(F),
}

impl<F: Copy> HorizonDiskPoint<F> {
    /// Returns the spherical figure when the criterion selects a limb.
    pub fn figure(self) -> (r: Option<F>)
        ensures
            r == (match self {
                HorizonDiskPoint::Center => None,
                HorizonDiskPoint::UpperLimb(f) => Some(f),
                HorizonDiskPoint::LowerLimb(f) => Some(f),
            }),
    {
        match self {
            HorizonDiskPoint::Center => None,
            HorizonDiskPoint::UpperLimb(figure) => Some(figure),
            HorizonDiskPoint::LowerLimb(figure) => Some(figure),
        }
    }
}

/// Explicit altitude `A` and coordinate stage used to define rise and set.
#[derive(Debug, Clone, Copy, PartialEq)]
pub struct HorizonCriterion<A, C, F> {
    /// Target altitude whose crossings define rise and set.
    pub altitude: A,
    /// Vacuum or refracted coordinate stage.
    pub reference: HorizonReference<C>,
    /// Selected centre or spherical limb.
    pub disk_point: HorizonDiskPoint<F>,
}

impl<A: Copy, C: Copy, F: Copy> HorizonCriterion<A, C, F> {
    /// Constructs an arbitrary vacuum-altitude crossing for a selected disk point.
    pub fn vacuum_disk_altitude(altitude: A, disk_point: HorizonDiskPoint<F>) -> (c: Self)
        ensures
            c == (HorizonCriterion { altitude, reference: HorizonReference::<C>::Vacuum, disk_point }),
    {
        HorizonCriterion { altitude, reference: HorizonReference::Vacuum, disk_point }
    }

    /// Constructs an arbitrary refracted-altitude crossing for a selected disk point.
    pub fn refracted_disk_altitude(altitude: A, disk_point: HorizonDiskPoint<F>, conditions: C) -> (c: Self)
        ensures
            c == (HorizonCriterion { altitude, reference: HorizonReference::Refracted(conditions), disk_point }),
    {
        HorizonCriterion { altitude, reference: HorizonReference::Refracted(conditions), disk_point }
    }

    /// Constructs an arbitrary vacuum-altitude crossing criterion for the disk centre.
    pub fn vacuum_altitude(altitude: A) -> (c: Self)
        ensures
            c == (HorizonCriterion {
                altitude,
                reference: HorizonReference::<C>::Vacuum,
                disk_point: HorizonDiskPoint::<F>::Center,
            }),
    {
        Self::vacuum_disk_altitude(altitude, HorizonDiskPoint::Center)
    }

    /// Constructs an arbitrary refracted-altitude crossing criterion for the disk centre.
    pub fn refracted_altitude(altitude: A, conditions: C) -> (c: Self)
        ensures
            c == (HorizonCriterion {
                altitude,
                reference: HorizonReference::Refracted(conditions),
                disk_point: HorizonDiskPoint::<F>::Center,
            }),
    {
        Self::refracted_disk_altitude(altitude, HorizonDiskPoint::Center, conditions)
    }

    /// Returns the astronomical horizon applied to the vacuum target centre.
    ///
    /// `horizon` is the representation of zero altitude.
    pub fn geometric_center(horizon: A) -> (c: Self)
        ensures
            c == (HorizonCriterion {
                altitude: horizon,
                reference: HorizonReference::<C>::Vacuum,
                disk_point: HorizonDiskPoint::<F>::Center,
            }),
    {
        Self::vacuum_disk_altitude(horizon, HorizonDiskPoint::Center)
    }

    /// Returns the astronomical horizon applied after atmospheric refraction.
    ///
    /// `horizon` is the representation of zero altitude.
    pub fn refracted_center(horizon: A, conditions: C) -> (c: Self)
        ensures
            c == (HorizonCriterion {
                altitude: horizon,
                reference: HorizonReference::Refracted(conditions),
                disk_point: HorizonDiskPoint::<F>::Center,
            }),
    {
        Self::refracted_disk_altitude(horizon, HorizonDiskPoint::Center, conditions)
    }

    /// Returns the astronomical horizon applied to a vacuum spherical upper limb.
    ///
    /// `horizon` is the representation of zero altitude.
    pub fn geometric_upper_limb(horizon: A, figure: F) -> (c: Self)
        ensures
            c == (HorizonCriterion {
                altitude: horizon,
                reference: HorizonReference::<C>::Vacuum,
                disk_point: HorizonDiskPoint::UpperLimb(figure),
            }),
    {
        Self::vacuum_disk_altitude(horizon, HorizonDiskPoint::UpperLimb(figure))
    }

    /// Returns the astronomical horizon applied to a vacuum spherical lower limb.
    ///
    /// `horizon` is the representation of zero altitude.
    pub fn geometric_lower_limb(horizon: A, figure: F) -> (c: Self)
        ensures
            c == (HorizonCriterion {
                altitude: horizon,
                reference: HorizonReference::<C>::Vacuum,
                disk_point: HorizonDiskPoint::LowerLimb(figure),
            }),
    {
        Self::vacuum_disk_altitude(horizon, HorizonDiskPoint::LowerLimb(figure))
    }

    /// Returns the astronomical horizon applied to a refracted spherical upper limb.
    ///
    /// `horizon` is the representation of zero altitude.
    pub fn refracted_upper_limb(horizon: A, figure: F, conditions: C) -> (c: Self)
        ensures
            c == (HorizonCriterion {
                altitude: horizon,
                reference: HorizonReference::Refracted(conditions),
                disk_point: HorizonDiskPoint::UpperLimb(figure),
            }),
    {
        Self::refracted_disk_altitude(horizon, HorizonDiskPoint::UpperLimb(figure), conditions)
    }

    /// Returns the astronomical horizon applied to a refracted spherical lower limb.
    ///
    /// `horizon` is the representation of zero altitude.
    pub fn refracted_lower_limb(horizon: A, figure: F, conditions: C) -> (c: Self)
        ensures
            c == (HorizonCriterion {
                altitude: horizon,
                reference: HorizonReference::Refracted(conditions),
                disk_point: HorizonDiskPoint::LowerLimb(figure),
            }),
    {
        Self::refracted_disk_altitude(horizon, HorizonDiskPoint::LowerLimb(figure), conditions)
    }

    /// Returns the target altitude whose crossings define rise and set.
    pub fn altitude(self) -> (a: A)
        ensures
            a == self.altitude,
    {
        self.altitude
    }

    /// Returns whether the criterion uses vacuum or refracted altitude.
    pub fn reference(self) -> (r: HorizonReference<C>)
        ensures
            r == self.reference,
    {
        self.reference
    }

    /// Returns the selected centre or spherical limb.
    pub fn disk_point(self) -> (d: HorizonDiskPoint<F>)
        ensures
            d == self.disk_point,
    {
        self.disk_point
    }
}

/// Six hours in nanoseconds: the largest coarse step for diurnal crossings.
pub open spec fn spec_horizon_max_scan_step() -> int {
    6 * 3_600 * 1_000_000_000int
}

/// The outcome of validating horizon-search controls, in the order the checks are made.
pub open spec fn horizon_options_outcome(
    scan_step: int,
    time_tolerance: int,
    angular_tolerance_in_range: bool,
    max_refinement_iterations: u32,
    max_evaluations: u32,
) -> Option<Error> {
    if !(0 < scan_step <= spec_horizon_max_scan_step()) {
        Some(scan_step_error("horizon-event scan step", scan_step, spec_horizon_max_scan_step()))
    } else if !(0 < time_tolerance <= scan_step) {
        Some(scan_step_error("horizon-event time tolerance", time_tolerance, scan_step))
    } else if !angular_tolerance_in_range {
        Some(Error::InvalidAngularTolerance { field: "horizon-event angular tolerance" })
    } else if max_refinement_iterations == 0 {
        Some(Error::InvalidSearchLimit { field: "horizon-event refinement iterations", value: 0 })
    } else if max_evaluations == 0 {
        Some(Error::InvalidSearchLimit { field: "horizon-event evaluations", value: 0 })
    } else {
        None
    }
}

/// Returns the largest supported coarse step for horizon and meridian crossings (six hours).
pub fn horizon_max_scan_step() -> (d: Duration)
    ensures
        d@ == spec_horizon_max_scan_step(),
{
    Duration::from_nanoseconds(6 * 3_600 * NANOSECONDS_PER_SECOND)
}

/// Explicit scanning and refinement controls for horizon-event searches.
///
/// The angular tolerance `A` and light-time controls `L` are carried unchanged.
#[derive(Debug, Copy, PartialEq)]
pub struct HorizonSearchOptions<A, L> {
    scan_step: Duration,
    time_tolerance: Duration,
    angular_tolerance: A,
    max_refinement_iterations: u32,
    max_evaluations: u32,
    light_time: L,
}

impl<A: Copy, L: Copy> Clone for HorizonSearchOptions<A, L> {
    fn clone(&self) -> (r: Self)
        ensures
            r == *self,
    {
        *self
    }
}

impl<A, L> HorizonSearchOptions<A, L> {
    /// The coarse scanning step.
    pub closed spec fn scan_step_spec(&self) -> Duration {
        self.scan_step
    }

    /// The final time-bracket width.
    pub closed spec fn time_tolerance_spec(&self) -> Duration {
        self.time_tolerance
    }

    /// The carried angular tolerance.
    pub closed spec fn angular_tolerance_spec(&self) -> A {
        self.angular_tolerance
    }

    /// The refinement iteration budget per crossing.
    pub closed spec fn max_refinement_iterations_spec(&self) -> u32 {
        self.max_refinement_iterations
    }

    /// The evaluation budget per search.
    pub closed spec fn max_evaluations_spec(&self) -> u32 {
        self.max_evaluations
    }

    /// The carried light-time controls.
    pub closed spec fn light_time_spec(&self) -> L {
        self.light_time
    }

    /// Validated options satisfy every bound that `new` checks.
    #[verifier::type_invariant]
    closed spec fn well_formed(&self) -> bool {
        &&& 0 < self.scan_step@ <= spec_horizon_max_scan_step()
        &&& 0 < self.time_tolerance@ <= self.scan_step@
        &&& self.max_refinement_iterations > 0
        &&& self.max_evaluations > 0
    }

    /// Constructs validated horizon-search controls.
    ///
    /// `angular_tolerance_in_range` states whether the tolerance lies in `(0°, 1°]`.
    /// The checks are made in order: scan step in `(0, 6 h]`, time tolerance in
    /// `(0, scan step]`, angular tolerance, refinement iterations, evaluations.
    pub fn new(
        scan_step: Duration,
        time_tolerance: Duration,
        angular_tolerance: A,
        angular_tolerance_in_range: bool,
        max_refinement_iterations: u32,
        max_evaluations: u32,
        light_time: L,
    ) -> (r: Result<Self, Error>)
        ensures
            r is Ok <==> horizon_options_outcome(
                scan_step@,
                time_tolerance@,
                angular_tolerance_in_range,
                max_refinement_iterations,
                max_evaluations,
            ) is None,
            r matches Err(e) ==> Some(e) == horizon_options_outcome(
                scan_step@,
                time_tolerance@,
                angular_tolerance_in_range,
                max_refinement_iterations,
                max_evaluations,
            ),
            r matches Ok(o) ==> o.scan_step_spec() == scan_step && o.time_tolerance_spec()
                == time_tolerance && o.angular_tolerance_spec() == angular_tolerance
                && o.max_refinement_iterations_spec() == max_refinement_iterations
                && o.max_evaluations_spec() == max_evaluations && o.light_time_spec() == light_time,
    {
        let max = horizon_max_scan_step();
        if let Err(e) = check_positive_duration("horizon-event scan step", scan_step, max) {
            return Err(e);
        }
        if let Err(e) = check_positive_duration("horizon-event time tolerance", time_tolerance, scan_step) {
            return Err(e);
        }
        if !angular_tolerance_in_range {
            return Err(Error::InvalidAngularTolerance { field: "horizon-event angular tolerance" });
        }
        if let Err(e) = check_positive_limit("horizon-event refinement iterations", max_refinement_iterations) {
            return Err(e);
        }
        if let Err(e) = check_positive_limit("horizon-event evaluations", max_evaluations) {
            return Err(e);
        }
        Ok(HorizonSearchOptions {
            scan_step,
            time_tolerance,
            angular_tolerance,
            max_refinement_iterations,
            max_evaluations,
            light_time,
        })
    }

    /// Returns one-hour scanning, one-millisecond timing, 64 iterations and 8192 evaluations.
    ///
    /// The standard angular tolerance (one nanoradian) and light-time controls are supplied.
    pub fn standard(angular_tolerance: A, light_time: L) -> (o: Self)
        ensures
            o.scan_step_spec()@ == 3_600 * 1_000_000_000int,
            o.time_tolerance_spec()@ == 1_000_000,
            o.angular_tolerance_spec() == angular_tolerance,
            o.max_refinement_iterations_spec() == 64,
            o.max_evaluations_spec() == 8192,
            o.light_time_spec() == light_time,
            horizon_options_outcome(
                o.scan_step_spec()@,
                o.time_tolerance_spec()@,
                true,
                o.max_refinement_iterations_spec(),
                o.max_evaluations_spec(),
            ) is None,
    {
        HorizonSearchOptions {
            scan_step: Duration::from_nanoseconds(3_600 * NANOSECONDS_PER_SECOND),
            time_tolerance: Duration::from_nanoseconds(1_000_000),
            angular_tolerance,
            max_refinement_iterations: 64,
            max_evaluations: 8_192,
            light_time,
        }
    }

    /// Returns the maximum physical duration between coarse samples.
    pub fn scan_step(&self) -> (d: Duration)
        ensures
            d == self.scan_step_spec(),
            0 < d@ <= spec_horizon_max_scan_step(),
    {
        proof { use_type_invariant(self); }
        self.scan_step
    }

    /// Returns the required final time-bracket width.
    pub fn time_tolerance(&self) -> (d: Duration)
        ensures
            d == self.time_tolerance_spec(),
            0 < d@ <= self.scan_step_spec()@,
    {
        proof { use_type_invariant(self); }
        self.time_tolerance
    }

    /// Returns the maximum accepted altitude or meridian residual.
    pub fn angular_tolerance(&self) -> (a: &A)
        ensures
            *a == self.angular_tolerance_spec(),
    {
        &self.angular_tolerance
    }

    /// Returns the maximum Brent iterations per crossing.
    pub fn max_refinement_iterations(&self) -> (n: u32)
        ensures
            n == self.max_refinement_iterations_spec(),
            n > 0,
    {
        proof { use_type_invariant(self); }
        self.max_refinement_iterations
    }

    /// Returns the maximum astrometric evaluations for one search.
    pub fn max_evaluations(&self) -> (n: u32)
        ensures
            n == self.max_evaluations_spec(),
            n > 0,
    {
        proof { use_type_invariant(self); }
        self.max_evaluations
    }

    /// Returns the reception light-time controls used for each target place.
    pub fn light_time(&self) -> (l: &L)
        ensures
            *l == self.light_time_spec(),
    {
        &self.light_time
    }
}

/// Identity of one rise, set, or meridian-crossing event.
#[derive(Debug, Clone, Copy, PartialEq, Eq, Structural)]
#[non_exhaustive]
pub enum HorizonEventKind {
    /// Target altitude crosses upward through the selected criterion.
    Rise,
    /// Target altitude crosses downward through the selected criterion.
    Setting,
    /// Target crosses the upper branch of the local meridian.
    UpperTransit,
    /// Target crosses the lower branch of the local meridian.
    LowerTransit,
}

/// Rise/set reachability classification over the requested closed interval.
#[derive(Debug, Clone, Copy, PartialEq, Eq, Structural)]
#[non_exhaustive]
pub enum HorizonVisibility {
    /// At least one ordinary rise and set both occur in the interval.
    RisesAndSets,
    /// The target centre remains above the selected altitude throughout the interval.
    CircumpolarOverInterval,
    /// The target centre remains below the selected altitude throughout the interval.
    NeverRisesOverInterval,
    /// The interval cuts off an otherwise paired rise or set.
    TruncatedByInterval,
    /// More than one rise/set cycle occurs in the interval.
    MultipleCycles,
    /// The sampled path reaches the criterion without a resolved sign-changing crossing.
    GrazesCriterion,
}

/// One refined finite-target horizon or meridian event.
///
/// The vacuum place `V`, the optional refracted place `O`, and the residual `R`
/// are carried unchanged.
#[derive(Debug, Copy, PartialEq)]
pub struct HorizonEvent<S: TimeScale, V, O, R> {
    /// Event identity.
    pub kind: HorizonEventKind,
    /// Refined physical event instant (the reception epoch of `vacuum`).
    pub instant: Instant<S>,
    /// Finite target's vacuum place at the event.
    pub vacuum: V,
    /// Refracted place when the criterion requested one.
    pub observed: Option<O>,
    /// Numerical evidence retained for the event.
    pub evidence: EventEvidence<S, R>,
}

impl<S: TimeScale, V: Copy, O: Copy, R: Copy> Clone for HorizonEvent<S, V, O, R> {
    fn clone(&self) -> (r: Self)
        ensures
            r == *self,
    {
        *self
    }
}

impl<S: TimeScale, V, O, R> HorizonEvent<S, V, O, R> {
    /// Retains one refined horizon event.
    pub fn new(
        kind: HorizonEventKind,
        instant: Instant<S>,
        vacuum: V,
        observed: Option<O>,
        evidence: EventEvidence<S, R>,
    ) -> (e: Self)
        ensures
            e == (HorizonEvent { kind, instant, vacuum, observed, evidence }),
    {
        HorizonEvent { kind, instant, vacuum, observed, evidence }
    }

    /// An event found exactly at a coarse sample: zero-width bracket, no
    /// iterations, one evaluation.
    pub fn at_sample(kind: HorizonEventKind, instant: Instant<S>, vacuum: V, observed: Option<O>, residual: R) -> (e: Self)
        ensures
            e.kind == kind,
            e.instant == instant,
            e.vacuum == vacuum,
            e.observed == observed,
            e.evidence.bracket_start_spec() == instant,
            e.evidence.bracket_end_spec() == instant,
            e.evidence.time_uncertainty_spec()@ == 0,
            e.evidence.residual_spec() == residual,
            e.evidence.iterations_spec() == 0,
            e.evidence.evaluations_spec() == 1,
    {
        HorizonEvent { kind, instant, vacuum, observed, evidence: EventEvidence::at_sample(instant, residual, 1) }
    }

    /// Returns the event identity.
    pub fn kind(&self) -> (k: HorizonEventKind)
        ensures
            k == self.kind,
    {
        self.kind
    }

    /// Returns the refined physical event instant.
    pub fn instant(&self) -> (t: Instant<S>)
        ensures
            t == self.instant,
    {
        self.instant
    }

    /// Returns the finite target's vacuum place at the event.
    pub fn vacuum_place(&self) -> (v: &V)
        ensures
            *v == self.vacuum,
    {
        &self.vacuum
    }

    /// Returns the refracted place when the search criterion requested one.
    pub fn observed_place(&self) -> (o: &Option<O>)
        ensures
            *o == self.observed,
    {
        &self.observed
    }

    /// Returns the numerical evidence retained for the event.
    pub fn evidence(&self) -> (e: &EventEvidence<S, R>)
        ensures
            *e == self.evidence,
    {
        &self.evidence
    }
}

/// Number of events of one kind.
pub open spec fn count_kind<S: TimeScale, V, O, R>(events: Seq<HorizonEvent<S, V, O, R>>, kind: HorizonEventKind) -> nat
    decreases events.len(),
{
    if events.len() == 0 {
        0
    } else {
        count_kind(events.drop_last(), kind) + if events.last().kind == kind { 1nat } else { 0nat }
    }
}

/// Rise/set reachability from the numbers of rises and sets and the sampled altitude range.
///
/// `minimum_above` states that the lowest sampled altitude residual exceeded the
/// angular tolerance; `maximum_below` that the highest fell below its negative.
pub open spec fn spec_visibility(rises: nat, sets: nat, minimum_above: bool, maximum_below: bool) -> HorizonVisibility {
    if rises + sets == 0 {
        if minimum_above {
            HorizonVisibility::CircumpolarOverInterval
        } else if maximum_below {
            HorizonVisibility::NeverRisesOverInterval
        } else {
            HorizonVisibility::GrazesCriterion
        }
    } else if rises + sets == 1 {
        HorizonVisibility::TruncatedByInterval
    } else if rises == 1 && sets == 1 {
        HorizonVisibility::RisesAndSets
    } else {
        HorizonVisibility::MultipleCycles
    }
}

/// What the classification says about the rise and set counts: `RisesAndSets` exactly
/// when there is one rise and one set, `MultipleCycles` exactly when there are at least
/// two crossings that are not one rise and one set, `TruncatedByInterval` exactly when
/// there is a single crossing, and the three crossing-free outcomes only without
/// crossings, chosen by the sampled altitude range.
pub proof fn horizon_visibility_law(rises: nat, sets: nat, minimum_above: bool, maximum_below: bool)
    ensures
        (spec_visibility(rises, sets, minimum_above, maximum_below) == HorizonVisibility::RisesAndSets) <==> (rises
            == 1 && sets == 1),
        (spec_visibility(rises, sets, minimum_above, maximum_below) == HorizonVisibility::MultipleCycles) <==> (
        rises + sets >= 2 && !(rises == 1 && sets == 1)),
        (spec_visibility(rises, sets, minimum_above, maximum_below) == HorizonVisibility::TruncatedByInterval) <==> (
        rises + sets == 1),
        (spec_visibility(rises, sets, minimum_above, maximum_below) == HorizonVisibility::CircumpolarOverInterval)
            <==> (rises + sets == 0 && minimum_above),
        (spec_visibility(rises, sets, minimum_above, maximum_below) == HorizonVisibility::NeverRisesOverInterval)
            <==> (rises + sets == 0 && !minimum_above && maximum_below),
        (spec_visibility(rises, sets, minimum_above, maximum_below) == HorizonVisibility::GrazesCriterion) <==> (
        rises + sets == 0 && !minimum_above && !maximum_below),
        rises + sets > 2 ==> spec_visibility(rises, sets, minimum_above, maximum_below)
            == HorizonVisibility::MultipleCycles,
{
}

/// Counts the events of one kind.
pub fn count_events_of_kind<S: TimeScale, V, O, R>(events: &Vec<HorizonEvent<S, V, O, R>>, kind: HorizonEventKind) -> (n: usize)
    ensures
        n == count_kind(events@, kind),
        n <= events@.len(),
{
    let mut n: usize = 0;
    let mut i: usize = 0;
    while i < events.len()
        invariant
            i <= events@.len(),
            n == count_kind(events@.take(i as int), kind),
            n <= i,
        decreases events@.len() - i,
    {
        proof {
            assert(events@.take(i as int + 1).drop_last() == events@.take(i as int));
        }
        if events[i].kind == kind {
            n = n + 1;
        }
        i = i + 1;
    }
    proof {
        assert(events@.take(events@.len() as int) == events@);
    }
    n
}

/// Classifies rise/set reachability over a searched interval.
pub fn classify_horizon_visibility<S: TimeScale, V, O, R>(
    events: &Vec<HorizonEvent<S, V, O, R>>,
    minimum_above: bool,
    maximum_below: bool,
) -> (v: HorizonVisibility)
    ensures
        v == spec_visibility(
            count_kind(events@, HorizonEventKind::Rise),
            count_kind(events@, HorizonEventKind::Setting),
            minimum_above,
            maximum_below,
        ),
        v == HorizonVisibility::RisesAndSets <==> count_kind(events@, HorizonEventKind::Rise) == 1 && count_kind(
            events@,
            HorizonEventKind::Setting,
        ) == 1,
        v == HorizonVisibility::MultipleCycles <==> count_kind(events@, HorizonEventKind::Rise) + count_kind(
            events@,
            HorizonEventKind::Setting,
        ) >= 2 && !(count_kind(events@, HorizonEventKind::Rise) == 1 && count_kind(events@, HorizonEventKind::Setting)
            == 1),
        v == HorizonVisibility::TruncatedByInterval <==> count_kind(events@, HorizonEventKind::Rise) + count_kind(
            events@,
            HorizonEventKind::Setting,
        ) == 1,
{
    let rises = count_events_of_kind(events, HorizonEventKind::Rise);
    let sets = count_events_of_kind(events, HorizonEventKind::Setting);
    if rises == 0 && sets == 0 {
        if minimum_above {
            HorizonVisibility::CircumpolarOverInterval
        } else if maximum_below {
            HorizonVisibility::NeverRisesOverInterval
        } else {
            HorizonVisibility::GrazesCriterion
        }
    } else if (rises == 1 && sets == 0) || (rises == 0 && sets == 1) {
        HorizonVisibility::TruncatedByInterval
    } else if rises == 1 && sets == 1 {
        HorizonVisibility::RisesAndSets
    } else {
        HorizonVisibility::MultipleCycles
    }
}

/// Complete rise, set, and transit result over one closed interval.
///
/// The criterion `K` is carried unchanged.
#[derive(Debug, PartialEq)]
pub struct HorizonEventSearch<S: TimeScale, K, V, O, R> {
    target: CelestialBody,
    interval: TimeInterval<S>,
    criterion: K,
    visibility: HorizonVisibility,
    events: Vec<HorizonEvent<S, V, O, R>>,
}

/// The spec key that orders horizon events: their instant.
pub open spec fn event_instant_key<S: TimeScale, V, O, R>() -> spec_fn(HorizonEvent<S, V, O, R>) -> int {
    |e: HorizonEvent<S, V, O, R>| 3 * e.instant@
}

/// The exact ordering key of a horizon event.
fn horizon_event_key<S: TimeScale, V, O, R>(event: &HorizonEvent<S, V, O, R>) -> (k: (i128, u8))
    ensures
        k.1 == 0,
        k.0 == event.instant@,
{
    (event.instant.tai_nanoseconds_since_1900(), 0)
}

impl<S: TimeScale, K, V, O, R> HorizonEventSearch<S, K, V, O, R> {
    /// The searched finite target.
    pub closed spec fn target_spec(&self) -> CelestialBody {
        self.target
    }

    /// The searched interval.
    pub closed spec fn interval_spec(&self) -> TimeInterval<S> {
        self.interval
    }

    /// The carried criterion.
    pub closed spec fn criterion_spec(&self) -> K {
        self.criterion
    }

    /// The rise/set reachability classification.
    pub closed spec fn visibility_spec(&self) -> HorizonVisibility {
        self.visibility
    }

    /// The time-ordered events.
    pub closed spec fn events_spec(&self) -> Seq<HorizonEvent<S, V, O, R>> {
        self.events@
    }

    /// Events are in time order and the visibility matches their rise and set counts.
    #[verifier::type_invariant]
    closed spec fn ordered(&self) -> bool {
        sorted_by(self.events@, event_instant_key())
    }

    /// Completes a search from the refined events of a scan.
    ///
    /// Orders the events by instant and classifies rise/set reachability;
    /// `minimum_above` and `maximum_below` describe the sampled altitude range
    /// relative to the angular tolerance.
    pub fn from_scan(
        target: CelestialBody,
        interval: TimeInterval<S>,
        criterion: K,
        events: Vec<HorizonEvent<S, V, O, R>>,
        minimum_above: bool,
        maximum_below: bool,
    ) -> (r: Self)
        ensures
            r.target_spec() == target,
            r.interval_spec() == interval,
            r.criterion_spec() == criterion,
            r.events_spec().to_multiset() == events@.to_multiset(),
            sorted_by(r.events_spec(), event_instant_key()),
            stable_under(r.events_spec(), events@, event_instant_key()),
            r.visibility_spec() == spec_visibility(
                count_kind(r.events_spec(), HorizonEventKind::Rise),
                count_kind(r.events_spec(), HorizonEventKind::Setting),
                minimum_above,
                maximum_below,
            ),
    {
        let sorted = sort_by_key(
            events,
            Ghost(event_instant_key()),
            horizon_event_key::<S, V, O, R>,
        );
        let visibility = classify_horizon_visibility(&sorted, minimum_above, maximum_below);
        HorizonEventSearch { target, interval, criterion, visibility, events: sorted }
    }

    /// Returns the searched finite target.
    pub fn target(&self) -> (b: CelestialBody)
        ensures
            b == self.target_spec(),
    {
        self.target
    }

    /// Returns the searched closed physical-time interval.
    pub fn interval(&self) -> (i: TimeInterval<S>)
        ensures
            i == self.interval_spec(),
    {
        self.interval
    }

    /// Returns the altitude and refraction criterion.
    pub fn criterion(&self) -> (k: &K)
        ensures
            *k == self.criterion_spec(),
    {
        &self.criterion
    }

    /// Returns rise/set reachability over the interval.
    pub fn visibility(&self) -> (v: HorizonVisibility)
        ensures
            v == self.visibility_spec(),
    {
        self.visibility
    }

    /// Returns all rise, set, upper-transit, and lower-transit events in time order.
    pub fn events(&self) -> (e: &Vec<HorizonEvent<S, V, O, R>>)
        ensures
            e@ == self.events_spec(),
            sorted_by(e@, event_instant_key()),
    {
        proof { use_type_invariant(self); }
        &self.events
    }
}


/// Whether two instants lie within a tolerance of each other, measured exactly.
pub open spec fn within_tolerance(candidate: int, existing: int, tolerance: int) -> bool {
    &&& fits_i128(candidate - existing)
    &&& fits_i128(existing - candidate)
    &&& (if candidate >= existing { candidate - existing } else { existing - candidate }) <= tolerance
}

/// Whether an existing event duplicates a candidate: same kind, nearly the same instant.
pub open spec fn duplicates<S: TimeScale, V, O, R>(
    existing: HorizonEvent<S, V, O, R>,
    candidate: HorizonEvent<S, V, O, R>,
    tolerance: Duration,
) -> bool {
    existing.kind == candidate.kind && within_tolerance(candidate.instant@, existing.instant@, tolerance@)
}

/// `j` is the latest index of an event duplicating the candidate.
pub open spec fn is_last_duplicate<S: TimeScale, V, O, R>(
    events: Seq<HorizonEvent<S, V, O, R>>,
    candidate: HorizonEvent<S, V, O, R>,
    tolerance: Duration,
    j: int,
) -> bool {
    &&& 0 <= j < events.len()
    &&& duplicates(events[j], candidate, tolerance)
    &&& forall|k: int| j < k < events.len() ==> !duplicates(#[trigger] events[k], candidate, tolerance)
}

/// Whether the candidate duplicates an existing event, measured exactly.
fn duplicates_exec<S: TimeScale, V, O, R>(
    existing: &HorizonEvent<S, V, O, R>,
    candidate: &HorizonEvent<S, V, O, R>,
    tolerance: Duration,
) -> (b: bool)
    ensures
        b == duplicates(*existing, *candidate, tolerance),
{
    if existing.kind != candidate.kind {
        return false;
    }
    proof {
        existing.instant.view_fits();
        candidate.instant.view_fits();
    }
    match candidate.instant.duration_since(existing.instant) {
        Ok(difference) => match difference.checked_abs() {
            Ok(magnitude) => magnitude.as_nanoseconds() <= tolerance.as_nanoseconds(),
            Err(_) => false,
        },
        Err(_) => false,
    }
}

/// Where one coarse scan segment places an event of one residual.
#[derive(Debug, Clone, Copy, PartialEq, Eq, Structural)]
pub enum SegmentFinding {
    /// The residual is within tolerance at the segment start.
    AtStart,
    /// The residual changes sign inside the segment; the crossing is refined.
    Bracketed,
    /// The residual is within tolerance at the segment end.
    AtEnd,
}

/// The findings of one scan segment for one residual, in the order they are recorded.
pub open spec fn spec_segment_findings(
    is_first_segment: bool,
    start_within_tolerance: bool,
    end_within_tolerance: bool,
    sign_changes: bool,
) -> Seq<SegmentFinding> {
    let start = if is_first_segment && start_within_tolerance { seq![SegmentFinding::AtStart] } else { Seq::empty() };
    if sign_changes {
        start.push(SegmentFinding::Bracketed)
    } else if end_within_tolerance {
        start.push(SegmentFinding::AtEnd)
    } else {
        start
    }
}

/// Decides where one coarse scan segment places events of one residual.
///
/// Only the first segment reports a tangency at its start, since later
/// segments start where the previous one ended. A sign change inside the
/// segment is refined; otherwise a tangency at the segment end is reported.
pub fn segment_findings(
    is_first_segment: bool,
    start_within_tolerance: bool,
    end_within_tolerance: bool,
    sign_changes: bool,
) -> (f: Vec<SegmentFinding>)
    ensures
        f@ == spec_segment_findings(is_first_segment, start_within_tolerance, end_within_tolerance, sign_changes),
{
    let mut findings: Vec<SegmentFinding> = Vec::new();
    if is_first_segment && start_within_tolerance {
        findings.push(SegmentFinding::AtStart);
    }
    if sign_changes {
        findings.push(SegmentFinding::Bracketed);
    } else if end_within_tolerance {
        findings.push(SegmentFinding::AtEnd);
    }
    proof {
        assert(findings@ =~= spec_segment_findings(
            is_first_segment,
            start_within_tolerance,
            end_within_tolerance,
            sign_changes,
        ));
    }
    findings
}

/// The kind of an altitude-criterion crossing: a rise when altitude is not decreasing.
pub fn altitude_crossing_kind(altitude_not_decreasing: bool) -> (k: HorizonEventKind)
    ensures
        k == (if altitude_not_decreasing { HorizonEventKind::Rise } else { HorizonEventKind::Setting }),
{
    if altitude_not_decreasing {
        HorizonEventKind::Rise
    } else {
        HorizonEventKind::Setting
    }
}

/// The kind of a meridian crossing: an upper transit when the hour-angle residual decreases.
pub fn meridian_crossing_kind(residual_decreasing: bool) -> (k: HorizonEventKind)
    ensures
        k == (if residual_decreasing { HorizonEventKind::UpperTransit } else { HorizonEventKind::LowerTransit }),
{
    if residual_decreasing {
        HorizonEventKind::UpperTransit
    } else {
        HorizonEventKind::LowerTransit
    }
}

/// Adds a refined event unless it duplicates a recent one.
///
/// Searching from the latest event backwards, the first event of the same
/// kind whose instant lies within `tolerance` of the candidate is a
/// duplicate; it is replaced by the candidate when `is_better` judges the
/// candidate's residual smaller. Without a duplicate the candidate is appended.
pub fn push_unique_horizon_event<S: TimeScale, V, O, R, B: Fn(&R, &R) -> bool>(
    events: &mut Vec<HorizonEvent<S, V, O, R>>,
    candidate: HorizonEvent<S, V, O, R>,
    tolerance: Duration,
    is_better: B,
)
    requires
        forall|a: R, b: R| #[trigger] is_better.requires((&a, &b)),
    ensures
        (forall|k: int| 0 <= k < old(events)@.len() ==> !duplicates(#[trigger] old(events)@[k], candidate, tolerance))
            ==> final(events)@ == old(events)@.push(candidate),
        forall|j: int| #[trigger] is_last_duplicate(old(events)@, candidate, tolerance, j) ==> {
            &&& final(events)@.len() == old(events)@.len()
            &&& forall|k: int| 0 <= k < old(events)@.len() && k != j ==> final(events)@[k] == old(events)@[k]
            &&& (final(events)@[j] == candidate && is_better.ensures(
                (&candidate.evidence.residual_spec(), &old(events)@[j].evidence.residual_spec()),
                true,
            )) || (final(events)@[j] == old(events)@[j] && is_better.ensures(
                (&candidate.evidence.residual_spec(), &old(events)@[j].evidence.residual_spec()),
                false,
            ))
        },
{
    let mut i = events.len();
    while i > 0
        invariant
            i <= events@.len(),
            events@ == old(events)@,
            forall|a: R, b: R| #[trigger] is_better.requires((&a, &b)),
            forall|k: int| i <= k < events@.len() ==> !duplicates(#[trigger] events@[k], candidate, tolerance),
        decreases i,
    {
        i = i - 1;
        if duplicates_exec(&events[i], &candidate, tolerance) {
            proof {
                assert(is_last_duplicate(old(events)@, candidate, tolerance, i as int));
                assert forall|j: int| #[trigger] is_last_duplicate(old(events)@, candidate, tolerance, j) implies j == i by {
                    if j < i {
                        assert(!duplicates(old(events)@[i as int], candidate, tolerance));
                    }
                    if j > i {
                        assert(!duplicates(old(events)@[j], candidate, tolerance));
                    }
                }
            }
            let better = is_better(candidate.evidence.residual(), events[i].evidence.residual());
            if better {
                events.set(i, candidate);
            }
            return;
        }
    }
    proof {
        assert forall|j: int| !is_last_duplicate(old(events)@, candidate, tolerance, j) by {
            if 0 <= j < old(events)@.len() {
                assert(!duplicates(old(events)@[j], candidate, tolerance));
            }
        }
    }
    events.push(candidate);
}

} // verus!
