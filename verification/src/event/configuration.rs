use vstd::prelude::*;

use crate::ephem::CelestialBody;
use crate::time::{fits_i128, Duration, Instant, TimeScale};

use super::search::bracket_evidence_consistent;
use super::{AstrometricMode, Error, EventEvidence, ObservationOrigin, RelativeBodyQuery};

verus! {

/// Coordinate difference used to define a conjunction, opposition, or quadrature.
#[derive(Debug, Clone, Copy, PartialEq, Eq, Hash, Structural)]
#[non_exhaustive]
pub enum ConfigurationCoordinate {
    /// Target-minus-reference longitude on the true ecliptic and equinox of date.
    EclipticLongitude,
    /// Target-minus-reference right ascension on the true equator and equinox of date.
    RightAscension,
}

/// One directed relative-coordinate configuration.
#[derive(Debug, Clone, Copy, PartialEq, Eq, Hash, Structural)]
#[non_exhaustive]
pub enum ConfigurationKind {
    /// Zero target-minus-reference coordinate difference.
    Conjunction,
    /// A 180-degree target-minus-reference coordinate difference.
    Opposition,
    /// A positive 90-degree target-minus-reference coordinate difference.
    EasternQuadrature,
    /// A negative 90-degree target-minus-reference coordinate difference.
    WesternQuadrature,
}

impl ConfigurationKind {
    /// The defining directed target-minus-reference angle in whole degrees, in `[0, 360)`.
    pub open spec fn spec_target_angle(self) -> u32 {
        match self {
            ConfigurationKind::Conjunction => 0,
            ConfigurationKind::Opposition => 180,
            ConfigurationKind::EasternQuadrature => 90,
            ConfigurationKind::WesternQuadrature => 270,
        }
    }

    /// Returns the defining directed target-minus-reference angle in whole degrees, in `[0, 360)`.
    pub fn target_angle(self) -> (degrees: u32)
        ensures
            degrees == self.spec_target_angle(),
            degrees < 360,
            degrees % 90 == 0,
    {
        match self {
            ConfigurationKind::Conjunction => 0,
            ConfigurationKind::Opposition => 180,
            ConfigurationKind::EasternQuadrature => 90,
            ConfigurationKind::WesternQuadrature => 270,
        }
    }
}

/// A complete specification for one family of relative-coordinate events.
#[derive(Debug, Clone, Copy, PartialEq, Eq, Hash)]
pub struct ConfigurationQuery {
    /// Ordered target and reference bodies and astrometric mode.
    pub bodies: RelativeBodyQuery,
    /// Requested relative configuration.
    pub kind: ConfigurationKind,
    /// Coordinate difference that defines the event.
    pub coordinate: ConfigurationCoordinate,
}

impl ConfigurationQuery {
    /// Constructs a configuration query from distinct bodies and explicit coordinate semantics.
    pub fn new(bodies: RelativeBodyQuery, kind: ConfigurationKind, coordinate: ConfigurationCoordinate) -> (q: Self)
        ensures
            q == (ConfigurationQuery { bodies, kind, coordinate }),
    {
        ConfigurationQuery { bodies, kind, coordinate }
    }

    /// Returns the ordered target and reference bodies and astrometric mode.
    pub fn bodies(self) -> (b: RelativeBodyQuery)
        ensures
            b == self.bodies,
    {
        self.bodies
    }

    /// Returns the requested relative configuration.
    pub fn kind(self) -> (k: ConfigurationKind)
        ensures
            k == self.kind,
    {
        self.kind
    }

    /// Returns the coordinate difference that defines the event.
    pub fn coordinate(self) -> (c: ConfigurationCoordinate)
        ensures
            c == self.coordinate,
    {
        self.coordinate
    }
}

/// Distance-order classification for a Sun-referenced conjunction.
#[derive(Debug, Clone, Copy, PartialEq, Eq, Hash, Structural)]
#[non_exhaustive]
pub enum SolarConjunctionKind {
    /// The target is nearer to the observer than the Sun.
    Inferior,
    /// The target is farther from the observer than the Sun.
    Superior,
}

/// Side of the reference body on which a greatest elongation occurs.
#[derive(Debug, Clone, Copy, PartialEq, Eq, Hash, Structural)]
#[non_exhaustive]
pub enum ElongationSide {
    /// The target has a positive signed ecliptic-longitude difference from the reference.
    Eastern,
    /// The target has a negative signed ecliptic-longitude difference from the reference.
    Western,
}

/// Direction of apparent or geometric longitudinal motion after a stationary point.
#[derive(Debug, Clone, Copy, PartialEq, Eq, Hash, Structural)]
#[non_exhaustive]
pub enum StationKind {
    /// Prograde motion changes to retrograde motion.
    Retrograde,
    /// Retrograde motion changes to prograde motion.
    Direct,
}

/// A validated stationary-point query for one body.
#[derive(Debug, Clone, Copy, PartialEq, Eq, Hash)]
pub struct StationQuery {
    /// Body whose true-ecliptic longitude is differentiated.
    pub body: CelestialBody,
    /// Geometric or apparent-place semantics.
    pub mode: AstrometricMode,
}

impl StationQuery {
    /// Constructs a stationary-longitude query.
    pub fn new(body: CelestialBody, mode: AstrometricMode) -> (q: Self)
        ensures
            q == (StationQuery { body, mode }),
    {
        StationQuery { body, mode }
    }

    /// Returns the body whose true-ecliptic longitude is differentiated.
    pub fn body(self) -> (b: CelestialBody)
        ensures
            b == self.body,
    {
        self.body
    }

    /// Returns the selected geometric or apparent-place semantics.
    pub fn mode(self) -> (m: AstrometricMode)
        ensures
            m == self.mode,
    {
        self.mode
    }
}

/// Numerical evidence for a refined stationary point.
///
/// The final longitude rate `W` is carried unchanged.
#[derive(Debug, Copy, PartialEq)]
pub struct StationEvidence<S: TimeScale, W> {
    bracket_start: Instant<S>,
    bracket_end: Instant<S>,
    time_uncertainty: Duration,
    residual_rate: W,
    iterations: u32,
    evaluations: u32,
}

impl<S: TimeScale, W: Copy> Clone for StationEvidence<S, W> {
    fn clone(&self) -> (r: Self)
        ensures
            r == *self,
    {
        *self
    }
}

impl<S: TimeScale, W> StationEvidence<S, W> {
    /// The final bracket is ordered and the uncertainty is half its width.
    #[verifier::type_invariant]
    closed spec fn consistent(self) -> bool {
        bracket_evidence_consistent(self.bracket_start@, self.bracket_end@, self.time_uncertainty@)
    }

    /// Final inclusive bracket start.
    pub closed spec fn bracket_start_spec(self) -> Instant<S> {
        self.bracket_start
    }

    /// Final inclusive bracket end.
    pub closed spec fn bracket_end_spec(self) -> Instant<S> {
        self.bracket_end
    }

    /// Half the final bracket width.
    pub closed spec fn time_uncertainty_spec(self) -> Duration {
        self.time_uncertainty
    }

    /// Final central-difference longitude rate.
    pub closed spec fn residual_rate_spec(self) -> W {
        self.residual_rate
    }

    /// Completed Brent iterations.
    pub closed spec fn iterations_spec(self) -> u32 {
        self.iterations
    }

    /// Cumulative astrometric evaluations consumed by the search.
    pub closed spec fn evaluations_spec(self) -> u32 {
        self.evaluations
    }

    /// Retains the evidence of one refined stationary point.
    pub fn new(
        bracket_start: Instant<S>,
        bracket_end: Instant<S>,
        time_uncertainty: Duration,
        residual_rate: W,
        iterations: u32,
        evaluations: u32,
    ) -> (e: Self)
        requires
            bracket_evidence_consistent(bracket_start@, bracket_end@, time_uncertainty@),
        ensures
            e.bracket_start_spec() == bracket_start,
            e.bracket_end_spec() == bracket_end,
            e.time_uncertainty_spec() == time_uncertainty,
            e.residual_rate_spec() == residual_rate,
            e.iterations_spec() == iterations,
            e.evaluations_spec() == evaluations,
    {
        StationEvidence { bracket_start, bracket_end, time_uncertainty, residual_rate, iterations, evaluations }
    }

    /// Returns the final inclusive bracket start.
    pub fn bracket_start(&self) -> (t: Instant<S>)
        ensures
            t == self.bracket_start_spec(),
            bracket_evidence_consistent(t@, self.bracket_end_spec()@, self.time_uncertainty_spec()@),
    {
        proof { use_type_invariant(self); }
        self.bracket_start
    }

    /// Returns the final inclusive bracket end.
    pub fn bracket_end(&self) -> (t: Instant<S>)
        ensures
            t == self.bracket_end_spec(),
            bracket_evidence_consistent(self.bracket_start_spec()@, t@, self.time_uncertainty_spec()@),
    {
        proof { use_type_invariant(self); }
        self.bracket_end
    }

    /// Returns half the final bracket width.
    pub fn time_uncertainty(&self) -> (d: Duration)
        ensures
            d == self.time_uncertainty_spec(),
            bracket_evidence_consistent(self.bracket_start_spec()@, self.bracket_end_spec()@, d@),
    {
        proof { use_type_invariant(self); }
        self.time_uncertainty
    }

    /// Returns the final central-difference longitude rate.
    pub fn residual_rate(&self) -> (w: &W)
        ensures
            *w == self.residual_rate_spec(),
    {
        &self.residual_rate
    }

    /// Returns the completed Brent iterations.
    pub fn iterations(&self) -> (n: u32)
        ensures
            n == self.iterations_spec(),
    {
        self.iterations
    }

    /// Returns the cumulative astrometric evaluations consumed by the search.
    pub fn evaluations(&self) -> (n: u32)
        ensures
            n == self.evaluations_spec(),
    {
        self.evaluations
    }
}

/// One transition between prograde and retrograde longitudinal motion.
///
/// The evaluated body position `P` and the final longitude rate `W` are carried
/// unchanged. The stationary instant lies inside the final bracket of its evidence.
#[derive(Debug, Copy, PartialEq)]
pub struct StationEvent<S: TimeScale, P, W> {
    query: StationQuery,
    origin: ObservationOrigin,
    kind: StationKind,
    instant: Instant<S>,
    position: P,
    evidence: StationEvidence<S, W>,
}

impl<S: TimeScale, P: Copy, W: Copy> Clone for StationEvent<S, P, W> {
    fn clone(&self) -> (r: Self)
        ensures
            r == *self,
    {
        *self
    }
}

impl<S: TimeScale, P, W> StationEvent<S, P, W> {
    /// The stationary instant lies in the final bracket.
    #[verifier::type_invariant]
    closed spec fn bracketed(self) -> bool {
        self.evidence.bracket_start_spec()@ <= self.instant@ <= self.evidence.bracket_end_spec()@
    }

    /// The defining body and astrometric semantics.
    pub closed spec fn query_spec(self) -> StationQuery {
        self.query
    }

    /// Where the event was evaluated.
    pub closed spec fn origin_spec(self) -> ObservationOrigin {
        self.origin
    }

    /// The post-station direction of longitudinal motion.
    pub closed spec fn kind_spec(self) -> StationKind {
        self.kind
    }

    /// The stationary instant.
    pub closed spec fn instant_spec(self) -> Instant<S> {
        self.instant
    }

    /// The evaluated body position.
    pub closed spec fn position_spec(self) -> P {
        self.position
    }

    /// The numerical root-search evidence.
    pub closed spec fn evidence_spec(self) -> StationEvidence<S, W> {
        self.evidence
    }

    /// Retains one refined stationary point whose instant lies in its final bracket.
    pub fn new(
        query: StationQuery,
        origin: ObservationOrigin,
        kind: StationKind,
        instant: Instant<S>,
        position: P,
        evidence: StationEvidence<S, W>,
    ) -> (e: Self)
        requires
            evidence.bracket_start_spec()@ <= instant@ <= evidence.bracket_end_spec()@,
        ensures
            e.query_spec() == query,
            e.origin_spec() == origin,
            e.kind_spec() == kind,
            e.instant_spec() == instant,
            e.position_spec() == position,
            e.evidence_spec() == evidence,
    {
        StationEvent { query, origin, kind, instant, position, evidence }
    }

    /// Returns the defining body and astrometric semantics.
    pub fn query(&self) -> (q: StationQuery)
        ensures
            q == self.query_spec(),
    {
        self.query
    }

    /// Returns whether the event was evaluated at the geocentre or a fixed site.
    pub fn origin(&self) -> (o: ObservationOrigin)
        ensures
            o == self.origin_spec(),
    {
        self.origin
    }

    /// Returns the post-station direction of longitudinal motion.
    pub fn kind(&self) -> (k: StationKind)
        ensures
            k == self.kind_spec(),
    {
        self.kind
    }

    /// Returns the stationary instant, which lies in the final bracket of the evidence.
    pub fn instant(&self) -> (t: Instant<S>)
        ensures
            t == self.instant_spec(),
            self.evidence_spec().bracket_start_spec()@ <= t@ <= self.evidence_spec().bracket_end_spec()@,
    {
        proof { use_type_invariant(self); }
        self.instant
    }

    /// Returns the evaluated body position at the stationary instant.
    pub fn position(&self) -> (p: &P)
        ensures
            *p == self.position_spec(),
    {
        &self.position
    }

    /// Returns numerical root-search evidence including the residual angular rate.
    pub fn evidence(&self) -> (e: &StationEvidence<S, W>)
        ensures
            *e == self.evidence_spec(),
    {
        &self.evidence
    }
}

/// Sign of a sampled configuration residual.
#[derive(Debug, Clone, Copy, PartialEq, Eq, Hash, Structural)]
pub enum ResidualSign {
    /// The residual is below zero.
    Negative,
    /// The residual is exactly zero.
    Zero,
    /// The residual is above zero.
    Positive,
}

/// Whether a wrapped residual moving from `previous` to `current` crosses the target
/// configuration: the signs are strictly opposite and the step is not a wrap-around jump
/// of half a turn or more, or the residual lands exactly on zero from a non-zero value.
pub open spec fn spec_crosses_configuration_target(
    previous: ResidualSign,
    current: ResidualSign,
    jump_below_half_turn: bool,
) -> bool {
    ||| (previous == ResidualSign::Negative && current == ResidualSign::Positive && jump_below_half_turn)
    ||| (previous == ResidualSign::Positive && current == ResidualSign::Negative && jump_below_half_turn)
    ||| (current == ResidualSign::Zero && previous != ResidualSign::Zero)
}

/// The sign of an integer-valued residual.
pub open spec fn sign_of(x: int) -> ResidualSign {
    if x < 0 {
        ResidualSign::Negative
    } else if x == 0 {
        ResidualSign::Zero
    } else {
        ResidualSign::Positive
    }
}

/// Two consecutive residuals `previous` and `current` bracket the target exactly when
/// they have strictly opposite signs and changed by less than half a turn, or when the
/// residual arrives exactly at zero from a non-zero value; a residual that stays on one
/// side, or leaves zero, never brackets it.
pub proof fn configuration_crossing_law(previous: int, current: int, jump_below_half_turn: bool)
    ensures
        spec_crosses_configuration_target(sign_of(previous), sign_of(current), jump_below_half_turn) <==> (
        ((previous < 0 && current > 0) || (previous > 0 && current < 0)) && jump_below_half_turn) || (current == 0
            && previous != 0),
        previous * current > 0 ==> !spec_crosses_configuration_target(
            sign_of(previous),
            sign_of(current),
            jump_below_half_turn,
        ),
        previous == 0 ==> !spec_crosses_configuration_target(sign_of(previous), sign_of(current), jump_below_half_turn),
{
    if previous * current > 0 {
        assert((previous > 0 && current > 0) || (previous < 0 && current < 0)) by (nonlinear_arith)
            requires
                previous * current > 0,
        ;
    }
}

/// Decides whether two consecutive wrapped residuals bracket the target configuration.
///
/// `jump_below_half_turn` tells whether the residual changed by less than half a turn.
pub fn crosses_configuration_target(
    previous: ResidualSign,
    current: ResidualSign,
    jump_below_half_turn: bool,
) -> (b: bool)
    ensures
        b == spec_crosses_configuration_target(previous, current, jump_below_half_turn),
        b ==> previous != current && previous != ResidualSign::Zero,
        previous != current && previous != ResidualSign::Zero && (current == ResidualSign::Zero
            || jump_below_half_turn) ==> b,
{
    match (previous, current) {
        (ResidualSign::Negative, ResidualSign::Positive) => jump_below_half_turn,
        (ResidualSign::Positive, ResidualSign::Negative) => jump_below_half_turn,
        (ResidualSign::Zero, _) => false,
        (_, ResidualSign::Zero) => true,
        _ => false,
    }
}

/// What a configuration scan does after evaluating one coarse sample.
#[derive(Debug, Clone, Copy, PartialEq, Eq, Hash, Structural)]
pub enum ConfigurationAction {
    /// Refine the crossing bracketed by the previous and current samples.
    RefineCrossing,
    /// Record an event at the interval end, where the residual is within tolerance.
    EndpointEvent,
    /// Move on to the next sample.
    Advance,
}

/// The action for one scan step: a bracketed crossing is refined; otherwise the final
/// sample becomes an event when its residual is within the angular tolerance.
pub open spec fn spec_configuration_action(
    at_interval_end: bool,
    crosses_target: bool,
    end_within_tolerance: bool,
) -> ConfigurationAction {
    if crosses_target {
        ConfigurationAction::RefineCrossing
    } else if at_interval_end && end_within_tolerance {
        ConfigurationAction::EndpointEvent
    } else {
        ConfigurationAction::Advance
    }
}

/// What a scan step does, in terms of its inputs: a bracketed crossing is always
/// refined; without one, an event is recorded exactly when the sample is the interval
/// end and its residual is within tolerance; every other sample just advances the scan.
/// Away from the interval end the tolerance of the sample is irrelevant.
pub proof fn configuration_step_law(at_interval_end: bool, crosses_target: bool, end_within_tolerance: bool)
    ensures
        (spec_configuration_action(at_interval_end, crosses_target, end_within_tolerance)
            == ConfigurationAction::RefineCrossing) <==> crosses_target,
        (spec_configuration_action(at_interval_end, crosses_target, end_within_tolerance)
            == ConfigurationAction::EndpointEvent) <==> (!crosses_target && at_interval_end && end_within_tolerance),
        (spec_configuration_action(at_interval_end, crosses_target, end_within_tolerance)
            == ConfigurationAction::Advance) <==> (!crosses_target && !(at_interval_end && end_within_tolerance)),
        spec_configuration_action(false, crosses_target, true) == spec_configuration_action(
            false,
            crosses_target,
            false,
        ),
        spec_configuration_action(false, false, end_within_tolerance) == ConfigurationAction::Advance,
{
}

/// Decides what a configuration scan does with one new coarse sample.
///
/// The first sample of a scan is an event exactly when its residual is within
/// tolerance; every later sample goes through this decision.
pub fn configuration_step(at_interval_end: bool, crosses_target: bool, end_within_tolerance: bool) -> (a:
    ConfigurationAction)
    ensures
        a == spec_configuration_action(at_interval_end, crosses_target, end_within_tolerance),
        a == ConfigurationAction::RefineCrossing <==> crosses_target,
        a == ConfigurationAction::EndpointEvent <==> !crosses_target && at_interval_end && end_within_tolerance,
{
    if crosses_target {
        ConfigurationAction::RefineCrossing
    } else if at_interval_end && end_within_tolerance {
        ConfigurationAction::EndpointEvent
    } else {
        ConfigurationAction::Advance
    }
}

/// One refined conjunction, opposition, or quadrature event.
///
/// The evaluated relative observation `P` (both positions, the coordinate differences
/// and the separation) and the signed residual `R` are carried unchanged. The event
/// instant lies inside the final bracket of its evidence.
#[derive(Debug, Copy, PartialEq)]
pub struct ConfigurationEvent<S: TimeScale, P, R> {
    query: ConfigurationQuery,
    origin: ObservationOrigin,
    instant: Instant<S>,
    observation: P,
    evidence: EventEvidence<S, R>,
}

impl<S: TimeScale, P: Copy, R: Copy> Clone for ConfigurationEvent<S, P, R> {
    fn clone(&self) -> (r: Self)
        ensures
            r == *self,
    {
        *self
    }
}

impl<S: TimeScale, P, R> ConfigurationEvent<S, P, R> {
    /// The event instant lies in the final bracket.
    #[verifier::type_invariant]
    closed spec fn bracketed(self) -> bool {
        self.evidence.bracket_start_spec()@ <= self.instant@ <= self.evidence.bracket_end_spec()@
    }

    /// The defining query.
    pub closed spec fn query_spec(self) -> ConfigurationQuery {
        self.query
    }

    /// Where the event was evaluated.
    pub closed spec fn origin_spec(self) -> ObservationOrigin {
        self.origin
    }

    /// The event instant.
    pub closed spec fn instant_spec(self) -> Instant<S> {
        self.instant
    }

    /// The evaluated relative observation.
    pub closed spec fn observation_spec(self) -> P {
        self.observation
    }

    /// The numerical root-search evidence.
    pub closed spec fn evidence_spec(self) -> EventEvidence<S, R> {
        self.evidence
    }

    /// Retains one refined configuration event whose instant lies in its final bracket.
    pub fn new(
        query: ConfigurationQuery,
        origin: ObservationOrigin,
        instant: Instant<S>,
        observation: P,
        evidence: EventEvidence<S, R>,
    ) -> (e: Self)
        requires
            evidence.bracket_start_spec()@ <= instant@ <= evidence.bracket_end_spec()@,
        ensures
            e.query_spec() == query,
            e.origin_spec() == origin,
            e.instant_spec() == instant,
            e.observation_spec() == observation,
            e.evidence_spec() == evidence,
    {
        ConfigurationEvent { query, origin, instant, observation, evidence }
    }

    /// An event found exactly at a coarse sample: a zero-width bracket at `instant`,
    /// no refinement iterations, and the evaluations consumed so far.
    pub fn at_sample(
        query: ConfigurationQuery,
        origin: ObservationOrigin,
        instant: Instant<S>,
        observation: P,
        residual: R,
        evaluations: u32,
    ) -> (e: Self)
        ensures
            e.query_spec() == query,
            e.origin_spec() == origin,
            e.instant_spec() == instant,
            e.observation_spec() == observation,
            e.evidence_spec().bracket_start_spec() == instant,
            e.evidence_spec().bracket_end_spec() == instant,
            e.evidence_spec().time_uncertainty_spec()@ == 0,
            e.evidence_spec().residual_spec() == residual,
            e.evidence_spec().iterations_spec() == 0,
            e.evidence_spec().evaluations_spec() == evaluations,
    {
        let evidence = EventEvidence::at_sample(instant, residual, evaluations);
        ConfigurationEvent { query, origin, instant, observation, evidence }
    }

    /// Returns the complete defining query.
    pub fn query(&self) -> (q: ConfigurationQuery)
        ensures
            q == self.query_spec(),
    {
        self.query
    }

    /// Returns whether the event was evaluated at the geocentre or a fixed site.
    pub fn origin(&self) -> (o: ObservationOrigin)
        ensures
            o == self.origin_spec(),
    {
        self.origin
    }

    /// Returns the event instant, which lies in the final bracket of the evidence.
    pub fn instant(&self) -> (t: Instant<S>)
        ensures
            t == self.instant_spec(),
            self.evidence_spec().bracket_start_spec()@ <= t@ <= self.evidence_spec().bracket_end_spec()@,
    {
        proof { use_type_invariant(self); }
        self.instant
    }

    /// Returns the evaluated relative observation.
    pub fn observation(&self) -> (p: &P)
        ensures
            *p == self.observation_spec(),
    {
        &self.observation
    }

    /// Returns numerical root-search evidence.
    pub fn evidence(&self) -> (e: &EventEvidence<S, R>)
        ensures
            *e == self.evidence_spec(),
    {
        &self.evidence
    }

    /// Classifies a conjunction with the Sun as reference: inferior when the target is
    /// nearer than the Sun (as `target_nearer` tells), superior otherwise. Other
    /// configurations and references have no such classification.
    pub fn solar_conjunction_kind(&self, target_nearer: bool) -> (k: Option<SolarConjunctionKind>)
        ensures
            k == (if self.query_spec().kind == ConfigurationKind::Conjunction
                && self.query_spec().bodies.reference_spec() == CelestialBody::Sun {
                Some(if target_nearer { SolarConjunctionKind::Inferior } else { SolarConjunctionKind::Superior })
            } else {
                None::<SolarConjunctionKind>
            }),
    {
        let is_conjunction = match self.query.kind {
            ConfigurationKind::Conjunction => true,
            _ => false,
        };
        if !is_conjunction || self.query.bodies.reference() != CelestialBody::Sun {
            return None;
        }
        if target_nearer {
            Some(SolarConjunctionKind::Inferior)
        } else {
            Some(SolarConjunctionKind::Superior)
        }
    }
}

/// The signed gap from the latest recorded configuration event to a candidate.
pub open spec fn configuration_gap<S: TimeScale, P, R>(
    events: Seq<ConfigurationEvent<S, P, R>>,
    candidate: ConfigurationEvent<S, P, R>,
) -> int {
    candidate.instant_spec()@ - events.last().instant_spec()@
}

/// Comparing a candidate with the latest event overflows.
pub open spec fn configuration_gap_overflows<S: TimeScale, P, R>(
    events: Seq<ConfigurationEvent<S, P, R>>,
    candidate: ConfigurationEvent<S, P, R>,
) -> bool {
    events.len() > 0 && !(fits_i128(configuration_gap(events, candidate)) && fits_i128(
        -configuration_gap(events, candidate),
    ))
}

/// The candidate lies within `tolerance` of the latest recorded event.
pub open spec fn duplicates_latest_configuration<S: TimeScale, P, R>(
    events: Seq<ConfigurationEvent<S, P, R>>,
    candidate: ConfigurationEvent<S, P, R>,
    tolerance: int,
) -> bool {
    &&& events.len() > 0
    &&& !configuration_gap_overflows(events, candidate)
    &&& -tolerance <= configuration_gap(events, candidate) <= tolerance
}

/// Consecutive recorded configuration events lie more than `tolerance` apart, in
/// chronological order.
pub open spec fn configuration_events_separated<S: TimeScale, P, R>(
    events: Seq<ConfigurationEvent<S, P, R>>,
    tolerance: int,
) -> bool {
    forall|k: int| 0 <= k < events.len() - 1 ==> #[trigger] events[k + 1].instant_spec()@ - events[k].instant_spec()@
        > tolerance
}

/// Adds a configuration event unless it duplicates the latest one.
///
/// Fed with candidates in chronological order, it keeps consecutive events more
/// than `tolerance` apart.
///
/// When the latest recorded event lies within `tolerance` of the candidate, the
/// candidate replaces it if `is_better` prefers the candidate's residual, and is
/// dropped otherwise; any other candidate is appended. Fails, leaving the events
/// unchanged, when the gap to the latest event cannot be represented.
pub fn push_unique_configuration_event<S: TimeScale, P, R, B: Fn(&R, &R) -> bool>(
    events: &mut Vec<ConfigurationEvent<S, P, R>>,
    candidate: ConfigurationEvent<S, P, R>,
    tolerance: Duration,
    is_better: B,
) -> (r: Result<(), Error>)
    requires
        forall|a: R, b: R| #[trigger] is_better.requires((&a, &b)),
    ensures
        r is Err <==> configuration_gap_overflows(old(events)@, candidate),
        r matches Err(e) ==> final(events)@ == old(events)@ && e == Error::Time(crate::time::Error::Overflow {
            operation: if fits_i128(configuration_gap(old(events)@, candidate)) {
                "taking the magnitude of a duration"
            } else {
                "differencing instants"
            },
        }),
        r is Ok && !duplicates_latest_configuration(old(events)@, candidate, tolerance@) ==> final(events)@
            == old(events)@.push(candidate),
        duplicates_latest_configuration(old(events)@, candidate, tolerance@) ==> {
            let last = old(events)@.len() - 1;
            let better = is_better.ensures(
                (&candidate.evidence_spec().residual_spec(), &old(events)@[last].evidence_spec().residual_spec()),
                true,
            );
            let kept = is_better.ensures(
                (&candidate.evidence_spec().residual_spec(), &old(events)@[last].evidence_spec().residual_spec()),
                false,
            );
            ||| final(events)@ == old(events)@.update(last, candidate) && better
            ||| final(events)@ == old(events)@ && kept
        },
        configuration_events_separated(old(events)@, tolerance@) && (old(events)@.len() > 0
            ==> old(events)@.last().instant_spec()@ <= candidate.instant_spec()@)
            ==> configuration_events_separated(final(events)@, tolerance@),
{
    let n = events.len();
    if n > 0 {
        let last = n - 1;
        let gap = match candidate.instant().duration_since(events[last].instant()) {
            Ok(d) => d,
            Err(e) => return Err(Error::from(e)),
        };
        let magnitude = match gap.checked_abs() {
            Ok(d) => d,
            Err(e) => return Err(Error::from(e)),
        };
        if magnitude.as_nanoseconds() <= tolerance.as_nanoseconds() {
            if is_better(candidate.evidence().residual(), events[last].evidence().residual()) {
                events.set(last, candidate);
            }
            return Ok(());
        }
    }
    events.push(candidate);
    Ok(())
}

} // verus!
