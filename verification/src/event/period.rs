use core::marker::PhantomData;
use vstd::prelude::*;

use crate::time::{fits_i128, Duration, Instant, TimeScale};

use super::sealed::Sealed;
use super::search::{bracket_evidence_consistent, LabelledEvent};
use super::{Error, EventEvidence, SolarTerm};

verus! {

/// Identifies one astronomical cycle without erasing its physical definition.
pub trait CycleKind: Sealed {
    /// Stable English name of the cycle.
    spec fn spec_name() -> Seq<char>;

    /// Returns the stable English name of the cycle.
    fn name() -> (n: &'static str)
        ensures
            n@ == Self::spec_name(),
    ;
}

/// Type marker for a equinox year.
#[derive(Debug, Clone, Copy, PartialEq, Eq, Hash)]
pub struct EquinoxYear;

impl Sealed for EquinoxYear {}

impl CycleKind for EquinoxYear {
    open spec fn spec_name() -> Seq<char> {
        "equinox year"@
    }

    fn name() -> (n: &'static str) {
        "equinox year"
    }
}

/// Type marker for a mean tropical year.
#[derive(Debug, Clone, Copy, PartialEq, Eq, Hash)]
pub struct TropicalYear;

impl Sealed for TropicalYear {}

impl CycleKind for TropicalYear {
    open spec fn spec_name() -> Seq<char> {
        "mean tropical year"@
    }

    fn name() -> (n: &'static str) {
        "mean tropical year"
    }
}

/// Type marker for a sidereal year.
#[derive(Debug, Clone, Copy, PartialEq, Eq, Hash)]
pub struct SiderealYear;

impl Sealed for SiderealYear {}

impl CycleKind for SiderealYear {
    open spec fn spec_name() -> Seq<char> {
        "sidereal year"@
    }

    fn name() -> (n: &'static str) {
        "sidereal year"
    }
}

/// Type marker for a anomalistic year.
#[derive(Debug, Clone, Copy, PartialEq, Eq, Hash)]
pub struct AnomalisticYear;

impl Sealed for AnomalisticYear {}

impl CycleKind for AnomalisticYear {
    open spec fn spec_name() -> Seq<char> {
        "anomalistic year"@
    }

    fn name() -> (n: &'static str) {
        "anomalistic year"
    }
}

/// Type marker for a draconic year.
#[derive(Debug, Clone, Copy, PartialEq, Eq, Hash)]
pub struct DraconicYear;

impl Sealed for DraconicYear {}

impl CycleKind for DraconicYear {
    open spec fn spec_name() -> Seq<char> {
        "draconic year"@
    }

    fn name() -> (n: &'static str) {
        "draconic year"
    }
}

/// Type marker for a synodic month.
#[derive(Debug, Clone, Copy, PartialEq, Eq, Hash)]
pub struct SynodicMonth;

impl Sealed for SynodicMonth {}

impl CycleKind for SynodicMonth {
    open spec fn spec_name() -> Seq<char> {
        "synodic month"@
    }

    fn name() -> (n: &'static str) {
        "synodic month"
    }
}

/// Type marker for a sidereal month.
#[derive(Debug, Clone, Copy, PartialEq, Eq, Hash)]
pub struct SiderealMonth;

impl Sealed for SiderealMonth {}

impl CycleKind for SiderealMonth {
    open spec fn spec_name() -> Seq<char> {
        "sidereal month"@
    }

    fn name() -> (n: &'static str) {
        "sidereal month"
    }
}

/// Type marker for a tropical month.
#[derive(Debug, Clone, Copy, PartialEq, Eq, Hash)]
pub struct TropicalMonth;

impl Sealed for TropicalMonth {}

impl CycleKind for TropicalMonth {
    open spec fn spec_name() -> Seq<char> {
        "tropical month"@
    }

    fn name() -> (n: &'static str) {
        "tropical month"
    }
}

/// Type marker for a anomalistic month.
#[derive(Debug, Clone, Copy, PartialEq, Eq, Hash)]
pub struct AnomalisticMonth;

impl Sealed for AnomalisticMonth {}

impl CycleKind for AnomalisticMonth {
    open spec fn spec_name() -> Seq<char> {
        "anomalistic month"@
    }

    fn name() -> (n: &'static str) {
        "anomalistic month"
    }
}

/// Type marker for a draconic month.
#[derive(Debug, Clone, Copy, PartialEq, Eq, Hash)]
pub struct DraconicMonth;

impl Sealed for DraconicMonth {}

impl CycleKind for DraconicMonth {
    open spec fn spec_name() -> Seq<char> {
        "draconic month"@
    }

    fn name() -> (n: &'static str) {
        "draconic month"
    }
}

/// One of the two equinox crossings that can delimit an equinox year.
#[derive(Debug, Clone, Copy, PartialEq, Eq, Hash, Structural)]
pub enum EquinoxKind {
    /// The northward apparent-Sun crossing at longitude 0°.
    March,
    /// The southward apparent-Sun crossing at longitude 180°.
    September,
}

impl EquinoxKind {
    /// Returns the solar term whose crossing is this equinox.
    pub fn solar_term(self) -> (t: SolarTerm)
        ensures
            self == EquinoxKind::March ==> t == SolarTerm::SpringEquinox,
            self == EquinoxKind::September ==> t == SolarTerm::AutumnEquinox,
    {
        match self {
            EquinoxKind::March => SolarTerm::SpringEquinox,
            EquinoxKind::September => SolarTerm::AutumnEquinox,
        }
    }
}

/// One of the two directed crossings of the lunar orbit through the ecliptic.
#[derive(Debug, Clone, Copy, PartialEq, Eq, Hash, Structural)]
pub enum LunarNode {
    /// South-to-north ecliptic-latitude crossing.
    Ascending,
    /// North-to-south ecliptic-latitude crossing.
    Descending,
}

/// A typed residual retained by a cycle-boundary root search.
///
/// The angular residual `A` and radial-speed residual `W` are carried unchanged.
#[derive(Debug, Clone, Copy, PartialEq)]
#[non_exhaustive]
pub enum CycleResidual<A, W> {
    /// Signed angular residual from a longitude or latitude criterion.
    Angle(A),
    /// Signed radial-speed residual from a periapsis criterion.
    RadialSpeed(W),
}

/// Numerical convergence evidence for one physical cycle boundary.
#[derive(Debug, Copy, PartialEq)]
pub struct CycleEvidence<S: TimeScale, Q> {
    bracket_start: Instant<S>,
    bracket_end: Instant<S>,
    time_uncertainty: Duration,
    residual: Q,
    iterations: u32,
    evaluations: u32,
}

impl<S: TimeScale, Q: Copy> Clone for CycleEvidence<S, Q> {
    fn clone(&self) -> (r: Self)
        ensures
            r == *self,
    {
        *self
    }
}

impl<S: TimeScale, Q> CycleEvidence<S, Q> {
    /// The final bracket is ordered and the uncertainty is half its width.
    #[verifier::type_invariant]
    closed spec fn consistent(self) -> bool {
        bracket_evidence_consistent(self.bracket_start@, self.bracket_end@, self.time_uncertainty@)
    }

    /// Final inclusive root bracket start.
    pub closed spec fn bracket_start_spec(self) -> Instant<S> {
        self.bracket_start
    }

    /// Final inclusive root bracket end.
    pub closed spec fn bracket_end_spec(self) -> Instant<S> {
        self.bracket_end
    }

    /// Half the final bracket width.
    pub closed spec fn time_uncertainty_spec(self) -> Duration {
        self.time_uncertainty
    }

    /// Final signed criterion residual.
    pub closed spec fn residual_spec(self) -> Q {
        self.residual
    }

    /// Completed Brent iterations.
    pub closed spec fn iterations_spec(self) -> u32 {
        self.iterations
    }

    /// Cumulative ephemeris or astrometric evaluations at this boundary.
    pub closed spec fn evaluations_spec(self) -> u32 {
        self.evaluations
    }
}

impl<S: TimeScale, Q: Copy> CycleEvidence<S, Q> {
    /// Retains the evidence of one refined cycle boundary.
    pub fn new(
        bracket_start: Instant<S>,
        bracket_end: Instant<S>,
        time_uncertainty: Duration,
        residual: Q,
        iterations: u32,
        evaluations: u32,
    ) -> (e: Self)
        requires
            bracket_evidence_consistent(bracket_start@, bracket_end@, time_uncertainty@),
        ensures
            e.bracket_start_spec() == bracket_start,
            e.bracket_end_spec() == bracket_end,
            e.time_uncertainty_spec() == time_uncertainty,
            e.residual_spec() == residual,
            e.iterations_spec() == iterations,
            e.evaluations_spec() == evaluations,
    {
        CycleEvidence { bracket_start, bracket_end, time_uncertainty, residual, iterations, evaluations }
    }

    /// Returns the final inclusive root bracket start.
    pub fn bracket_start(self) -> (t: Instant<S>)
        ensures
            t == self.bracket_start_spec(),
            bracket_evidence_consistent(t@, self.bracket_end_spec()@, self.time_uncertainty_spec()@),
    {
        proof { use_type_invariant(&self); }
        self.bracket_start
    }

    /// Returns the final inclusive root bracket end.
    pub fn bracket_end(self) -> (t: Instant<S>)
        ensures
            t == self.bracket_end_spec(),
            bracket_evidence_consistent(self.bracket_start_spec()@, t@, self.time_uncertainty_spec()@),
    {
        proof { use_type_invariant(&self); }
        self.bracket_end
    }

    /// Returns half the final bracket width.
    pub fn time_uncertainty(self) -> (d: Duration)
        ensures
            d == self.time_uncertainty_spec(),
            bracket_evidence_consistent(self.bracket_start_spec()@, self.bracket_end_spec()@, d@),
    {
        proof { use_type_invariant(&self); }
        self.time_uncertainty
    }

    /// Returns the final signed criterion residual.
    pub fn residual(self) -> (q: Q)
        ensures
            q == self.residual_spec(),
    {
        self.residual
    }

    /// Returns the completed Brent iterations.
    pub fn iterations(self) -> (n: u32)
        ensures
            n == self.iterations_spec(),
    {
        self.iterations
    }

    /// Returns the cumulative ephemeris or astrometric evaluations at this boundary.
    pub fn evaluations(self) -> (n: u32)
        ensures
            n == self.evaluations_spec(),
    {
        self.evaluations
    }
}

impl<S: TimeScale, A: Copy, W: Copy> CycleEvidence<S, CycleResidual<A, W>> {
    /// Converts angular-event evidence into cycle evidence with an angular residual.
    pub fn from_angular(value: EventEvidence<S, A>) -> (e: Self)
        ensures
            e.bracket_start_spec() == value.bracket_start_spec(),
            e.bracket_end_spec() == value.bracket_end_spec(),
            e.time_uncertainty_spec() == value.time_uncertainty_spec(),
            e.residual_spec() == CycleResidual::<A, W>::Angle(value.residual_spec()),
            e.iterations_spec() == value.iterations_spec(),
            e.evaluations_spec() == value.evaluations_spec(),
    {
        let residual = *value.residual();
        CycleEvidence::new(
            value.bracket_start(),
            value.bracket_end(),
            value.time_uncertainty(),
            CycleResidual::Angle(residual),
            value.iterations(),
            value.evaluations(),
        )
    }
}

/// One refined physical event that can delimit a measured cycle.
///
/// The physical criterion state `E` at the event is carried unchanged.
#[derive(Debug, Copy, PartialEq)]
pub struct CycleBoundary<S: TimeScale, E, Q> {
    /// Physical event instant.
    pub instant: Instant<S>,
    /// Physical criterion state at the event.
    pub event: E,
    /// Numerical root-search evidence.
    pub evidence: CycleEvidence<S, Q>,
}

/// Cycle boundaries of one search carry no label: every boundary is compared with the latest.
impl<S: TimeScale, E, Q> LabelledEvent<S> for CycleBoundary<S, E, Q> {
    open spec fn instant_spec(&self) -> Instant<S> {
        self.instant
    }

    open spec fn same_label_spec(&self, other: &Self) -> bool {
        true
    }

    fn record_instant(&self) -> (t: Instant<S>) {
        self.instant
    }

    fn same_label(&self, other: &Self) -> (b: bool) {
        true
    }
}

impl<S: TimeScale, E: Copy, Q: Copy> Clone for CycleBoundary<S, E, Q> {
    fn clone(&self) -> (r: Self)
        ensures
            r == *self,
    {
        *self
    }
}

impl<S: TimeScale, E: Copy, Q: Copy> CycleBoundary<S, E, Q> {
    /// Retains one refined cycle boundary.
    pub fn new(instant: Instant<S>, event: E, evidence: CycleEvidence<S, Q>) -> (b: Self)
        ensures
            b == (CycleBoundary { instant, event, evidence }),
    {
        CycleBoundary { instant, event, evidence }
    }

    /// Returns the physical event instant.
    pub fn instant(self) -> (t: Instant<S>)
        ensures
            t == self.instant,
    {
        self.instant
    }

    /// Returns the physical criterion state at the event.
    pub fn event(self) -> (e: E)
        ensures
            e == self.event,
    {
        self.event
    }

    /// Returns the numerical root-search evidence.
    pub fn evidence(self) -> (e: CycleEvidence<S, Q>)
        ensures
            e == self.evidence,
    {
        self.evidence
    }
}

/// Reproducibility metadata for an event-measured astronomical cycle.
///
/// The ephemeris provenance `P` is carried unchanged.
#[derive(Debug, Clone, Copy, PartialEq, Eq)]
pub struct CycleModel<P> {
    /// Stable physical event criterion description.
    pub criterion: &'static str,
    /// Reference axes and equinox convention.
    pub reference_axes: &'static str,
    /// Exact model and data provenance used by the measurement.
    pub ephemeris: P,
}

impl<P> CycleModel<P> {
    /// Records the criterion, axes, and provenance of a measurement.
    pub fn new(criterion: &'static str, reference_axes: &'static str, ephemeris: P) -> (m: Self)
        ensures
            m == (CycleModel { criterion, reference_axes, ephemeris }),
    {
        CycleModel { criterion, reference_axes, ephemeris }
    }

    /// Returns the stable physical event criterion description.
    pub fn criterion(&self) -> (c: &'static str)
        ensures
            c == self.criterion,
    {
        self.criterion
    }

    /// Returns the reference axes and equinox convention.
    pub fn reference_axes(&self) -> (a: &'static str)
        ensures
            a == self.reference_axes,
    {
        self.reference_axes
    }

    /// Returns the exact model and data provenance used by the measurement.
    pub fn provenance(&self) -> (p: &P)
        ensures
            *p == self.ephemeris,
    {
        &self.ephemeris
    }
}

/// One astronomical cycle measured between adjacent same-kind physical events.
#[derive(Debug, PartialEq)]
pub struct MeasuredCycle<K: CycleKind, S: TimeScale, E, Q, P> {
    start: CycleBoundary<S, E, Q>,
    end: CycleBoundary<S, E, Q>,
    duration: Duration,
    model: CycleModel<P>,
    kind: PhantomData<K>,
}

impl<K: CycleKind, S: TimeScale, E: Copy, Q: Copy, P: Copy> MeasuredCycle<K, S, E, Q, P> {
    /// The first boundary.
    pub closed spec fn start_spec(&self) -> CycleBoundary<S, E, Q> {
        self.start
    }

    /// The adjacent same-kind boundary.
    pub closed spec fn end_spec(&self) -> CycleBoundary<S, E, Q> {
        self.end
    }

    /// The physical interval between the boundaries.
    pub closed spec fn duration_spec(&self) -> Duration {
        self.duration
    }

    /// The measurement metadata.
    pub closed spec fn model_spec(&self) -> CycleModel<P> {
        self.model
    }

    /// Measures the cycle between two boundaries; its duration is the exact
    /// difference of their instants.
    pub fn new(start: CycleBoundary<S, E, Q>, end: CycleBoundary<S, E, Q>, model: CycleModel<P>) -> (r: Result<Self, Error>)
        ensures
            r is Ok <==> fits_i128(end.instant@ - start.instant@),
            r matches Ok(c) ==> c.start_spec() == start && c.end_spec() == end && c.model_spec() == model
                && c.duration_spec()@ == end.instant@ - start.instant@,
            r matches Err(e) ==> e == Error::Time(crate::time::Error::Overflow { operation: "differencing instants" }),
    {
        match end.instant.duration_since(start.instant) {
            Ok(duration) => Ok(MeasuredCycle { start, end, duration, model, kind: PhantomData }),
            Err(e) => Err(Error::Time(e)),
        }
    }

    /// Returns the stable cycle-kind name.
    pub fn kind_name(&self) -> (n: &'static str)
        ensures
            n@ == K::spec_name(),
    {
        K::name()
    }

    /// Returns the first physical boundary event.
    pub fn start(&self) -> (b: CycleBoundary<S, E, Q>)
        ensures
            b == self.start_spec(),
    {
        self.start
    }

    /// Returns the adjacent same-kind physical boundary event.
    pub fn end(&self) -> (b: CycleBoundary<S, E, Q>)
        ensures
            b == self.end_spec(),
    {
        self.end
    }

    /// Returns the actual physical interval between the boundaries.
    pub fn duration(&self) -> (d: Duration)
        ensures
            d == self.duration_spec(),
    {
        self.duration
    }

    /// Returns the criterion, axes, and exact ephemeris provenance.
    pub fn model(&self) -> (m: &CycleModel<P>)
        ensures
            *m == self.model_spec(),
    {
        &self.model
    }
}

/// Measures every cycle between adjacent boundaries, in boundary order.
///
/// Cycle `i` runs from boundary `i` to boundary `i + 1`; every cycle shares the model.
pub fn cycles_from_boundaries<K: CycleKind, S: TimeScale, E: Copy, Q: Copy, P: Copy>(
    boundaries: &Vec<CycleBoundary<S, E, Q>>,
    model: CycleModel<P>,
) -> (r: Result<Vec<MeasuredCycle<K, S, E, Q, P>>, Error>)
    ensures
        r is Ok <==> forall|i: int| 0 <= i < boundaries@.len() - 1 ==> fits_i128(
            #[trigger] boundaries@[i + 1].instant@ - boundaries@[i].instant@,
        ),
        r matches Ok(cycles) ==> {
            &&& cycles@.len() == if boundaries@.len() == 0 { 0 } else { boundaries@.len() - 1 }
            &&& forall|i: int| 0 <= i < cycles@.len() ==> {
                &&& (#[trigger] cycles@[i]).start_spec() == boundaries@[i]
                &&& cycles@[i].end_spec() == boundaries@[i + 1]
                &&& cycles@[i].duration_spec()@ == boundaries@[i + 1].instant@ - boundaries@[i].instant@
                &&& cycles@[i].model_spec() == model
            }
        },
        r matches Err(e) ==> e == Error::Time(crate::time::Error::Overflow { operation: "differencing instants" }),
{
    let mut cycles: Vec<MeasuredCycle<K, S, E, Q, P>> = Vec::new();
    if boundaries.len() == 0 {
        return Ok(cycles);
    }
    let mut i: usize = 0;
    while i < boundaries.len() - 1
        invariant
            boundaries@.len() > 0,
            i + 1 <= boundaries@.len(),
            cycles@.len() == i,
            forall|k: int| 0 <= k < i ==> fits_i128(#[trigger] boundaries@[k + 1].instant@ - boundaries@[k].instant@),
            forall|k: int| 0 <= k < cycles@.len() ==> {
                &&& (#[trigger] cycles@[k]).start_spec() == boundaries@[k]
                &&& cycles@[k].end_spec() == boundaries@[k + 1]
                &&& cycles@[k].duration_spec()@ == boundaries@[k + 1].instant@ - boundaries@[k].instant@
                &&& cycles@[k].model_spec() == model
            },
        decreases boundaries@.len() - i,
    {
        match MeasuredCycle::new(boundaries[i], boundaries[i + 1], model) {
            Ok(cycle) => cycles.push(cycle),
            Err(e) => {
                return Err(e);
            },
        }
        i = i + 1;
    }
    Ok(cycles)
}

/// The total duration of a sequence of measured cycles.
pub open spec fn total_cycle_duration<K: CycleKind, S: TimeScale, E: Copy, Q: Copy, P: Copy>(cycles: Seq<MeasuredCycle<K, S, E, Q, P>>) -> int
    decreases cycles.len(),
{
    if cycles.len() == 0 {
        0
    } else {
        total_cycle_duration(cycles.drop_last()) + cycles.last().duration_spec()@
    }
}

/// Cycles measured between consecutive boundaries tile the whole span: each
/// cycle ends where the next begins, and their durations add up to the time
/// from the first boundary to the last.
pub proof fn measured_cycles_tile_the_span<K: CycleKind, S: TimeScale, E: Copy, Q: Copy, P: Copy>(
    boundaries: Seq<CycleBoundary<S, E, Q>>,
    cycles: Seq<MeasuredCycle<K, S, E, Q, P>>,
)
    requires
        boundaries.len() > 0,
        cycles.len() == boundaries.len() - 1,
        forall|i: int| 0 <= i < cycles.len() ==> {
            &&& (#[trigger] cycles[i]).start_spec() == boundaries[i]
            &&& cycles[i].end_spec() == boundaries[i + 1]
            &&& cycles[i].duration_spec()@ == boundaries[i + 1].instant@ - boundaries[i].instant@
        },
    ensures
        forall|i: int| 0 <= i < cycles.len() - 1 ==> (#[trigger] cycles[i]).end_spec() == cycles[i + 1].start_spec(),
        total_cycle_duration(cycles) == boundaries.last().instant@ - boundaries[0].instant@,
    decreases cycles.len(),
{
    assert forall|i: int| 0 <= i < cycles.len() - 1 implies (#[trigger] cycles[i]).end_spec() == cycles[i + 1].start_spec() by {
        assert(cycles[i + 1].start_spec() == boundaries[i + 1]);
    }
    if cycles.len() > 0 {
        let shorter = boundaries.drop_last();
        let fewer = cycles.drop_last();
        assert forall|i: int| 0 <= i < fewer.len() implies {
            &&& (#[trigger] fewer[i]).start_spec() == shorter[i]
            &&& fewer[i].end_spec() == shorter[i + 1]
            &&& fewer[i].duration_spec()@ == shorter[i + 1].instant@ - shorter[i].instant@
        } by {
            assert(fewer[i] == cycles[i]);
        }
        measured_cycles_tile_the_span(shorter, fewer);
        let last = cycles.len() - 1;
        assert(cycles[last].duration_spec()@ == boundaries[last + 1].instant@ - boundaries[last].instant@);
    }
}

/// The shortest and longest of a non-empty sample bound every duration in it and occur in it.
pub proof fn cycle_extremes_bound_the_sample(durations: Seq<Duration>)
    requires
        durations.len() > 0,
    ensures
        forall|i: int| 0 <= i < durations.len() ==> seq_minimum(durations) <= (#[trigger] durations[i])@ <= seq_maximum(
            durations,
        ),
        exists|i: int| 0 <= i < durations.len() && (#[trigger] durations[i])@ == seq_minimum(durations),
        exists|i: int| 0 <= i < durations.len() && (#[trigger] durations[i])@ == seq_maximum(durations),
    decreases durations.len(),
{
    if durations.len() > 1 {
        let rest = durations.drop_last();
        cycle_extremes_bound_the_sample(rest);
        let last = durations.len() - 1;
        assert forall|i: int| 0 <= i < durations.len() implies seq_minimum(durations) <= (#[trigger] durations[i])@
            <= seq_maximum(durations) by {
            if i < last {
                assert(durations[i] == rest[i]);
            }
        }
        let a = choose|i: int| 0 <= i < rest.len() && (#[trigger] rest[i])@ == seq_minimum(rest);
        let b = choose|i: int| 0 <= i < rest.len() && (#[trigger] rest[i])@ == seq_maximum(rest);
        assert(durations[a] == rest[a]);
        assert(durations[b] == rest[b]);
        if durations[last]@ < seq_minimum(rest) {
            assert(durations[last]@ == seq_minimum(durations));
        } else {
            assert(durations[a]@ == seq_minimum(durations));
        }
        if durations[last]@ > seq_maximum(rest) {
            assert(durations[last]@ == seq_maximum(durations));
        } else {
            assert(durations[b]@ == seq_maximum(durations));
        }
    } else {
        assert(durations[0]@ == seq_minimum(durations));
        assert(durations[0]@ == seq_maximum(durations));
    }
}

/// The shortest of a non-empty sequence of durations.
pub open spec fn seq_minimum(durations: Seq<Duration>) -> int
    decreases durations.len(),
{
    if durations.len() <= 1 {
        durations[0]@
    } else {
        let rest = seq_minimum(durations.drop_last());
        if durations.last()@ < rest { durations.last()@ } else { rest }
    }
}

/// The longest of a non-empty sequence of durations.
pub open spec fn seq_maximum(durations: Seq<Duration>) -> int
    decreases durations.len(),
{
    if durations.len() <= 1 {
        durations[0]@
    } else {
        let rest = seq_maximum(durations.drop_last());
        if durations.last()@ > rest { durations.last()@ } else { rest }
    }
}

/// Descriptive statistics over complete measured cycles of one kind.
#[derive(Debug, PartialEq)]
pub struct CycleStatistics<K: CycleKind> {
    count: usize,
    minimum: Duration,
    maximum: Duration,
    mean: Duration,
    standard_deviation: Duration,
    kind: PhantomData<K>,
}

impl<K: CycleKind> CycleStatistics<K> {
    /// The number of cycles.
    pub closed spec fn count_spec(&self) -> usize {
        self.count
    }

    /// The shortest cycle.
    pub closed spec fn minimum_spec(&self) -> Duration {
        self.minimum
    }

    /// The longest cycle.
    pub closed spec fn maximum_spec(&self) -> Duration {
        self.maximum
    }

    /// The mean cycle.
    pub closed spec fn mean_spec(&self) -> Duration {
        self.mean
    }

    /// The population standard deviation.
    pub closed spec fn standard_deviation_spec(&self) -> Duration {
        self.standard_deviation
    }

    /// Summarizes the durations of one or more complete cycles.
    ///
    /// Counts the cycles and finds the shortest and longest exactly; the mean
    /// and population standard deviation are supplied by the caller, who
    /// computes them in floating point. Fails with `EmptyCycleSample` when
    /// there is no cycle.
    pub fn from_durations(durations: &Vec<Duration>, mean: Duration, standard_deviation: Duration) -> (r: Result<Self, Error>)
        ensures
            r is Ok <==> durations@.len() > 0,
            r is Err ==> r == Err::<Self, Error>(Error::EmptyCycleSample),
            r matches Ok(s) ==> {
                &&& s.count_spec() == durations@.len()
                &&& s.minimum_spec()@ == seq_minimum(durations@)
                &&& s.maximum_spec()@ == seq_maximum(durations@)
                &&& s.mean_spec() == mean
                &&& s.standard_deviation_spec() == standard_deviation
            },
    {
        if durations.len() == 0 {
            return Err(Error::EmptyCycleSample);
        }
        let mut minimum = durations[0];
        let mut maximum = durations[0];
        let mut i: usize = 1;
        while i < durations.len()
            invariant
                1 <= i <= durations@.len(),
                minimum@ == seq_minimum(durations@.take(i as int)),
                maximum@ == seq_maximum(durations@.take(i as int)),
            decreases durations@.len() - i,
        {
            proof {
                assert(durations@.take(i as int + 1).drop_last() == durations@.take(i as int));
            }
            minimum = minimum.min(durations[i]);
            maximum = maximum.max(durations[i]);
            i = i + 1;
        }
        proof {
            assert(durations@.take(durations@.len() as int) == durations@);
        }
        Ok(CycleStatistics {
            count: durations.len(),
            minimum,
            maximum,
            mean,
            standard_deviation,
            kind: PhantomData,
        })
    }

    /// Summarizes one or more complete measured cycles.
    ///
    /// Counts the cycles and finds the shortest and longest durations exactly;
    /// the mean and population standard deviation are supplied by the caller,
    /// who computes them in floating point. Fails with `EmptyCycleSample` when
    /// there is no cycle.
    pub fn from_cycles<S: TimeScale, E: Copy, Q: Copy, P: Copy>(
        cycles: &Vec<MeasuredCycle<K, S, E, Q, P>>,
        mean: Duration,
        standard_deviation: Duration,
    ) -> (r: Result<Self, Error>)
        ensures
            r is Ok <==> cycles@.len() > 0,
            r is Err ==> r == Err::<Self, Error>(Error::EmptyCycleSample),
            r matches Ok(s) ==> {
                let durations = cycles@.map_values(|c: MeasuredCycle<K, S, E, Q, P>| c.duration_spec());
                &&& s.count_spec() == cycles@.len()
                &&& s.minimum_spec()@ == seq_minimum(durations)
                &&& s.maximum_spec()@ == seq_maximum(durations)
                &&& s.mean_spec() == mean
                &&& s.standard_deviation_spec() == standard_deviation
            },
    {
        let mut durations: Vec<Duration> = Vec::new();
        let mut i: usize = 0;
        while i < cycles.len()
            invariant
                i <= cycles@.len(),
                durations@ == cycles@.take(i as int).map_values(|c: MeasuredCycle<K, S, E, Q, P>| c.duration_spec()),
            decreases cycles@.len() - i,
        {
            durations.push(cycles[i].duration());
            proof {
                assert(cycles@.take(i as int + 1).map_values(|c: MeasuredCycle<K, S, E, Q, P>| c.duration_spec())
                    =~= cycles@.take(i as int).map_values(|c: MeasuredCycle<K, S, E, Q, P>| c.duration_spec()).push(
                    cycles@[i as int].duration_spec(),
                ));
            }
            i = i + 1;
        }
        proof {
            assert(cycles@.take(cycles@.len() as int) =~= cycles@);
        }
        Self::from_durations(&durations, mean, standard_deviation)
    }

    /// Returns the number of complete cycles in the sample.
    pub fn count(&self) -> (n: usize)
        ensures
            n == self.count_spec(),
    {
        self.count
    }

    /// Returns the shortest measured cycle.
    pub fn minimum(&self) -> (d: Duration)
        ensures
            d == self.minimum_spec(),
    {
        self.minimum
    }

    /// Returns the longest measured cycle.
    pub fn maximum(&self) -> (d: Duration)
        ensures
            d == self.maximum_spec(),
    {
        self.maximum
    }

    /// Returns the arithmetic mean duration.
    pub fn mean(&self) -> (d: Duration)
        ensures
            d == self.mean_spec(),
    {
        self.mean
    }

    /// Returns the population standard deviation.
    pub fn standard_deviation(&self) -> (d: Duration)
        ensures
            d == self.standard_deviation_spec(),
    {
        self.standard_deviation
    }
}

/// A local mean cycle obtained from an explicit numerical model rather than adjacent events.
///
/// The model's validity range `V` is carried unchanged.
#[derive(Debug, PartialEq)]
pub struct ModeledCycle<K: CycleKind, S: TimeScale, V> {
    evaluation_epoch: Instant<S>,
    duration: Duration,
    model_identifier: &'static str,
    validity: V,
    kind: PhantomData<K>,
}

impl<K: CycleKind, S: TimeScale, V: Copy> ModeledCycle<K, S, V> {
    /// The evaluation epoch.
    pub closed spec fn evaluation_epoch_spec(&self) -> Instant<S> {
        self.evaluation_epoch
    }

    /// The modeled duration.
    pub closed spec fn duration_spec(&self) -> Duration {
        self.duration
    }

    /// The model identifier.
    pub closed spec fn model_identifier_spec(&self) -> &'static str {
        self.model_identifier
    }

    /// The carried validity range.
    pub closed spec fn validity_spec(&self) -> V {
        self.validity
    }

    /// Retains one modeled local mean cycle.
    pub fn new(evaluation_epoch: Instant<S>, duration: Duration, model_identifier: &'static str, validity: V) -> (c: Self)
        ensures
            c.evaluation_epoch_spec() == evaluation_epoch,
            c.duration_spec() == duration,
            c.model_identifier_spec() == model_identifier,
            c.validity_spec() == validity,
    {
        ModeledCycle { evaluation_epoch, duration, model_identifier, validity, kind: PhantomData }
    }

    /// Returns the stable cycle-kind name.
    pub fn kind_name(&self) -> (n: &'static str)
        ensures
            n@ == K::spec_name(),
    {
        K::name()
    }

    /// Returns the physical epoch at which the local mean was evaluated.
    pub fn evaluation_epoch(&self) -> (t: Instant<S>)
        ensures
            t == self.evaluation_epoch_spec(),
    {
        self.evaluation_epoch
    }

    /// Returns the modeled local mean duration.
    pub fn duration(&self) -> (d: Duration)
        ensures
            d == self.duration_spec(),
    {
        self.duration
    }

    /// Returns the stable numerical-model identifier.
    pub fn model_identifier(&self) -> (m: &'static str)
        ensures
            m == self.model_identifier_spec(),
    {
        self.model_identifier
    }

    /// Returns the model's closed recommended Julian-epoch range.
    pub fn validity(&self) -> (v: V)
        ensures
            v == self.validity_spec(),
    {
        self.validity
    }
}

} // verus!
