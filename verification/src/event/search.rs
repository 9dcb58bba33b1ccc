use vstd::prelude::*;

use crate::time::{fits_i128, Duration, Instant, TimeScale, NANOSECONDS_PER_DAY};

use super::configuration::{sign_of, ResidualSign};
use super::Error;

verus! {

/// Seven days in nanoseconds: the largest coarse step for angular events and extrema.
pub open spec fn spec_angular_max_scan_step() -> int {
    7 * 86_400_000_000_000int
}

/// The error reported for a scan step outside `(0, maximum]`.
pub open spec fn scan_step_error(field: &'static str, step: int, maximum: int) -> Error {
    Error::InvalidSearchDuration {
        field,
        nanoseconds: step as i128,
        maximum_nanoseconds: maximum as i128,
    }
}

/// Checks that a duration lies in `(0, maximum]`, naming the field on failure.
pub(crate) fn check_positive_duration(field: &'static str, value: Duration, maximum: Duration) -> (r: Result<(), Error>)
    ensures
        r is Ok <==> 0 < value@ <= maximum@,
        r is Err ==> r == Err::<(), Error>(scan_step_error(field, value@, maximum@)),
{
    let v = value.as_nanoseconds();
    let m = maximum.as_nanoseconds();
    if v <= 0 || v > m {
        return Err(Error::InvalidSearchDuration { field, nanoseconds: v, maximum_nanoseconds: m });
    }
    Ok(())
}

/// Checks that an iteration or evaluation budget is positive, naming the field on failure.
pub(crate) fn check_positive_limit(field: &'static str, value: u32) -> (r: Result<(), Error>)
    ensures
        r is Ok <==> value > 0,
        r is Err ==> r == Err::<(), Error>(Error::InvalidSearchLimit { field, value }),
{
    if value == 0 {
        return Err(Error::InvalidSearchLimit { field, value });
    }
    Ok(())
}

/// Returns the largest supported coarse step for monotonic angular-event scanning (seven days).
pub fn angular_max_scan_step() -> (d: Duration)
    ensures
        d@ == spec_angular_max_scan_step(),
        d == Duration::spec_from_nanoseconds((7 * NANOSECONDS_PER_DAY) as i128),
{
    Duration::from_nanoseconds(7 * NANOSECONDS_PER_DAY)
}

/// Explicit scanning, refinement, and evaluation controls for angular events.
///
/// The angular tolerance `A` and reception light-time controls `L` are carried unchanged.
#[derive(Debug, Copy, PartialEq)]
pub struct AngularEventSearchOptions<A, L> {
    scan_step: Duration,
    time_tolerance: Duration,
    angular_tolerance: A,
    max_refinement_iterations: u32,
    max_evaluations: u32,
    light_time: L,
}

/// The outcome of validating angular-event controls, in the order the checks are made.
pub open spec fn angular_options_outcome(
    scan_step: int,
    time_tolerance: int,
    angular_tolerance_in_range: bool,
    max_refinement_iterations: u32,
    max_evaluations: u32,
) -> Option<Error> {
    if !(0 < scan_step <= spec_angular_max_scan_step()) {
        Some(scan_step_error("angular-event scan step", scan_step, spec_angular_max_scan_step()))
    } else if !(0 < time_tolerance <= scan_step) {
        Some(scan_step_error("angular-event time tolerance", time_tolerance, scan_step))
    } else if !angular_tolerance_in_range {
        Some(Error::InvalidAngularTolerance { field: "angular-event tolerance" })
    } else if max_refinement_iterations == 0 {
        Some(Error::InvalidSearchLimit { field: "angular-event refinement iterations", value: 0 })
    } else if max_evaluations == 0 {
        Some(Error::InvalidSearchLimit { field: "angular-event evaluations", value: 0 })
    } else {
        None
    }
}

impl<A: Copy, L: Copy> Clone for AngularEventSearchOptions<A, L> {
    fn clone(&self) -> (r: Self)
        ensures
            r == *self,
    {
        *self
    }
}

impl<A, L> AngularEventSearchOptions<A, L> {
    /// The coarse scanning step.
    pub closed spec fn scan_step_spec(&self) -> Duration {
        self.scan_step
    }

    /// The final time-bracket width.
    pub closed spec fn time_tolerance_spec(&self) -> Duration {
        self.time_tolerance
    }

    /// The carried angular tolerance.
    pub closed spec fn angular_tolerance_spec(&self) -> A {
        self.angular_tolerance
    }

    /// The refinement iteration budget per event.
    pub closed spec fn max_refinement_iterations_spec(&self) -> u32 {
        self.max_refinement_iterations
    }

    /// The evaluation budget per search.
    pub closed spec fn max_evaluations_spec(&self) -> u32 {
        self.max_evaluations
    }

    /// The carried light-time controls.
    pub closed spec fn light_time_spec(&self) -> L {
        self.light_time
    }

    /// Validated options satisfy every bound that `new` checks.
    #[verifier::type_invariant]
    closed spec fn well_formed(&self) -> bool {
        &&& 0 < self.scan_step@ <= spec_angular_max_scan_step()
        &&& 0 < self.time_tolerance@ <= self.scan_step@
        &&& self.max_refinement_iterations > 0
        &&& self.max_evaluations > 0
    }

    /// Constructs validated controls for scanning and refining angular events.
    ///
    /// `angular_tolerance_in_range` states whether the tolerance lies in `(0°, 7.5°]`.
    /// The checks are made in order: scan step in `(0, 7 d]`, time tolerance in
    /// `(0, scan step]`, angular tolerance, refinement iterations, evaluations.
    pub fn new(
        scan_step: Duration,
        time_tolerance: Duration,
        angular_tolerance: A,
        angular_tolerance_in_range: bool,
        max_refinement_iterations: u32,
        max_evaluations: u32,
        light_time: L,
    ) -> (r: Result<Self, Error>)
        ensures
            r is Ok <==> angular_options_outcome(
                scan_step@,
                time_tolerance@,
                angular_tolerance_in_range,
                max_refinement_iterations,
                max_evaluations,
            ) is None,
            r matches Err(e) ==> Some(e) == angular_options_outcome(
                scan_step@,
                time_tolerance@,
                angular_tolerance_in_range,
                max_refinement_iterations,
                max_evaluations,
            ),
            r matches Ok(o) ==> o.scan_step_spec() == scan_step && o.time_tolerance_spec()
                == time_tolerance && o.angular_tolerance_spec() == angular_tolerance
                && o.max_refinement_iterations_spec() == max_refinement_iterations
                && o.max_evaluations_spec() == max_evaluations && o.light_time_spec() == light_time,
    {
        let max = angular_max_scan_step();
        if let Err(e) = check_positive_duration("angular-event scan step", scan_step, max) {
            return Err(e);
        }
        if let Err(e) = check_positive_duration("angular-event time tolerance", time_tolerance, scan_step) {
            return Err(e);
        }
        if !angular_tolerance_in_range {
            return Err(Error::InvalidAngularTolerance { field: "angular-event tolerance" });
        }
        if let Err(e) = check_positive_limit("angular-event refinement iterations", max_refinement_iterations) {
            return Err(e);
        }
        if let Err(e) = check_positive_limit("angular-event evaluations", max_evaluations) {
            return Err(e);
        }
        Ok(AngularEventSearchOptions {
            scan_step,
            time_tolerance,
            angular_tolerance,
            max_refinement_iterations,
            max_evaluations,
            light_time,
        })
    }

    /// The standard controls around a supplied angular tolerance and light-time controls.
    pub closed spec fn standard_spec(angular_tolerance: A, light_time: L) -> Self {
        AngularEventSearchOptions {
            scan_step: Duration::spec_from_nanoseconds((7 * NANOSECONDS_PER_DAY) as i128),
            time_tolerance: Duration::spec_from_nanoseconds(1_000_000),
            angular_tolerance,
            max_refinement_iterations: 64,
            max_evaluations: 4_096,
            light_time,
        }
    }

    /// Returns seven-day scanning, one-millisecond timing, 64 iterations and 4096 evaluations.
    ///
    /// The standard angular tolerance (ten picoradians) and light-time controls are supplied.
    pub fn standard(angular_tolerance: A, light_time: L) -> (o: Self)
        ensures
            o == Self::standard_spec(angular_tolerance, light_time),
            o.scan_step_spec()@ == spec_angular_max_scan_step(),
            o.time_tolerance_spec()@ == 1_000_000,
            o.angular_tolerance_spec() == angular_tolerance,
            o.max_refinement_iterations_spec() == 64,
            o.max_evaluations_spec() == 4096,
            o.light_time_spec() == light_time,
            angular_options_outcome(
                o.scan_step_spec()@,
                o.time_tolerance_spec()@,
                true,
                o.max_refinement_iterations_spec(),
                o.max_evaluations_spec(),
            ) is None,
    {
        AngularEventSearchOptions {
            scan_step: angular_max_scan_step(),
            time_tolerance: Duration::from_nanoseconds(1_000_000),
            angular_tolerance,
            max_refinement_iterations: 64,
            max_evaluations: 4_096,
            light_time,
        }
    }

    /// Returns the maximum physical duration between coarse samples.
    pub fn scan_step(&self) -> (d: Duration)
        ensures
            d == self.scan_step_spec(),
            0 < d@ <= spec_angular_max_scan_step(),
    {
        proof { use_type_invariant(self); }
        self.scan_step
    }

    /// Returns the required final time-bracket width.
    pub fn time_tolerance(&self) -> (d: Duration)
        ensures
            d == self.time_tolerance_spec(),
            0 < d@ <= self.scan_step_spec()@,
    {
        proof { use_type_invariant(self); }
        self.time_tolerance
    }

    /// Returns the maximum accepted angular residual.
    pub fn angular_tolerance(&self) -> (a: &A)
        ensures
            *a == self.angular_tolerance_spec(),
    {
        &self.angular_tolerance
    }

    /// Returns the maximum Brent refinement iterations per event.
    pub fn max_refinement_iterations(&self) -> (n: u32)
        ensures
            n == self.max_refinement_iterations_spec(),
            n > 0,
    {
        proof { use_type_invariant(self); }
        self.max_refinement_iterations
    }

    /// Returns the maximum astrometric evaluations for one search.
    pub fn max_evaluations(&self) -> (n: u32)
        ensures
            n == self.max_evaluations_spec(),
            n > 0,
    {
        proof { use_type_invariant(self); }
        self.max_evaluations
    }

    /// Returns the reception light-time controls used for each apparent position.
    pub fn light_time(&self) -> (l: &L)
        ensures
            *l == self.light_time_spec(),
    {
        &self.light_time
    }
}


/// The outcome of validating extremum controls, in the order the checks are made.
pub open spec fn extremum_options_outcome(
    scan_step: int,
    time_tolerance: int,
    max_refinement_iterations: u32,
    max_evaluations: u32,
) -> Option<Error> {
    if !(0 < scan_step <= spec_angular_max_scan_step()) {
        Some(scan_step_error("extremum scan step", scan_step, spec_angular_max_scan_step()))
    } else if !(0 < time_tolerance <= scan_step) {
        Some(scan_step_error("extremum time tolerance", time_tolerance, scan_step))
    } else if max_refinement_iterations == 0 {
        Some(Error::InvalidSearchLimit { field: "extremum refinement iterations", value: 0 })
    } else if max_evaluations == 0 {
        Some(Error::InvalidSearchLimit { field: "extremum evaluations", value: 0 })
    } else {
        None
    }
}

/// Explicit scanning, refinement, and evaluation controls for bounded astronomical extrema.
///
/// The reception light-time controls `L` are carried unchanged.
#[derive(Debug, Copy, PartialEq)]
pub struct ExtremumSearchOptions<L> {
    scan_step: Duration,
    time_tolerance: Duration,
    max_refinement_iterations: u32,
    max_evaluations: u32,
    light_time: L,
}

impl<L: Copy> Clone for ExtremumSearchOptions<L> {
    fn clone(&self) -> (r: Self)
        ensures
            r == *self,
    {
        *self
    }
}

impl<L> ExtremumSearchOptions<L> {
    /// The coarse scanning step.
    pub closed spec fn scan_step_spec(&self) -> Duration {
        self.scan_step
    }

    /// The final time-bracket width.
    pub closed spec fn time_tolerance_spec(&self) -> Duration {
        self.time_tolerance
    }

    /// The refinement iteration budget per extremum.
    pub closed spec fn max_refinement_iterations_spec(&self) -> u32 {
        self.max_refinement_iterations
    }

    /// The evaluation budget per search.
    pub closed spec fn max_evaluations_spec(&self) -> u32 {
        self.max_evaluations
    }

    /// The carried light-time controls.
    pub closed spec fn light_time_spec(&self) -> L {
        self.light_time
    }

    /// Validated options satisfy every bound that `new` checks.
    #[verifier::type_invariant]
    closed spec fn well_formed(&self) -> bool {
        &&& 0 < self.scan_step@ <= spec_angular_max_scan_step()
        &&& 0 < self.time_tolerance@ <= self.scan_step@
        &&& self.max_refinement_iterations > 0
        &&& self.max_evaluations > 0
    }

    /// Constructs validated controls for scanning and refining extrema.
    ///
    /// The checks are made in order: scan step in `(0, 7 d]`, time tolerance in
    /// `(0, scan step]`, refinement iterations, evaluations.
    pub fn new(
        scan_step: Duration,
        time_tolerance: Duration,
        max_refinement_iterations: u32,
        max_evaluations: u32,
        light_time: L,
    ) -> (r: Result<Self, Error>)
        ensures
            r is Ok <==> extremum_options_outcome(
                scan_step@,
                time_tolerance@,
                max_refinement_iterations,
                max_evaluations,
            ) is None,
            r matches Err(e) ==> Some(e) == extremum_options_outcome(
                scan_step@,
                time_tolerance@,
                max_refinement_iterations,
                max_evaluations,
            ),
            r matches Ok(o) ==> o.scan_step_spec() == scan_step && o.time_tolerance_spec()
                == time_tolerance && o.max_refinement_iterations_spec() == max_refinement_iterations
                && o.max_evaluations_spec() == max_evaluations && o.light_time_spec() == light_time,
    {
        let max = angular_max_scan_step();
        if let Err(e) = check_positive_duration("extremum scan step", scan_step, max) {
            return Err(e);
        }
        if let Err(e) = check_positive_duration("extremum time tolerance", time_tolerance, scan_step) {
            return Err(e);
        }
        if let Err(e) = check_positive_limit("extremum refinement iterations", max_refinement_iterations) {
            return Err(e);
        }
        if let Err(e) = check_positive_limit("extremum evaluations", max_evaluations) {
            return Err(e);
        }
        Ok(ExtremumSearchOptions {
            scan_step,
            time_tolerance,
            max_refinement_iterations,
            max_evaluations,
            light_time,
        })
    }

    /// Returns seven-day scanning, one-millisecond timing, 64 iterations and 4096 evaluations.
    ///
    /// The standard light-time controls are supplied.
    pub fn standard(light_time: L) -> (o: Self)
        ensures
            o.scan_step_spec()@ == spec_angular_max_scan_step(),
            o.time_tolerance_spec()@ == 1_000_000,
            o.max_refinement_iterations_spec() == 64,
            o.max_evaluations_spec() == 4096,
            o.light_time_spec() == light_time,
            extremum_options_outcome(
                o.scan_step_spec()@,
                o.time_tolerance_spec()@,
                o.max_refinement_iterations_spec(),
                o.max_evaluations_spec(),
            ) is None,
    {
        ExtremumSearchOptions {
            scan_step: angular_max_scan_step(),
            time_tolerance: Duration::from_nanoseconds(1_000_000),
            max_refinement_iterations: 64,
            max_evaluations: 4_096,
            light_time,
        }
    }

    /// Returns the maximum physical duration between coarse samples.
    pub fn scan_step(&self) -> (d: Duration)
        ensures
            d == self.scan_step_spec(),
            0 < d@ <= spec_angular_max_scan_step(),
    {
        proof { use_type_invariant(self); }
        self.scan_step
    }

    /// Returns the required final time-bracket width.
    pub fn time_tolerance(&self) -> (d: Duration)
        ensures
            d == self.time_tolerance_spec(),
            0 < d@ <= self.scan_step_spec()@,
    {
        proof { use_type_invariant(self); }
        self.time_tolerance
    }

    /// Returns the maximum bounded-Brent refinement iterations per extremum.
    pub fn max_refinement_iterations(&self) -> (n: u32)
        ensures
            n == self.max_refinement_iterations_spec(),
            n > 0,
    {
        proof { use_type_invariant(self); }
        self.max_refinement_iterations
    }

    /// Returns the maximum astrometric evaluations for one search.
    pub fn max_evaluations(&self) -> (n: u32)
        ensures
            n == self.max_evaluations_spec(),
            n > 0,
    {
        proof { use_type_invariant(self); }
        self.max_evaluations
    }

    /// Returns the reception light-time controls used for each apparent position.
    pub fn light_time(&self) -> (l: &L)
        ensures
            *l == self.light_time_spec(),
    {
        &self.light_time
    }
}

/// Whether a final bracket `[start, end]` and its reported time uncertainty agree.
///
/// The bracket is ordered and the uncertainty is half its width. The start, the
/// end and the half-width are each rounded to the nearest nanosecond on their
/// own, so twice the uncertainty lies within two nanoseconds of the width.
pub open spec fn bracket_evidence_consistent(start: int, end: int, uncertainty: int) -> bool {
    &&& start <= end
    &&& 0 <= uncertainty
    &&& end - start <= 2 * uncertainty + 2
    &&& 2 * uncertainty <= end - start + 2
}

/// Numerical evidence retained for one converged bounded extremum.
#[derive(Debug, Copy, PartialEq)]
pub struct ExtremumEvidence<S: TimeScale> {
    bracket_start: Instant<S>,
    bracket_end: Instant<S>,
    time_uncertainty: Duration,
    iterations: u32,
    evaluations: u32,
}

impl<S: TimeScale> Clone for ExtremumEvidence<S> {
    fn clone(&self) -> (r: Self)
        ensures
            r == *self,
    {
        *self
    }
}

impl<S: TimeScale> ExtremumEvidence<S> {
    /// The final bracket is ordered and the uncertainty is half its width.
    #[verifier::type_invariant]
    closed spec fn consistent(self) -> bool {
        bracket_evidence_consistent(self.bracket_start@, self.bracket_end@, self.time_uncertainty@)
    }

    /// Final inclusive bracket start.
    pub closed spec fn bracket_start_spec(self) -> Instant<S> {
        self.bracket_start
    }

    /// Final inclusive bracket end.
    pub closed spec fn bracket_end_spec(self) -> Instant<S> {
        self.bracket_end
    }

    /// Half the final bracket width.
    pub closed spec fn time_uncertainty_spec(self) -> Duration {
        self.time_uncertainty
    }

    /// Completed bounded-Brent iterations.
    pub closed spec fn iterations_spec(self) -> u32 {
        self.iterations
    }

    /// Cumulative astrometric evaluations consumed by the search.
    pub closed spec fn evaluations_spec(self) -> u32 {
        self.evaluations
    }

    /// Retains the evidence of one converged extremum.
    pub fn new(
        bracket_start: Instant<S>,
        bracket_end: Instant<S>,
        time_uncertainty: Duration,
        iterations: u32,
        evaluations: u32,
    ) -> (e: Self)
        requires
            bracket_evidence_consistent(bracket_start@, bracket_end@, time_uncertainty@),
        ensures
            e.bracket_start_spec() == bracket_start,
            e.bracket_end_spec() == bracket_end,
            e.time_uncertainty_spec() == time_uncertainty,
            e.iterations_spec() == iterations,
            e.evaluations_spec() == evaluations,
    {
        ExtremumEvidence { bracket_start, bracket_end, time_uncertainty, iterations, evaluations }
    }

    /// Returns the final inclusive bracket start.
    pub fn bracket_start(self) -> (t: Instant<S>)
        ensures
            t == self.bracket_start_spec(),
            bracket_evidence_consistent(t@, self.bracket_end_spec()@, self.time_uncertainty_spec()@),
    {
        proof { use_type_invariant(&self); }
        self.bracket_start
    }

    /// Returns the final inclusive bracket end.
    pub fn bracket_end(self) -> (t: Instant<S>)
        ensures
            t == self.bracket_end_spec(),
            bracket_evidence_consistent(self.bracket_start_spec()@, t@, self.time_uncertainty_spec()@),
    {
        proof { use_type_invariant(&self); }
        self.bracket_end
    }

    /// Returns half the final bracket width.
    pub fn time_uncertainty(self) -> (d: Duration)
        ensures
            d == self.time_uncertainty_spec(),
            bracket_evidence_consistent(self.bracket_start_spec()@, self.bracket_end_spec()@, d@),
    {
        proof { use_type_invariant(&self); }
        self.time_uncertainty
    }

    /// Returns the completed bounded-Brent iterations.
    pub fn iterations(self) -> (n: u32)
        ensures
            n == self.iterations_spec(),
    {
        self.iterations
    }

    /// Returns the cumulative astrometric evaluations consumed by the search.
    pub fn evaluations(self) -> (n: u32)
        ensures
            n == self.evaluations_spec(),
    {
        self.evaluations
    }
}

/// Numerical evidence retained for one converged astronomical event.
///
/// The signed residual `R` of the event's defining criterion is carried unchanged.
#[derive(Debug, Copy, PartialEq)]
pub struct EventEvidence<S: TimeScale, R> {
    bracket_start: Instant<S>,
    bracket_end: Instant<S>,
    time_uncertainty: Duration,
    residual: R,
    iterations: u32,
    evaluations: u32,
}

impl<S: TimeScale, R: Copy> Clone for EventEvidence<S, R> {
    fn clone(&self) -> (r: Self)
        ensures
            r == *self,
    {
        *self
    }
}

impl<S: TimeScale, R> EventEvidence<S, R> {
    /// The final bracket is ordered and the uncertainty is half its width.
    #[verifier::type_invariant]
    closed spec fn consistent(self) -> bool {
        bracket_evidence_consistent(self.bracket_start@, self.bracket_end@, self.time_uncertainty@)
    }

    /// Final inclusive bracket start.
    pub closed spec fn bracket_start_spec(self) -> Instant<S> {
        self.bracket_start
    }

    /// Final inclusive bracket end.
    pub closed spec fn bracket_end_spec(self) -> Instant<S> {
        self.bracket_end
    }

    /// Half the final bracket width, rounded to the nearest nanosecond.
    pub closed spec fn time_uncertainty_spec(self) -> Duration {
        self.time_uncertainty
    }

    /// Final signed residual of the defining criterion.
    pub closed spec fn residual_spec(self) -> R {
        self.residual
    }

    /// Completed Brent iterations.
    pub closed spec fn iterations_spec(self) -> u32 {
        self.iterations
    }

    /// Astrometric evaluations consumed while refining this event.
    pub closed spec fn evaluations_spec(self) -> u32 {
        self.evaluations
    }

    /// Retains the evidence of one converged event.
    pub fn new(
        bracket_start: Instant<S>,
        bracket_end: Instant<S>,
        time_uncertainty: Duration,
        residual: R,
        iterations: u32,
        evaluations: u32,
    ) -> (e: Self)
        requires
            bracket_evidence_consistent(bracket_start@, bracket_end@, time_uncertainty@),
        ensures
            e.bracket_start_spec() == bracket_start,
            e.bracket_end_spec() == bracket_end,
            e.time_uncertainty_spec() == time_uncertainty,
            e.residual_spec() == residual,
            e.iterations_spec() == iterations,
            e.evaluations_spec() == evaluations,
    {
        EventEvidence { bracket_start, bracket_end, time_uncertainty, residual, iterations, evaluations }
    }

    /// Evidence for an event found exactly at a sampled epoch: a zero-width bracket,
    /// no refinement iterations, and the given evaluation count.
    pub fn at_sample(epoch: Instant<S>, residual: R, evaluations: u32) -> (e: Self)
        ensures
            e.bracket_start_spec() == epoch,
            e.bracket_end_spec() == epoch,
            e.time_uncertainty_spec()@ == 0,
            e.residual_spec() == residual,
            e.iterations_spec() == 0,
            e.evaluations_spec() == evaluations,
    {
        EventEvidence {
            bracket_start: epoch,
            bracket_end: epoch,
            time_uncertainty: Duration::zero(),
            residual,
            iterations: 0,
            evaluations,
        }
    }

    /// Returns the final inclusive bracket start.
    pub fn bracket_start(&self) -> (t: Instant<S>)
        ensures
            t == self.bracket_start_spec(),
            bracket_evidence_consistent(t@, self.bracket_end_spec()@, self.time_uncertainty_spec()@),
    {
        proof { use_type_invariant(self); }
        self.bracket_start
    }

    /// Returns the final inclusive bracket end.
    pub fn bracket_end(&self) -> (t: Instant<S>)
        ensures
            t == self.bracket_end_spec(),
            bracket_evidence_consistent(self.bracket_start_spec()@, t@, self.time_uncertainty_spec()@),
    {
        proof { use_type_invariant(self); }
        self.bracket_end
    }

    /// Returns half the final bracket width, rounded to the nearest nanosecond.
    pub fn time_uncertainty(&self) -> (d: Duration)
        ensures
            d == self.time_uncertainty_spec(),
            bracket_evidence_consistent(self.bracket_start_spec()@, self.bracket_end_spec()@, d@),
    {
        proof { use_type_invariant(self); }
        self.time_uncertainty
    }

    /// Returns the final signed residual of the event's defining criterion.
    pub fn residual(&self) -> (r: &R)
        ensures
            *r == self.residual_spec(),
    {
        &self.residual
    }

    /// Returns the completed Brent iterations.
    pub fn iterations(&self) -> (n: u32)
        ensures
            n == self.iterations_spec(),
    {
        self.iterations
    }

    /// Returns astrometric evaluations consumed while refining this event.
    pub fn evaluations(&self) -> (n: u32)
        ensures
            n == self.evaluations_spec(),
    {
        self.evaluations
    }
}

/// Whether three consecutive coarse samples bracket a local minimum of the objective:
/// the middle one is no larger than either neighbour and strictly smaller than at least one.
///
/// Each argument is the sign of the middle objective minus a neighbour's.
pub open spec fn spec_brackets_local_minimum(middle_minus_left: ResidualSign, middle_minus_right: ResidualSign) -> bool {
    &&& middle_minus_left != ResidualSign::Positive
    &&& middle_minus_right != ResidualSign::Positive
    &&& (middle_minus_left == ResidualSign::Negative || middle_minus_right == ResidualSign::Negative)
}

/// Three samples `left`, `middle`, `right` bracket a minimum exactly when the middle one
/// is no larger than either neighbour and strictly smaller than at least one: a local
/// maximum or a flat run is never refined as a minimum. The decision does not depend on
/// which neighbour is which.
pub proof fn local_minimum_law(left: int, middle: int, right: int)
    ensures
        spec_brackets_local_minimum(sign_of(middle - left), sign_of(middle - right)) <==> (middle <= left && middle
            <= right && (middle < left || middle < right)),
        spec_brackets_local_minimum(sign_of(middle - left), sign_of(middle - right)) == spec_brackets_local_minimum(
            sign_of(middle - right),
            sign_of(middle - left),
        ),
{
}

/// Decides whether three consecutive coarse samples bracket a local minimum to refine.
pub fn brackets_local_minimum(middle_minus_left: ResidualSign, middle_minus_right: ResidualSign) -> (b: bool)
    ensures
        b == spec_brackets_local_minimum(middle_minus_left, middle_minus_right),
        b ==> middle_minus_left != ResidualSign::Positive && middle_minus_right != ResidualSign::Positive,
        b ==> middle_minus_left == ResidualSign::Negative || middle_minus_right == ResidualSign::Negative,
        middle_minus_left == ResidualSign::Negative && middle_minus_right != ResidualSign::Positive ==> b,
        middle_minus_right == ResidualSign::Negative && middle_minus_left != ResidualSign::Positive ==> b,
{
    match (middle_minus_left, middle_minus_right) {
        (ResidualSign::Positive, _) => false,
        (_, ResidualSign::Positive) => false,
        (ResidualSign::Negative, _) => true,
        (_, ResidualSign::Negative) => true,
        _ => false,
    }
}

/// One refined extremum with its evaluated data `T` carried unchanged.
#[derive(Debug, Copy, PartialEq)]
pub struct LocatedExtremum<S: TimeScale, T> {
    /// Data evaluated at the refined instant.
    pub data: T,
    /// Numerical bounded-extremum evidence.
    pub evidence: ExtremumEvidence<S>,
}

impl<S: TimeScale, T: Copy> Clone for LocatedExtremum<S, T> {
    fn clone(&self) -> (r: Self)
        ensures
            r == *self,
    {
        *self
    }
}

/// The signed gap between the bracket starts of the latest recorded extremum and a candidate.
pub open spec fn extremum_gap<S: TimeScale, T>(extrema: Seq<LocatedExtremum<S, T>>, candidate: LocatedExtremum<S, T>) -> int {
    candidate.evidence.bracket_start_spec()@ - extrema.last().evidence.bracket_start_spec()@
}

/// Comparing a candidate with the latest extremum overflows.
pub open spec fn extremum_gap_overflows<S: TimeScale, T>(extrema: Seq<LocatedExtremum<S, T>>, candidate: LocatedExtremum<S, T>) -> bool {
    extrema.len() > 0 && !(fits_i128(extremum_gap(extrema, candidate)) && fits_i128(-extremum_gap(extrema, candidate)))
}

/// The candidate's bracket starts within `tolerance` of the latest extremum's.
pub open spec fn duplicates_latest_extremum<S: TimeScale, T>(
    extrema: Seq<LocatedExtremum<S, T>>,
    candidate: LocatedExtremum<S, T>,
    tolerance: int,
) -> bool {
    &&& extrema.len() > 0
    &&& !extremum_gap_overflows(extrema, candidate)
    &&& -tolerance <= extremum_gap(extrema, candidate) <= tolerance
}

/// Adds a refined extremum unless the latest one already covers it.
///
/// A candidate whose bracket starts within `tolerance` of the latest extremum's is
/// dropped; any other is appended. Fails, leaving the extrema unchanged, when the gap
/// cannot be represented.
pub fn push_unique_extremum<S: TimeScale, T>(
    extrema: &mut Vec<LocatedExtremum<S, T>>,
    candidate: LocatedExtremum<S, T>,
    tolerance: Duration,
) -> (r: Result<(), Error>)
    ensures
        r is Err <==> extremum_gap_overflows(old(extrema)@, candidate),
        r matches Err(e) ==> e == Error::Time(crate::time::Error::Overflow {
            operation: if fits_i128(extremum_gap(old(extrema)@, candidate)) {
                "taking the magnitude of a duration"
            } else {
                "differencing instants"
            },
        }),
        r is Err || duplicates_latest_extremum(old(extrema)@, candidate, tolerance@) ==> final(extrema)@ == old(
            extrema,
        )@,
        r is Ok && !duplicates_latest_extremum(old(extrema)@, candidate, tolerance@) ==> final(extrema)@ == old(
            extrema,
        )@.push(candidate),
{
    let n = extrema.len();
    if n > 0 {
        let gap = match candidate.evidence.bracket_start().duration_since(extrema[n - 1].evidence.bracket_start()) {
            Ok(d) => d,
            Err(e) => return Err(Error::from(e)),
        };
        let magnitude = match gap.checked_abs() {
            Ok(d) => d,
            Err(e) => return Err(Error::from(e)),
        };
        if magnitude.as_nanoseconds() <= tolerance.as_nanoseconds() {
            return Ok(());
        }
    }
    extrema.push(candidate);
    Ok(())
}

/// Astronomical event algorithms backed by one immutable astrometry context `C`.
pub struct Events<C> {
    astrometry: C,
}

impl<C> Events<C> {
    /// The carried astrometry context.
    pub closed spec fn astrometry_spec(&self) -> C {
        self.astrometry
    }

    /// Constructs event algorithms from an existing astrometry context.
    pub fn new(astrometry: C) -> (e: Self)
        ensures
            e.astrometry_spec() == astrometry,
    {
        Events { astrometry }
    }

    /// Returns the astrometry context used for event evaluations.
    pub fn astrometry(&self) -> (c: &C)
        ensures
            *c == self.astrometry_spec(),
    {
        &self.astrometry
    }
}

/// Decides the next coarse sample of a forward scan over a closed interval.
///
/// Returns `None` once `previous` has reached `end`; otherwise the instant one
/// scan step later, clipped to `end`.
pub fn next_scan_epoch<S: TimeScale>(previous: Instant<S>, end: Instant<S>, scan_step: Duration) -> (r: Result<Option<Instant<S>>, Error>)
    requires
        scan_step@ > 0,
    ensures
        previous@ >= end@ ==> r == Ok::<Option<Instant<S>>, Error>(None),
        previous@ < end@ ==> (r is Ok <==> fits_i128(end@ - previous@)),
        r matches Ok(Some(next)) ==> previous@ < next@ <= end@
            && next@ == (if end@ - previous@ <= scan_step@ { end@ } else { previous@ + scan_step@ }),
        r matches Ok(None) ==> previous@ >= end@,
        r matches Err(e) ==> e == Error::Time(crate::time::Error::Overflow { operation: "differencing instants" }),
{
    if !previous.is_before(end) {
        return Ok(None);
    }
    let remaining = match end.duration_since(previous) {
        Ok(d) => d,
        Err(e) => return Err(Error::Time(e)),
    };
    let step = remaining.min(scan_step);
    proof {
        previous.view_fits();
        end.view_fits();
    }
    match previous.checked_add(step) {
        Ok(next) => Ok(Some(next)),
        Err(e) => Err(Error::Time(e)),
    }
}


/// Charges `cost` evaluations against a search's budget.
///
/// Fails with `EvaluationLimitExceeded` when fewer than `cost` evaluations
/// remain, leaving the count unchanged; otherwise adds `cost` to it.
pub fn consume_evaluations(max_evaluations: u32, evaluations: &mut u32, cost: u32) -> (r: Result<(), Error>)
    ensures
        r is Ok <==> (if *old(evaluations) >= max_evaluations { 0 } else { max_evaluations - *old(evaluations) }) >= cost,
        r is Ok ==> *final(evaluations) == *old(evaluations) + cost,
        r is Err ==> *final(evaluations) == *old(evaluations) && r == Err::<(), Error>(
            Error::EvaluationLimitExceeded { maximum: max_evaluations },
        ),
{
    if max_evaluations.saturating_sub(*evaluations) < cost {
        return Err(Error::EvaluationLimitExceeded { maximum: max_evaluations });
    }
    *evaluations = *evaluations + cost;
    Ok(())
}

/// An event found at one instant under a discrete label (a phase, a term, or none).
pub trait LabelledEvent<S: TimeScale> {
    /// The physical instant of the event.
    spec fn instant_spec(&self) -> Instant<S>;

    /// Whether two events carry the same discrete label.
    spec fn same_label_spec(&self, other: &Self) -> bool;

    /// Returns the physical instant of the event.
    fn record_instant(&self) -> (t: Instant<S>)
        ensures
            t == self.instant_spec(),
    ;

    /// Returns whether two events carry the same discrete label.
    fn same_label(&self, other: &Self) -> (b: bool)
        ensures
            b == self.same_label_spec(other),
    ;
}

/// The signed gap from the latest recorded event to a candidate.
pub open spec fn gap_to_latest<S: TimeScale, E: LabelledEvent<S>>(events: Seq<E>, candidate: E) -> int {
    candidate.instant_spec()@ - events.last().instant_spec()@
}

/// The candidate is compared with the latest recorded event: there is one and it has the same label.
pub open spec fn compared_with_latest<S: TimeScale, E: LabelledEvent<S>>(events: Seq<E>, candidate: E) -> bool {
    events.len() > 0 && events.last().same_label_spec(&candidate)
}

/// Comparing the candidate overflows: its gap to the latest event, or that gap's magnitude, is not representable.
pub open spec fn latest_gap_overflows<S: TimeScale, E: LabelledEvent<S>>(events: Seq<E>, candidate: E) -> bool {
    compared_with_latest(events, candidate) && !(fits_i128(gap_to_latest(events, candidate))
        && fits_i128(-gap_to_latest(events, candidate)))
}

/// The candidate duplicates the latest event: same label, and within `tolerance` of it.
pub open spec fn duplicates_latest<S: TimeScale, E: LabelledEvent<S>>(events: Seq<E>, candidate: E, tolerance: int) -> bool {
    &&& compared_with_latest(events, candidate)
    &&& !latest_gap_overflows(events, candidate)
    &&& (if gap_to_latest(events, candidate) < 0 {
        -gap_to_latest(events, candidate)
    } else {
        gap_to_latest(events, candidate)
    }) <= tolerance
}

/// Adds a refined event unless it duplicates the latest one.
///
/// When the latest recorded event has the candidate's label and lies within
/// `tolerance` of it, the candidate replaces it if `is_better` prefers the
/// candidate, and is dropped otherwise. Any other candidate is appended. Fails,
/// leaving the events unchanged, when the gap to a same-labelled latest event
/// cannot be represented.
pub fn push_unique_latest<S: TimeScale, E: LabelledEvent<S>, B: Fn(&E, &E) -> bool>(
    events: &mut Vec<E>,
    candidate: E,
    tolerance: Duration,
    is_better: B,
) -> (r: Result<(), Error>)
    requires
        forall|a: E, b: E| #[trigger] is_better.requires((&a, &b)),
    ensures
        r is Err <==> latest_gap_overflows(old(events)@, candidate),
        r matches Err(e) ==> final(events)@ == old(events)@ && e == Error::Time(crate::time::Error::Overflow {
            operation: if fits_i128(gap_to_latest(old(events)@, candidate)) {
                "taking the magnitude of a duration"
            } else {
                "differencing instants"
            },
        }),
        r is Ok && !duplicates_latest(old(events)@, candidate, tolerance@) ==> final(events)@ == old(events)@.push(
            candidate,
        ),
        duplicates_latest(old(events)@, candidate, tolerance@) ==> {
            let last = old(events)@.len() - 1;
            ||| final(events)@ == old(events)@.update(last, candidate) && is_better.ensures(
                (&candidate, &old(events)@[last]),
                true,
            )
            ||| final(events)@ == old(events)@ && is_better.ensures((&candidate, &old(events)@[last]), false)
        },
{
    let n = events.len();
    if n > 0 {
        let last = n - 1;
        if events[last].same_label(&candidate) {
            let gap = match candidate.record_instant().duration_since(events[last].record_instant()) {
                Ok(d) => d,
                Err(e) => return Err(Error::from(e)),
            };
            let magnitude = match gap.checked_abs() {
                Ok(d) => d,
                Err(e) => return Err(Error::from(e)),
            };
            if magnitude.as_nanoseconds() <= tolerance.as_nanoseconds() {
                if is_better(&candidate, &events[last]) {
                    events.set(last, candidate);
                }
                return Ok(());
            }
        }
    }
    events.push(candidate);
    Ok(())
}

} // verus!
