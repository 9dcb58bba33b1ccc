use vstd::prelude::*;

use crate::time::{fits_i128, Duration, Instant, TimeInterval, TimeScale, NANOSECONDS_PER_SECOND};

use super::Error;

verus! {

/// One second in nanoseconds: the smallest supported path-sampling cadence.
pub open spec fn spec_path_min_sample_step() -> int {
    1_000_000_000int
}

/// Thirty minutes in nanoseconds: the largest supported path-sampling cadence.
pub open spec fn spec_path_max_sample_step() -> int {
    1_800_000_000_000int
}

/// One second in nanoseconds: the largest supported central-contact time tolerance.
pub open spec fn spec_path_max_contact_time_tolerance() -> int {
    1_000_000_000int
}

/// What validating path controls yields: `None` when they are accepted, or the
/// first rejection in the order sample step, contact tolerance, iteration budget.
pub open spec fn path_options_rejection(
    sample_step: int,
    contact_time_tolerance: int,
    max_contact_iterations: u32,
) -> Option<Error> {
    if !(spec_path_min_sample_step() <= sample_step <= spec_path_max_sample_step()) {
        Some(Error::InvalidBesselianPathSampleStep {
            nanoseconds: sample_step as i128,
            minimum_nanoseconds: spec_path_min_sample_step() as i128,
            maximum_nanoseconds: spec_path_max_sample_step() as i128,
        })
    } else if !(0 < contact_time_tolerance <= spec_path_max_contact_time_tolerance()) {
        Some(Error::InvalidSearchDuration {
            field: "solar-eclipse central-contact time tolerance",
            nanoseconds: contact_time_tolerance as i128,
            maximum_nanoseconds: spec_path_max_contact_time_tolerance() as i128,
        })
    } else if max_contact_iterations == 0 {
        Some(Error::InvalidSearchLimit {
            field: "solar-eclipse central-contact iterations",
            value: max_contact_iterations,
        })
    } else {
        None
    }
}

/// Sampling and contact-refinement controls for one geographic central-eclipse path.
#[derive(Debug, Clone, Copy, PartialEq, Eq)]
pub struct GlobalSolarEclipsePathOptions {
    sample_step: Duration,
    contact_time_tolerance: Duration,
    max_contact_iterations: u32,
}

impl GlobalSolarEclipsePathOptions {
    /// The sampling cadence.
    pub closed spec fn sample_step_spec(self) -> Duration {
        self.sample_step
    }

    /// The central-contact time tolerance.
    pub closed spec fn contact_time_tolerance_spec(self) -> Duration {
        self.contact_time_tolerance
    }

    /// The central-contact iteration budget.
    pub closed spec fn max_contact_iterations_spec(self) -> u32 {
        self.max_contact_iterations
    }

    /// The sampling cadence lies in `[1 s, 30 min]`, the contact tolerance in
    /// `(0, 1 s]`, and the iteration budget is positive.
    #[verifier::type_invariant]
    closed spec fn within_limits(self) -> bool {
        path_options_rejection(self.sample_step@, self.contact_time_tolerance@, self.max_contact_iterations) is None
    }

    /// Smallest supported geographic-path sampling cadence (one second).
    pub fn min_sample_step() -> (d: Duration)
        ensures
            d@ == spec_path_min_sample_step(),
    {
        Duration::from_nanoseconds(NANOSECONDS_PER_SECOND)
    }

    /// Largest supported geographic-path sampling cadence (thirty minutes).
    pub fn max_sample_step() -> (d: Duration)
        ensures
            d@ == spec_path_max_sample_step(),
    {
        Duration::from_nanoseconds(30 * 60 * NANOSECONDS_PER_SECOND)
    }

    /// Largest supported central-contact time tolerance (one second).
    pub fn max_contact_time_tolerance() -> (d: Duration)
        ensures
            d@ == spec_path_max_contact_time_tolerance(),
    {
        Duration::from_nanoseconds(NANOSECONDS_PER_SECOND)
    }

    /// Constructs validated path sampling and central-contact controls.
    ///
    /// The sample step must lie in `[1 s, 30 min]`, the contact tolerance in
    /// `(0, 1 s]`, and the iteration budget must be positive; the first
    /// violated condition, in that order, is reported.
    pub fn new(sample_step: Duration, contact_time_tolerance: Duration, max_contact_iterations: u32) -> (r: Result<Self, Error>)
        ensures
            path_options_rejection(sample_step@, contact_time_tolerance@, max_contact_iterations) matches Some(e)
                ==> r == Err::<Self, Error>(e),
            path_options_rejection(sample_step@, contact_time_tolerance@, max_contact_iterations) is None ==> r is Ok,
            r matches Ok(o) ==> {
                &&& o.sample_step_spec() == sample_step
                &&& o.contact_time_tolerance_spec() == contact_time_tolerance
                &&& o.max_contact_iterations_spec() == max_contact_iterations
            },
    {
        let step = sample_step.as_nanoseconds();
        let minimum = Self::min_sample_step().as_nanoseconds();
        let maximum = Self::max_sample_step().as_nanoseconds();
        if step < minimum || step > maximum {
            return Err(Error::InvalidBesselianPathSampleStep {
                nanoseconds: step,
                minimum_nanoseconds: minimum,
                maximum_nanoseconds: maximum,
            });
        }
        let tolerance = contact_time_tolerance.as_nanoseconds();
        let maximum_tolerance = Self::max_contact_time_tolerance().as_nanoseconds();
        if tolerance <= 0 || tolerance > maximum_tolerance {
            return Err(Error::InvalidSearchDuration {
                field: "solar-eclipse central-contact time tolerance",
                nanoseconds: tolerance,
                maximum_nanoseconds: maximum_tolerance,
            });
        }
        if max_contact_iterations == 0 {
            return Err(Error::InvalidSearchLimit {
                field: "solar-eclipse central-contact iterations",
                value: max_contact_iterations,
            });
        }
        Ok(GlobalSolarEclipsePathOptions { sample_step, contact_time_tolerance, max_contact_iterations })
    }

    /// Returns the interval between retained geographic path points.
    pub fn sample_step(self) -> (d: Duration)
        ensures
            d == self.sample_step_spec(),
            spec_path_min_sample_step() <= d@ <= spec_path_max_sample_step(),
    {
        proof { use_type_invariant(self); }
        self.sample_step
    }

    /// Returns the requested second- and third-contact time tolerance.
    pub fn contact_time_tolerance(self) -> (d: Duration)
        ensures
            d == self.contact_time_tolerance_spec(),
            0 < d@ <= spec_path_max_contact_time_tolerance(),
    {
        proof { use_type_invariant(self); }
        self.contact_time_tolerance
    }

    /// Returns the maximum refinement iterations for each central contact.
    pub fn max_contact_iterations(self) -> (n: u32)
        ensures
            n == self.max_contact_iterations_spec(),
            n > 0,
    {
        proof { use_type_invariant(self); }
        self.max_contact_iterations
    }

    /// Returns two-minute path samples and millisecond central-contact refinement
    /// with at most 64 iterations.
    pub fn standard() -> (o: Self)
        ensures
            o.sample_step_spec()@ == 120 * spec_path_min_sample_step(),
            o.contact_time_tolerance_spec()@ == 1_000_000,
            o.max_contact_iterations_spec() == 64,
            path_options_rejection(
                o.sample_step_spec()@,
                o.contact_time_tolerance_spec()@,
                o.max_contact_iterations_spec(),
            ) is None,
    {
        GlobalSolarEclipsePathOptions {
            sample_step: Duration::from_nanoseconds(120 * NANOSECONDS_PER_SECOND),
            contact_time_tolerance: Duration::from_nanoseconds(1_000_000),
            max_contact_iterations: 64,
        }
    }
}

impl Default for GlobalSolarEclipsePathOptions {
    fn default() -> (o: Self)
        ensures
            o.sample_step_spec()@ == 120 * spec_path_min_sample_step(),
            o.contact_time_tolerance_spec()@ == 1_000_000,
            o.max_contact_iterations_spec() == 64,
    {
        Self::standard()
    }
}

/// Second and third contact for a fixed point on a central eclipse line.
#[derive(Debug, Copy, PartialEq, Eq)]
pub struct SolarEclipseCentralPhase<S: TimeScale> {
    second_contact: Instant<S>,
    third_contact: Instant<S>,
    duration: Duration,
}

impl<S: TimeScale> Clone for SolarEclipseCentralPhase<S> {
    fn clone(&self) -> (r: Self)
        ensures
            r == *self,
    {
        *self
    }
}

impl<S: TimeScale> SolarEclipseCentralPhase<S> {
    /// The contact at which annularity or totality begins.
    pub closed spec fn second_contact_spec(self) -> Instant<S> {
        self.second_contact
    }

    /// The contact at which annularity or totality ends.
    pub closed spec fn third_contact_spec(self) -> Instant<S> {
        self.third_contact
    }

    /// The stored duration is exactly third minus second contact.
    #[verifier::type_invariant]
    closed spec fn duration_matches(self) -> bool {
        self.duration@ == self.third_contact@ - self.second_contact@
    }

    /// Records refined second and third contacts and their exact separation.
    ///
    /// Fails only when the signed separation `third - second` is not representable.
    pub fn from_contacts(second_contact: Instant<S>, third_contact: Instant<S>) -> (r: Result<Self, Error>)
        ensures
            r is Ok <==> fits_i128(third_contact@ - second_contact@),
            r matches Ok(p) ==> p.second_contact_spec() == second_contact && p.third_contact_spec() == third_contact,
            r matches Err(e) ==> e == Error::Time(crate::time::Error::Overflow { operation: "differencing instants" }),
    {
        match third_contact.duration_since(second_contact) {
            Ok(duration) => Ok(SolarEclipseCentralPhase { second_contact, third_contact, duration }),
            Err(e) => Err(Error::from(e)),
        }
    }

    /// Returns second contact, when annularity or totality begins.
    pub fn second_contact(self) -> (t: Instant<S>)
        ensures
            t == self.second_contact_spec(),
    {
        self.second_contact
    }

    /// Returns third contact, when annularity or totality ends.
    pub fn third_contact(self) -> (t: Instant<S>)
        ensures
            t == self.third_contact_spec(),
    {
        self.third_contact
    }

    /// Returns the exact nanosecond central-phase duration `C3 - C2`.
    pub fn duration(self) -> (d: Duration)
        ensures
            d@ == self.third_contact_spec()@ - self.second_contact_spec()@,
    {
        proof { use_type_invariant(self); }
        self.duration
    }
}

/// The exact nanosecond counts of a sequence of instants.
pub open spec fn instant_values<S: TimeScale>(instants: Seq<Instant<S>>) -> Seq<int> {
    instants.map_values(|t: Instant<S>| t@)
}

/// Whether a sequence of counts strictly increases.
pub open spec fn strictly_increasing(values: Seq<int>) -> bool {
    forall|i: int, j: int| 0 <= i < j < values.len() ==> values[i] < values[j]
}

/// The grid `cursor, cursor + step, …` of points strictly before `end`.
pub open spec fn path_grid(cursor: int, end: int, step: int) -> Seq<int>
    decreases (if cursor < end { end - cursor } else { 0 }),
{
    if step > 0 && cursor < end {
        seq![cursor].add(path_grid(cursor + step, end, step))
    } else {
        Seq::empty()
    }
}

/// The first grid point at or after `end`.
pub open spec fn path_grid_end(cursor: int, end: int, step: int) -> int
    decreases (if cursor < end { end - cursor } else { 0 }),
{
    if step > 0 && cursor < end {
        path_grid_end(cursor + step, end, step)
    } else {
        cursor
    }
}

proof fn path_grid_facts(cursor: int, end: int, step: int)
    requires
        step > 0,
    ensures
        strictly_increasing(path_grid(cursor, end, step)),
        forall|i: int| 0 <= i < path_grid(cursor, end, step).len() ==> cursor <= #[trigger] path_grid(cursor, end, step)[i] < end,
        path_grid_end(cursor, end, step) >= cursor,
    decreases (if cursor < end { end - cursor } else { 0 }),
{
    if cursor < end {
        path_grid_facts(cursor + step, end, step);
        let rest = path_grid(cursor + step, end, step);
        let grid = path_grid(cursor, end, step);
        assert(grid == seq![cursor].add(rest));
        assert forall|i: int| 0 <= i < grid.len() implies cursor <= #[trigger] grid[i] < end by {
            if i > 0 {
                assert(grid[i] == rest[i - 1]);
            }
        }
        assert forall|i: int, j: int| 0 <= i < j < grid.len() implies grid[i] < grid[j] by {
            assert(grid[j] == rest[j - 1]);
            if i > 0 {
                assert(grid[i] == rest[i - 1]);
            }
        }
    }
}

/// Inserts an instant into a strictly increasing sequence unless it is already there.
fn insert_sorted_unique<S: TimeScale>(instants: &mut Vec<Instant<S>>, instant: Instant<S>)
    requires
        strictly_increasing(instant_values(old(instants)@)),
    ensures
        strictly_increasing(instant_values(final(instants)@)),
        forall|x: int| instant_values(final(instants)@).contains(x) <==> (instant_values(old(instants)@).contains(x)
            || x == instant@),
{
    let ghost before = instant_values(instants@);
    let mut i: usize = 0;
    while i < instants.len() && instants[i].is_before(instant)
        invariant
            i <= instants@.len(),
            instants@ == old(instants)@,
            before == instant_values(instants@),
            strictly_increasing(before),
            forall|k: int| 0 <= k < i ==> #[trigger] before[k] < instant@,
        decreases instants@.len() - i,
    {
        i = i + 1;
    }
    if i < instants.len() && instants[i].same_instant(instant) {
        proof {
            assert(before[i as int] == instant@);
            assert forall|x: int| instant_values(instants@).contains(x) <==> (before.contains(x) || x == instant@) by {
                if x == instant@ {
                    assert(before[i as int] == x);
                }
            }
        }
        return;
    }
    instants.insert(i, instant);
    proof {
        let after = instant_values(instants@);
        assert(after =~= before.insert(i as int, instant@));
        assert forall|a: int, b: int| 0 <= a < b < after.len() implies after[a] < after[b] by {
            if b < i {
            } else if b == i {
                assert(before[a] < instant@);
            } else if a < i {
                assert(after[b] == before[b - 1]);
                assert(before[a] < instant@);
                assert(before[i as int] > instant@);
                if b - 1 > i {
                    assert(before[i as int] < before[b - 1]);
                }
            } else if a == i {
                assert(after[b] == before[b - 1]);
                assert(before[i as int] > instant@);
                if b - 1 > i {
                    assert(before[i as int] < before[b - 1]);
                }
            } else {
                assert(after[a] == before[a - 1]);
                assert(after[b] == before[b - 1]);
            }
        }
        assert forall|x: int| after.contains(x) <==> (before.contains(x) || x == instant@) by {
            if after.contains(x) {
                let k = choose|k: int| 0 <= k < after.len() && after[k] == x;
                if k < i {
                    assert(before[k] == x);
                } else if k > i {
                    assert(before[k - 1] == x);
                }
            }
            if before.contains(x) {
                let k = choose|k: int| 0 <= k < before.len() && before[k] == x;
                if k < i {
                    assert(after[k] == x);
                } else {
                    assert(after[k + 1] == x);
                }
            }
            if x == instant@ {
                assert(after[i as int] == x);
            }
        }
    }
}

/// The instants at which a geographic central path is sampled.
///
/// Every whole sample step after the interval start and strictly before its
/// end, together with greatest eclipse and the polynomial reference epoch when
/// they lie in the interval, in increasing order and without repetition. Fails
/// when the first step at or beyond the interval end is not representable.
pub fn path_sample_instants<S: TimeScale>(
    options: GlobalSolarEclipsePathOptions,
    interval: TimeInterval<S>,
    greatest: Instant<S>,
    reference_epoch: Instant<S>,
) -> (r: Result<Vec<Instant<S>>, Error>)
    ensures
        r is Ok <==> fits_i128(path_grid_end(
            interval.start_spec()@ + options.sample_step_spec()@,
            interval.end_spec()@,
            options.sample_step_spec()@,
        )),
        r matches Err(e) ==> e == Error::Time(crate::time::Error::Overflow { operation: "advancing an instant" }),
        r matches Ok(v) ==> {
            &&& strictly_increasing(instant_values(v@))
            &&& forall|x: int| #[trigger] instant_values(v@).contains(x) <==> {
                ||| path_grid(
                    interval.start_spec()@ + options.sample_step_spec()@,
                    interval.end_spec()@,
                    options.sample_step_spec()@,
                ).contains(x)
                ||| (x == greatest@ && interval.start_spec()@ <= x <= interval.end_spec()@)
                ||| (x == reference_epoch@ && interval.start_spec()@ <= x <= interval.end_spec()@)
            }
        },
{
    let step = options.sample_step();
    let start = interval.start();
    let end = interval.end();
    let ghost first = start@ + step@;
    proof {
        path_grid_facts(first, end@, step@);
    }
    let mut cursor = match start.checked_add(step) {
        Ok(t) => t,
        Err(e) => {
            proof {
                start.view_fits();
                end.view_fits();
                assert(path_grid_end(first, end@, step@) == first);
            }
            return Err(Error::from(e));
        },
    };
    let mut instants: Vec<Instant<S>> = Vec::new();
    while cursor.is_before(end)
        invariant
            step@ > 0,
            step == options.sample_step_spec(),
            end == interval.end_spec(),
            first == interval.start_spec()@ + options.sample_step_spec()@,
            cursor@ >= first,
            path_grid(first, end@, step@) == instant_values(instants@).add(path_grid(cursor@, end@, step@)),
            path_grid_end(first, end@, step@) == path_grid_end(cursor@, end@, step@),
        decreases (if cursor@ < end@ { end@ - cursor@ } else { 0 }),
    {
        let ghost grid = path_grid(cursor@, end@, step@);
        assert(grid == seq![cursor@].add(path_grid(cursor@ + step@, end@, step@)));
        let ghost previous = instant_values(instants@);
        instants.push(cursor);
        assert(instant_values(instants@) =~= previous.push(cursor@));
        assert(previous.add(grid) =~= instant_values(instants@).add(path_grid(cursor@ + step@, end@, step@)));
        proof {
            cursor.view_fits();
            step.view_fits();
        }
        cursor = match cursor.checked_add(step) {
            Ok(t) => t,
            Err(e) => {
                proof {
                    end.view_fits();
                    assert(path_grid_end(cursor@, end@, step@) == path_grid_end(cursor@ + step@, end@, step@));
                    assert(path_grid_end(cursor@ + step@, end@, step@) == cursor@ + step@);
                }
                return Err(Error::from(e));
            },
        };
    }
    proof {
        cursor.view_fits();
        assert(path_grid_end(cursor@, end@, step@) == cursor@);
    }
    proof {
        assert(instant_values(instants@).add(Seq::empty()) =~= instant_values(instants@));
        path_grid_facts(first, end@, step@);
    }
    if interval.contains(greatest) {
        insert_sorted_unique(&mut instants, greatest);
    }
    if interval.contains(reference_epoch) {
        insert_sorted_unique(&mut instants, reference_epoch);
    }
    Ok(instants)
}

/// Checks that an epoch lies within a Besselian polynomial's closed validity interval.
pub fn ensure_within_validity<S: TimeScale>(validity: TimeInterval<S>, epoch: Instant<S>) -> (r: Result<(), Error>)
    ensures
        r is Ok <==> validity.start_spec()@ <= epoch@ <= validity.end_spec()@,
        r is Err ==> r == Err::<(), Error>(Error::BesselianPolynomialOutsideValidity {
            epoch_tai_nanoseconds: epoch@ as i128,
            start_tai_nanoseconds: validity.start_spec()@ as i128,
            end_tai_nanoseconds: validity.end_spec()@ as i128,
        }),
{
    if !validity.contains(epoch) {
        return Err(Error::BesselianPolynomialOutsideValidity {
            epoch_tai_nanoseconds: epoch.tai_nanoseconds_since_1900(),
            start_tai_nanoseconds: validity.start().tai_nanoseconds_since_1900(),
            end_tai_nanoseconds: validity.end().tai_nanoseconds_since_1900(),
        });
    }
    Ok(())
}

/// What checking the inputs of a geographic path yields, in the order the checks
/// are made: `None` when they are consistent, else the first failure.
pub open spec fn path_input_rejection(
    has_central_path: bool,
    same_earth: bool,
    same_ephemeris: bool,
    reference_epoch: int,
    delta_t_epoch: int,
    validity: (int, int),
    path: (int, int),
) -> Option<Error> {
    if !has_central_path {
        Some(Error::SolarEclipseHasNoCentralPath)
    } else if !same_earth {
        Some(Error::BesselianPathEarthMismatch)
    } else if !same_ephemeris {
        Some(Error::BesselianPathEphemerisMismatch)
    } else if delta_t_epoch != reference_epoch {
        Some(Error::BesselianPathDeltaTEpochMismatch {
            expected_tai_nanoseconds: reference_epoch as i128,
            actual_tai_nanoseconds: delta_t_epoch as i128,
        })
    } else if path.1 < path.0 {
        Some(Error::Time(crate::time::Error::InvertedInterval {
            start_tai_nanoseconds: path.0 as i128,
            end_tai_nanoseconds: path.1 as i128,
        }))
    } else if validity.0 > path.0 || validity.1 < path.1 {
        Some(Error::BesselianPathValidityTooShort {
            validity_start_tai_nanoseconds: validity.0 as i128,
            validity_end_tai_nanoseconds: validity.1 as i128,
            path_start_tai_nanoseconds: path.0 as i128,
            path_end_tai_nanoseconds: path.1 as i128,
        })
    } else {
        None
    }
}

/// Checks the inputs of a geographic central path and returns the interval it is sampled over.
///
/// The eclipse must have a central path, share the polynomial's Earth and
/// ephemeris, use Delta T resolved at the polynomial reference epoch, and the
/// polynomial's validity must cover the central path from `path_start` to `path_end`.
pub fn central_path_interval<S: TimeScale>(
    has_central_path: bool,
    same_earth: bool,
    same_ephemeris: bool,
    reference_epoch: Instant<S>,
    delta_t_epoch: Instant<S>,
    validity: TimeInterval<S>,
    path_start: Instant<S>,
    path_end: Instant<S>,
) -> (r: Result<TimeInterval<S>, Error>)
    ensures
        path_input_rejection(
            has_central_path,
            same_earth,
            same_ephemeris,
            reference_epoch@,
            delta_t_epoch@,
            (validity.start_spec()@, validity.end_spec()@),
            (path_start@, path_end@),
        ) matches Some(e) ==> r == Err::<TimeInterval<S>, Error>(e),
        path_input_rejection(
            has_central_path,
            same_earth,
            same_ephemeris,
            reference_epoch@,
            delta_t_epoch@,
            (validity.start_spec()@, validity.end_spec()@),
            (path_start@, path_end@),
        ) is None ==> r is Ok,
        r matches Ok(i) ==> i.start_spec() == path_start && i.end_spec() == path_end,
{
    if !has_central_path {
        return Err(Error::SolarEclipseHasNoCentralPath);
    }
    if !same_earth {
        return Err(Error::BesselianPathEarthMismatch);
    }
    if !same_ephemeris {
        return Err(Error::BesselianPathEphemerisMismatch);
    }
    if !delta_t_epoch.same_instant(reference_epoch) {
        return Err(Error::BesselianPathDeltaTEpochMismatch {
            expected_tai_nanoseconds: reference_epoch.tai_nanoseconds_since_1900(),
            actual_tai_nanoseconds: delta_t_epoch.tai_nanoseconds_since_1900(),
        });
    }
    let interval = match TimeInterval::new(path_start, path_end) {
        Ok(i) => i,
        Err(e) => return Err(Error::from(e)),
    };
    if path_start.is_before(validity.start()) || validity.end().is_before(path_end) {
        return Err(Error::BesselianPathValidityTooShort {
            validity_start_tai_nanoseconds: validity.start().tai_nanoseconds_since_1900(),
            validity_end_tai_nanoseconds: validity.end().tai_nanoseconds_since_1900(),
            path_start_tai_nanoseconds: path_start.tai_nanoseconds_since_1900(),
            path_end_tai_nanoseconds: path_end.tai_nanoseconds_since_1900(),
        });
    }
    Ok(interval)
}

} // verus!
