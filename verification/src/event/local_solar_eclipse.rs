use vstd::prelude::*;

use crate::time::{fits_i128, Duration, Instant, TimeInterval, TimeScale};

use super::global_lunar_eclipse::{lunar_eclipse_seed_interval, LUNAR_ECLIPSE_MAXIMUM_HALF_WINDOW_NANOSECONDS};
use super::sorting::{first_of_each_key, keep_first_of_each_key, ranked_key, sort_by_key, sorted_by, stable_under};
use super::{Error, EventEvidence, ExtremumEvidence, LocalSolarEclipseKind, SolarEclipseContactKind};

verus! {

/// Half-width, in nanoseconds, of the window searched for greatest local eclipse around a new Moon.
pub const LOCAL_SOLAR_ECLIPSE_MAXIMUM_HALF_WINDOW_NANOSECONDS: i128 = 43_200_000_000_000i128;

/// The interval in which new Moons seed a local solar-eclipse search: the requested
/// interval widened on both sides by the greatest-eclipse half window.
///
/// Fails when either widened bound leaves the representable range.
pub fn local_solar_eclipse_seed_interval<S: TimeScale>(interval: TimeInterval<S>) -> (r: Result<TimeInterval<S>, Error>)
    ensures
        r is Ok <==> fits_i128(interval.start_spec()@ - LOCAL_SOLAR_ECLIPSE_MAXIMUM_HALF_WINDOW_NANOSECONDS)
            && fits_i128(interval.end_spec()@ + LOCAL_SOLAR_ECLIPSE_MAXIMUM_HALF_WINDOW_NANOSECONDS),
        r matches Ok(i) ==> i.start_spec()@ == interval.start_spec()@ - LOCAL_SOLAR_ECLIPSE_MAXIMUM_HALF_WINDOW_NANOSECONDS
            && i.end_spec()@ == interval.end_spec()@ + LOCAL_SOLAR_ECLIPSE_MAXIMUM_HALF_WINDOW_NANOSECONDS,
        r matches Err(e) ==> e == Error::Time(crate::time::Error::Overflow {
            operation: if fits_i128(interval.start_spec()@ - LOCAL_SOLAR_ECLIPSE_MAXIMUM_HALF_WINDOW_NANOSECONDS) {
                "advancing an instant"
            } else {
                "retarding an instant"
            },
        }),
{
    assert(LOCAL_SOLAR_ECLIPSE_MAXIMUM_HALF_WINDOW_NANOSECONDS == LUNAR_ECLIPSE_MAXIMUM_HALF_WINDOW_NANOSECONDS);
    lunar_eclipse_seed_interval(interval)
}

/// Whether a local solar eclipse of this kind has the internal contacts C2/C3: annular and total ones.
pub open spec fn has_central_contacts(kind: LocalSolarEclipseKind) -> bool {
    kind == LocalSolarEclipseKind::Annular || kind == LocalSolarEclipseKind::Total
}

/// Returns whether a local solar eclipse of kind `kind` has the internal contacts C2/C3.
pub fn required_central_contacts(kind: LocalSolarEclipseKind) -> (b: bool)
    ensures
        b == has_central_contacts(kind),
{
    match kind {
        LocalSolarEclipseKind::Partial => false,
        LocalSolarEclipseKind::Annular => true,
        LocalSolarEclipseKind::Total => true,
    }
}

/// One refined local solar-eclipse contact; the topocentric disk observation and limb
/// position angle `O` and the residual `R` are carried unchanged.
#[derive(Debug, Copy, PartialEq)]
pub struct SolarEclipseContact<S: TimeScale, O, R> {
    /// C1, C2, C3, or C4 identity.
    pub kind: SolarEclipseContactKind,
    /// Refined contact instant.
    pub instant: Instant<S>,
    /// Disk observation and limb position angle at contact.
    pub observation: O,
    /// Numerical root-refinement evidence.
    pub evidence: EventEvidence<S, R>,
}

impl<S: TimeScale, O: Copy, R: Copy> Clone for SolarEclipseContact<S, O, R> {
    fn clone(&self) -> (r: Self)
        ensures
            r == *self,
    {
        *self
    }
}

/// Greatest local eclipse magnitude, with its disk observation `O` carried unchanged.
#[derive(Debug, Copy, PartialEq)]
pub struct LocalSolarEclipseMaximum<S: TimeScale, O> {
    /// Greatest-magnitude instant.
    pub instant: Instant<S>,
    /// Disk observation at greatest magnitude.
    pub observation: O,
    /// Numerical bounded-extremum evidence.
    pub evidence: ExtremumEvidence<S>,
}

impl<S: TimeScale, O: Copy> Clone for LocalSolarEclipseMaximum<S, O> {
    fn clone(&self) -> (r: Self)
        ensures
            r == *self,
    {
        *self
    }
}

/// The refined maxima that yield eclipses in `[lo, hi]`, in order: those whose instant
/// lies in the interval and which were classified as an eclipse, with their kind.
pub open spec fn eclipses_in_interval<S: TimeScale, O>(
    candidates: Seq<(LocalSolarEclipseMaximum<S, O>, Option<LocalSolarEclipseKind>)>,
    lo: int,
    hi: int,
) -> Seq<(LocalSolarEclipseMaximum<S, O>, LocalSolarEclipseKind)>
    decreases candidates.len(),
{
    if candidates.len() == 0 {
        Seq::empty()
    } else {
        let rest = eclipses_in_interval(candidates.drop_last(), lo, hi);
        let (maximum, kind) = candidates.last();
        if lo <= maximum.instant@ <= hi && kind is Some {
            rest.push((maximum, kind->0))
        } else {
            rest
        }
    }
}

/// Keeps the refined maxima that yield local solar eclipses in `interval`.
///
/// An eclipse belongs to the interval when its greatest-magnitude instant lies in it;
/// maxima that were not classified as an eclipse are dropped. Order is kept.
pub fn local_solar_eclipses_in_interval<S: TimeScale, O: Copy>(
    interval: TimeInterval<S>,
    candidates: &Vec<(LocalSolarEclipseMaximum<S, O>, Option<LocalSolarEclipseKind>)>,
) -> (r: Vec<(LocalSolarEclipseMaximum<S, O>, LocalSolarEclipseKind)>)
    ensures
        r@ == eclipses_in_interval(candidates@, interval.start_spec()@, interval.end_spec()@),
{
    let ghost lo = interval.start_spec()@;
    let ghost hi = interval.end_spec()@;
    let mut out: Vec<(LocalSolarEclipseMaximum<S, O>, LocalSolarEclipseKind)> = Vec::new();
    let mut i: usize = 0;
    while i < candidates.len()
        invariant
            i <= candidates@.len(),
            lo == interval.start_spec()@,
            hi == interval.end_spec()@,
            out@ == eclipses_in_interval(candidates@.take(i as int), lo, hi),
        decreases candidates@.len() - i,
    {
        proof {
            assert(candidates@.take(i as int + 1).drop_last() =~= candidates@.take(i as int));
            assert(candidates@.take(i as int + 1).last() == candidates@[i as int]);
        }
        let (maximum, kind) = candidates[i];
        if interval.contains(maximum.instant) {
            match kind {
                Some(k) => out.push((maximum, k)),
                None => {},
            }
        }
        i = i + 1;
    }
    proof {
        assert(candidates@.take(candidates@.len() as int) =~= candidates@);
    }
    out
}

/// An optional contact's instant, or `fallback` when it is absent.
pub open spec fn solar_contact_instant_or<S: TimeScale, O, R>(contact: Option<SolarEclipseContact<S, O, R>>, fallback: int) -> int {
    match contact {
        Some(c) => c.instant@,
        None => fallback,
    }
}

/// The contacts of a local solar eclipse of kind `kind` are consistent: C2 and C3 are
/// present exactly for annular and total eclipses, each contact carries its own label,
/// and they run C1 ≤ C2 ≤ greatest eclipse ≤ C3 ≤ C4 over those present.
pub open spec fn solar_contacts_consistent<S: TimeScale, O, R>(
    kind: LocalSolarEclipseKind,
    first: SolarEclipseContact<S, O, R>,
    second: Option<SolarEclipseContact<S, O, R>>,
    maximum: int,
    third: Option<SolarEclipseContact<S, O, R>>,
    fourth: SolarEclipseContact<S, O, R>,
) -> bool {
    let c1 = first.instant@;
    let c2 = solar_contact_instant_or(second, c1);
    let c3 = solar_contact_instant_or(third, maximum);
    let c4 = fourth.instant@;
    &&& (second is Some <==> has_central_contacts(kind))
    &&& (third is Some <==> has_central_contacts(kind))
    &&& first.kind == SolarEclipseContactKind::First
    &&& (second matches Some(c) ==> c.kind == SolarEclipseContactKind::Second)
    &&& (third matches Some(c) ==> c.kind == SolarEclipseContactKind::Third)
    &&& fourth.kind == SolarEclipseContactKind::Fourth
    &&& c1 <= c2 <= maximum <= c3 <= c4
}

fn solar_contact_nanoseconds_or<S: TimeScale, O, R>(contact: &Option<SolarEclipseContact<S, O, R>>, fallback: i128) -> (n: i128)
    ensures
        n == solar_contact_instant_or(*contact, fallback as int),
{
    match contact {
        Some(c) => {
            proof { c.instant.view_fits(); }
            c.instant.tai_nanoseconds_since_1900()
        },
        None => fallback,
    }
}

fn solar_contact_labelled<S: TimeScale, O, R>(contact: &Option<SolarEclipseContact<S, O, R>>, kind: SolarEclipseContactKind) -> (b: bool)
    ensures
        b == (contact matches Some(c) ==> c.kind == kind),
{
    match contact {
        Some(c) => c.kind == kind,
        None => true,
    }
}

/// Complete geometric circumstances of one local solar eclipse at a fixed terrestrial site.
///
/// The disk observations `O`, contact residual `R`, and the site, model and provenance `M`
/// are carried unchanged. Its contacts are always consistent with its kind and in
/// chronological order, and the phase durations are the exact contact differences.
#[derive(Debug, Copy, PartialEq)]
pub struct LocalSolarEclipse<S: TimeScale, O, R, M> {
    kind: LocalSolarEclipseKind,
    first_contact: SolarEclipseContact<S, O, R>,
    second_contact: Option<SolarEclipseContact<S, O, R>>,
    maximum: LocalSolarEclipseMaximum<S, O>,
    third_contact: Option<SolarEclipseContact<S, O, R>>,
    fourth_contact: SolarEclipseContact<S, O, R>,
    partial_phase_duration: Duration,
    central_phase_duration: Option<Duration>,
    context: M,
}

impl<S: TimeScale, O: Copy, R: Copy, M: Copy> Clone for LocalSolarEclipse<S, O, R, M> {
    fn clone(&self) -> (r: Self)
        ensures
            r == *self,
    {
        *self
    }
}

impl<S: TimeScale, O, R, M> LocalSolarEclipse<S, O, R, M> {
    /// The contacts match the kind and run in order; the durations are their differences.
    #[verifier::type_invariant]
    closed spec fn consistent(self) -> bool {
        &&& solar_contacts_consistent(
            self.kind,
            self.first_contact,
            self.second_contact,
            self.maximum.instant@,
            self.third_contact,
            self.fourth_contact,
        )
        &&& self.partial_phase_duration@ == self.fourth_contact.instant@ - self.first_contact.instant@
        &&& (self.central_phase_duration is Some <==> has_central_contacts(self.kind))
        &&& (self.central_phase_duration matches Some(d) ==> d@ == self.third_contact.unwrap().instant@
            - self.second_contact.unwrap().instant@)
    }

    /// The local partial, annular, or total classification.
    pub closed spec fn kind_spec(self) -> LocalSolarEclipseKind {
        self.kind
    }

    /// C1.
    pub closed spec fn first_contact_spec(self) -> SolarEclipseContact<S, O, R> {
        self.first_contact
    }

    /// C2, for an annular or total eclipse.
    pub closed spec fn second_contact_spec(self) -> Option<SolarEclipseContact<S, O, R>> {
        self.second_contact
    }

    /// Greatest local eclipse.
    pub closed spec fn maximum_spec(self) -> LocalSolarEclipseMaximum<S, O> {
        self.maximum
    }

    /// C3, for an annular or total eclipse.
    pub closed spec fn third_contact_spec(self) -> Option<SolarEclipseContact<S, O, R>> {
        self.third_contact
    }

    /// C4.
    pub closed spec fn fourth_contact_spec(self) -> SolarEclipseContact<S, O, R> {
        self.fourth_contact
    }

    /// The carried site, model and provenance.
    pub closed spec fn context_spec(self) -> M {
        self.context
    }

    /// Assembles one local solar eclipse from its refined contacts.
    ///
    /// Fails with `InconsistentEclipseContacts` unless C2/C3 are present exactly for an
    /// annular or total eclipse, each contact carries its own label, and they run
    /// C1 ≤ C2 ≤ greatest eclipse ≤ C3 ≤ C4; fails with a time overflow when the C1-to-C4
    /// duration is not representable.
    pub fn from_contacts(
        kind: LocalSolarEclipseKind,
        first_contact: SolarEclipseContact<S, O, R>,
        second_contact: Option<SolarEclipseContact<S, O, R>>,
        maximum: LocalSolarEclipseMaximum<S, O>,
        third_contact: Option<SolarEclipseContact<S, O, R>>,
        fourth_contact: SolarEclipseContact<S, O, R>,
        context: M,
    ) -> (r: Result<Self, Error>)
        ensures
            r is Ok <==> solar_contacts_consistent(
                kind,
                first_contact,
                second_contact,
                maximum.instant@,
                third_contact,
                fourth_contact,
            ) && fits_i128(fourth_contact.instant@ - first_contact.instant@),
            r matches Ok(e) ==> {
                &&& e.kind_spec() == kind
                &&& e.first_contact_spec() == first_contact
                &&& e.second_contact_spec() == second_contact
                &&& e.maximum_spec() == maximum
                &&& e.third_contact_spec() == third_contact
                &&& e.fourth_contact_spec() == fourth_contact
                &&& e.context_spec() == context
            },
            r matches Err(e) ==> e == if solar_contacts_consistent(
                kind,
                first_contact,
                second_contact,
                maximum.instant@,
                third_contact,
                fourth_contact,
            ) {
                Error::Time(crate::time::Error::Overflow { operation: "differencing instants" })
            } else {
                Error::InconsistentEclipseContacts { eclipse: "local solar eclipse" }
            },
    {
        let central = required_central_contacts(kind);
        proof {
            first_contact.instant.view_fits();
            fourth_contact.instant.view_fits();
            maximum.instant.view_fits();
        }
        let c1 = first_contact.instant.tai_nanoseconds_since_1900();
        let c2 = solar_contact_nanoseconds_or(&second_contact, c1);
        let max = maximum.instant.tai_nanoseconds_since_1900();
        let c3 = solar_contact_nanoseconds_or(&third_contact, max);
        let c4 = fourth_contact.instant.tai_nanoseconds_since_1900();
        let present = second_contact.is_some() == central && third_contact.is_some() == central;
        let labels = first_contact.kind == SolarEclipseContactKind::First
            && solar_contact_labelled(&second_contact, SolarEclipseContactKind::Second)
            && solar_contact_labelled(&third_contact, SolarEclipseContactKind::Third)
            && fourth_contact.kind == SolarEclipseContactKind::Fourth;
        let ordered = c1 <= c2 && c2 <= max && max <= c3 && c3 <= c4;
        if !(present && labels && ordered) {
            return Err(Error::InconsistentEclipseContacts { eclipse: "local solar eclipse" });
        }
        let partial_phase_duration = match fourth_contact.instant.duration_since(first_contact.instant) {
            Ok(d) => d,
            Err(e) => return Err(Error::Time(e)),
        };
        let central_phase_duration = match (&second_contact, &third_contact) {
            (Some(second), Some(third)) => {
                proof {
                    second.instant.view_fits();
                    third.instant.view_fits();
                }
                match third.instant.duration_since(second.instant) {
                    Ok(d) => Some(d),
                    Err(e) => return Err(Error::Time(e)),
                }
            },
            _ => None,
        };
        Ok(LocalSolarEclipse {
            kind,
            first_contact,
            second_contact,
            maximum,
            third_contact,
            fourth_contact,
            partial_phase_duration,
            central_phase_duration,
            context,
        })
    }

    /// Returns the local partial, annular, or total classification.
    pub fn kind(&self) -> (k: LocalSolarEclipseKind)
        ensures
            k == self.kind_spec(),
    {
        self.kind
    }

    /// Returns C1, the first exterior contact.
    pub fn first_contact(&self) -> (c: &SolarEclipseContact<S, O, R>)
        ensures
            *c == self.first_contact_spec(),
    {
        &self.first_contact
    }

    /// Returns C2 for an annular or total eclipse.
    pub fn second_contact(&self) -> (c: &Option<SolarEclipseContact<S, O, R>>)
        ensures
            *c == self.second_contact_spec(),
            c is Some <==> has_central_contacts(self.kind_spec()),
    {
        proof { use_type_invariant(self); }
        &self.second_contact
    }

    /// Returns the greatest local eclipse magnitude.
    pub fn maximum(&self) -> (m: &LocalSolarEclipseMaximum<S, O>)
        ensures
            *m == self.maximum_spec(),
            self.first_contact_spec().instant@ <= m.instant@ <= self.fourth_contact_spec().instant@,
    {
        proof { use_type_invariant(self); }
        &self.maximum
    }

    /// Returns C3 for an annular or total eclipse.
    pub fn third_contact(&self) -> (c: &Option<SolarEclipseContact<S, O, R>>)
        ensures
            *c == self.third_contact_spec(),
            c is Some <==> has_central_contacts(self.kind_spec()),
    {
        proof { use_type_invariant(self); }
        &self.third_contact
    }

    /// Returns C4, the fourth exterior contact.
    pub fn fourth_contact(&self) -> (c: &SolarEclipseContact<S, O, R>)
        ensures
            *c == self.fourth_contact_spec(),
    {
        &self.fourth_contact
    }

    /// Returns the C1-to-C4 geometric partial-phase duration.
    pub fn partial_phase_duration(&self) -> (d: Duration)
        ensures
            d@ == self.fourth_contact_spec().instant@ - self.first_contact_spec().instant@,
            d@ >= 0,
    {
        proof { use_type_invariant(self); }
        self.partial_phase_duration
    }

    /// Returns the C2-to-C3 annular or total phase duration, which is no longer than the
    /// partial phase.
    pub fn central_phase_duration(&self) -> (d: Option<Duration>)
        ensures
            d is Some <==> has_central_contacts(self.kind_spec()),
            d matches Some(c) ==> {
                &&& c@ == self.third_contact_spec().unwrap().instant@ - self.second_contact_spec().unwrap().instant@
                &&& 0 <= c@ <= self.fourth_contact_spec().instant@ - self.first_contact_spec().instant@
            },
    {
        proof { use_type_invariant(self); }
        self.central_phase_duration
    }

    /// Returns the carried site, model and provenance.
    pub fn context(&self) -> (m: &M)
        ensures
            *m == self.context_spec(),
    {
        &self.context
    }
}

/// The key that orders local solar eclipses: their greatest-eclipse instant.
pub open spec fn local_eclipse_maximum_key<S: TimeScale, O, R, M>() -> spec_fn(LocalSolarEclipse<S, O, R, M>) -> int {
    |e: LocalSolarEclipse<S, O, R, M>| ranked_key(e.maximum_spec().instant@ as i128, 0)
}

fn local_eclipse_sort_key<S: TimeScale, O, R, M>(e: &LocalSolarEclipse<S, O, R, M>) -> (k: (i128, u8))
    ensures
        k.1 < 3,
        ranked_key(k.0, k.1) == local_eclipse_maximum_key()(*e),
{
    proof { e.maximum_spec().instant.view_fits(); }
    (e.maximum().instant.tai_nanoseconds_since_1900(), 0)
}

/// Orders local solar eclipses by greatest eclipse and keeps one per greatest-eclipse instant.
///
/// The eclipses are sorted stably by their greatest-eclipse instant; of several found at
/// the same instant (from neighbouring new-Moon seeds), the first is kept.
pub fn order_local_solar_eclipses<S: TimeScale, O: Copy, R: Copy, M: Copy>(
    eclipses: Vec<LocalSolarEclipse<S, O, R, M>>,
) -> (r: Vec<LocalSolarEclipse<S, O, R, M>>)
    ensures
        exists|sorted: Seq<LocalSolarEclipse<S, O, R, M>>| #![trigger sorted.to_multiset()] {
            &&& sorted.to_multiset() == eclipses@.to_multiset()
            &&& sorted_by(sorted, local_eclipse_maximum_key())
            &&& stable_under(sorted, eclipses@, local_eclipse_maximum_key())
            &&& r@ == first_of_each_key(sorted, local_eclipse_maximum_key())
        },
        forall|i: int, j: int| 0 <= i < j < r@.len() ==> r@[i].maximum_spec().instant@ < r@[j].maximum_spec().instant@,
{
    let ghost input = eclipses@;
    let sorted = sort_by_key(eclipses, Ghost(local_eclipse_maximum_key()), local_eclipse_sort_key::<S, O, R, M>);
    let r = keep_first_of_each_key(&sorted, Ghost(local_eclipse_maximum_key()), local_eclipse_sort_key::<S, O, R, M>);
    proof {
        assert forall|i: int, j: int| 0 <= i < j < r@.len() implies r@[i].maximum_spec().instant@
            < r@[j].maximum_spec().instant@ by {
            let key = local_eclipse_maximum_key::<S, O, R, M>();
            assert(key(r@[i]) < key(r@[j]));
            r@[i].maximum_spec().instant.view_fits();
            r@[j].maximum_spec().instant.view_fits();
        }
        assert(sorted@.to_multiset() == input.to_multiset());
    }
    r
}

} // verus!
