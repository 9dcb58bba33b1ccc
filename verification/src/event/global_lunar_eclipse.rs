use vstd::prelude::*;

use crate::time::{fits_i128, Duration, Instant, TimeInterval, TimeScale};

use super::sorting::{first_of_each_key, keep_first_of_each_key, ranked_key, sort_by_key, sorted_by, stable_under};
use super::{Error, EventEvidence, ExtremumEvidence, LunarEclipseContactKind, LunarEclipseKind, LunarEclipsePhaseInterval};

verus! {

/// Half-width, in nanoseconds, of the window searched for greatest eclipse around a full Moon.
pub const LUNAR_ECLIPSE_MAXIMUM_HALF_WINDOW_NANOSECONDS: i128 = 43_200_000_000_000i128;

/// The interval in which full Moons seed a global lunar-eclipse search: the requested
/// interval widened on both sides by the greatest-eclipse half window, so that every
/// greatest eclipse inside the interval has its seed inside the widened one.
///
/// Fails when either widened bound leaves the representable range.
pub fn lunar_eclipse_seed_interval<S: TimeScale>(interval: TimeInterval<S>) -> (r: Result<TimeInterval<S>, Error>)
    ensures
        r is Ok <==> fits_i128(interval.start_spec()@ - LUNAR_ECLIPSE_MAXIMUM_HALF_WINDOW_NANOSECONDS)
            && fits_i128(interval.end_spec()@ + LUNAR_ECLIPSE_MAXIMUM_HALF_WINDOW_NANOSECONDS),
        r matches Ok(i) ==> i.start_spec()@ == interval.start_spec()@ - LUNAR_ECLIPSE_MAXIMUM_HALF_WINDOW_NANOSECONDS
            && i.end_spec()@ == interval.end_spec()@ + LUNAR_ECLIPSE_MAXIMUM_HALF_WINDOW_NANOSECONDS,
        r matches Err(e) ==> e == Error::Time(crate::time::Error::Overflow {
            operation: if fits_i128(interval.start_spec()@ - LUNAR_ECLIPSE_MAXIMUM_HALF_WINDOW_NANOSECONDS) {
                "advancing an instant"
            } else {
                "retarding an instant"
            },
        }),
{
    let half_window = Duration::from_nanoseconds(LUNAR_ECLIPSE_MAXIMUM_HALF_WINDOW_NANOSECONDS);
    let start = match interval.start().checked_sub(half_window) {
        Ok(t) => t,
        Err(e) => return Err(Error::Time(e)),
    };
    let end = match interval.end().checked_add(half_window) {
        Ok(t) => t,
        Err(e) => return Err(Error::Time(e)),
    };
    match TimeInterval::new(start, end) {
        Ok(i) => Ok(i),
        Err(e) => Err(Error::Time(e)),
    }
}

/// Whether a lunar eclipse of this kind has umbral contacts U1/U4: partial and total ones.
pub open spec fn has_umbral_contacts(kind: LunarEclipseKind) -> bool {
    kind == LunarEclipseKind::Partial || kind == LunarEclipseKind::Total
}

/// Whether a lunar eclipse of this kind has totality contacts U2/U3: total ones.
pub open spec fn has_totality_contacts(kind: LunarEclipseKind) -> bool {
    kind == LunarEclipseKind::Total
}

/// Returns which contact pairs a lunar eclipse of kind `kind` has beyond P1/P4:
/// the umbral pair U1/U4 and the totality pair U2/U3.
pub fn required_lunar_contacts(kind: LunarEclipseKind) -> (r: (bool, bool))
    ensures
        r.0 == has_umbral_contacts(kind),
        r.1 == has_totality_contacts(kind),
{
    match kind {
        LunarEclipseKind::Penumbral => (false, false),
        LunarEclipseKind::Partial => (true, false),
        LunarEclipseKind::Total => (true, true),
    }
}

/// Decides whether a refined greatest eclipse yields a global lunar eclipse in `interval`:
/// it does when its instant lies in the interval and the Moon reached the penumbra, and
/// the eclipse then has the kind found at greatest eclipse.
pub fn lunar_eclipse_in_interval<S: TimeScale>(
    interval: TimeInterval<S>,
    maximum: Instant<S>,
    classification: Option<LunarEclipseKind>,
) -> (r: Option<LunarEclipseKind>)
    ensures
        r == (if interval.start_spec()@ <= maximum@ <= interval.end_spec()@ {
            classification
        } else {
            None::<LunarEclipseKind>
        }),
{
    if interval.contains(maximum) {
        classification
    } else {
        None
    }
}

/// One refined lunar-eclipse contact; the shadow geometry `G` and residual `R` are carried unchanged.
#[derive(Debug, Copy, PartialEq)]
pub struct LunarEclipseContact<S: TimeScale, G, R> {
    /// P1, U1, U2, U3, U4, or P4 identity.
    pub kind: LunarEclipseContactKind,
    /// Contact instant.
    pub instant: Instant<S>,
    /// Shadow geometry evaluated at the contact.
    pub geometry: G,
    /// Numerical root-search evidence.
    pub evidence: EventEvidence<S, R>,
}

impl<S: TimeScale, G: Copy, R: Copy> Clone for LunarEclipseContact<S, G, R> {
    fn clone(&self) -> (r: Self)
        ensures
            r == *self,
    {
        *self
    }
}

/// Greatest eclipse: the refined minimum of the Moon-to-shadow-axis separation, with
/// its shadow geometry `G` carried unchanged.
#[derive(Debug, Copy, PartialEq)]
pub struct LunarEclipseMaximum<S: TimeScale, G> {
    /// Greatest-eclipse instant.
    pub instant: Instant<S>,
    /// Shadow geometry evaluated at greatest eclipse.
    pub geometry: G,
    /// Numerical bounded-minimum evidence.
    pub evidence: ExtremumEvidence<S>,
}

impl<S: TimeScale, G: Copy> Clone for LunarEclipseMaximum<S, G> {
    fn clone(&self) -> (r: Self)
        ensures
            r == *self,
    {
        *self
    }
}

/// An optional instant's nanosecond count, or `fallback` when it is absent.
pub open spec fn instant_or<S: TimeScale, G, R>(contact: Option<LunarEclipseContact<S, G, R>>, fallback: int) -> int {
    match contact {
        Some(c) => c.instant@,
        None => fallback,
    }
}

/// An optional contact carries the expected label.
pub open spec fn labelled<S: TimeScale, G, R>(contact: Option<LunarEclipseContact<S, G, R>>, kind: LunarEclipseContactKind) -> bool {
    contact matches Some(c) ==> c.kind == kind
}

/// The contacts of a global lunar eclipse of kind `kind` are consistent: exactly the
/// kind's contacts are present, each under its own label, and they run in the order
/// P1 ≤ U1 ≤ U2 ≤ greatest eclipse ≤ U3 ≤ U4 ≤ P4 over those present.
pub open spec fn lunar_contacts_consistent<S: TimeScale, G, R>(
    kind: LunarEclipseKind,
    penumbral_ingress: LunarEclipseContact<S, G, R>,
    umbral_ingress: Option<LunarEclipseContact<S, G, R>>,
    totality_ingress: Option<LunarEclipseContact<S, G, R>>,
    maximum: int,
    totality_egress: Option<LunarEclipseContact<S, G, R>>,
    umbral_egress: Option<LunarEclipseContact<S, G, R>>,
    penumbral_egress: LunarEclipseContact<S, G, R>,
) -> bool {
    let p1 = penumbral_ingress.instant@;
    let u1 = instant_or(umbral_ingress, p1);
    let u2 = instant_or(totality_ingress, u1);
    let u3 = instant_or(totality_egress, maximum);
    let u4 = instant_or(umbral_egress, u3);
    let p4 = penumbral_egress.instant@;
    &&& (umbral_ingress is Some <==> has_umbral_contacts(kind))
    &&& (umbral_egress is Some <==> has_umbral_contacts(kind))
    &&& (totality_ingress is Some <==> has_totality_contacts(kind))
    &&& (totality_egress is Some <==> has_totality_contacts(kind))
    &&& penumbral_ingress.kind == LunarEclipseContactKind::PenumbralIngress
    &&& labelled(umbral_ingress, LunarEclipseContactKind::UmbralIngress)
    &&& labelled(totality_ingress, LunarEclipseContactKind::TotalityIngress)
    &&& labelled(totality_egress, LunarEclipseContactKind::TotalityEgress)
    &&& labelled(umbral_egress, LunarEclipseContactKind::UmbralEgress)
    &&& penumbral_egress.kind == LunarEclipseContactKind::PenumbralEgress
    &&& p1 <= u1 <= u2 <= maximum <= u3 <= u4 <= p4
}

fn contact_instant_or<S: TimeScale, G, R>(contact: &Option<LunarEclipseContact<S, G, R>>, fallback: i128) -> (n: i128)
    ensures
        n == instant_or(*contact, fallback as int),
{
    match contact {
        Some(c) => {
            proof { c.instant.view_fits(); }
            c.instant.tai_nanoseconds_since_1900()
        },
        None => fallback,
    }
}

fn contact_labelled<S: TimeScale, G, R>(contact: &Option<LunarEclipseContact<S, G, R>>, kind: LunarEclipseContactKind) -> (b: bool)
    ensures
        b == labelled(*contact, kind),
{
    match contact {
        Some(c) => c.kind == kind,
        None => true,
    }
}

/// Complete geocentric circumstances of one global lunar eclipse.
///
/// The shadow geometry `G`, contact residual `R`, and the physical model, Earth figure
/// and ephemeris provenance `M` are carried unchanged. Its contacts are always consistent
/// with its kind and in chronological order.
#[derive(Debug, Copy, PartialEq)]
pub struct GlobalLunarEclipse<S: TimeScale, G, R, M> {
    kind: LunarEclipseKind,
    penumbral_ingress: LunarEclipseContact<S, G, R>,
    umbral_ingress: Option<LunarEclipseContact<S, G, R>>,
    totality_ingress: Option<LunarEclipseContact<S, G, R>>,
    maximum: LunarEclipseMaximum<S, G>,
    totality_egress: Option<LunarEclipseContact<S, G, R>>,
    umbral_egress: Option<LunarEclipseContact<S, G, R>>,
    penumbral_egress: LunarEclipseContact<S, G, R>,
    model: M,
}

impl<S: TimeScale, G: Copy, R: Copy, M: Copy> Clone for GlobalLunarEclipse<S, G, R, M> {
    fn clone(&self) -> (r: Self)
        ensures
            r == *self,
    {
        *self
    }
}

impl<S: TimeScale, G, R, M> GlobalLunarEclipse<S, G, R, M> {
    /// The contacts match the kind and run in chronological order.
    #[verifier::type_invariant]
    closed spec fn consistent(self) -> bool {
        lunar_contacts_consistent(
            self.kind,
            self.penumbral_ingress,
            self.umbral_ingress,
            self.totality_ingress,
            self.maximum.instant@,
            self.totality_egress,
            self.umbral_egress,
            self.penumbral_egress,
        )
    }

    /// The classification at greatest eclipse.
    pub closed spec fn kind_spec(self) -> LunarEclipseKind {
        self.kind
    }

    /// P1.
    pub closed spec fn penumbral_ingress_spec(self) -> LunarEclipseContact<S, G, R> {
        self.penumbral_ingress
    }

    /// U1, when the Moon enters the umbra.
    pub closed spec fn umbral_ingress_spec(self) -> Option<LunarEclipseContact<S, G, R>> {
        self.umbral_ingress
    }

    /// U2, for a total eclipse.
    pub closed spec fn totality_ingress_spec(self) -> Option<LunarEclipseContact<S, G, R>> {
        self.totality_ingress
    }

    /// Greatest eclipse.
    pub closed spec fn maximum_spec(self) -> LunarEclipseMaximum<S, G> {
        self.maximum
    }

    /// U3, for a total eclipse.
    pub closed spec fn totality_egress_spec(self) -> Option<LunarEclipseContact<S, G, R>> {
        self.totality_egress
    }

    /// U4, when the Moon leaves the umbra.
    pub closed spec fn umbral_egress_spec(self) -> Option<LunarEclipseContact<S, G, R>> {
        self.umbral_egress
    }

    /// P4.
    pub closed spec fn penumbral_egress_spec(self) -> LunarEclipseContact<S, G, R> {
        self.penumbral_egress
    }

    /// The carried physical model and provenance.
    pub closed spec fn model_spec(self) -> M {
        self.model
    }

    /// Assembles one global lunar eclipse from its refined contacts.
    ///
    /// Fails unless exactly the kind's contacts are present (U1/U4 for partial and
    /// total eclipses, U2/U3 for total ones), each carries its own label, and they run
    /// P1 ≤ U1 ≤ U2 ≤ greatest eclipse ≤ U3 ≤ U4 ≤ P4.
    pub fn from_contacts(
        kind: LunarEclipseKind,
        penumbral_ingress: LunarEclipseContact<S, G, R>,
        umbral_ingress: Option<LunarEclipseContact<S, G, R>>,
        totality_ingress: Option<LunarEclipseContact<S, G, R>>,
        maximum: LunarEclipseMaximum<S, G>,
        totality_egress: Option<LunarEclipseContact<S, G, R>>,
        umbral_egress: Option<LunarEclipseContact<S, G, R>>,
        penumbral_egress: LunarEclipseContact<S, G, R>,
        model: M,
    ) -> (r: Result<Self, Error>)
        ensures
            r is Ok <==> lunar_contacts_consistent(
                kind,
                penumbral_ingress,
                umbral_ingress,
                totality_ingress,
                maximum.instant@,
                totality_egress,
                umbral_egress,
                penumbral_egress,
            ),
            r matches Ok(e) ==> {
                &&& e.kind_spec() == kind
                &&& e.penumbral_ingress_spec() == penumbral_ingress
                &&& e.umbral_ingress_spec() == umbral_ingress
                &&& e.totality_ingress_spec() == totality_ingress
                &&& e.maximum_spec() == maximum
                &&& e.totality_egress_spec() == totality_egress
                &&& e.umbral_egress_spec() == umbral_egress
                &&& e.penumbral_egress_spec() == penumbral_egress
                &&& e.model_spec() == model
            },
            r matches Err(e) ==> e == (Error::InconsistentEclipseContacts { eclipse: "global lunar eclipse" }),
    {
        let (umbral, totality) = required_lunar_contacts(kind);
        proof {
            penumbral_ingress.instant.view_fits();
            penumbral_egress.instant.view_fits();
            maximum.instant.view_fits();
        }
        let p1 = penumbral_ingress.instant.tai_nanoseconds_since_1900();
        let u1 = contact_instant_or(&umbral_ingress, p1);
        let u2 = contact_instant_or(&totality_ingress, u1);
        let max = maximum.instant.tai_nanoseconds_since_1900();
        let u3 = contact_instant_or(&totality_egress, max);
        let u4 = contact_instant_or(&umbral_egress, u3);
        let p4 = penumbral_egress.instant.tai_nanoseconds_since_1900();
        let present = umbral_ingress.is_some() == umbral && umbral_egress.is_some() == umbral
            && totality_ingress.is_some() == totality && totality_egress.is_some() == totality;
        let labels = penumbral_ingress.kind == LunarEclipseContactKind::PenumbralIngress
            && contact_labelled(&umbral_ingress, LunarEclipseContactKind::UmbralIngress)
            && contact_labelled(&totality_ingress, LunarEclipseContactKind::TotalityIngress)
            && contact_labelled(&totality_egress, LunarEclipseContactKind::TotalityEgress)
            && contact_labelled(&umbral_egress, LunarEclipseContactKind::UmbralEgress)
            && penumbral_egress.kind == LunarEclipseContactKind::PenumbralEgress;
        let ordered = p1 <= u1 && u1 <= u2 && u2 <= max && max <= u3 && u3 <= u4 && u4 <= p4;
        if present && labels && ordered {
            Ok(GlobalLunarEclipse {
                kind,
                penumbral_ingress,
                umbral_ingress,
                totality_ingress,
                maximum,
                totality_egress,
                umbral_egress,
                penumbral_egress,
                model,
            })
        } else {
            Err(Error::InconsistentEclipseContacts { eclipse: "global lunar eclipse" })
        }
    }

    /// Returns the penumbral, partial, or total classification.
    pub fn kind(&self) -> (k: LunarEclipseKind)
        ensures
            k == self.kind_spec(),
    {
        self.kind
    }

    /// Returns greatest eclipse.
    pub fn maximum(&self) -> (m: &LunarEclipseMaximum<S, G>)
        ensures
            *m == self.maximum_spec(),
    {
        &self.maximum
    }

    /// Returns P1.
    pub fn penumbral_ingress(&self) -> (c: &LunarEclipseContact<S, G, R>)
        ensures
            *c == self.penumbral_ingress_spec(),
    {
        &self.penumbral_ingress
    }

    /// Returns U1 when the Moon enters the umbra.
    pub fn umbral_ingress(&self) -> (c: &Option<LunarEclipseContact<S, G, R>>)
        ensures
            *c == self.umbral_ingress_spec(),
            c is Some <==> has_umbral_contacts(self.kind_spec()),
    {
        proof { use_type_invariant(self); }
        &self.umbral_ingress
    }

    /// Returns U2 for a total eclipse.
    pub fn totality_ingress(&self) -> (c: &Option<LunarEclipseContact<S, G, R>>)
        ensures
            *c == self.totality_ingress_spec(),
            c is Some <==> has_totality_contacts(self.kind_spec()),
    {
        proof { use_type_invariant(self); }
        &self.totality_ingress
    }

    /// Returns U3 for a total eclipse.
    pub fn totality_egress(&self) -> (c: &Option<LunarEclipseContact<S, G, R>>)
        ensures
            *c == self.totality_egress_spec(),
            c is Some <==> has_totality_contacts(self.kind_spec()),
    {
        proof { use_type_invariant(self); }
        &self.totality_egress
    }

    /// Returns U4 when the Moon leaves the umbra.
    pub fn umbral_egress(&self) -> (c: &Option<LunarEclipseContact<S, G, R>>)
        ensures
            *c == self.umbral_egress_spec(),
            c is Some <==> has_umbral_contacts(self.kind_spec()),
    {
        proof { use_type_invariant(self); }
        &self.umbral_egress
    }

    /// Returns P4.
    pub fn penumbral_egress(&self) -> (c: &LunarEclipseContact<S, G, R>)
        ensures
            *c == self.penumbral_egress_spec(),
    {
        &self.penumbral_egress
    }

    /// Returns the carried physical model and provenance.
    pub fn model(&self) -> (m: &M)
        ensures
            *m == self.model_spec(),
    {
        &self.model
    }

    /// Returns the complete penumbral phase P1-P4, which contains greatest eclipse.
    pub fn penumbral_phase(&self) -> (r: Result<LunarEclipsePhaseInterval<S>, Error>)
        ensures
            r matches Ok(p) && p.kind == LunarEclipseKind::Penumbral
                && p.interval.start_spec() == self.penumbral_ingress_spec().instant
                && p.interval.end_spec() == self.penumbral_egress_spec().instant,
            self.penumbral_ingress_spec().instant@ <= self.maximum_spec().instant@
                <= self.penumbral_egress_spec().instant@,
    {
        proof { use_type_invariant(self); }
        LunarEclipsePhaseInterval::from_contacts(
            LunarEclipseKind::Penumbral,
            self.penumbral_ingress.instant,
            self.penumbral_egress.instant,
        )
    }

    /// Returns the partial phase U1-U4 when the Moon enters the umbra; it lies within
    /// the penumbral phase and contains greatest eclipse.
    pub fn partial_phase(&self) -> (r: Result<Option<LunarEclipsePhaseInterval<S>>, Error>)
        ensures
            r is Ok,
            r matches Ok(o) && (o is Some <==> has_umbral_contacts(self.kind_spec())),
            r matches Ok(Some(p)) ==> {
                &&& p.kind == LunarEclipseKind::Partial
                &&& self.umbral_ingress_spec() == Some(
                    LunarEclipseContact { instant: p.interval.start_spec(), ..self.umbral_ingress_spec().unwrap() },
                )
                &&& self.umbral_egress_spec() == Some(
                    LunarEclipseContact { instant: p.interval.end_spec(), ..self.umbral_egress_spec().unwrap() },
                )
                &&& self.penumbral_ingress_spec().instant@ <= p.interval.start_spec()@
                &&& p.interval.start_spec()@ <= self.maximum_spec().instant@ <= p.interval.end_spec()@
                &&& p.interval.end_spec()@ <= self.penumbral_egress_spec().instant@
            },
    {
        proof { use_type_invariant(self); }
        match (&self.umbral_ingress, &self.umbral_egress) {
            (Some(a), Some(b)) => LunarEclipsePhaseInterval::from_optional_contacts(
                LunarEclipseKind::Partial,
                Some(a.instant),
                Some(b.instant),
            ),
            _ => Ok(None),
        }
    }

    /// Returns the total phase U2-U3 for a total eclipse; it lies within the partial
    /// phase and contains greatest eclipse.
    pub fn total_phase(&self) -> (r: Result<Option<LunarEclipsePhaseInterval<S>>, Error>)
        ensures
            r is Ok,
            r matches Ok(o) && (o is Some <==> has_totality_contacts(self.kind_spec())),
            r matches Ok(Some(p)) ==> {
                &&& p.kind == LunarEclipseKind::Total
                &&& self.totality_ingress_spec() == Some(
                    LunarEclipseContact { instant: p.interval.start_spec(), ..self.totality_ingress_spec().unwrap() },
                )
                &&& self.totality_egress_spec() == Some(
                    LunarEclipseContact { instant: p.interval.end_spec(), ..self.totality_egress_spec().unwrap() },
                )
                &&& self.umbral_ingress_spec().unwrap().instant@ <= p.interval.start_spec()@
                &&& p.interval.start_spec()@ <= self.maximum_spec().instant@ <= p.interval.end_spec()@
                &&& p.interval.end_spec()@ <= self.umbral_egress_spec().unwrap().instant@
            },
    {
        proof { use_type_invariant(self); }
        match (&self.totality_ingress, &self.totality_egress) {
            (Some(a), Some(b)) => LunarEclipsePhaseInterval::from_optional_contacts(
                LunarEclipseKind::Total,
                Some(a.instant),
                Some(b.instant),
            ),
            _ => Ok(None),
        }
    }
}

/// The key that orders global lunar eclipses: their greatest-eclipse instant.
pub open spec fn lunar_eclipse_maximum_key<S: TimeScale, G, R, M>() -> spec_fn(GlobalLunarEclipse<S, G, R, M>) -> int {
    |e: GlobalLunarEclipse<S, G, R, M>| ranked_key(e.maximum_spec().instant@ as i128, 0)
}

fn lunar_eclipse_sort_key<S: TimeScale, G, R, M>(e: &GlobalLunarEclipse<S, G, R, M>) -> (k: (i128, u8))
    ensures
        k.1 < 3,
        ranked_key(k.0, k.1) == lunar_eclipse_maximum_key()(*e),
{
    proof { e.maximum_spec().instant.view_fits(); }
    (e.maximum().instant.tai_nanoseconds_since_1900(), 0)
}

/// Orders global lunar eclipses by greatest eclipse and keeps one per greatest-eclipse instant.
///
/// The eclipses are sorted stably by their greatest-eclipse instant; of several eclipses
/// found at the same instant (from neighbouring full-Moon seeds), the first is kept.
pub fn order_global_lunar_eclipses<S: TimeScale, G: Copy, R: Copy, M: Copy>(
    eclipses: Vec<GlobalLunarEclipse<S, G, R, M>>,
) -> (r: Vec<GlobalLunarEclipse<S, G, R, M>>)
    ensures
        exists|sorted: Seq<GlobalLunarEclipse<S, G, R, M>>| #![trigger sorted.to_multiset()] {
            &&& sorted.to_multiset() == eclipses@.to_multiset()
            &&& sorted_by(sorted, lunar_eclipse_maximum_key())
            &&& stable_under(sorted, eclipses@, lunar_eclipse_maximum_key())
            &&& r@ == first_of_each_key(sorted, lunar_eclipse_maximum_key())
        },
        forall|i: int, j: int| 0 <= i < j < r@.len() ==> r@[i].maximum_spec().instant@ < r@[j].maximum_spec().instant@,
{
    let ghost input = eclipses@;
    let sorted = sort_by_key(eclipses, Ghost(lunar_eclipse_maximum_key()), lunar_eclipse_sort_key::<S, G, R, M>);
    let r = keep_first_of_each_key(&sorted, Ghost(lunar_eclipse_maximum_key()), lunar_eclipse_sort_key::<S, G, R, M>);
    proof {
        assert forall|i: int, j: int| 0 <= i < j < r@.len() implies r@[i].maximum_spec().instant@
            < r@[j].maximum_spec().instant@ by {
            let key = lunar_eclipse_maximum_key::<S, G, R, M>();
            assert(key(r@[i]) < key(r@[j]));
            r@[i].maximum_spec().instant.view_fits();
            r@[j].maximum_spec().instant.view_fits();
        }
        assert(sorted@.to_multiset() == input.to_multiset());
    }
    r
}

} // verus!
