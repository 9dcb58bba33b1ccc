use vstd::prelude::*;

use crate::ephem::CelestialBody;
use crate::time::{Instant, TimeScale};

use super::horizon::{event_instant_key, horizon_visibility_law, spec_visibility};
use super::sorting::sorted_by;
use super::{EventEvidence, HorizonCriterion, HorizonEvent, HorizonEventKind, HorizonEventSearch, HorizonVisibility};

verus! {

/// Standard or caller-defined solar-centre altitude defining twilight.
///
/// A caller-defined altitude `A` is carried unchanged.
#[derive(Debug, Clone, Copy, PartialEq)]
#[non_exhaustive]
pub enum TwilightLevel<A> {
    /// Civil twilight at a solar-centre altitude of −6°.
    Civil,
    /// Nautical twilight at a solar-centre altitude of −12°.
    Nautical,
    /// Astronomical twilight at a solar-centre altitude of −18°.
    Astronomical,
    /// A caller-defined solar-centre altitude.
    Custom(A),
}

impl<A: Copy> TwilightLevel<A> {
    /// Returns the defining solar-centre altitude in whole degrees for a standard level,
    /// or `None` for a caller-defined altitude.
    pub fn standard_altitude_degrees(self) -> (r: Option<i32>)
        ensures
            r == (match self {
                TwilightLevel::Civil => Some(-6i32),
                TwilightLevel::Nautical => Some(-12i32),
                TwilightLevel::Astronomical => Some(-18i32),
                TwilightLevel::Custom(_) => None,
            }),
    {
        match self {
            TwilightLevel::Civil => Some(-6),
            TwilightLevel::Nautical => Some(-12),
            TwilightLevel::Astronomical => Some(-18),
            TwilightLevel::Custom(_) => None,
        }
    }
}

/// Direction of one twilight-level crossing.
#[derive(Debug, Clone, Copy, PartialEq, Eq, Structural)]
#[non_exhaustive]
pub enum TwilightEventKind {
    /// The Sun crosses upward through the twilight altitude.
    Dawn,
    /// The Sun crosses downward through the twilight altitude.
    Dusk,
}

/// Illumination-state classification over the requested closed interval.
#[derive(Debug, Clone, Copy, PartialEq, Eq, Structural)]
#[non_exhaustive]
pub enum TwilightState {
    /// Both dawn and dusk occur in the interval.
    DawnAndDusk,
    /// The Sun remains above the selected twilight altitude.
    ContinuousLight,
    /// The Sun remains below the selected twilight altitude.
    ContinuousDark,
    /// The interval cuts off one member of a dawn/dusk pair.
    TruncatedByInterval,
    /// More than one dawn/dusk cycle occurs in the interval.
    MultipleCycles,
    /// The solar path reaches the criterion without a resolved sign-changing crossing.
    GrazesLevel,
}

/// The illumination state that a solar horizon classification implies.
pub open spec fn spec_twilight_state(visibility: HorizonVisibility) -> TwilightState {
    match visibility {
        HorizonVisibility::RisesAndSets => TwilightState::DawnAndDusk,
        HorizonVisibility::CircumpolarOverInterval => TwilightState::ContinuousLight,
        HorizonVisibility::NeverRisesOverInterval => TwilightState::ContinuousDark,
        HorizonVisibility::TruncatedByInterval => TwilightState::TruncatedByInterval,
        HorizonVisibility::MultipleCycles => TwilightState::MultipleCycles,
        HorizonVisibility::GrazesCriterion => TwilightState::GrazesLevel,
    }
}

/// The illumination state follows the dawn (solar rise) and dusk (solar set) counts:
/// dawn and dusk exactly when there is one of each, multiple cycles exactly when there
/// are at least two crossings that are not one dawn and one dusk, truncation exactly
/// for a single crossing, and continuous light, continuous dark, or grazing only without
/// crossings. Distinct horizon classifications give distinct illumination states.
pub proof fn twilight_state_law(dawns: nat, dusks: nat, always_above: bool, always_below: bool, a: HorizonVisibility, b: HorizonVisibility)
    ensures
        spec_twilight_state(a) == spec_twilight_state(b) ==> a == b,
        (spec_twilight_state(spec_visibility(dawns, dusks, always_above, always_below)) == TwilightState::DawnAndDusk)
            <==> (dawns == 1 && dusks == 1),
        (spec_twilight_state(spec_visibility(dawns, dusks, always_above, always_below))
            == TwilightState::MultipleCycles) <==> (dawns + dusks >= 2 && !(dawns == 1 && dusks == 1)),
        (spec_twilight_state(spec_visibility(dawns, dusks, always_above, always_below))
            == TwilightState::TruncatedByInterval) <==> (dawns + dusks == 1),
        (spec_twilight_state(spec_visibility(dawns, dusks, always_above, always_below))
            == TwilightState::ContinuousLight) <==> (dawns + dusks == 0 && always_above),
        (spec_twilight_state(spec_visibility(dawns, dusks, always_above, always_below))
            == TwilightState::ContinuousDark) <==> (dawns + dusks == 0 && !always_above && always_below),
        (spec_twilight_state(spec_visibility(dawns, dusks, always_above, always_below)) == TwilightState::GrazesLevel)
            <==> (dawns + dusks == 0 && !always_above && !always_below),
{
    horizon_visibility_law(dawns, dusks, always_above, always_below);
}

/// Translates a solar horizon classification into an illumination state.
pub fn twilight_state(visibility: HorizonVisibility) -> (s: TwilightState)
    ensures
        s == spec_twilight_state(visibility),
        (s == TwilightState::DawnAndDusk) <==> (visibility == HorizonVisibility::RisesAndSets),
        (s == TwilightState::ContinuousLight) <==> (visibility == HorizonVisibility::CircumpolarOverInterval),
        (s == TwilightState::ContinuousDark) <==> (visibility == HorizonVisibility::NeverRisesOverInterval),
        (s == TwilightState::TruncatedByInterval) <==> (visibility == HorizonVisibility::TruncatedByInterval),
        (s == TwilightState::MultipleCycles) <==> (visibility == HorizonVisibility::MultipleCycles),
        (s == TwilightState::GrazesLevel) <==> (visibility == HorizonVisibility::GrazesCriterion),
{
    match visibility {
        HorizonVisibility::RisesAndSets => TwilightState::DawnAndDusk,
        HorizonVisibility::CircumpolarOverInterval => TwilightState::ContinuousLight,
        HorizonVisibility::NeverRisesOverInterval => TwilightState::ContinuousDark,
        HorizonVisibility::TruncatedByInterval => TwilightState::TruncatedByInterval,
        HorizonVisibility::MultipleCycles => TwilightState::MultipleCycles,
        HorizonVisibility::GrazesCriterion => TwilightState::GrazesLevel,
    }
}

/// One refined dawn or dusk event.
#[derive(Debug, Copy, PartialEq)]
pub struct TwilightEvent<S: TimeScale, V, O, R> {
    /// Whether this crossing is dawn or dusk.
    pub kind: TwilightEventKind,
    /// The underlying solar altitude-crossing result.
    pub horizon_event: HorizonEvent<S, V, O, R>,
}

impl<S: TimeScale, V: Copy, O: Copy, R: Copy> Clone for TwilightEvent<S, V, O, R> {
    fn clone(&self) -> (r: Self)
        ensures
            r == *self,
    {
        *self
    }
}

impl<S: TimeScale, V, O, R> TwilightEvent<S, V, O, R> {
    /// Returns whether this crossing is dawn or dusk.
    pub fn kind(&self) -> (k: TwilightEventKind)
        ensures
            k == self.kind,
    {
        self.kind
    }

    /// Returns the refined physical event instant.
    pub fn instant(&self) -> (t: Instant<S>)
        ensures
            t == self.horizon_event.instant,
    {
        self.horizon_event.instant
    }

    /// Returns the underlying solar altitude-crossing result.
    pub fn horizon_event(&self) -> (e: &HorizonEvent<S, V, O, R>)
        ensures
            *e == self.horizon_event,
    {
        &self.horizon_event
    }

    /// Returns the numerical evidence retained for the crossing.
    pub fn evidence(&self) -> (e: &EventEvidence<S, R>)
        ensures
            *e == self.horizon_event.evidence,
    {
        &self.horizon_event.evidence
    }
}

/// The dawn and dusk crossings among solar horizon events, in the same order:
/// rises become dawns, sets become dusks, and transits are dropped.
pub open spec fn twilight_events_of<S: TimeScale, V, O, R>(events: Seq<HorizonEvent<S, V, O, R>>) -> Seq<TwilightEvent<S, V, O, R>>
    decreases events.len(),
{
    if events.len() == 0 {
        Seq::empty()
    } else {
        let earlier = twilight_events_of(events.drop_last());
        let last = events.last();
        match last.kind {
            HorizonEventKind::Rise => earlier.push(TwilightEvent { kind: TwilightEventKind::Dawn, horizon_event: last }),
            HorizonEventKind::Setting => earlier.push(TwilightEvent { kind: TwilightEventKind::Dusk, horizon_event: last }),
            _ => earlier,
        }
    }
}

/// Complete twilight result over one closed physical-time interval.
#[derive(Debug, PartialEq)]
pub struct TwilightSearch<S: TimeScale, A, C, F, V, O, R> {
    level: TwilightLevel<A>,
    state: TwilightState,
    horizon_search: HorizonEventSearch<S, HorizonCriterion<A, C, F>, V, O, R>,
    events: Vec<TwilightEvent<S, V, O, R>>,
}

/// The horizon search a twilight level is derived from: a search for the Sun's
/// vacuum centre altitude, at the level's altitude when the level is custom.
pub open spec fn twilight_horizon_search<S: TimeScale, A, C, F, V, O, R>(
    level: TwilightLevel<A>,
    horizon_search: HorizonEventSearch<S, HorizonCriterion<A, C, F>, V, O, R>,
) -> bool {
    &&& horizon_search.target_spec() == CelestialBody::Sun
    &&& horizon_search.criterion_spec().reference is Vacuum
    &&& horizon_search.criterion_spec().disk_point is Center
    &&& level matches TwilightLevel::Custom(altitude) ==> horizon_search.criterion_spec().altitude == altitude
}

impl<S: TimeScale, A, C, F, V, O, R> TwilightSearch<S, A, C, F, V, O, R> {
    /// The underlying search is a solar centre-altitude search matching the level.
    #[verifier::type_invariant]
    closed spec fn solar_search(&self) -> bool {
        twilight_horizon_search(self.level, self.horizon_search)
    }
}

impl<S: TimeScale, A: Copy, C, F, V: Copy, O: Copy, R: Copy> TwilightSearch<S, A, C, F, V, O, R> {
    /// The selected level.
    pub closed spec fn level_spec(&self) -> TwilightLevel<A> {
        self.level
    }

    /// The illumination state.
    pub closed spec fn state_spec(&self) -> TwilightState {
        self.state
    }

    /// The underlying solar horizon search.
    pub closed spec fn horizon_search_spec(&self) -> HorizonEventSearch<S, HorizonCriterion<A, C, F>, V, O, R> {
        self.horizon_search
    }

    /// The dawn and dusk crossings.
    pub closed spec fn events_spec(&self) -> Seq<TwilightEvent<S, V, O, R>> {
        self.events@
    }

    /// Derives dawns, dusks and the illumination state from a solar horizon search
    /// made against the level's altitude.
    ///
    /// The search must be for the Sun's vacuum centre altitude, at the level's
    /// altitude when the level is custom.
    pub fn from_horizon_search(
        level: TwilightLevel<A>,
        horizon_search: HorizonEventSearch<S, HorizonCriterion<A, C, F>, V, O, R>,
    ) -> (t: Self)
        requires
            twilight_horizon_search(level, horizon_search),
        ensures
            t.level_spec() == level,
            t.state_spec() == spec_twilight_state(horizon_search.visibility_spec()),
            t.events_spec() == twilight_events_of(horizon_search.events_spec()),
            t.horizon_search_spec() == horizon_search,
    {
        let state = twilight_state(horizon_search.visibility());
        let mut events: Vec<TwilightEvent<S, V, O, R>> = Vec::new();
        let source = horizon_search.events();
        let mut i: usize = 0;
        while i < source.len()
            invariant
                i <= source@.len(),
                events@ == twilight_events_of(source@.take(i as int)),
            decreases source@.len() - i,
        {
            proof {
                assert(source@.take(i as int + 1).drop_last() == source@.take(i as int));
            }
            let event = source[i];
            match event.kind {
                HorizonEventKind::Rise => events.push(TwilightEvent { kind: TwilightEventKind::Dawn, horizon_event: event }),
                HorizonEventKind::Setting => events.push(TwilightEvent { kind: TwilightEventKind::Dusk, horizon_event: event }),
                _ => {},
            }
            i = i + 1;
        }
        proof {
            assert(source@.take(source@.len() as int) == source@);
        }
        TwilightSearch { level, state, horizon_search, events }
    }

    /// Returns the selected standard or custom twilight level.
    pub fn level(&self) -> (l: TwilightLevel<A>)
        ensures
            l == self.level_spec(),
    {
        self.level
    }

    /// Returns the illumination-state classification over the interval.
    pub fn state(&self) -> (s: TwilightState)
        ensures
            s == self.state_spec(),
    {
        self.state
    }

    /// Returns dawn and dusk crossings in time order.
    pub fn events(&self) -> (e: &Vec<TwilightEvent<S, V, O, R>>)
        ensures
            e@ == self.events_spec(),
    {
        &self.events
    }

    /// Returns the complete underlying solar horizon search, including transits.
    pub fn horizon_search(&self) -> (h: &HorizonEventSearch<S, HorizonCriterion<A, C, F>, V, O, R>)
        ensures
            *h == self.horizon_search_spec(),
            twilight_horizon_search(self.level_spec(), *h),
    {
        proof { use_type_invariant(self); }
        &self.horizon_search
    }
}


/// The ordering key of a twilight event: the instant of its horizon crossing.
pub open spec fn twilight_instant_key<S: TimeScale, V, O, R>() -> spec_fn(TwilightEvent<S, V, O, R>) -> int {
    |e: TwilightEvent<S, V, O, R>| e.horizon_event.instant@
}

/// Every twilight event derived from horizon events is one of those horizon
/// events, and time-ordered horizon events yield time-ordered dawns and dusks.
pub proof fn twilight_events_preserve_order<S: TimeScale, V, O, R>(events: Seq<HorizonEvent<S, V, O, R>>)
    requires
        sorted_by(events, event_instant_key()),
    ensures
        sorted_by(twilight_events_of(events), twilight_instant_key()),
        forall|i: int| 0 <= i < twilight_events_of(events).len() ==> events.contains(
            #[trigger] twilight_events_of(events)[i].horizon_event,
        ),
    decreases events.len(),
{
    if events.len() > 0 {
        let earlier = events.drop_last();
        assert(sorted_by(earlier, event_instant_key()));
        twilight_events_preserve_order(earlier);
        let t = twilight_events_of(events);
        let e = twilight_events_of(earlier);
        assert forall|i: int| 0 <= i < e.len() implies events.contains(#[trigger] e[i].horizon_event) by {
            let k = choose|k: int| 0 <= k < earlier.len() && earlier[k] == e[i].horizon_event;
            assert(events[k] == e[i].horizon_event);
        }
        assert(events[events.len() - 1] == events.last());
        assert forall|i: int| 0 <= i < t.len() implies events.contains(#[trigger] t[i].horizon_event) by {
            if i < e.len() {
                assert(t[i] == e[i]);
            }
        }
        assert forall|a: int, b: int| 0 <= a <= b < t.len() implies twilight_instant_key()(t[a]) <= twilight_instant_key()(t[b]) by {
            if b < e.len() {
                assert(t[a] == e[a] && t[b] == e[b]);
            } else {
                assert(t[b].horizon_event == events.last());
                if a < e.len() {
                    assert(t[a] == e[a]);
                    let k = choose|k: int| 0 <= k < earlier.len() && earlier[k] == e[a].horizon_event;
                    assert(events[k] == e[a].horizon_event);
                }
            }
        }
    }
}

} // verus!
