use vstd::prelude::*;

use crate::time::{Instant, TimeScale, Utc};

use super::search::LabelledEvent;
use super::sorting::sorted_by;
use super::EventEvidence;

verus! {

/// One of the four primary lunar phases, defined by apparent geocentric longitude difference.
#[derive(Debug, Clone, Copy, PartialEq, Eq, Hash, Structural)]
pub enum MoonPhase {
    /// New Moon, where the Moon's apparent ecliptic longitude exceeds the Sun's by 0°.
    NewMoon,
    /// First quarter, at a 90° apparent ecliptic-longitude difference.
    FirstQuarter,
    /// Full Moon, at a 180° apparent ecliptic-longitude difference.
    FullMoon,
    /// Last quarter, at a 270° apparent ecliptic-longitude difference.
    LastQuarter,
}

impl MoonPhase {
    /// All primary phases in chronological order within one lunation.
    pub const ALL: [MoonPhase; 4] = [
        MoonPhase::NewMoon,
        MoonPhase::FirstQuarter,
        MoonPhase::FullMoon,
        MoonPhase::LastQuarter,
    ];

    /// The stable English phase name.
    pub open spec fn spec_english_name(self) -> Seq<char> {
        match self {
            MoonPhase::NewMoon => "New Moon"@,
            MoonPhase::FirstQuarter => "First Quarter"@,
            MoonPhase::FullMoon => "Full Moon"@,
            MoonPhase::LastQuarter => "Last Quarter"@,
        }
    }

    /// Returns the stable English phase name.
    pub fn english_name(self) -> (name: &'static str)
        ensures
            name@ == self.spec_english_name(),
    {
        match self {
            MoonPhase::NewMoon => "New Moon",
            MoonPhase::FirstQuarter => "First Quarter",
            MoonPhase::FullMoon => "Full Moon",
            MoonPhase::LastQuarter => "Last Quarter",
        }
    }

    /// The phase's quarter of the lunation: 0 for New Moon through 3 for last quarter.
    pub open spec fn spec_longitude_index(self) -> int {
        match self {
            MoonPhase::NewMoon => 0,
            MoonPhase::FirstQuarter => 1,
            MoonPhase::FullMoon => 2,
            MoonPhase::LastQuarter => 3,
        }
    }

    /// The phase whose quarter index is congruent to `index` modulo four.
    pub open spec fn spec_from_longitude_index(index: int) -> MoonPhase {
        let r = index % 4;
        if r == 0 {
            MoonPhase::NewMoon
        } else if r == 1 {
            MoonPhase::FirstQuarter
        } else if r == 2 {
            MoonPhase::FullMoon
        } else {
            MoonPhase::LastQuarter
        }
    }

    /// Returns the defining directed apparent lunar-minus-solar longitude in whole degrees.
    pub fn target_longitude_difference(self) -> (degrees: u16)
        ensures
            degrees == 90 * self.spec_longitude_index(),
    {
        90 * self.longitude_index() as u16
    }

    pub(crate) fn longitude_index(self) -> (i: u8)
        ensures
            i == self.spec_longitude_index(),
    {
        match self {
            MoonPhase::NewMoon => 0,
            MoonPhase::FirstQuarter => 1,
            MoonPhase::FullMoon => 2,
            MoonPhase::LastQuarter => 3,
        }
    }

    /// Returns the phase whose quarter index is congruent to `index` modulo four.
    pub fn from_longitude_index(index: i64) -> (p: MoonPhase)
        ensures
            p == MoonPhase::spec_from_longitude_index(index as int),
    {
        let r = index.checked_rem_euclid(4).unwrap();
        if r == 0 {
            MoonPhase::NewMoon
        } else if r == 1 {
            MoonPhase::FirstQuarter
        } else if r == 2 {
            MoonPhase::FullMoon
        } else {
            MoonPhase::LastQuarter
        }
    }
}

/// Quarter indices name phases exactly: every phase is recovered from its
/// index, and indices differing by a whole lunation name the same phase.
pub proof fn moon_phase_index_round_trip(phase: MoonPhase, index: int)
    ensures
        MoonPhase::spec_from_longitude_index(phase.spec_longitude_index()) == phase,
        MoonPhase::spec_from_longitude_index(index + 4) == MoonPhase::spec_from_longitude_index(index),
        0 <= MoonPhase::spec_from_longitude_index(index).spec_longitude_index() < 4,
        MoonPhase::spec_from_longitude_index(index).spec_longitude_index() == index % 4,
{
    assert((index + 4) % 4 == index % 4);
}

/// One converged crossing of an arbitrary directed lunar phase-cycle angle.
///
/// The phase-cycle angles `T`, the apparent Moon and Sun places `M` and `P`,
/// and the residual `R` are carried unchanged.
#[derive(Debug, Copy, PartialEq)]
pub struct MoonPhaseAngleEvent<S: TimeScale, T, M, P, R> {
    /// Directed phase-cycle angle that defines this event.
    pub target: T,
    /// Common geocentric reception instant of the apparent positions.
    pub instant: Instant<S>,
    /// Apparent geocentric place of the Moon.
    pub apparent_moon: M,
    /// Apparent geocentric place of the Sun.
    pub apparent_sun: P,
    /// Refined apparent lunar-minus-solar longitude.
    pub longitude_difference: T,
    /// Numerical convergence evidence.
    pub evidence: EventEvidence<S, R>,
}

impl<S: TimeScale, T: Copy, M: Copy, P: Copy, R: Copy> Clone for MoonPhaseAngleEvent<S, T, M, P, R> {
    fn clone(&self) -> (r: Self)
        ensures
            r == *self,
    {
        *self
    }
}

impl<S: TimeScale, T: Copy, M: Copy, P: Copy, R: Copy> MoonPhaseAngleEvent<S, T, M, P, R> {
    /// Retains one converged phase-angle crossing.
    pub fn new(target: T, instant: Instant<S>, apparent_moon: M, apparent_sun: P, longitude_difference: T, evidence: EventEvidence<S, R>) -> (e: Self)
        ensures
            e == (MoonPhaseAngleEvent { target, instant, apparent_moon, apparent_sun, longitude_difference, evidence }),
    {
        MoonPhaseAngleEvent { target, instant, apparent_moon, apparent_sun, longitude_difference, evidence }
    }

    /// Returns the directed phase-cycle angle that defines this event.
    pub fn target(self) -> (t: T)
        ensures
            t == self.target,
    {
        self.target
    }

    /// Returns the common geocentric reception instant of the apparent positions.
    pub fn instant(self) -> (t: Instant<S>)
        ensures
            t == self.instant,
    {
        self.instant
    }

    /// Returns the fully evaluated apparent geocentric place of the Moon.
    pub fn apparent_moon(self) -> (m: M)
        ensures
            m == self.apparent_moon,
    {
        self.apparent_moon
    }

    /// Returns the fully evaluated apparent geocentric place of the Sun.
    pub fn apparent_sun(self) -> (p: P)
        ensures
            p == self.apparent_sun,
    {
        self.apparent_sun
    }

    /// Returns the refined apparent lunar-minus-solar longitude.
    pub fn longitude_difference(self) -> (t: T)
        ensures
            t == self.longitude_difference,
    {
        self.longitude_difference
    }

    /// Returns numerical convergence evidence for the event.
    pub fn evidence(self) -> (e: EventEvidence<S, R>)
        ensures
            e == self.evidence,
    {
        self.evidence
    }
}

/// One converged primary lunar-phase event.
#[derive(Debug, Copy, PartialEq)]
pub struct MoonPhaseEvent<S: TimeScale, T, M, P, R> {
    /// Identified primary phase.
    pub phase: MoonPhase,
    /// Underlying directed phase-angle event.
    pub angle_event: MoonPhaseAngleEvent<S, T, M, P, R>,
}

impl<S: TimeScale, T: Copy, M: Copy, P: Copy, R: Copy> Clone for MoonPhaseEvent<S, T, M, P, R> {
    fn clone(&self) -> (r: Self)
        ensures
            r == *self,
    {
        *self
    }
}

impl<S: TimeScale, T, M, P, R> LabelledEvent<S> for MoonPhaseEvent<S, T, M, P, R> {
    open spec fn instant_spec(&self) -> Instant<S> {
        self.angle_event.instant
    }

    open spec fn same_label_spec(&self, other: &Self) -> bool {
        self.phase == other.phase
    }

    fn record_instant(&self) -> (t: Instant<S>) {
        self.angle_event.instant
    }

    fn same_label(&self, other: &Self) -> (b: bool) {
        self.phase == other.phase
    }
}

impl<S: TimeScale, T: Copy, M: Copy, P: Copy, R: Copy> MoonPhaseEvent<S, T, M, P, R> {
    /// Names a converged phase-angle crossing as a primary phase.
    pub fn new(phase: MoonPhase, angle_event: MoonPhaseAngleEvent<S, T, M, P, R>) -> (e: Self)
        ensures
            e == (MoonPhaseEvent { phase, angle_event }),
    {
        MoonPhaseEvent { phase, angle_event }
    }

    /// Returns the identified primary phase.
    pub fn phase(self) -> (p: MoonPhase)
        ensures
            p == self.phase,
    {
        self.phase
    }

    /// Returns the underlying directed phase-angle event.
    pub fn angle_event(self) -> (e: MoonPhaseAngleEvent<S, T, M, P, R>)
        ensures
            e == self.angle_event,
    {
        self.angle_event
    }

    /// Returns the common geocentric reception instant of the apparent positions.
    pub fn instant(self) -> (t: Instant<S>)
        ensures
            t == self.angle_event.instant,
    {
        self.angle_event.instant
    }

    /// Returns the fully evaluated apparent geocentric place of the Moon.
    pub fn apparent_moon(self) -> (m: M)
        ensures
            m == self.angle_event.apparent_moon,
    {
        self.angle_event.apparent_moon
    }

    /// Returns the fully evaluated apparent geocentric place of the Sun.
    pub fn apparent_sun(self) -> (p: P)
        ensures
            p == self.angle_event.apparent_sun,
    {
        self.angle_event.apparent_sun
    }

    /// Returns the refined directed apparent lunar phase-cycle angle.
    pub fn longitude_difference(self) -> (t: T)
        ensures
            t == self.angle_event.longitude_difference,
    {
        self.angle_event.longitude_difference
    }

    /// Returns numerical convergence evidence for the event.
    pub fn evidence(self) -> (e: EventEvidence<S, R>)
        ensures
            e == self.angle_event.evidence,
    {
        self.angle_event.evidence
    }
}

/// One primary lunar phase paired with its fixed-offset Gregorian civil label `L`.
#[derive(Debug, Copy, PartialEq)]
pub struct MoonPhaseYearEntry<T, M, P, R, L> {
    /// Astronomical event in physical UTC time.
    pub event: MoonPhaseEvent<Utc, T, M, P, R>,
    /// Civil label in the requested fixed UTC offset.
    pub local_time: L,
}

impl<T: Copy, M: Copy, P: Copy, R: Copy, L: Copy> Clone for MoonPhaseYearEntry<T, M, P, R, L> {
    fn clone(&self) -> (r: Self)
        ensures
            r == *self,
    {
        *self
    }
}

impl<T: Copy, M: Copy, P: Copy, R: Copy, L: Copy> MoonPhaseYearEntry<T, M, P, R, L> {
    /// Returns the astronomical event in physical UTC time.
    pub fn event(self) -> (e: MoonPhaseEvent<Utc, T, M, P, R>)
        ensures
            e == self.event,
    {
        self.event
    }

    /// Returns the event's civil label in the requested fixed UTC offset.
    pub fn local_time(self) -> (l: L)
        ensures
            l == self.local_time,
    {
        self.local_time
    }
}

/// The entries, in order, whose civil label falls in the selected year.
pub open spec fn entries_in_year<E>(labelled: Seq<(E, i32)>, year: i32) -> Seq<E>
    decreases labelled.len(),
{
    if labelled.len() == 0 {
        Seq::empty()
    } else {
        let earlier = entries_in_year(labelled.drop_last(), year);
        if labelled.last().1 == year {
            earlier.push(labelled.last().0)
        } else {
            earlier
        }
    }
}

/// Whether labelled entries are in non-decreasing order of `key`.
pub open spec fn labels_in_order<E>(labelled: Seq<(E, i32)>, key: spec_fn(E) -> int) -> bool {
    forall|i: int, j: int| 0 <= i <= j < labelled.len() ==> key(#[trigger] labelled[i].0) <= key(#[trigger] labelled[j].0)
}

/// Selecting the entries of one year keeps them in order.
pub(crate) proof fn entries_in_year_keep_order<E>(labelled: Seq<(E, i32)>, year: i32, key: spec_fn(E) -> int)
    requires
        labels_in_order(labelled, key),
    ensures
        sorted_by(entries_in_year(labelled, year), key),
        labelled.len() > 0 ==> forall|k: int| 0 <= k < entries_in_year(labelled, year).len() ==> key(
            #[trigger] entries_in_year(labelled, year)[k],
        ) <= key(labelled.last().0),
    decreases labelled.len(),
{
    if labelled.len() > 0 {
        let earlier = labelled.drop_last();
        assert(labels_in_order(earlier, key)) by {
            assert forall|i: int, j: int| 0 <= i <= j < earlier.len() implies key(#[trigger] earlier[i].0) <= key(
                #[trigger] earlier[j].0,
            ) by {
                assert(earlier[i] == labelled[i] && earlier[j] == labelled[j]);
            }
        }
        entries_in_year_keep_order(earlier, year, key);
        let before = entries_in_year(earlier, year);
        let last = labelled.len() - 1;
        assert(labelled.last() == labelled[last]);
        if earlier.len() > 0 {
            assert(earlier.last() == labelled[last - 1]);
            assert(key(labelled[last - 1].0) <= key(labelled[last].0));
        } else {
            assert(before.len() == 0);
        }
        let after = entries_in_year(labelled, year);
        assert forall|k: int| 0 <= k < after.len() implies key(#[trigger] after[k]) <= key(labelled.last().0) by {
            if k < before.len() {
                assert(after[k] == before[k]);
            }
        }
        assert forall|a: int, b: int| 0 <= a <= b < after.len() implies key(after[a]) <= key(after[b]) by {
            if b < before.len() {
                assert(after[a] == before[a] && after[b] == before[b]);
            } else if a < before.len() {
                assert(after[a] == before[a]);
            }
        }
    }
}

/// Keeps, in order, the entries whose civil label falls in the selected year.
pub fn select_year_entries<E: Copy>(labelled: &Vec<(E, i32)>, year: i32) -> (r: Vec<E>)
    ensures
        r@ == entries_in_year(labelled@, year),
{
    let mut entries: Vec<E> = Vec::new();
    let mut i: usize = 0;
    while i < labelled.len()
        invariant
            i <= labelled@.len(),
            entries@ == entries_in_year(labelled@.take(i as int), year),
        decreases labelled@.len() - i,
    {
        proof {
            assert(labelled@.take(i as int + 1).drop_last() == labelled@.take(i as int));
        }
        let (entry, label_year) = labelled[i];
        if label_year == year {
            entries.push(entry);
        }
        i = i + 1;
    }
    proof {
        assert(labelled@.take(labelled@.len() as int) == labelled@);
    }
    entries
}

/// Returns the Gregorian year after `year`, failing when it is not representable.
pub fn following_year(year: i32) -> (r: Result<i32, crate::time::Error>)
    ensures
        r is Ok <==> year < i32::MAX,
        r matches Ok(next) ==> next == year + 1,
        r matches Err(e) ==> e == (crate::time::Error::Overflow { operation: "advancing a Gregorian year" }),
{
    match year.checked_add(1) {
        Some(next) => Ok(next),
        None => Err(crate::time::Error::Overflow { operation: "advancing a Gregorian year" }),
    }
}

/// Chronologically ordered primary lunar phases belonging to one fixed-offset Gregorian year.
///
/// The fixed UTC offset `F` is carried unchanged.
#[derive(Debug, PartialEq)]
pub struct MoonPhaseYear<T, M, P, R, L, F> {
    year: i32,
    offset: F,
    entries: Vec<MoonPhaseYearEntry<T, M, P, R, L>>,
}

/// The ordering key of a year entry: the instant of its phase.
pub open spec fn moon_phase_entry_key<T, M, P, R, L>() -> spec_fn(MoonPhaseYearEntry<T, M, P, R, L>) -> int {
    |e: MoonPhaseYearEntry<T, M, P, R, L>| e.event.angle_event.instant@
}

impl<T, M, P, R, L, F> MoonPhaseYear<T, M, P, R, L, F> {
    /// The entries are in chronological order.
    #[verifier::type_invariant]
    closed spec fn chronological(&self) -> bool {
        sorted_by(self.entries@, moon_phase_entry_key())
    }
}

impl<T: Copy, M: Copy, P: Copy, R: Copy, L: Copy, F: Copy> MoonPhaseYear<T, M, P, R, L, F> {
    /// The selected local year.
    pub closed spec fn year_spec(&self) -> i32 {
        self.year
    }

    /// The carried fixed offset.
    pub closed spec fn offset_spec(&self) -> F {
        self.offset
    }

    /// The entries belonging to the year.
    pub closed spec fn entries_spec(&self) -> Seq<MoonPhaseYearEntry<T, M, P, R, L>> {
        self.entries@
    }

    /// Assembles a year from phases labelled with the local year of their civil time.
    ///
    /// Keeps, in order, exactly the phases labelled with `year`; the phases are
    /// given in chronological order, so the year's entries are chronological.
    pub fn from_labelled_phases(year: i32, offset: F, labelled: &Vec<(MoonPhaseYearEntry<T, M, P, R, L>, i32)>) -> (y: Self)
        requires
            labels_in_order(labelled@, moon_phase_entry_key()),
        ensures
            y.year_spec() == year,
            y.offset_spec() == offset,
            y.entries_spec() == entries_in_year(labelled@, year),
            sorted_by(y.entries_spec(), moon_phase_entry_key()),
    {
        proof { entries_in_year_keep_order(labelled@, year, moon_phase_entry_key()); }
        MoonPhaseYear { year, offset, entries: select_year_entries(labelled, year) }
    }

    /// Returns the selected local Gregorian year.
    pub fn year(&self) -> (y: i32)
        ensures
            y == self.year_spec(),
    {
        self.year
    }

    /// Returns the fixed UTC offset used to select and label the year.
    pub fn offset(&self) -> (f: F)
        ensures
            f == self.offset_spec(),
    {
        self.offset
    }

    /// Returns every primary phase whose civil label belongs to the selected year, in chronological order.
    pub fn entries(&self) -> (e: &Vec<MoonPhaseYearEntry<T, M, P, R, L>>)
        ensures
            e@ == self.entries_spec(),
            sorted_by(e@, moon_phase_entry_key()),
    {
        proof { use_type_invariant(self); }
        &self.entries
    }
}

} // verus!
