use vstd::prelude::*;

use crate::time::{Instant, TimeScale, Utc};

use super::lunar_phase::{entries_in_year, entries_in_year_keep_order, labels_in_order, select_year_entries};
use super::sorting::sorted_by;
use super::search::LabelledEvent;
use super::{Error, EventEvidence};

verus! {

/// One of the 24 conventional solar terms, each separated by 15° of apparent solar longitude.
#[derive(Debug, Clone, Copy, PartialEq, Eq, Hash, Structural)]
pub enum SolarTerm {
    /// 小寒, apparent solar longitude 285°.
    MinorCold,
    /// 大寒, apparent solar longitude 300°.
    MajorCold,
    /// 立春, apparent solar longitude 315°.
    StartOfSpring,
    /// 雨水, apparent solar longitude 330°.
    RainWater,
    /// 惊蛰, apparent solar longitude 345°.
    AwakeningOfInsects,
    /// 春分, apparent solar longitude 0°.
    SpringEquinox,
    /// 清明, apparent solar longitude 15°.
    ClearAndBright,
    /// 谷雨, apparent solar longitude 30°.
    GrainRain,
    /// 立夏, apparent solar longitude 45°.
    StartOfSummer,
    /// 小满, apparent solar longitude 60°.
    GrainFull,
    /// 芒种, apparent solar longitude 75°.
    GrainInEar,
    /// 夏至, apparent solar longitude 90°.
    SummerSolstice,
    /// 小暑, apparent solar longitude 105°.
    MinorHeat,
    /// 大暑, apparent solar longitude 120°.
    MajorHeat,
    /// 立秋, apparent solar longitude 135°.
    StartOfAutumn,
    /// 处暑, apparent solar longitude 150°.
    EndOfHeat,
    /// 白露, apparent solar longitude 165°.
    WhiteDew,
    /// 秋分, apparent solar longitude 180°.
    AutumnEquinox,
    /// 寒露, apparent solar longitude 195°.
    ColdDew,
    /// 霜降, apparent solar longitude 210°.
    FrostDescent,
    /// 立冬, apparent solar longitude 225°.
    StartOfWinter,
    /// 小雪, apparent solar longitude 240°.
    MinorSnow,
    /// 大雪, apparent solar longitude 255°.
    MajorSnow,
    /// 冬至, apparent solar longitude 270°.
    WinterSolstice,
}

impl SolarTerm {
    /// All solar terms in their chronological order within a fixed-offset Gregorian year.
    pub const ALL: [SolarTerm; 24] = [
        SolarTerm::MinorCold,
        SolarTerm::MajorCold,
        SolarTerm::StartOfSpring,
        SolarTerm::RainWater,
        SolarTerm::AwakeningOfInsects,
        SolarTerm::SpringEquinox,
        SolarTerm::ClearAndBright,
        SolarTerm::GrainRain,
        SolarTerm::StartOfSummer,
        SolarTerm::GrainFull,
        SolarTerm::GrainInEar,
        SolarTerm::SummerSolstice,
        SolarTerm::MinorHeat,
        SolarTerm::MajorHeat,
        SolarTerm::StartOfAutumn,
        SolarTerm::EndOfHeat,
        SolarTerm::WhiteDew,
        SolarTerm::AutumnEquinox,
        SolarTerm::ColdDew,
        SolarTerm::FrostDescent,
        SolarTerm::StartOfWinter,
        SolarTerm::MinorSnow,
        SolarTerm::MajorSnow,
        SolarTerm::WinterSolstice,
    ];

    /// The stable English name.
    pub open spec fn spec_english_name(self) -> Seq<char> {
        match self {
            SolarTerm::MinorCold => "Minor Cold"@,
            SolarTerm::MajorCold => "Major Cold"@,
            SolarTerm::StartOfSpring => "Start of Spring"@,
            SolarTerm::RainWater => "Rain Water"@,
            SolarTerm::AwakeningOfInsects => "Awakening of Insects"@,
            SolarTerm::SpringEquinox => "Spring Equinox"@,
            SolarTerm::ClearAndBright => "Clear and Bright"@,
            SolarTerm::GrainRain => "Grain Rain"@,
            SolarTerm::StartOfSummer => "Start of Summer"@,
            SolarTerm::GrainFull => "Grain Full"@,
            SolarTerm::GrainInEar => "Grain in Ear"@,
            SolarTerm::SummerSolstice => "Summer Solstice"@,
            SolarTerm::MinorHeat => "Minor Heat"@,
            SolarTerm::MajorHeat => "Major Heat"@,
            SolarTerm::StartOfAutumn => "Start of Autumn"@,
            SolarTerm::EndOfHeat => "End of Heat"@,
            SolarTerm::WhiteDew => "White Dew"@,
            SolarTerm::AutumnEquinox => "Autumn Equinox"@,
            SolarTerm::ColdDew => "Cold Dew"@,
            SolarTerm::FrostDescent => "Frost Descent"@,
            SolarTerm::StartOfWinter => "Start of Winter"@,
            SolarTerm::MinorSnow => "Minor Snow"@,
            SolarTerm::MajorSnow => "Major Snow"@,
            SolarTerm::WinterSolstice => "Winter Solstice"@,
        }
    }

    /// The conventional Chinese name.
    pub open spec fn spec_chinese_name(self) -> Seq<char> {
        match self {
            SolarTerm::MinorCold => "小寒"@,
            SolarTerm::MajorCold => "大寒"@,
            SolarTerm::StartOfSpring => "立春"@,
            SolarTerm::RainWater => "雨水"@,
            SolarTerm::AwakeningOfInsects => "惊蛰"@,
            SolarTerm::SpringEquinox => "春分"@,
            SolarTerm::ClearAndBright => "清明"@,
            SolarTerm::GrainRain => "谷雨"@,
            SolarTerm::StartOfSummer => "立夏"@,
            SolarTerm::GrainFull => "小满"@,
            SolarTerm::GrainInEar => "芒种"@,
            SolarTerm::SummerSolstice => "夏至"@,
            SolarTerm::MinorHeat => "小暑"@,
            SolarTerm::MajorHeat => "大暑"@,
            SolarTerm::StartOfAutumn => "立秋"@,
            SolarTerm::EndOfHeat => "处暑"@,
            SolarTerm::WhiteDew => "白露"@,
            SolarTerm::AutumnEquinox => "秋分"@,
            SolarTerm::ColdDew => "寒露"@,
            SolarTerm::FrostDescent => "霜降"@,
            SolarTerm::StartOfWinter => "立冬"@,
            SolarTerm::MinorSnow => "小雪"@,
            SolarTerm::MajorSnow => "大雪"@,
            SolarTerm::WinterSolstice => "冬至"@,
        }
    }

    /// Returns the conventional Chinese name.
    pub fn chinese_name(self) -> (name: &'static str)
        ensures
            name@ == self.spec_chinese_name(),
    {
        match self {
            SolarTerm::MinorCold => "小寒",
            SolarTerm::MajorCold => "大寒",
            SolarTerm::StartOfSpring => "立春",
            SolarTerm::RainWater => "雨水",
            SolarTerm::AwakeningOfInsects => "惊蛰",
            SolarTerm::SpringEquinox => "春分",
            SolarTerm::ClearAndBright => "清明",
            SolarTerm::GrainRain => "谷雨",
            SolarTerm::StartOfSummer => "立夏",
            SolarTerm::GrainFull => "小满",
            SolarTerm::GrainInEar => "芒种",
            SolarTerm::SummerSolstice => "夏至",
            SolarTerm::MinorHeat => "小暑",
            SolarTerm::MajorHeat => "大暑",
            SolarTerm::StartOfAutumn => "立秋",
            SolarTerm::EndOfHeat => "处暑",
            SolarTerm::WhiteDew => "白露",
            SolarTerm::AutumnEquinox => "秋分",
            SolarTerm::ColdDew => "寒露",
            SolarTerm::FrostDescent => "霜降",
            SolarTerm::StartOfWinter => "立冬",
            SolarTerm::MinorSnow => "小雪",
            SolarTerm::MajorSnow => "大雪",
            SolarTerm::WinterSolstice => "冬至",
        }
    }

    /// Returns the stable English name.
    pub fn english_name(self) -> (name: &'static str)
        ensures
            name@ == self.spec_english_name(),
    {
        match self {
            SolarTerm::MinorCold => "Minor Cold",
            SolarTerm::MajorCold => "Major Cold",
            SolarTerm::StartOfSpring => "Start of Spring",
            SolarTerm::RainWater => "Rain Water",
            SolarTerm::AwakeningOfInsects => "Awakening of Insects",
            SolarTerm::SpringEquinox => "Spring Equinox",
            SolarTerm::ClearAndBright => "Clear and Bright",
            SolarTerm::GrainRain => "Grain Rain",
            SolarTerm::StartOfSummer => "Start of Summer",
            SolarTerm::GrainFull => "Grain Full",
            SolarTerm::GrainInEar => "Grain in Ear",
            SolarTerm::SummerSolstice => "Summer Solstice",
            SolarTerm::MinorHeat => "Minor Heat",
            SolarTerm::MajorHeat => "Major Heat",
            SolarTerm::StartOfAutumn => "Start of Autumn",
            SolarTerm::EndOfHeat => "End of Heat",
            SolarTerm::WhiteDew => "White Dew",
            SolarTerm::AutumnEquinox => "Autumn Equinox",
            SolarTerm::ColdDew => "Cold Dew",
            SolarTerm::FrostDescent => "Frost Descent",
            SolarTerm::StartOfWinter => "Start of Winter",
            SolarTerm::MinorSnow => "Minor Snow",
            SolarTerm::MajorSnow => "Major Snow",
            SolarTerm::WinterSolstice => "Winter Solstice",
        }
    }

    /// The term's position on the ecliptic in 15° steps from the March equinox.
    pub open spec fn spec_longitude_index(self) -> int {
        match self {
            SolarTerm::MinorCold => 19,
            SolarTerm::MajorCold => 20,
            SolarTerm::StartOfSpring => 21,
            SolarTerm::RainWater => 22,
            SolarTerm::AwakeningOfInsects => 23,
            SolarTerm::SpringEquinox => 0,
            SolarTerm::ClearAndBright => 1,
            SolarTerm::GrainRain => 2,
            SolarTerm::StartOfSummer => 3,
            SolarTerm::GrainFull => 4,
            SolarTerm::GrainInEar => 5,
            SolarTerm::SummerSolstice => 6,
            SolarTerm::MinorHeat => 7,
            SolarTerm::MajorHeat => 8,
            SolarTerm::StartOfAutumn => 9,
            SolarTerm::EndOfHeat => 10,
            SolarTerm::WhiteDew => 11,
            SolarTerm::AutumnEquinox => 12,
            SolarTerm::ColdDew => 13,
            SolarTerm::FrostDescent => 14,
            SolarTerm::StartOfWinter => 15,
            SolarTerm::MinorSnow => 16,
            SolarTerm::MajorSnow => 17,
            SolarTerm::WinterSolstice => 18,
        }
    }

    /// The term whose longitude index is congruent to `index` modulo 24.
    pub open spec fn spec_from_longitude_index(index: int) -> SolarTerm {
        let r = index % 24;
        if r == 0 {
            SolarTerm::SpringEquinox
        } else if r == 1 {
            SolarTerm::ClearAndBright
        } else if r == 2 {
            SolarTerm::GrainRain
        } else if r == 3 {
            SolarTerm::StartOfSummer
        } else if r == 4 {
            SolarTerm::GrainFull
        } else if r == 5 {
            SolarTerm::GrainInEar
        } else if r == 6 {
            SolarTerm::SummerSolstice
        } else if r == 7 {
            SolarTerm::MinorHeat
        } else if r == 8 {
            SolarTerm::MajorHeat
        } else if r == 9 {
            SolarTerm::StartOfAutumn
        } else if r == 10 {
            SolarTerm::EndOfHeat
        } else if r == 11 {
            SolarTerm::WhiteDew
        } else if r == 12 {
            SolarTerm::AutumnEquinox
        } else if r == 13 {
            SolarTerm::ColdDew
        } else if r == 14 {
            SolarTerm::FrostDescent
        } else if r == 15 {
            SolarTerm::StartOfWinter
        } else if r == 16 {
            SolarTerm::MinorSnow
        } else if r == 17 {
            SolarTerm::MajorSnow
        } else if r == 18 {
            SolarTerm::WinterSolstice
        } else if r == 19 {
            SolarTerm::MinorCold
        } else if r == 20 {
            SolarTerm::MajorCold
        } else if r == 21 {
            SolarTerm::StartOfSpring
        } else if r == 22 {
            SolarTerm::RainWater
        } else {
            SolarTerm::AwakeningOfInsects
        }
    }

    /// Returns the defining apparent geocentric true-ecliptic longitude in whole degrees.
    pub fn target_longitude(self) -> (degrees: u16)
        ensures
            degrees == 15 * self.spec_longitude_index(),
            degrees < 360,
    {
        15 * self.longitude_index() as u16
    }

    pub(crate) fn longitude_index(self) -> (i: u8)
        ensures
            i == self.spec_longitude_index(),
    {
        match self {
            SolarTerm::MinorCold => 19,
            SolarTerm::MajorCold => 20,
            SolarTerm::StartOfSpring => 21,
            SolarTerm::RainWater => 22,
            SolarTerm::AwakeningOfInsects => 23,
            SolarTerm::SpringEquinox => 0,
            SolarTerm::ClearAndBright => 1,
            SolarTerm::GrainRain => 2,
            SolarTerm::StartOfSummer => 3,
            SolarTerm::GrainFull => 4,
            SolarTerm::GrainInEar => 5,
            SolarTerm::SummerSolstice => 6,
            SolarTerm::MinorHeat => 7,
            SolarTerm::MajorHeat => 8,
            SolarTerm::StartOfAutumn => 9,
            SolarTerm::EndOfHeat => 10,
            SolarTerm::WhiteDew => 11,
            SolarTerm::AutumnEquinox => 12,
            SolarTerm::ColdDew => 13,
            SolarTerm::FrostDescent => 14,
            SolarTerm::StartOfWinter => 15,
            SolarTerm::MinorSnow => 16,
            SolarTerm::MajorSnow => 17,
            SolarTerm::WinterSolstice => 18,
        }
    }

    /// Returns the term whose longitude index is congruent to `index` modulo 24.
    pub fn from_longitude_index(index: i64) -> (t: SolarTerm)
        ensures
            t == SolarTerm::spec_from_longitude_index(index as int),
    {
        let r = index.checked_rem_euclid(24).unwrap();
        if r == 0 {
            SolarTerm::SpringEquinox
        } else if r == 1 {
            SolarTerm::ClearAndBright
        } else if r == 2 {
            SolarTerm::GrainRain
        } else if r == 3 {
            SolarTerm::StartOfSummer
        } else if r == 4 {
            SolarTerm::GrainFull
        } else if r == 5 {
            SolarTerm::GrainInEar
        } else if r == 6 {
            SolarTerm::SummerSolstice
        } else if r == 7 {
            SolarTerm::MinorHeat
        } else if r == 8 {
            SolarTerm::MajorHeat
        } else if r == 9 {
            SolarTerm::StartOfAutumn
        } else if r == 10 {
            SolarTerm::EndOfHeat
        } else if r == 11 {
            SolarTerm::WhiteDew
        } else if r == 12 {
            SolarTerm::AutumnEquinox
        } else if r == 13 {
            SolarTerm::ColdDew
        } else if r == 14 {
            SolarTerm::FrostDescent
        } else if r == 15 {
            SolarTerm::StartOfWinter
        } else if r == 16 {
            SolarTerm::MinorSnow
        } else if r == 17 {
            SolarTerm::MajorSnow
        } else if r == 18 {
            SolarTerm::WinterSolstice
        } else if r == 19 {
            SolarTerm::MinorCold
        } else if r == 20 {
            SolarTerm::MajorCold
        } else if r == 21 {
            SolarTerm::StartOfSpring
        } else if r == 22 {
            SolarTerm::RainWater
        } else {
            SolarTerm::AwakeningOfInsects
        }
    }

    /// The term at a chronological position within a Gregorian year.
    pub open spec fn spec_chronological(position: int) -> SolarTerm {
        SolarTerm::spec_from_longitude_index(position + 19)
    }
}


/// Longitude indices name solar terms exactly: every term is recovered from its
/// index, and indices differing by a full circle name the same term.
pub proof fn solar_term_index_round_trip(term: SolarTerm, index: int)
    ensures
        SolarTerm::spec_from_longitude_index(term.spec_longitude_index()) == term,
        SolarTerm::spec_from_longitude_index(index + 24) == SolarTerm::spec_from_longitude_index(index),
        SolarTerm::spec_from_longitude_index(index).spec_longitude_index() == index % 24,
{
    assert((index + 24) % 24 == index % 24);
}

/// `SolarTerm::ALL` lists the 24 terms in calendar order, each exactly once:
/// position `i` holds the term at longitude `15 * ((i + 19) mod 24)` degrees.
pub proof fn solar_term_calendar_order()
    ensures
        forall|i: int| 0 <= i < 24 ==> #[trigger] SolarTerm::ALL@[i] == SolarTerm::spec_chronological(i),
        forall|i: int, j: int| 0 <= i < j < 24 ==> SolarTerm::ALL@[i] != SolarTerm::ALL@[j],
{
    assert forall|i: int| 0 <= i < 24 implies #[trigger] SolarTerm::ALL@[i] == SolarTerm::spec_chronological(i) by {
        assert(SolarTerm::ALL@[i].spec_longitude_index() == (i + 19) % 24);
    }
    assert forall|i: int, j: int| 0 <= i < j < 24 implies SolarTerm::ALL@[i] != SolarTerm::ALL@[j] by {
        assert(SolarTerm::ALL@[i].spec_longitude_index() == (i + 19) % 24);
        assert(SolarTerm::ALL@[j].spec_longitude_index() == (j + 19) % 24);
    }
}


/// A complete solar-term calendar holds every one of the 24 terms exactly once,
/// each at the position its longitude dictates.
pub proof fn complete_calendar_holds_each_term_once<P, R, L>(entries: Seq<SolarTermYearEntry<P, R, L>>, term: SolarTerm)
    requires
        complete_calendar(entries),
    ensures
        entries[(term.spec_longitude_index() + 5) % 24].event.term == term,
        forall|i: int| 0 <= i < 24 && (#[trigger] entries[i]).event.term == term ==> i == (term.spec_longitude_index() + 5)
            % 24,
{
    let k = term.spec_longitude_index();
    let p = (k + 5) % 24;
    assert(entries[p].event.term == SolarTerm::spec_chronological(p));
    assert((p + 19) % 24 == k);
    solar_term_index_round_trip(term, p + 19);
    assert(SolarTerm::spec_from_longitude_index(p + 19).spec_longitude_index() == k);
    assert forall|i: int| 0 <= i < 24 && (#[trigger] entries[i]).event.term == term implies i == p by {
        assert(entries[i].event.term == SolarTerm::spec_chronological(i));
        solar_term_index_round_trip(term, i + 19);
        assert(SolarTerm::spec_from_longitude_index(i + 19).spec_longitude_index() == (i + 19) % 24);
    }
}

/// One converged apparent-solar-longitude crossing.
///
/// The apparent solar place `P` and residual `R` are carried unchanged.
#[derive(Debug, Copy, PartialEq)]
pub struct SolarTermEvent<S: TimeScale, P, R> {
    /// Identified solar term.
    pub term: SolarTerm,
    /// Geocentric reception instant of the longitude crossing.
    pub instant: Instant<S>,
    /// Fully evaluated apparent solar coordinates at the event.
    pub apparent_sun: P,
    /// Numerical convergence evidence.
    pub evidence: EventEvidence<S, R>,
}

impl<S: TimeScale, P: Copy, R: Copy> Clone for SolarTermEvent<S, P, R> {
    fn clone(&self) -> (r: Self)
        ensures
            r == *self,
    {
        *self
    }
}

impl<S: TimeScale, P, R> LabelledEvent<S> for SolarTermEvent<S, P, R> {
    open spec fn instant_spec(&self) -> Instant<S> {
        self.instant
    }

    open spec fn same_label_spec(&self, other: &Self) -> bool {
        self.term == other.term
    }

    fn record_instant(&self) -> (t: Instant<S>) {
        self.instant
    }

    fn same_label(&self, other: &Self) -> (b: bool) {
        self.term == other.term
    }
}

impl<S: TimeScale, P: Copy, R: Copy> SolarTermEvent<S, P, R> {
    /// Retains one converged solar-term crossing.
    pub fn new(term: SolarTerm, instant: Instant<S>, apparent_sun: P, evidence: EventEvidence<S, R>) -> (e: Self)
        ensures
            e == (SolarTermEvent { term, instant, apparent_sun, evidence }),
    {
        SolarTermEvent { term, instant, apparent_sun, evidence }
    }

    /// Returns the identified solar term.
    pub fn term(self) -> (t: SolarTerm)
        ensures
            t == self.term,
    {
        self.term
    }

    /// Returns the geocentric reception instant of the longitude crossing.
    pub fn instant(self) -> (t: Instant<S>)
        ensures
            t == self.instant,
    {
        self.instant
    }

    /// Returns the fully evaluated apparent solar coordinates at the event.
    pub fn apparent_sun(self) -> (p: P)
        ensures
            p == self.apparent_sun,
    {
        self.apparent_sun
    }

    /// Returns numerical convergence evidence for the event.
    pub fn evidence(self) -> (e: EventEvidence<S, R>)
        ensures
            e == self.evidence,
    {
        self.evidence
    }
}

/// One solar-term event paired with its fixed-offset Gregorian civil label `L`.
#[derive(Debug, Copy, PartialEq)]
pub struct SolarTermYearEntry<P, R, L> {
    /// Astronomical event in physical UTC time.
    pub event: SolarTermEvent<Utc, P, R>,
    /// Conventional local label in the year's fixed offset.
    pub local_time: L,
}

impl<P: Copy, R: Copy, L: Copy> Clone for SolarTermYearEntry<P, R, L> {
    fn clone(&self) -> (r: Self)
        ensures
            r == *self,
    {
        *self
    }
}

impl<P: Copy, R: Copy, L: Copy> SolarTermYearEntry<P, R, L> {
    /// Returns the astronomical event in physical UTC time.
    pub fn event(self) -> (e: SolarTermEvent<Utc, P, R>)
        ensures
            e == self.event,
    {
        self.event
    }

    /// Returns the conventional local label in the year's fixed offset.
    pub fn local_time(self) -> (l: L)
        ensures
            l == self.local_time,
    {
        self.local_time
    }
}

/// The ordering key of a year entry: the instant of its solar term.
pub open spec fn solar_term_entry_key<P, R, L>() -> spec_fn(SolarTermYearEntry<P, R, L>) -> int {
    |e: SolarTermYearEntry<P, R, L>| e.event.instant@
}

/// Whether entries hold exactly the 24 terms in calendar order.
pub open spec fn complete_calendar<P, R, L>(entries: Seq<SolarTermYearEntry<P, R, L>>) -> bool {
    &&& entries.len() == 24
    &&& forall|i: int| 0 <= i < 24 ==> #[trigger] entries[i].event.term == SolarTerm::spec_chronological(i)
}

/// Exactly 24 chronologically ordered solar terms in one fixed-offset Gregorian year.
///
/// The fixed UTC offset `F` is carried unchanged.
#[derive(Debug, PartialEq)]
pub struct SolarTermYear<P, R, L, F> {
    year: i32,
    offset: F,
    entries: Vec<SolarTermYearEntry<P, R, L>>,
}

impl<P, R, L, F> SolarTermYear<P, R, L, F> {
    /// A year always holds the complete calendar.
    #[verifier::type_invariant]
    closed spec fn complete(&self) -> bool {
        &&& complete_calendar(self.entries@)
        &&& sorted_by(self.entries@, solar_term_entry_key())
    }
}

impl<P: Copy, R: Copy, L: Copy, F: Copy> SolarTermYear<P, R, L, F> {
    /// The local year.
    pub closed spec fn year_spec(&self) -> i32 {
        self.year
    }

    /// The carried fixed offset.
    pub closed spec fn offset_spec(&self) -> F {
        self.offset
    }

    /// The 24 entries.
    pub closed spec fn entries_spec(&self) -> Seq<SolarTermYearEntry<P, R, L>> {
        self.entries@
    }

    /// Assembles a year from solar terms labelled with the local year of their civil time.
    ///
    /// Keeps, in order, the terms labelled with `year`. Fails with
    /// `IncompleteSolarTermYear` unless exactly 24 remain, and otherwise with
    /// `UnexpectedSolarTermSequence` at the first position whose term is not the
    /// one `SolarTerm::ALL` lists there. The terms are given in chronological
    /// order, so a year's entries are chronological.
    pub fn from_labelled_terms(year: i32, offset: F, labelled: &Vec<(SolarTermYearEntry<P, R, L>, i32)>) -> (r: Result<Self, Error>)
        requires
            labels_in_order(labelled@, solar_term_entry_key()),
        ensures
            r is Ok <==> complete_calendar(entries_in_year(labelled@, year)),
            r matches Ok(y) ==> y.year_spec() == year && y.offset_spec() == offset
                && y.entries_spec() == entries_in_year(labelled@, year)
                && sorted_by(y.entries_spec(), solar_term_entry_key()),
            entries_in_year(labelled@, year).len() != 24 ==> r == Err::<Self, Error>(Error::IncompleteSolarTermYear {
                year,
                found: entries_in_year(labelled@, year).len() as usize,
            }),
            r matches Err(Error::UnexpectedSolarTermSequence { year: y, index, expected, actual }) ==> {
                let entries = entries_in_year(labelled@, year);
                &&& y == year
                &&& entries.len() == 24
                &&& index < 24
                &&& forall|j: int| 0 <= j < index ==> #[trigger] entries[j].event.term == SolarTerm::spec_chronological(j)
                &&& entries[index as int].event.term != SolarTerm::spec_chronological(index as int)
                &&& expected@ == SolarTerm::spec_chronological(index as int).spec_english_name()
                &&& actual@ == entries[index as int].event.term.spec_english_name()
            },
            r is Err ==> r matches Err(Error::IncompleteSolarTermYear { .. })
                || r matches Err(Error::UnexpectedSolarTermSequence { .. }),
    {
        proof { entries_in_year_keep_order(labelled@, year, solar_term_entry_key()); }
        let entries = select_year_entries(labelled, year);
        if entries.len() != 24 {
            return Err(Error::IncompleteSolarTermYear { year, found: entries.len() });
        }
        proof { solar_term_calendar_order(); }
        let mut index: usize = 0;
        while index < 24
            invariant
                entries@ == entries_in_year(labelled@, year),
                entries@.len() == 24,
                index <= 24,
                forall|i: int| 0 <= i < 24 ==> #[trigger] SolarTerm::ALL@[i] == SolarTerm::spec_chronological(i),
                forall|j: int| 0 <= j < index ==> #[trigger] entries@[j].event.term == SolarTerm::spec_chronological(j),
            decreases 24 - index,
        {
            let expected = SolarTerm::ALL[index];
            let actual = entries[index].event.term;
            proof {
                assert(expected == SolarTerm::ALL@[index as int]);
                assert(expected == SolarTerm::spec_chronological(index as int));
            }
            if actual != expected {
                proof {
                    assert(entries@[index as int].event.term != SolarTerm::spec_chronological(index as int));
                    assert(!complete_calendar(entries@));
                }
                return Err(Error::UnexpectedSolarTermSequence {
                    year,
                    index,
                    expected: expected.english_name(),
                    actual: actual.english_name(),
                });
            }
            index = index + 1;
        }
        Ok(SolarTermYear { year, offset, entries })
    }

    /// Returns the local Gregorian year.
    pub fn year(&self) -> (y: i32)
        ensures
            y == self.year_spec(),
    {
        self.year
    }

    /// Returns the fixed offset used to select and label the year.
    pub fn offset(&self) -> (f: F)
        ensures
            f == self.offset_spec(),
    {
        self.offset
    }

    /// Returns the 24 entries from Minor Cold through Winter Solstice.
    pub fn entries(&self) -> (e: &Vec<SolarTermYearEntry<P, R, L>>)
        ensures
            e@ == self.entries_spec(),
            complete_calendar(e@),
            sorted_by(e@, solar_term_entry_key()),
    {
        proof { use_type_invariant(self); }
        &self.entries
    }
}

} // verus!
