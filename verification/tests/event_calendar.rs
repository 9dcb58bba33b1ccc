use astrokit::event::{
    cycles_from_boundaries, following_year, select_year_entries, CycleBoundary, CycleEvidence,
    CycleModel, CycleStatistics, Error, EquinoxKind, EventEvidence, MeasuredCycle, MoonPhase,
    MoonPhaseAngleEvent, MoonPhaseEvent, MoonPhaseYear, MoonPhaseYearEntry, SolarTerm,
    SolarTermEvent, SolarTermYear, SolarTermYearEntry, SynodicMonth, TropicalYear,
};
use astrokit::time::{Duration, Instant, Tai, Utc};

fn utc(n: i128) -> Instant<Utc> {
    Instant::from_tai_nanoseconds_since_1900(n)
}

fn tai(n: i128) -> Instant<Tai> {
    Instant::from_tai_nanoseconds_since_1900(n)
}

#[test]
fn moon_phases_follow_quarter_indices() {
    assert_eq!(MoonPhase::NewMoon.target_longitude_difference(), 0);
    assert_eq!(MoonPhase::LastQuarter.target_longitude_difference(), 270);
    assert_eq!(MoonPhase::from_longitude_index(6), MoonPhase::FullMoon);
    assert_eq!(MoonPhase::from_longitude_index(-1), MoonPhase::LastQuarter);
    assert_eq!(MoonPhase::FirstQuarter.english_name(), "First Quarter");
    for (index, phase) in MoonPhase::ALL.iter().enumerate() {
        assert_eq!(MoonPhase::from_longitude_index(index as i64 + 8), *phase);
    }
}

#[test]
fn solar_terms_follow_fifteen_degree_steps_in_calendar_order() {
    assert_eq!(SolarTerm::SpringEquinox.target_longitude(), 0);
    assert_eq!(SolarTerm::MinorCold.target_longitude(), 285);
    assert_eq!(SolarTerm::WinterSolstice.target_longitude(), 270);
    assert_eq!(SolarTerm::from_longitude_index(19), SolarTerm::MinorCold);
    assert_eq!(SolarTerm::from_longitude_index(-24), SolarTerm::SpringEquinox);
    assert_eq!(SolarTerm::StartOfSpring.chinese_name(), "立春");
    assert_eq!(SolarTerm::StartOfSpring.english_name(), "Start of Spring");
    assert_eq!(SolarTerm::ALL[0], SolarTerm::MinorCold);
    assert_eq!(SolarTerm::ALL[23], SolarTerm::WinterSolstice);
    for pair in SolarTerm::ALL.windows(2) {
        assert_eq!((pair[0].target_longitude() + 15) % 360, pair[1].target_longitude());
    }
    assert_eq!(EquinoxKind::March.solar_term(), SolarTerm::SpringEquinox);
    assert_eq!(EquinoxKind::September.solar_term(), SolarTerm::AutumnEquinox);
}

fn term_entry(term: SolarTerm, instant: i128) -> SolarTermYearEntry<(), i64, i128> {
    SolarTermYearEntry {
        event: SolarTermEvent::new(term, utc(instant), (), EventEvidence::at_sample(utc(instant), 0, 1)),
        local_time: instant,
    }
}

#[test]
fn a_solar_term_year_needs_all_twenty_four_in_order() {
    let mut labelled: Vec<(SolarTermYearEntry<(), i64, i128>, i32)> = vec![(term_entry(SolarTerm::WinterSolstice, -5), 2023)];
    for (index, term) in SolarTerm::ALL.iter().enumerate() {
        labelled.push((term_entry(*term, index as i128), 2024));
    }
    labelled.push((term_entry(SolarTerm::MinorCold, 99), 2025));
    let year = SolarTermYear::from_labelled_terms(2024, 8u8, &labelled).unwrap();
    assert_eq!(year.year(), 2024);
    assert_eq!(year.offset(), 8);
    assert_eq!(year.entries().len(), 24);
    assert_eq!(year.entries()[23].event().term(), SolarTerm::WinterSolstice);
    for pair in year.entries().windows(2) {
        assert!(pair[0].event().instant().is_before(pair[1].event().instant()));
    }

    let short = &labelled[..20].to_vec();
    assert_eq!(
        SolarTermYear::from_labelled_terms(2024, 8u8, short),
        Err(Error::IncompleteSolarTermYear { year: 2024, found: 19 })
    );
    let mut swapped = labelled.clone();
    let third = swapped[3].0.event.term;
    swapped[3].0.event.term = swapped[4].0.event.term;
    swapped[4].0.event.term = third;
    assert_eq!(
        SolarTermYear::from_labelled_terms(2024, 8u8, &swapped),
        Err(Error::UnexpectedSolarTermSequence { year: 2024, index: 2, expected: "Start of Spring", actual: "Rain Water" })
    );
}

#[test]
fn year_selection_keeps_labelled_entries_in_order() {
    let labelled = vec![('a', 2023), ('b', 2024), ('c', 2024), ('d', 2025), ('e', 2024)];
    assert_eq!(select_year_entries(&labelled, 2024), vec!['b', 'c', 'e']);
    assert!(select_year_entries(&labelled, 1999).is_empty());
    assert_eq!(following_year(2024), Ok(2025));
    assert!(following_year(i32::MAX).is_err());
}

#[test]
fn a_moon_phase_year_keeps_phases_of_that_year() {
    let entry = |phase: MoonPhase, instant: i128| MoonPhaseYearEntry {
        event: MoonPhaseEvent::new(
            phase,
            MoonPhaseAngleEvent::new(0i64, utc(instant), (), (), 0i64, EventEvidence::at_sample(utc(instant), 0i64, 2)),
        ),
        local_time: instant,
    };
    let labelled = vec![
        (entry(MoonPhase::LastQuarter, 1), 2023),
        (entry(MoonPhase::NewMoon, 2), 2024),
        (entry(MoonPhase::FirstQuarter, 3), 2024),
        (entry(MoonPhase::FullMoon, 4), 2025),
    ];
    let year = MoonPhaseYear::from_labelled_phases(2024, 0u8, &labelled);
    let phases: Vec<MoonPhase> = year.entries().iter().map(|e| e.event().phase()).collect();
    assert_eq!(phases, vec![MoonPhase::NewMoon, MoonPhase::FirstQuarter]);
    let instants: Vec<Instant<Utc>> = year.entries().iter().map(|e| e.event().instant()).collect();
    assert_eq!(instants, vec![utc(2), utc(3)]);
    assert_eq!(year.year(), 2024);
}

fn boundary(instant: i128) -> CycleBoundary<Tai, (), i64> {
    CycleBoundary::new(tai(instant), (), CycleEvidence::new(tai(instant), tai(instant), Duration::zero(), 0, 0, 1))
}

#[test]
fn measured_cycles_tile_the_boundaries() {
    let boundaries = vec![boundary(0), boundary(29), boundary(59), boundary(88)];
    let model = CycleModel::new("new Moon", "true ecliptic of date", ());
    let cycles: Vec<MeasuredCycle<SynodicMonth, Tai, (), i64, ()>> = cycles_from_boundaries(&boundaries, model).unwrap();
    let durations: Vec<i128> = cycles.iter().map(|c| c.duration().as_nanoseconds()).collect();
    assert_eq!(durations, vec![29, 30, 29]);
    assert_eq!(durations.iter().sum::<i128>(), 88);
    for pair in cycles.windows(2) {
        assert_eq!(pair[0].end(), pair[1].start());
    }
    assert_eq!(cycles[0].kind_name(), "synodic month");
    let none: Vec<MeasuredCycle<TropicalYear, Tai, (), i64, ()>> = cycles_from_boundaries(&vec![boundary(5)], model).unwrap();
    assert!(none.is_empty());
    let overflow: Result<Vec<MeasuredCycle<TropicalYear, Tai, (), i64, ()>>, Error> =
        cycles_from_boundaries(&vec![boundary(i128::MIN), boundary(i128::MAX)], model);
    assert!(matches!(overflow, Err(Error::Time(_))));
}

#[test]
fn cycle_statistics_bound_every_cycle() {
    let durations = vec![
        Duration::from_nanoseconds(29),
        Duration::from_nanoseconds(31),
        Duration::from_nanoseconds(27),
    ];
    let stats: CycleStatistics<SynodicMonth> =
        CycleStatistics::from_durations(&durations, Duration::from_nanoseconds(29), Duration::from_nanoseconds(2)).unwrap();
    assert_eq!(stats.count(), 3);
    assert_eq!(stats.minimum().as_nanoseconds(), 27);
    assert_eq!(stats.maximum().as_nanoseconds(), 31);
    assert_eq!(stats.mean().as_nanoseconds(), 29);
    let empty: Result<CycleStatistics<SynodicMonth>, Error> =
        CycleStatistics::from_durations(&Vec::new(), Duration::zero(), Duration::zero());
    assert_eq!(empty, Err(Error::EmptyCycleSample));
}
