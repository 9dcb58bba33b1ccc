use astrokit::ephem::{CelestialBody, SphericalBodyFigure};
use astrokit::event::{
    altitude_crossing_kind, meridian_crossing_kind, segment_findings, SegmentFinding,
    classify_horizon_visibility, count_events_of_kind, push_unique_horizon_event, twilight_state,
    EventEvidence, HorizonCriterion, HorizonDiskPoint, HorizonEvent, HorizonEventKind,
    HorizonEventSearch, HorizonReference, HorizonVisibility, TwilightEventKind, TwilightLevel,
    TwilightSearch, TwilightState,
};
use astrokit::time::{Duration, Instant, Tai, TimeInterval};

type Event = HorizonEvent<Tai, (), (), i64>;

fn at(n: i128) -> Instant<Tai> {
    Instant::from_tai_nanoseconds_since_1900(n)
}

fn event(kind: HorizonEventKind, instant: i128, residual: i64) -> Event {
    HorizonEvent::new(kind, at(instant), (), None, EventEvidence::at_sample(at(instant), residual, 1))
}

fn smaller(candidate: &i64, existing: &i64) -> bool {
    candidate.abs() < existing.abs()
}

#[test]
fn horizon_presets_use_the_supplied_zero_altitude() {
    let moon = SphericalBodyFigure::iau_wgccre_2015_moon();
    let c: HorizonCriterion<i32, u8, SphericalBodyFigure> = HorizonCriterion::geometric_center(0);
    assert_eq!(c.altitude(), 0);
    assert_eq!(c.reference(), HorizonReference::Vacuum);
    assert_eq!(c.disk_point(), HorizonDiskPoint::Center);
    let r: HorizonCriterion<i32, u8, SphericalBodyFigure> = HorizonCriterion::refracted_upper_limb(0, moon, 7);
    assert_eq!(r.reference(), HorizonReference::Refracted(7));
    assert_eq!(r.disk_point(), HorizonDiskPoint::UpperLimb(moon));
    assert_eq!(r.disk_point().figure(), Some(moon));
    let l: HorizonCriterion<i32, u8, SphericalBodyFigure> = HorizonCriterion::geometric_lower_limb(0, moon);
    assert_eq!(l.disk_point(), HorizonDiskPoint::LowerLimb(moon));
    let rc: HorizonCriterion<i32, u8, SphericalBodyFigure> = HorizonCriterion::refracted_center(0, 3);
    assert_eq!(rc.reference(), HorizonReference::Refracted(3));
    assert_eq!(rc.disk_point().figure(), None);
    let v: HorizonCriterion<i32, u8, SphericalBodyFigure> = HorizonCriterion::vacuum_altitude(-50);
    assert_eq!(v.altitude(), -50);
}

#[test]
fn horizon_visibility_follows_rise_and_set_counts() {
    let none: Vec<Event> = Vec::new();
    assert_eq!(classify_horizon_visibility(&none, true, false), HorizonVisibility::CircumpolarOverInterval);
    assert_eq!(classify_horizon_visibility(&none, false, true), HorizonVisibility::NeverRisesOverInterval);
    assert_eq!(classify_horizon_visibility(&none, false, false), HorizonVisibility::GrazesCriterion);
    let one = vec![event(HorizonEventKind::Rise, 5, 0), event(HorizonEventKind::UpperTransit, 9, 0)];
    assert_eq!(classify_horizon_visibility(&one, false, false), HorizonVisibility::TruncatedByInterval);
    let pair = vec![event(HorizonEventKind::Rise, 5, 0), event(HorizonEventKind::Setting, 9, 0)];
    assert_eq!(classify_horizon_visibility(&pair, false, false), HorizonVisibility::RisesAndSets);
    let many = vec![
        event(HorizonEventKind::Rise, 5, 0),
        event(HorizonEventKind::Setting, 9, 0),
        event(HorizonEventKind::Rise, 15, 0),
    ];
    assert_eq!(classify_horizon_visibility(&many, false, false), HorizonVisibility::MultipleCycles);
    assert_eq!(count_events_of_kind(&many, HorizonEventKind::Rise), 2);
    assert_eq!(count_events_of_kind(&many, HorizonEventKind::LowerTransit), 0);
}

#[test]
fn horizon_search_orders_events_by_instant() {
    let interval = TimeInterval::new(at(0), at(100)).unwrap();
    let events = vec![
        event(HorizonEventKind::Setting, 60, 0),
        event(HorizonEventKind::UpperTransit, 30, 0),
        event(HorizonEventKind::Rise, 10, 0),
    ];
    let search = HorizonEventSearch::from_scan(CelestialBody::Sun, interval, 'c', events, false, false);
    let instants: Vec<i128> = search.events().iter().map(|e| e.instant().tai_nanoseconds_since_1900()).collect();
    assert_eq!(instants, vec![10, 30, 60]);
    assert_eq!(search.visibility(), HorizonVisibility::RisesAndSets);
    assert_eq!(search.target(), CelestialBody::Sun);
    assert_eq!(*search.criterion(), 'c');
    assert_eq!(search.interval(), interval);
}

#[test]
fn horizon_duplicates_keep_the_smaller_residual() {
    let tolerance = Duration::from_nanoseconds(3);
    let mut events = vec![event(HorizonEventKind::Rise, 10, 5), event(HorizonEventKind::Setting, 50, 5)];
    push_unique_horizon_event(&mut events, event(HorizonEventKind::Rise, 12, 1), tolerance, smaller);
    assert_eq!(events.len(), 2);
    assert_eq!(events[0].instant(), at(12));
    push_unique_horizon_event(&mut events, event(HorizonEventKind::Rise, 11, 4), tolerance, smaller);
    assert_eq!(events[0].instant(), at(12));
    push_unique_horizon_event(&mut events, event(HorizonEventKind::Setting, 13, 4), tolerance, smaller);
    assert_eq!(events.len(), 3);
    push_unique_horizon_event(&mut events, event(HorizonEventKind::Rise, 40, 4), tolerance, smaller);
    assert_eq!(events.len(), 4);
}

#[test]
fn twilight_translates_rises_and_sets_into_dawns_and_dusks() {
    assert_eq!(TwilightLevel::<f64>::Civil.standard_altitude_degrees(), Some(-6));
    assert_eq!(TwilightLevel::<f64>::Nautical.standard_altitude_degrees(), Some(-12));
    assert_eq!(TwilightLevel::<f64>::Astronomical.standard_altitude_degrees(), Some(-18));
    assert_eq!(TwilightLevel::Custom(-9.5_f64).standard_altitude_degrees(), None);
    assert_eq!(twilight_state(HorizonVisibility::CircumpolarOverInterval), TwilightState::ContinuousLight);
    assert_eq!(twilight_state(HorizonVisibility::NeverRisesOverInterval), TwilightState::ContinuousDark);
    assert_eq!(twilight_state(HorizonVisibility::GrazesCriterion), TwilightState::GrazesLevel);

    let interval = TimeInterval::new(at(0), at(100)).unwrap();
    let events = vec![
        event(HorizonEventKind::Setting, 80, 0),
        event(HorizonEventKind::UpperTransit, 50, 0),
        event(HorizonEventKind::Rise, 20, 0),
    ];
    let criterion: HorizonCriterion<f64, u8, SphericalBodyFigure> = HorizonCriterion::vacuum_altitude(-6.0);
    let search = HorizonEventSearch::from_scan(CelestialBody::Sun, interval, criterion, events, false, false);
    let twilight = TwilightSearch::from_horizon_search(TwilightLevel::<f64>::Civil, search);
    assert_eq!(twilight.state(), TwilightState::DawnAndDusk);
    let kinds: Vec<TwilightEventKind> = twilight.events().iter().map(|e| e.kind()).collect();
    assert_eq!(kinds, vec![TwilightEventKind::Dawn, TwilightEventKind::Dusk]);
    assert_eq!(twilight.events()[0].instant(), at(20));
    assert_eq!(twilight.events()[1].instant(), at(80));
    assert_eq!(twilight.level(), TwilightLevel::Civil);
    assert_eq!(twilight.horizon_search().target(), CelestialBody::Sun);
    assert_eq!(twilight.horizon_search().criterion().altitude(), -6.0);

    let custom: HorizonCriterion<f64, u8, SphericalBodyFigure> = HorizonCriterion::vacuum_altitude(-9.5);
    let dark = HorizonEventSearch::from_scan(CelestialBody::Sun, interval, custom, Vec::<Event>::new(), false, true);
    let night = TwilightSearch::from_horizon_search(TwilightLevel::Custom(-9.5_f64), dark);
    assert_eq!(night.state(), TwilightState::ContinuousDark);
    assert!(night.events().is_empty());
}

#[test]
fn horizon_search_keeps_simultaneous_events_in_input_order() {
    let interval = TimeInterval::new(at(0), at(100)).unwrap();
    let events = vec![
        event(HorizonEventKind::Setting, 60, 0),
        event(HorizonEventKind::Rise, 10, 0),
        event(HorizonEventKind::LowerTransit, 60, 0),
        event(HorizonEventKind::UpperTransit, 60, 0),
    ];
    let search = HorizonEventSearch::from_scan(CelestialBody::Moon, interval, (), events, false, false);
    let kinds: Vec<HorizonEventKind> = search.events().iter().map(|e| e.kind()).collect();
    assert_eq!(
        kinds,
        vec![
            HorizonEventKind::Rise,
            HorizonEventKind::Setting,
            HorizonEventKind::LowerTransit,
            HorizonEventKind::UpperTransit,
        ]
    );
}

#[test]
fn scan_segments_report_tangencies_and_bracketed_crossings() {
    assert_eq!(segment_findings(true, true, false, true), vec![SegmentFinding::AtStart, SegmentFinding::Bracketed]);
    assert_eq!(segment_findings(false, true, false, true), vec![SegmentFinding::Bracketed]);
    assert_eq!(segment_findings(false, false, true, false), vec![SegmentFinding::AtEnd]);
    assert_eq!(segment_findings(true, true, true, false), vec![SegmentFinding::AtStart, SegmentFinding::AtEnd]);
    assert_eq!(segment_findings(false, false, false, false), Vec::new());
    assert_eq!(altitude_crossing_kind(true), HorizonEventKind::Rise);
    assert_eq!(altitude_crossing_kind(false), HorizonEventKind::Setting);
    assert_eq!(meridian_crossing_kind(true), HorizonEventKind::UpperTransit);
    assert_eq!(meridian_crossing_kind(false), HorizonEventKind::LowerTransit);
}
