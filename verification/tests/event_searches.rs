use astrokit::ephem::CelestialBody;
use astrokit::event::{
    brackets_local_minimum, push_unique_extremum, LocatedExtremum,
    central_interior_samples, central_path_transitions, configuration_step, crosses_configuration_target,
    local_solar_eclipse_seed_interval, local_solar_eclipses_in_interval, lunar_eclipse_in_interval,
    lunar_eclipse_seed_interval, order_global_lunar_eclipses, order_local_solar_eclipses,
    push_unique_configuration_event, required_central_contacts, required_lunar_contacts, AstrometricMode,
    CentralSolarEclipseCharacter, CentralSolarEclipsePathLimit, CentralSolarEclipsePathLimitKind,
    ConfigurationAction, ConfigurationCoordinate, ConfigurationEvent, ConfigurationKind, ConfigurationQuery,
    Error, EventEvidence, ExtremumEvidence, GlobalLunarEclipse, GlobalSolarEclipseCentralPath,
    HybridSolarEclipseTransition, LocalSolarEclipse, LocalSolarEclipseKind, LocalSolarEclipseMaximum,
    LunarEclipseContact, LunarEclipseContactKind, LunarEclipseKind, LunarEclipseMaximum, ObservationOrigin,
    RelativeBodyQuery, ResidualSign, SolarConjunctionKind, SolarEclipseContact, SolarEclipseContactKind,
    StationEvent, StationEvidence, StationKind, StationQuery, CENTRAL_INTERIOR_OFFSET_NANOSECONDS,
    LUNAR_ECLIPSE_MAXIMUM_HALF_WINDOW_NANOSECONDS,
};
use astrokit::time::{Duration, Instant, Tai, TimeInterval};

fn at(n: i128) -> Instant<Tai> {
    Instant::from_tai_nanoseconds_since_1900(n)
}

fn interval(start: i128, end: i128) -> TimeInterval<Tai> {
    TimeInterval::new(at(start), at(end)).unwrap()
}

fn query(reference: CelestialBody, kind: ConfigurationKind) -> ConfigurationQuery {
    let bodies = RelativeBodyQuery::new(CelestialBody::Venus, reference, AstrometricMode::Apparent).unwrap();
    ConfigurationQuery::new(bodies, kind, ConfigurationCoordinate::EclipticLongitude)
}

fn configuration(instant: i128, residual: i64) -> ConfigurationEvent<Tai, (), i64> {
    ConfigurationEvent::at_sample(
        query(CelestialBody::Sun, ConfigurationKind::Conjunction),
        ObservationOrigin::Geocenter,
        at(instant),
        (),
        residual,
        1,
    )
}

fn smaller(candidate: &i64, existing: &i64) -> bool {
    candidate.abs() < existing.abs()
}

#[test]
fn configuration_crossings_need_opposite_signs_without_a_wrap() {
    assert!(crosses_configuration_target(ResidualSign::Negative, ResidualSign::Positive, true));
    assert!(crosses_configuration_target(ResidualSign::Positive, ResidualSign::Negative, true));
    assert!(!crosses_configuration_target(ResidualSign::Positive, ResidualSign::Negative, false));
    assert!(crosses_configuration_target(ResidualSign::Negative, ResidualSign::Zero, false));
    assert!(!crosses_configuration_target(ResidualSign::Zero, ResidualSign::Zero, true));
    assert!(!crosses_configuration_target(ResidualSign::Zero, ResidualSign::Positive, true));
    assert!(!crosses_configuration_target(ResidualSign::Positive, ResidualSign::Positive, true));
}

#[test]
fn configuration_steps_refine_crossings_before_endpoint_events() {
    assert_eq!(configuration_step(true, true, true), ConfigurationAction::RefineCrossing);
    assert_eq!(configuration_step(false, true, false), ConfigurationAction::RefineCrossing);
    assert_eq!(configuration_step(true, false, true), ConfigurationAction::EndpointEvent);
    assert_eq!(configuration_step(true, false, false), ConfigurationAction::Advance);
    assert_eq!(configuration_step(false, false, true), ConfigurationAction::Advance);
}

#[test]
fn configuration_events_merge_only_with_the_latest_within_tolerance() {
    let tolerance = Duration::from_nanoseconds(5);
    let mut events = Vec::new();
    push_unique_configuration_event(&mut events, configuration(100, 4), tolerance, smaller).unwrap();
    push_unique_configuration_event(&mut events, configuration(103, -2), tolerance, smaller).unwrap();
    assert_eq!(events.len(), 1);
    assert_eq!(*events[0].evidence().residual(), -2);
    push_unique_configuration_event(&mut events, configuration(105, 3), tolerance, smaller).unwrap();
    assert_eq!(events.len(), 1);
    assert_eq!(events[0].instant(), at(103));
    push_unique_configuration_event(&mut events, configuration(120, 1), tolerance, smaller).unwrap();
    assert_eq!(events.len(), 2);
    assert_eq!(events[1].instant(), at(120));
}

#[test]
fn configuration_event_gap_overflow_is_an_error() {
    let mut events = vec![configuration(i128::MIN, 0)];
    assert_eq!(
        push_unique_configuration_event(&mut events, configuration(i128::MAX, 0), Duration::from_nanoseconds(5), smaller),
        Err(Error::Time(astrokit::time::Error::Overflow { operation: "differencing instants" }))
    );
    assert_eq!(events.len(), 1);
}

#[test]
fn solar_conjunctions_are_inferior_when_the_target_is_nearer() {
    let event = configuration(0, 0);
    assert_eq!(event.solar_conjunction_kind(true), Some(SolarConjunctionKind::Inferior));
    assert_eq!(event.solar_conjunction_kind(false), Some(SolarConjunctionKind::Superior));
    let opposition = ConfigurationEvent::at_sample(
        query(CelestialBody::Sun, ConfigurationKind::Opposition),
        ObservationOrigin::FixedSite,
        at(0),
        (),
        0i64,
        1,
    );
    assert_eq!(opposition.solar_conjunction_kind(true), None);
    let lunar = ConfigurationEvent::at_sample(
        query(CelestialBody::Moon, ConfigurationKind::Conjunction),
        ObservationOrigin::Geocenter,
        at(0),
        (),
        0i64,
        1,
    );
    assert_eq!(lunar.solar_conjunction_kind(true), None);
}

#[test]
fn refined_events_keep_their_instant_inside_the_bracket() {
    let evidence = EventEvidence::new(at(90), at(110), Duration::from_nanoseconds(10), 3i64, 7, 40);
    let event = ConfigurationEvent::new(
        query(CelestialBody::Sun, ConfigurationKind::EasternQuadrature),
        ObservationOrigin::Geocenter,
        at(101),
        (),
        evidence,
    );
    assert_eq!(event.instant(), at(101));
    assert_eq!(event.evidence().bracket_start(), at(90));
    assert_eq!(event.evidence().time_uncertainty(), Duration::from_nanoseconds(10));
    let station = StationEvent::new(
        StationQuery::new(CelestialBody::Mars, AstrometricMode::Apparent),
        ObservationOrigin::Geocenter,
        StationKind::Retrograde,
        at(5),
        (),
        StationEvidence::new(at(0), at(9), Duration::from_nanoseconds(5), 0i64, 3, 12),
    );
    assert_eq!(station.kind(), StationKind::Retrograde);
    assert_eq!(station.instant(), at(5));
    assert_eq!(station.evidence().bracket_end(), at(9));
}

#[test]
fn lunar_seed_interval_widens_by_half_a_day_each_side() {
    let half = LUNAR_ECLIPSE_MAXIMUM_HALF_WINDOW_NANOSECONDS;
    assert_eq!(half, 12 * 3_600 * 1_000_000_000);
    let seeds = lunar_eclipse_seed_interval(interval(0, 1_000)).unwrap();
    assert_eq!(seeds.start(), at(-half));
    assert_eq!(seeds.end(), at(1_000 + half));
    assert_eq!(
        lunar_eclipse_seed_interval(interval(i128::MIN, 0)),
        Err(Error::Time(astrokit::time::Error::Overflow { operation: "retarding an instant" }))
    );
    assert_eq!(
        lunar_eclipse_seed_interval(interval(0, i128::MAX)),
        Err(Error::Time(astrokit::time::Error::Overflow { operation: "advancing an instant" }))
    );
    let local = local_solar_eclipse_seed_interval(interval(0, 1_000)).unwrap();
    assert_eq!(local.start(), at(-half));
    assert_eq!(local.end(), at(1_000 + half));
}

#[test]
fn lunar_kinds_require_their_contact_pairs() {
    assert_eq!(required_lunar_contacts(LunarEclipseKind::Penumbral), (false, false));
    assert_eq!(required_lunar_contacts(LunarEclipseKind::Partial), (true, false));
    assert_eq!(required_lunar_contacts(LunarEclipseKind::Total), (true, true));
    assert!(!required_central_contacts(LocalSolarEclipseKind::Partial));
    assert!(required_central_contacts(LocalSolarEclipseKind::Annular));
    assert!(required_central_contacts(LocalSolarEclipseKind::Total));
}

#[test]
fn lunar_eclipses_belong_to_the_interval_of_their_greatest_instant() {
    let window = interval(100, 200);
    assert_eq!(lunar_eclipse_in_interval(window, at(150), Some(LunarEclipseKind::Total)), Some(LunarEclipseKind::Total));
    assert_eq!(lunar_eclipse_in_interval(window, at(200), Some(LunarEclipseKind::Partial)), Some(LunarEclipseKind::Partial));
    assert_eq!(lunar_eclipse_in_interval(window, at(201), Some(LunarEclipseKind::Total)), None);
    assert_eq!(lunar_eclipse_in_interval(window, at(150), None), None);
}

fn lunar_contact(kind: LunarEclipseContactKind, instant: i128) -> LunarEclipseContact<Tai, (), i64> {
    LunarEclipseContact { kind, instant: at(instant), geometry: (), evidence: EventEvidence::at_sample(at(instant), 0, 1) }
}

fn lunar_maximum(instant: i128) -> LunarEclipseMaximum<Tai, ()> {
    LunarEclipseMaximum {
        instant: at(instant),
        geometry: (),
        evidence: ExtremumEvidence::new(at(instant - 2), at(instant + 2), Duration::from_nanoseconds(2), 4, 9),
    }
}

fn total_lunar(maximum: i128, model: u8) -> Result<GlobalLunarEclipse<Tai, (), i64, u8>, Error> {
    GlobalLunarEclipse::from_contacts(
        LunarEclipseKind::Total,
        lunar_contact(LunarEclipseContactKind::PenumbralIngress, maximum - 30),
        Some(lunar_contact(LunarEclipseContactKind::UmbralIngress, maximum - 20)),
        Some(lunar_contact(LunarEclipseContactKind::TotalityIngress, maximum - 10)),
        lunar_maximum(maximum),
        Some(lunar_contact(LunarEclipseContactKind::TotalityEgress, maximum + 10)),
        Some(lunar_contact(LunarEclipseContactKind::UmbralEgress, maximum + 20)),
        lunar_contact(LunarEclipseContactKind::PenumbralEgress, maximum + 30),
        model,
    )
}

#[test]
fn global_lunar_eclipses_need_ordered_contacts_of_their_kind() {
    let eclipse = total_lunar(100, 0).unwrap();
    assert_eq!(eclipse.kind(), LunarEclipseKind::Total);
    let penumbral = eclipse.penumbral_phase().unwrap();
    assert_eq!((penumbral.interval.start(), penumbral.interval.end()), (at(70), at(130)));
    let partial = eclipse.partial_phase().unwrap().unwrap();
    assert_eq!((partial.interval.start(), partial.interval.end()), (at(80), at(120)));
    let total = eclipse.total_phase().unwrap().unwrap();
    assert_eq!((total.interval.start(), total.interval.end()), (at(90), at(110)));
    let rejected = Err(Error::InconsistentEclipseContacts { eclipse: "global lunar eclipse" });
    let missing_totality = GlobalLunarEclipse::from_contacts(
        LunarEclipseKind::Total,
        lunar_contact(LunarEclipseContactKind::PenumbralIngress, 70),
        Some(lunar_contact(LunarEclipseContactKind::UmbralIngress, 80)),
        None,
        lunar_maximum(100),
        None,
        Some(lunar_contact(LunarEclipseContactKind::UmbralEgress, 120)),
        lunar_contact(LunarEclipseContactKind::PenumbralEgress, 130),
        0u8,
    );
    assert_eq!(missing_totality, rejected);
    let out_of_order = GlobalLunarEclipse::from_contacts(
        LunarEclipseKind::Penumbral,
        lunar_contact(LunarEclipseContactKind::PenumbralIngress, 110),
        None,
        None,
        lunar_maximum(100),
        None,
        None,
        lunar_contact(LunarEclipseContactKind::PenumbralEgress, 130),
        0u8,
    );
    assert_eq!(out_of_order, rejected);
    let mislabelled = GlobalLunarEclipse::from_contacts(
        LunarEclipseKind::Penumbral,
        lunar_contact(LunarEclipseContactKind::PenumbralEgress, 70),
        None,
        None,
        lunar_maximum(100),
        None,
        None,
        lunar_contact(LunarEclipseContactKind::PenumbralEgress, 130),
        0u8,
    );
    assert_eq!(mislabelled, rejected);
    let penumbral_only = GlobalLunarEclipse::from_contacts(
        LunarEclipseKind::Penumbral,
        lunar_contact(LunarEclipseContactKind::PenumbralIngress, 70),
        None,
        None,
        lunar_maximum(100),
        None,
        None,
        lunar_contact(LunarEclipseContactKind::PenumbralEgress, 130),
        0u8,
    )
    .unwrap();
    assert_eq!(penumbral_only.partial_phase(), Ok(None));
    assert_eq!(penumbral_only.total_phase(), Ok(None));
}

#[test]
fn global_lunar_eclipses_are_ordered_and_deduplicated_by_greatest_instant() {
    let eclipses = vec![
        total_lunar(500, 1).unwrap(),
        total_lunar(100, 2).unwrap(),
        total_lunar(500, 3).unwrap(),
        total_lunar(300, 4).unwrap(),
    ];
    let ordered = order_global_lunar_eclipses(eclipses);
    let kept: Vec<(Instant<Tai>, u8)> = ordered.iter().map(|e| (e.maximum().instant, *e.model())).collect();
    assert_eq!(kept, vec![(at(100), 2), (at(300), 4), (at(500), 1)]);
}

fn solar_contact(kind: SolarEclipseContactKind, instant: i128) -> SolarEclipseContact<Tai, (), i64> {
    SolarEclipseContact { kind, instant: at(instant), observation: (), evidence: EventEvidence::at_sample(at(instant), 0, 1) }
}

fn solar_maximum(instant: i128) -> LocalSolarEclipseMaximum<Tai, ()> {
    LocalSolarEclipseMaximum {
        instant: at(instant),
        observation: (),
        evidence: ExtremumEvidence::new(at(instant), at(instant), Duration::zero(), 0, 3),
    }
}

fn annular_local(maximum: i128, site: u8) -> Result<LocalSolarEclipse<Tai, (), i64, u8>, Error> {
    LocalSolarEclipse::from_contacts(
        LocalSolarEclipseKind::Annular,
        solar_contact(SolarEclipseContactKind::First, maximum - 40),
        Some(solar_contact(SolarEclipseContactKind::Second, maximum - 3)),
        solar_maximum(maximum),
        Some(solar_contact(SolarEclipseContactKind::Third, maximum + 4)),
        solar_contact(SolarEclipseContactKind::Fourth, maximum + 50),
        site,
    )
}

#[test]
fn local_solar_eclipses_keep_ordered_contacts_and_exact_durations() {
    let eclipse = annular_local(1_000, 0).unwrap();
    assert_eq!(eclipse.partial_phase_duration(), Duration::from_nanoseconds(90));
    assert_eq!(eclipse.central_phase_duration(), Some(Duration::from_nanoseconds(7)));
    let partial = LocalSolarEclipse::from_contacts(
        LocalSolarEclipseKind::Partial,
        solar_contact(SolarEclipseContactKind::First, 10),
        None,
        solar_maximum(20),
        None,
        solar_contact(SolarEclipseContactKind::Fourth, 35),
        0u8,
    )
    .unwrap();
    assert_eq!(partial.partial_phase_duration(), Duration::from_nanoseconds(25));
    assert_eq!(partial.central_phase_duration(), None);
    let rejected = Err(Error::InconsistentEclipseContacts { eclipse: "local solar eclipse" });
    let partial_with_c2 = LocalSolarEclipse::from_contacts(
        LocalSolarEclipseKind::Partial,
        solar_contact(SolarEclipseContactKind::First, 10),
        Some(solar_contact(SolarEclipseContactKind::Second, 15)),
        solar_maximum(20),
        None,
        solar_contact(SolarEclipseContactKind::Fourth, 35),
        0u8,
    );
    assert_eq!(partial_with_c2, rejected);
    let late_fourth = LocalSolarEclipse::from_contacts(
        LocalSolarEclipseKind::Partial,
        solar_contact(SolarEclipseContactKind::First, 10),
        None,
        solar_maximum(20),
        None,
        solar_contact(SolarEclipseContactKind::Fourth, 19),
        0u8,
    );
    assert_eq!(late_fourth, rejected);
    let too_long = LocalSolarEclipse::from_contacts(
        LocalSolarEclipseKind::Partial,
        solar_contact(SolarEclipseContactKind::First, i128::MIN),
        None,
        solar_maximum(0),
        None,
        solar_contact(SolarEclipseContactKind::Fourth, i128::MAX),
        0u8,
    );
    assert_eq!(too_long, Err(Error::Time(astrokit::time::Error::Overflow { operation: "differencing instants" })));
}

#[test]
fn local_solar_maxima_are_filtered_by_interval_and_classification() {
    let candidates = vec![
        (solar_maximum(50), Some(LocalSolarEclipseKind::Total)),
        (solar_maximum(150), Some(LocalSolarEclipseKind::Partial)),
        (solar_maximum(160), None),
        (solar_maximum(200), Some(LocalSolarEclipseKind::Annular)),
        (solar_maximum(201), Some(LocalSolarEclipseKind::Total)),
    ];
    let kept = local_solar_eclipses_in_interval(interval(100, 200), &candidates);
    let summary: Vec<(Instant<Tai>, LocalSolarEclipseKind)> = kept.iter().map(|(m, k)| (m.instant, *k)).collect();
    assert_eq!(summary, vec![(at(150), LocalSolarEclipseKind::Partial), (at(200), LocalSolarEclipseKind::Annular)]);
}

#[test]
fn local_solar_eclipses_are_ordered_and_deduplicated_by_greatest_instant() {
    let eclipses = vec![annular_local(900, 1).unwrap(), annular_local(700, 2).unwrap(), annular_local(700, 3).unwrap()];
    let ordered = order_local_solar_eclipses(eclipses);
    let kept: Vec<(Instant<Tai>, u8)> = ordered.iter().map(|e| (e.maximum().instant, *e.context())).collect();
    assert_eq!(kept, vec![(at(700), 2), (at(900), 1)]);
}

fn limit(kind: CentralSolarEclipsePathLimitKind, instant: i128) -> CentralSolarEclipsePathLimit<Tai, i64> {
    CentralSolarEclipsePathLimit { kind, instant: at(instant), evidence: EventEvidence::at_sample(at(instant), 0, 1) }
}

fn transition(
    instant: i128,
    before: CentralSolarEclipseCharacter,
    after: CentralSolarEclipseCharacter,
) -> HybridSolarEclipseTransition<Tai, i64> {
    HybridSolarEclipseTransition { instant: at(instant), before, after, evidence: EventEvidence::at_sample(at(instant), 0, 1) }
}

#[test]
fn central_path_samples_lie_one_second_inside_the_limits() {
    let (first, last) = central_interior_samples(at(0), at(10_000_000_000)).unwrap();
    assert_eq!(first, at(CENTRAL_INTERIOR_OFFSET_NANOSECONDS));
    assert_eq!(last, at(9_000_000_000));
    assert_eq!(
        central_interior_samples(at(i128::MAX), at(0)),
        Err(Error::Time(astrokit::time::Error::Overflow { operation: "advancing an instant" }))
    );
}

#[test]
fn central_path_transitions_are_where_the_character_changes() {
    let annular = CentralSolarEclipseCharacter::Annular;
    let total = CentralSolarEclipseCharacter::Total;
    let samples = vec![(at(0), annular), (at(10), total), (at(20), total), (at(30), annular)];
    assert_eq!(central_path_transitions(&samples), vec![0, 2]);
    let steady = vec![(at(0), total), (at(10), total), (at(20), total)];
    assert_eq!(central_path_transitions(&steady), Vec::<usize>::new());
    assert_eq!(central_path_transitions::<Tai>(&Vec::new()), Vec::<usize>::new());
}

#[test]
fn central_paths_chain_their_transitions_inside_the_limits() {
    let annular = CentralSolarEclipseCharacter::Annular;
    let total = CentralSolarEclipseCharacter::Total;
    let start = limit(CentralSolarEclipsePathLimitKind::Start, 0);
    let end = limit(CentralSolarEclipsePathLimitKind::End, 100);
    let hybrid = GlobalSolarEclipseCentralPath::new(
        start,
        end,
        annular,
        total,
        annular,
        vec![transition(20, annular, total), transition(80, total, annular)],
    )
    .unwrap();
    assert_eq!(hybrid.transitions().len(), 2);
    assert_eq!(hybrid.greatest_character(), total);
    let rejected = Some(Error::InconsistentEclipseContacts { eclipse: "central solar-eclipse path" });
    let unchained = GlobalSolarEclipseCentralPath::new(
        start,
        end,
        annular,
        total,
        annular,
        vec![transition(20, annular, total), transition(80, annular, total)],
    );
    assert_eq!(unchained.err(), rejected);
    let outside = GlobalSolarEclipseCentralPath::new(start, end, annular, total, total, vec![transition(120, annular, total)]);
    assert_eq!(outside.err(), rejected);
    let backwards = GlobalSolarEclipseCentralPath::new(
        start,
        end,
        annular,
        total,
        annular,
        vec![transition(80, annular, total), transition(20, total, annular)],
    );
    assert_eq!(backwards.err(), rejected);
    let mismatched_ends = GlobalSolarEclipseCentralPath::<Tai, i64, i64>::new(start, end, annular, annular, total, vec![]);
    assert_eq!(mismatched_ends.err(), rejected);
    let steady = GlobalSolarEclipseCentralPath::<Tai, i64, i64>::new(start, end, total, total, total, vec![]).unwrap();
    assert_eq!(steady.start().instant, at(0));
}

#[test]
fn local_minima_need_a_strict_drop_on_one_side() {
    assert!(brackets_local_minimum(ResidualSign::Negative, ResidualSign::Negative));
    assert!(brackets_local_minimum(ResidualSign::Zero, ResidualSign::Negative));
    assert!(brackets_local_minimum(ResidualSign::Negative, ResidualSign::Zero));
    assert!(!brackets_local_minimum(ResidualSign::Zero, ResidualSign::Zero));
    assert!(!brackets_local_minimum(ResidualSign::Positive, ResidualSign::Negative));
    assert!(!brackets_local_minimum(ResidualSign::Negative, ResidualSign::Positive));
}

fn extremum(start: i128, data: u8) -> LocatedExtremum<Tai, u8> {
    LocatedExtremum { data, evidence: ExtremumEvidence::new(at(start), at(start + 4), Duration::from_nanoseconds(2), 3, 8) }
}

#[test]
fn extrema_within_tolerance_of_the_latest_are_dropped() {
    let tolerance = Duration::from_nanoseconds(10);
    let mut extrema = Vec::new();
    push_unique_extremum(&mut extrema, extremum(100, 1), tolerance).unwrap();
    push_unique_extremum(&mut extrema, extremum(110, 2), tolerance).unwrap();
    push_unique_extremum(&mut extrema, extremum(111, 3), tolerance).unwrap();
    push_unique_extremum(&mut extrema, extremum(105, 4), tolerance).unwrap();
    let kept: Vec<u8> = extrema.iter().map(|e| e.data).collect();
    assert_eq!(kept, vec![1, 3]);
    let mut far = vec![extremum(i128::MIN + 10, 0)];
    assert_eq!(
        push_unique_extremum(&mut far, extremum(i128::MAX - 10, 1), tolerance),
        Err(Error::Time(astrokit::time::Error::Overflow { operation: "differencing instants" }))
    );
}
