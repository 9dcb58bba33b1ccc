use astrokit::ephem::{CelestialBody, SphericalBodyFigure};
use astrokit::event::{
    classify_global_solar_eclipse, consume_evaluations, is_non_central, next_scan_epoch,
    push_unique_latest, AngularSeparationExtremumQuery, AstrometricMode, BesselianDerivativeMethod,
    CentralSolarEclipseCharacter, ConfigurationCoordinate, ConfigurationKind, ConfigurationQuery,
    DistanceExtremumQuery, Error, EventEvidence, ExtremumKind, GlobalSolarEclipseKind,
    RelativeBodyQuery, SolarEclipseCentralPhase, SolarEclipseModel, SolarTerm, SolarTermEvent,
};
use astrokit::time::{Duration, Instant, Tai};

fn at(n: i128) -> Instant<Tai> {
    Instant::from_tai_nanoseconds_since_1900(n)
}

#[test]
fn relative_queries_reject_identical_bodies() {
    let query = RelativeBodyQuery::new(CelestialBody::Mars, CelestialBody::Sun, AstrometricMode::Apparent).unwrap();
    assert_eq!(query.target(), CelestialBody::Mars);
    assert_eq!(query.reference(), CelestialBody::Sun);
    assert_eq!(query.mode(), AstrometricMode::Apparent);
    assert_eq!(
        RelativeBodyQuery::new(CelestialBody::Moon, CelestialBody::Moon, AstrometricMode::Geometric),
        Err(Error::IdenticalEventBodies { body: CelestialBody::Moon })
    );
    assert_eq!(
        DistanceExtremumQuery::new(CelestialBody::Earth, CelestialBody::Earth, ExtremumKind::Minimum),
        Err(Error::IdenticalEventBodies { body: CelestialBody::Earth })
    );
    let distance = DistanceExtremumQuery::new(CelestialBody::Moon, CelestialBody::Earth, ExtremumKind::Maximum).unwrap();
    assert_eq!(distance.center(), CelestialBody::Earth);
    assert_eq!(distance.kind(), ExtremumKind::Maximum);
    let separation = AngularSeparationExtremumQuery::new(query, ExtremumKind::Minimum);
    assert_eq!(separation.bodies(), query);
}

#[test]
fn configuration_target_angles_are_whole_quadrants() {
    assert_eq!(ConfigurationKind::Conjunction.target_angle(), 0);
    assert_eq!(ConfigurationKind::EasternQuadrature.target_angle(), 90);
    assert_eq!(ConfigurationKind::Opposition.target_angle(), 180);
    assert_eq!(ConfigurationKind::WesternQuadrature.target_angle(), 270);
    let query = RelativeBodyQuery::new(CelestialBody::Jupiter, CelestialBody::Sun, AstrometricMode::Apparent).unwrap();
    let configuration = ConfigurationQuery::new(query, ConfigurationKind::Opposition, ConfigurationCoordinate::RightAscension);
    assert_eq!(configuration.kind(), ConfigurationKind::Opposition);
    assert_eq!(configuration.coordinate(), ConfigurationCoordinate::RightAscension);
}

#[test]
fn scan_epochs_advance_by_step_and_clip_to_the_end() {
    let step = Duration::from_nanoseconds(10);
    assert_eq!(next_scan_epoch(at(0), at(25), step), Ok(Some(at(10))));
    assert_eq!(next_scan_epoch(at(20), at(25), step), Ok(Some(at(25))));
    assert_eq!(next_scan_epoch(at(25), at(25), step), Ok(None));
    assert_eq!(next_scan_epoch(at(30), at(25), step), Ok(None));
    assert!(matches!(next_scan_epoch(at(i128::MIN), at(i128::MAX), step), Err(Error::Time(_))));
}

#[test]
fn evaluation_budget_is_charged_or_refused() {
    let mut used = 3u32;
    assert_eq!(consume_evaluations(5, &mut used, 2), Ok(()));
    assert_eq!(used, 5);
    assert_eq!(consume_evaluations(5, &mut used, 1), Err(Error::EvaluationLimitExceeded { maximum: 5 }));
    assert_eq!(used, 5);
    let mut over = 9u32;
    assert_eq!(consume_evaluations(5, &mut over, 0), Ok(()));
}

fn term_event(term: SolarTerm, instant: i128, residual: i64) -> SolarTermEvent<Tai, (), i64> {
    SolarTermEvent {
        term,
        instant: at(instant),
        apparent_sun: (),
        evidence: EventEvidence::at_sample(at(instant), residual, 1),
    }
}

fn smaller_residual(candidate: &SolarTermEvent<Tai, (), i64>, existing: &SolarTermEvent<Tai, (), i64>) -> bool {
    candidate.evidence.residual().abs() < existing.evidence.residual().abs()
}

#[test]
fn latest_duplicates_are_merged_by_residual() {
    let tolerance = Duration::from_nanoseconds(5);
    let mut events = Vec::new();
    push_unique_latest(&mut events, term_event(SolarTerm::StartOfSpring, 100, 9), tolerance, smaller_residual).unwrap();
    push_unique_latest(&mut events, term_event(SolarTerm::StartOfSpring, 103, 2), tolerance, smaller_residual).unwrap();
    assert_eq!(events.len(), 1);
    assert_eq!(events[0].instant, at(103));
    push_unique_latest(&mut events, term_event(SolarTerm::StartOfSpring, 104, 7), tolerance, smaller_residual).unwrap();
    assert_eq!(events.len(), 1);
    assert_eq!(events[0].instant, at(103));
    push_unique_latest(&mut events, term_event(SolarTerm::RainWater, 105, 7), tolerance, smaller_residual).unwrap();
    push_unique_latest(&mut events, term_event(SolarTerm::RainWater, 200, 7), tolerance, smaller_residual).unwrap();
    assert_eq!(events.len(), 3);
    let mut extreme = vec![term_event(SolarTerm::AwakeningOfInsects, i128::MIN, 1)];
    let result = push_unique_latest(&mut extreme, term_event(SolarTerm::AwakeningOfInsects, i128::MAX, 0), tolerance, smaller_residual);
    assert!(matches!(result, Err(Error::Time(_))));
    assert_eq!(extreme.len(), 1);
}

#[test]
fn global_eclipses_are_classified_by_path_and_shadow() {
    assert_eq!(
        classify_global_solar_eclipse(Some((CentralSolarEclipseCharacter::Total, true)), false, false),
        GlobalSolarEclipseKind::Hybrid
    );
    assert_eq!(
        classify_global_solar_eclipse(Some((CentralSolarEclipseCharacter::Annular, false)), true, true),
        GlobalSolarEclipseKind::Annular
    );
    assert_eq!(
        classify_global_solar_eclipse(Some((CentralSolarEclipseCharacter::Total, false)), false, false),
        GlobalSolarEclipseKind::Total
    );
    assert_eq!(classify_global_solar_eclipse(None, true, true), GlobalSolarEclipseKind::Total);
    assert_eq!(classify_global_solar_eclipse(None, false, true), GlobalSolarEclipseKind::Annular);
    assert_eq!(classify_global_solar_eclipse(None, false, false), GlobalSolarEclipseKind::Partial);
    assert!(is_non_central(GlobalSolarEclipseKind::Total, false));
    assert!(!is_non_central(GlobalSolarEclipseKind::Total, true));
    assert!(!is_non_central(GlobalSolarEclipseKind::Partial, false));
    assert_eq!(CentralSolarEclipseCharacter::from_umbral(true), CentralSolarEclipseCharacter::Total);
    assert_eq!(CentralSolarEclipseCharacter::from_umbral(false), CentralSolarEclipseCharacter::Annular);
}

#[test]
fn derivative_methods_expose_their_half_step() {
    let half = Duration::from_nanoseconds(60);
    assert_eq!(BesselianDerivativeMethod::SymmetricDifference { half_step: half }.numerical_time_step(), Some(half));
    assert_eq!(BesselianDerivativeMethod::AnalyticPolynomial.numerical_time_step(), None);
}

#[test]
fn central_phase_duration_is_third_minus_second_contact() {
    let phase = SolarEclipseCentralPhase::from_contacts(at(1_000), at(4_500)).unwrap();
    assert_eq!(phase.second_contact(), at(1_000));
    assert_eq!(phase.third_contact(), at(4_500));
    assert_eq!(phase.duration().as_nanoseconds(), 3_500);
    assert!(matches!(SolarEclipseCentralPhase::from_contacts(at(i128::MIN), at(i128::MAX)), Err(Error::Time(_))));
}

#[test]
fn solar_eclipse_model_requires_identified_figures() {
    let sun = SphericalBodyFigure::iau_2015_nominal_sun();
    let moon = SphericalBodyFigure::iau_wgccre_2015_moon();
    assert_eq!(sun.radius_millimetres(), 695_700_000_000);
    assert_eq!(moon.radius_millimetres(), 1_737_400_000);
    assert_eq!(SolarEclipseModel::new(sun, moon), Ok(SolarEclipseModel::standard()));
    assert_eq!(
        SolarEclipseModel::new(moon, moon),
        Err(Error::InvalidSolarEclipseFigure { role: "Sun", expected: CelestialBody::Sun, actual: CelestialBody::Moon })
    );
    assert_eq!(
        SolarEclipseModel::new(sun, sun),
        Err(Error::InvalidSolarEclipseFigure { role: "Moon", expected: CelestialBody::Moon, actual: CelestialBody::Sun })
    );
}
