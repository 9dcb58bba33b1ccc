use astrokit::ephem::{CelestialBody, SphericalBodyFigure};
use astrokit::event::{
    central_path_interval, ensure_within_validity, LunarEclipseModel, LunarShadowConvention,
    classify_local_solar_eclipse, classify_lunar_eclipse, cycles_from_boundaries, path_sample_instants,
    CycleBoundary, CycleEvidence, CycleModel, CycleStatistics, Error, GlobalSolarEclipsePathOptions,
    LocalSolarEclipseKind, LunarEclipseKind, LunarEclipsePhaseInterval, MeasuredCycle, SynodicMonth,
};
use astrokit::time::{Duration, Instant, Tai, TimeInterval, NANOSECONDS_PER_SECOND};

fn at(n: i128) -> Instant<Tai> {
    Instant::from_tai_nanoseconds_since_1900(n)
}

fn seconds(n: i128) -> i128 {
    n * NANOSECONDS_PER_SECOND
}

#[test]
fn path_samples_cover_steps_greatest_and_reference_once_each() {
    let options = GlobalSolarEclipsePathOptions::new(
        Duration::from_nanoseconds(seconds(120)),
        Duration::from_nanoseconds(1_000_000),
        64,
    )
    .unwrap();
    let interval = TimeInterval::new(at(0), at(seconds(500))).unwrap();
    let samples = path_sample_instants(options, interval, at(seconds(300)), at(seconds(250))).unwrap();
    let values: Vec<i128> = samples.iter().map(|t| t.tai_nanoseconds_since_1900()).collect();
    assert_eq!(values, vec![seconds(120), seconds(240), seconds(250), seconds(300), seconds(360), seconds(480)]);

    let duplicate = path_sample_instants(options, interval, at(seconds(240)), at(seconds(900))).unwrap();
    let values: Vec<i128> = duplicate.iter().map(|t| t.tai_nanoseconds_since_1900()).collect();
    assert_eq!(values, vec![seconds(120), seconds(240), seconds(360), seconds(480)]);

    let short = TimeInterval::new(at(0), at(seconds(60))).unwrap();
    let only_greatest = path_sample_instants(options, short, at(seconds(60)), at(-1)).unwrap();
    assert_eq!(only_greatest, vec![at(seconds(60))]);

    let edge = TimeInterval::new(at(i128::MAX - seconds(100)), at(i128::MAX)).unwrap();
    assert!(matches!(path_sample_instants(options, edge, at(0), at(0)), Err(Error::Time(_))));
}

#[test]
fn interval_membership_is_inclusive() {
    let interval = TimeInterval::new(at(10), at(20)).unwrap();
    assert!(interval.contains(at(10)));
    assert!(interval.contains(at(20)));
    assert!(!interval.contains(at(21)));
    assert!(!interval.contains(at(9)));
}

#[test]
fn lunar_phases_from_contacts() {
    let total = LunarEclipsePhaseInterval::from_contacts(LunarEclipseKind::Total, at(5), at(9)).unwrap();
    assert_eq!(total.kind(), LunarEclipseKind::Total);
    assert_eq!(total.interval().start(), at(5));
    assert!(matches!(
        LunarEclipsePhaseInterval::from_contacts(LunarEclipseKind::Total, at(9), at(5)),
        Err(Error::Time(_))
    ));
    assert_eq!(LunarEclipsePhaseInterval::from_optional_contacts(LunarEclipseKind::Partial, Some(at(1)), None), Ok(None));
    assert_eq!(LunarEclipsePhaseInterval::from_optional_contacts(LunarEclipseKind::Partial, None, Some(at(1))), Ok(None));
    let partial = LunarEclipsePhaseInterval::from_optional_contacts(LunarEclipseKind::Partial, Some(at(1)), Some(at(4)));
    assert_eq!(partial.unwrap().unwrap().interval().end(), at(4));
}

#[test]
fn eclipse_classification_follows_shadow_contacts() {
    assert_eq!(classify_lunar_eclipse(false, true, true), None);
    assert_eq!(classify_lunar_eclipse(true, false, false), Some(LunarEclipseKind::Penumbral));
    assert_eq!(classify_lunar_eclipse(true, true, false), Some(LunarEclipseKind::Partial));
    assert_eq!(classify_lunar_eclipse(true, true, true), Some(LunarEclipseKind::Total));
    assert_eq!(classify_local_solar_eclipse(false, true, true), None);
    assert_eq!(classify_local_solar_eclipse(true, false, true), Some(LocalSolarEclipseKind::Partial));
    assert_eq!(classify_local_solar_eclipse(true, true, true), Some(LocalSolarEclipseKind::Annular));
    assert_eq!(classify_local_solar_eclipse(true, true, false), Some(LocalSolarEclipseKind::Total));
}

fn boundary(instant: i128) -> CycleBoundary<Tai, (), i64> {
    CycleBoundary::new(at(instant), (), CycleEvidence::new(at(instant), at(instant), Duration::zero(), 0, 0, 1))
}

#[test]
fn statistics_from_measured_cycles() {
    let boundaries = vec![boundary(0), boundary(30), boundary(57), boundary(90)];
    let model = CycleModel::new("new Moon", "true ecliptic of date", ());
    let cycles: Vec<MeasuredCycle<SynodicMonth, Tai, (), i64, ()>> = cycles_from_boundaries(&boundaries, model).unwrap();
    let stats = CycleStatistics::from_cycles(&cycles, Duration::from_nanoseconds(30), Duration::from_nanoseconds(2)).unwrap();
    assert_eq!(stats.count(), 3);
    assert_eq!(stats.minimum().as_nanoseconds(), 27);
    assert_eq!(stats.maximum().as_nanoseconds(), 33);
    let none: Vec<MeasuredCycle<SynodicMonth, Tai, (), i64, ()>> = Vec::new();
    assert_eq!(
        CycleStatistics::from_cycles(&none, Duration::zero(), Duration::zero()),
        Err(Error::EmptyCycleSample)
    );
}

#[test]
fn besselian_polynomial_half_span_is_validated() {
    let elements = astrokit::event::BesselianElementsOptions::new("NASA k1/k2", 3u8);
    assert_eq!(elements.limb_model(), "NASA k1/k2");
    assert_eq!(elements.light_time(), 3);
    let six_hour = astrokit::event::BesselianPolynomialOptions::nasa_six_hour(elements);
    assert_eq!(six_hour.validity_half_span().as_nanoseconds(), seconds(3 * 3_600));
    assert_eq!(six_hour.elements(), elements);
    let physical = astrokit::event::BesselianPolynomialOptions::physical_six_hour(7u8);
    assert_eq!(physical.validity_half_span().as_nanoseconds(), seconds(3 * 3_600));
    let longest = astrokit::event::BesselianPolynomialOptions::new(9u8, Duration::from_nanoseconds(seconds(6 * 3_600)));
    assert!(longest.is_ok());
    assert_eq!(
        astrokit::event::BesselianPolynomialOptions::new(9u8, Duration::from_nanoseconds(seconds(6 * 3_600) + 1)),
        Err(Error::InvalidSearchDuration {
            field: "Besselian polynomial validity half-span",
            nanoseconds: seconds(6 * 3_600) + 1,
            maximum_nanoseconds: seconds(6 * 3_600),
        })
    );
    assert!(astrokit::event::BesselianPolynomialOptions::new(9u8, Duration::zero()).is_err());
    let lunar = astrokit::event::LunarEclipseSearchOptions::standard(1.0e-11_f64, (), 'm');
    assert_eq!(lunar.model(), 'm');
    assert_eq!(lunar.angular_search().max_refinement_iterations(), 64);
}

#[test]
fn path_inputs_are_checked_in_order() {
    let validity = TimeInterval::new(at(0), at(1_000)).unwrap();
    assert_eq!(ensure_within_validity(validity, at(1_000)), Ok(()));
    assert_eq!(
        ensure_within_validity(validity, at(1_001)),
        Err(Error::BesselianPolynomialOutsideValidity {
            epoch_tai_nanoseconds: 1_001,
            start_tai_nanoseconds: 0,
            end_tai_nanoseconds: 1_000,
        })
    );
    let ok = central_path_interval(true, true, true, at(500), at(500), validity, at(100), at(900)).unwrap();
    assert_eq!((ok.start(), ok.end()), (at(100), at(900)));
    assert_eq!(
        central_path_interval(false, false, false, at(500), at(1), validity, at(100), at(900)),
        Err(Error::SolarEclipseHasNoCentralPath)
    );
    assert_eq!(
        central_path_interval(true, false, false, at(500), at(1), validity, at(100), at(900)),
        Err(Error::BesselianPathEarthMismatch)
    );
    assert_eq!(
        central_path_interval(true, true, false, at(500), at(1), validity, at(100), at(900)),
        Err(Error::BesselianPathEphemerisMismatch)
    );
    assert_eq!(
        central_path_interval(true, true, true, at(500), at(1), validity, at(100), at(900)),
        Err(Error::BesselianPathDeltaTEpochMismatch { expected_tai_nanoseconds: 500, actual_tai_nanoseconds: 1 })
    );
    assert!(matches!(
        central_path_interval(true, true, true, at(500), at(500), validity, at(900), at(100)),
        Err(Error::Time(_))
    ));
    assert_eq!(
        central_path_interval(true, true, true, at(500), at(500), validity, at(100), at(1_200)),
        Err(Error::BesselianPathValidityTooShort {
            validity_start_tai_nanoseconds: 0,
            validity_end_tai_nanoseconds: 1_000,
            path_start_tai_nanoseconds: 100,
            path_end_tai_nanoseconds: 1_200,
        })
    );
}

#[test]
fn lunar_eclipse_model_requires_identified_figures() {
    let model = LunarEclipseModel::standard();
    let sun = SphericalBodyFigure::iau_2015_nominal_sun();
    let moon = SphericalBodyFigure::iau_wgccre_2015_moon();
    assert_eq!(LunarEclipseModel::new(sun, moon, LunarShadowConvention::danjon()), Ok(model));
    assert_eq!(
        LunarEclipseModel::new(moon, moon, LunarShadowConvention::danjon()),
        Err(Error::InvalidLunarEclipseFigure { role: "Sun", expected: CelestialBody::Sun, actual: CelestialBody::Moon })
    );
    assert_eq!(
        LunarEclipseModel::new(sun, sun, LunarShadowConvention::danjon()),
        Err(Error::InvalidLunarEclipseFigure { role: "Moon", expected: CelestialBody::Moon, actual: CelestialBody::Sun })
    );
}

#[test]
fn standard_model_names_nasa_catalog_shadow_convention() {
    let model = LunarEclipseModel::standard();
    assert_eq!(model.sun().body(), CelestialBody::Sun);
    assert_eq!(model.moon().body(), CelestialBody::Moon);
    assert_eq!(model.shadow(), LunarShadowConvention::danjon());
    assert_eq!(model.shadow().earth_parallax_scale_millionths() as f64 / 1_000_000.0, 1.01);
    assert_eq!(model.shadow().shadow_radius_scale_millionths() as f64 / 1_000_000.0, 1.0);
}

#[test]
fn shadow_conventions_keep_their_exact_scales() {
    let geometric = LunarShadowConvention::geometric();
    assert_eq!(geometric.identifier(), "geometric spherical Earth shadow");
    assert_eq!(geometric.earth_parallax_scale_millionths(), 1_000_000);
    assert_eq!(geometric.shadow_radius_scale_millionths(), 1_000_000);
    let chauvenet = LunarShadowConvention::chauvenet();
    assert_eq!(chauvenet.identifier(), "Chauvenet 0.998340 parallax and 1.02 shadow scale");
    assert_eq!(chauvenet.earth_parallax_scale_millionths(), 998_340);
    assert_eq!(chauvenet.shadow_radius_scale_millionths(), 1_020_000);
    assert_eq!(LunarShadowConvention::danjon().identifier(), "Danjon 1.01 effective Earth parallax");
}
