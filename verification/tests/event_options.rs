use astrokit::event::{
    angular_max_scan_step, horizon_max_scan_step, AngularEventSearchOptions, Error,
    ExtremumSearchOptions, GlobalSolarEclipsePathOptions, HorizonSearchOptions,
};
use astrokit::time::{Duration, NANOSECONDS_PER_DAY, NANOSECONDS_PER_SECOND};

fn ns(n: i128) -> Duration {
    Duration::from_nanoseconds(n)
}

#[test]
fn angular_standard_controls_are_accepted_by_validation() {
    let standard = AngularEventSearchOptions::standard(1.0e-11_f64, ());
    assert_eq!(standard.scan_step().as_nanoseconds(), 7 * NANOSECONDS_PER_DAY);
    assert_eq!(standard.time_tolerance().as_nanoseconds(), 1_000_000);
    assert_eq!(standard.max_refinement_iterations(), 64);
    assert_eq!(standard.max_evaluations(), 4096);
    assert_eq!(*standard.angular_tolerance(), 1.0e-11);
    let rebuilt = AngularEventSearchOptions::new(
        standard.scan_step(),
        standard.time_tolerance(),
        1.0e-11_f64,
        true,
        64,
        4096,
        (),
    )
    .unwrap();
    assert_eq!(rebuilt, standard);
    assert_eq!(angular_max_scan_step().as_nanoseconds(), 7 * NANOSECONDS_PER_DAY);
}

#[test]
fn angular_validation_reports_the_first_violation_in_order() {
    let too_long = AngularEventSearchOptions::new(ns(7 * NANOSECONDS_PER_DAY + 1), ns(0), 0u8, false, 0, 0, ());
    assert_eq!(
        too_long,
        Err(Error::InvalidSearchDuration {
            field: "angular-event scan step",
            nanoseconds: 7 * NANOSECONDS_PER_DAY + 1,
            maximum_nanoseconds: 7 * NANOSECONDS_PER_DAY,
        })
    );
    let tolerance = AngularEventSearchOptions::new(ns(1_000), ns(1_001), 0u8, false, 0, 0, ());
    assert_eq!(
        tolerance,
        Err(Error::InvalidSearchDuration {
            field: "angular-event time tolerance",
            nanoseconds: 1_001,
            maximum_nanoseconds: 1_000,
        })
    );
    let angle = AngularEventSearchOptions::new(ns(1_000), ns(1_000), 0u8, false, 0, 0, ());
    assert_eq!(angle, Err(Error::InvalidAngularTolerance { field: "angular-event tolerance" }));
    let iterations = AngularEventSearchOptions::new(ns(1_000), ns(1), 0u8, true, 0, 0, ());
    assert_eq!(
        iterations,
        Err(Error::InvalidSearchLimit { field: "angular-event refinement iterations", value: 0 })
    );
    let evaluations = AngularEventSearchOptions::new(ns(1_000), ns(1), 0u8, true, 3, 0, ());
    assert_eq!(evaluations, Err(Error::InvalidSearchLimit { field: "angular-event evaluations", value: 0 }));
    assert!(AngularEventSearchOptions::new(ns(1_000), ns(1), 0u8, true, 3, 9, ()).is_ok());
    assert!(AngularEventSearchOptions::new(ns(0), ns(1), 0u8, true, 3, 9, ()).is_err());
}

#[test]
fn extremum_standard_controls_and_validation() {
    let standard = ExtremumSearchOptions::standard(7u8);
    assert_eq!(standard.scan_step().as_nanoseconds(), 7 * NANOSECONDS_PER_DAY);
    assert_eq!(standard.time_tolerance().as_nanoseconds(), 1_000_000);
    assert_eq!(standard.max_refinement_iterations(), 64);
    assert_eq!(standard.max_evaluations(), 4096);
    assert_eq!(*standard.light_time(), 7);
    assert_eq!(
        ExtremumSearchOptions::new(ns(10), ns(20), 1, 1, ()),
        Err(Error::InvalidSearchDuration { field: "extremum time tolerance", nanoseconds: 20, maximum_nanoseconds: 10 })
    );
    assert_eq!(
        ExtremumSearchOptions::new(ns(10), ns(5), 1, 0, ()),
        Err(Error::InvalidSearchLimit { field: "extremum evaluations", value: 0 })
    );
    assert!(ExtremumSearchOptions::new(ns(10), ns(10), 1, 1, ()).is_ok());
}

#[test]
fn horizon_standard_controls_and_validation() {
    let standard = HorizonSearchOptions::standard(1.0e-9_f64, ());
    assert_eq!(standard.scan_step().as_nanoseconds(), 3_600 * NANOSECONDS_PER_SECOND);
    assert_eq!(standard.max_evaluations(), 8192);
    assert_eq!(horizon_max_scan_step().as_nanoseconds(), 6 * 3_600 * NANOSECONDS_PER_SECOND);
    let too_long = HorizonSearchOptions::new(ns(6 * 3_600 * NANOSECONDS_PER_SECOND + 1), ns(1), 0u8, true, 1, 1, ());
    assert_eq!(
        too_long,
        Err(Error::InvalidSearchDuration {
            field: "horizon-event scan step",
            nanoseconds: 6 * 3_600 * NANOSECONDS_PER_SECOND + 1,
            maximum_nanoseconds: 6 * 3_600 * NANOSECONDS_PER_SECOND,
        })
    );
    assert_eq!(
        HorizonSearchOptions::new(ns(10), ns(1), 0u8, false, 1, 1, ()),
        Err(Error::InvalidAngularTolerance { field: "horizon-event angular tolerance" })
    );
}

#[test]
fn path_options_enforce_sample_step_tolerance_and_iterations() {
    let standard = GlobalSolarEclipsePathOptions::standard();
    assert_eq!(standard.sample_step().as_nanoseconds(), 120 * NANOSECONDS_PER_SECOND);
    assert_eq!(standard.contact_time_tolerance().as_nanoseconds(), 1_000_000);
    assert_eq!(standard.max_contact_iterations(), 64);
    assert_eq!(GlobalSolarEclipsePathOptions::default(), standard);
    assert_eq!(
        GlobalSolarEclipsePathOptions::new(standard.sample_step(), standard.contact_time_tolerance(), 64),
        Ok(standard)
    );
    assert_eq!(GlobalSolarEclipsePathOptions::min_sample_step().as_nanoseconds(), NANOSECONDS_PER_SECOND);
    assert_eq!(GlobalSolarEclipsePathOptions::max_sample_step().as_nanoseconds(), 1_800 * NANOSECONDS_PER_SECOND);
    assert_eq!(GlobalSolarEclipsePathOptions::max_contact_time_tolerance().as_nanoseconds(), NANOSECONDS_PER_SECOND);
    assert_eq!(
        GlobalSolarEclipsePathOptions::new(ns(NANOSECONDS_PER_SECOND - 1), ns(1), 1),
        Err(Error::InvalidBesselianPathSampleStep {
            nanoseconds: NANOSECONDS_PER_SECOND - 1,
            minimum_nanoseconds: NANOSECONDS_PER_SECOND,
            maximum_nanoseconds: 1_800 * NANOSECONDS_PER_SECOND,
        })
    );
    assert!(GlobalSolarEclipsePathOptions::new(ns(1_800 * NANOSECONDS_PER_SECOND + 1), ns(1), 1).is_err());
    assert_eq!(
        GlobalSolarEclipsePathOptions::new(ns(NANOSECONDS_PER_SECOND), ns(0), 1),
        Err(Error::InvalidSearchDuration {
            field: "solar-eclipse central-contact time tolerance",
            nanoseconds: 0,
            maximum_nanoseconds: NANOSECONDS_PER_SECOND,
        })
    );
    assert_eq!(
        GlobalSolarEclipsePathOptions::new(ns(NANOSECONDS_PER_SECOND), ns(NANOSECONDS_PER_SECOND), 0),
        Err(Error::InvalidSearchLimit { field: "solar-eclipse central-contact iterations", value: 0 })
    );
    assert!(GlobalSolarEclipsePathOptions::new(ns(NANOSECONDS_PER_SECOND), ns(NANOSECONDS_PER_SECOND), 1).is_ok());
}
