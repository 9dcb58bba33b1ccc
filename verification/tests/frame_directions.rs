use astrokit::event::{
    BesselianFundamentalPlane, SolarEclipseContactKind, SolarEclipseEarthAttitudeProvenance,
    SolarEclipseModel, SolarEclipseSearchOptions,
};
use astrokit::frame::{EquatorialDirection, EquatorialDirectionAt, Gcrs};
use astrokit::time::{Instant, Tt};

#[test]
fn equatorial_directions_carry_coordinates_and_epoch() {
    let direction: EquatorialDirection<Gcrs, f64, f64> = EquatorialDirection::new(1.25, -0.5);
    assert_eq!(direction.right_ascension(), 1.25);
    assert_eq!(direction.declination(), -0.5);
    let epoch = Instant::<Tt>::from_tai_nanoseconds_since_1900(42);
    let located = EquatorialDirectionAt::new(epoch, direction);
    assert_eq!(located.epoch(), epoch);
    assert_eq!(located.coordinates().right_ascension(), 1.25);
    let (t, c) = located.into_parts();
    assert_eq!(t, epoch);
    assert_eq!(c.declination(), -0.5);
    let plane = BesselianFundamentalPlane::new(located);
    assert_eq!(plane.epoch(), epoch);
    assert_eq!(plane.shadow_axis().coordinates().declination(), -0.5);
}

#[test]
fn solar_eclipse_contacts_and_provenance() {
    assert!(!SolarEclipseContactKind::First.is_internal());
    assert!(SolarEclipseContactKind::Second.is_internal());
    assert!(SolarEclipseContactKind::Third.is_internal());
    assert_eq!(SolarEclipseContactKind::Fourth.description(), "local solar-eclipse fourth contact");
    let provenance = SolarEclipseEarthAttitudeProvenance::new(
        String::from("IERS Bulletin A"),
        true,
        Some(String::from("Espenak-Meeus")),
        Some(3u8),
        None,
        None,
    );
    assert_eq!(provenance.source(), "IERS Bulletin A");
    assert!(provenance.is_predicted());
    assert_eq!(provenance.delta_t_model(), Some("Espenak-Meeus"));
    assert_eq!(provenance.delta_t_disposition(), Some(3));
    assert_eq!(provenance.offset_model(), None);
    assert_eq!(provenance.offset_disposition(), None);
    let options = SolarEclipseSearchOptions::standard(1.0e-11_f64, ());
    assert_eq!(options.model(), SolarEclipseModel::standard());
    assert_eq!(options.angular_search().max_evaluations(), 4096);
}
