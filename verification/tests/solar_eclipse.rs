use astrokit::ephem::CelestialBody;
use astrokit::event::SolarEclipseModel;

#[test]
fn standard_model_retains_authoritative_spherical_figures() {
    let model = SolarEclipseModel::standard();
    assert_eq!(model.sun().body(), CelestialBody::Sun);
    assert_eq!(model.moon().body(), CelestialBody::Moon);
}
