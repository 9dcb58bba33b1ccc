use astrokit::frame::{
    ensure_same_epoch, Axes, Cirs, CoordinateFrame, EarthCenter, Equinox, Error, FrameRotation, Gcrs,
    Handedness, Icrs, Itrs, Origin, OriginId, ReferenceEpoch, ReferenceSystemId,
    SolarSystemBarycenter, State, StateTransform, Tirs,
};
use astrokit::time::{Instant, Tai};

#[test]
fn frame_definitions_name_system_origin_and_axes() {
    let icrs = Icrs::definition();
    assert_eq!(icrs.name(), "ICRS");
    assert_eq!(icrs.system(), ReferenceSystemId::Icrs);
    assert_eq!(icrs.origin(), OriginId::NotApplicable);
    assert_eq!(icrs.axes(), Axes::IcrsAligned);
    assert_eq!(icrs.handedness(), Handedness::Right);
    assert_eq!(icrs.reference_epoch(), ReferenceEpoch::NotApplicable);
    assert_eq!(icrs.equinox(), Equinox::NotApplicable);
    let cirs = Cirs::definition();
    assert_eq!(cirs.origin(), OriginId::EarthCenter);
    assert_eq!(cirs.reference_epoch(), ReferenceEpoch::OfDate);
    assert_eq!(Tirs::definition().axes(), Axes::TerrestrialIntermediate);
    assert_eq!(Itrs::definition().axes(), Axes::Terrestrial);
    assert_eq!(Gcrs::definition().system(), ReferenceSystemId::Gcrs);
}

#[test]
fn origins_have_stable_identities() {
    assert_eq!(SolarSystemBarycenter::id(), OriginId::SolarSystemBarycenter);
    assert_eq!(EarthCenter::id(), OriginId::EarthCenter);
    assert_eq!(EarthCenter::name(), "Earth centre");
}

#[test]
fn epochs_must_match_exactly() {
    let a = Instant::<Tai>::from_tai_nanoseconds_since_1900(5);
    let b = Instant::<Tai>::from_tai_nanoseconds_since_1900(6);
    assert_eq!(ensure_same_epoch(a, a), Ok(()));
    assert_eq!(
        ensure_same_epoch(a, b),
        Err(Error::EpochMismatch { transform_tai_nanoseconds: 5, value_tai_nanoseconds: 6 })
    );
}

fn negate(angle: i64) -> i64 {
    -angle
}

fn combine(first: i64, second: i64) -> i64 {
    first + second
}

#[test]
fn rotations_invert_and_compose_only_at_one_epoch() {
    let epoch = Instant::<Tai>::from_tai_nanoseconds_since_1900(100);
    let forward: FrameRotation<Gcrs, Cirs, Tai, i64> = FrameRotation::new(epoch, 30);
    assert_eq!(forward.epoch(), epoch);
    assert_eq!(*forward.rotation(), 30);
    let backward = FrameRotation::<Gcrs, Cirs, Tai, i64>::new(epoch, 30).inverse(negate);
    assert_eq!(backward.epoch(), epoch);
    assert_eq!(*backward.rotation(), -30);

    let next: FrameRotation<Cirs, Tirs, Tai, i64> = FrameRotation::new(epoch, 12);
    let composed = forward.then(next, combine).unwrap();
    assert_eq!(*composed.rotation(), 42);
    assert_eq!(composed.epoch(), epoch);

    let other = Instant::<Tai>::from_tai_nanoseconds_since_1900(101);
    let first: FrameRotation<Gcrs, Cirs, Tai, i64> = FrameRotation::new(epoch, 30);
    let late: FrameRotation<Cirs, Tirs, Tai, i64> = FrameRotation::new(other, 12);
    assert!(matches!(
        first.then(late, combine),
        Err(Error::EpochMismatch { transform_tai_nanoseconds: 100, value_tai_nanoseconds: 101 })
    ));
}

#[test]
fn state_retains_position_velocity_and_epoch() {
    let epoch = Instant::<Tai>::from_tai_nanoseconds_since_1900(7);
    let state: State<Icrs, Tai, [i32; 3], [i32; 3]> = State::new([1, 2, 3], [4, 5, 6], epoch);
    assert_eq!(*state.position(), [1, 2, 3]);
    assert_eq!(*state.velocity(), [4, 5, 6]);
    assert_eq!(state.epoch(), epoch);
    assert_eq!(state.into_parts(), ([1, 2, 3], [4, 5, 6], epoch));
}

fn shift(position: i64, velocity: i64) -> (i64, i64) {
    (position + 100, velocity + 1)
}

fn flip(rotation: i64, angular: i64, translation: i64, rate: i64) -> (i64, i64, i64, i64) {
    (-rotation, -angular, -translation, -rate)
}

fn chain(first: (i64, i64, i64, i64), second: (i64, i64, i64, i64)) -> (i64, i64, i64, i64) {
    (first.0 + second.0, first.1 + second.1, first.2 + second.2, first.3 + second.3)
}

#[test]
fn state_transforms_apply_only_at_their_epoch() {
    let epoch = Instant::<Tai>::from_tai_nanoseconds_since_1900(500);
    let transform: StateTransform<Gcrs, Itrs, Tai, i64, i64, i64, i64> = StateTransform::new(epoch, 1, 2, 3, 4);
    assert_eq!(transform.epoch(), epoch);
    assert_eq!(*transform.rotation(), 1);
    assert_eq!(*transform.angular_velocity(), 2);
    assert_eq!(*transform.translation(), 3);
    assert_eq!(*transform.translation_rate(), 4);

    let state: State<Gcrs, Tai, i64, i64> = State::new(7, 8, epoch);
    let moved = transform.apply_state(state, shift).unwrap();
    assert_eq!(*moved.position(), 107);
    assert_eq!(*moved.velocity(), 9);
    assert_eq!(moved.epoch(), epoch);

    let stale: State<Gcrs, Tai, i64, i64> = State::new(7, 8, Instant::from_tai_nanoseconds_since_1900(499));
    assert!(matches!(
        transform.apply_state(stale, shift),
        Err(Error::EpochMismatch { transform_tai_nanoseconds: 500, value_tai_nanoseconds: 499 })
    ));

    let inverse = StateTransform::<Gcrs, Itrs, Tai, i64, i64, i64, i64>::new(epoch, 1, 2, 3, 4).inverse(flip);
    assert_eq!(*inverse.translation(), -3);
    assert_eq!(inverse.epoch(), epoch);

    let next: StateTransform<Itrs, Cirs, Tai, i64, i64, i64, i64> = StateTransform::new(epoch, 10, 20, 30, 40);
    let composed = transform.then(next, chain).unwrap();
    assert_eq!(*composed.translation_rate(), 44);
    let late: StateTransform<Itrs, Cirs, Tai, i64, i64, i64, i64> =
        StateTransform::new(Instant::from_tai_nanoseconds_since_1900(501), 10, 20, 30, 40);
    let again: StateTransform<Gcrs, Itrs, Tai, i64, i64, i64, i64> = StateTransform::new(epoch, 1, 2, 3, 4);
    assert!(again.then(late, chain).is_err());
}
