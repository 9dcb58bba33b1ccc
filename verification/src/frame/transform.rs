use core::marker::PhantomData;
use vstd::prelude::*;

use crate::time::{Instant, TimeScale};

use super::{ensure_same_epoch, CoordinateFrame, Error, State};

verus! {

/// A source-to-target coordinate transform valid at one physical epoch.
///
/// Position components follow `r_to = R r_from + t`, where `t` is the source
/// origin relative to the target origin, expressed in the target frame.
/// Velocity components follow `v_to = R v_from + omega × (R r_from) + t_dot`.
/// The rotation `R`, angular velocity `W`, translation `T` and translation
/// rate `U` are carried unchanged; the component arithmetic is supplied by
/// the caller.
pub struct StateTransform<From: CoordinateFrame, To: CoordinateFrame, S: TimeScale, R, W, T, U> {
    epoch: Instant<S>,
    rotation: R,
    angular_velocity: W,
    translation: T,
    translation_rate: U,
    from: PhantomData<From>,
    to: PhantomData<To>,
}

impl<From: CoordinateFrame, To: CoordinateFrame, S: TimeScale, R, W, T, U> StateTransform<From, To, S, R, W, T, U> {
    /// The epoch at which the transform is valid.
    pub closed spec fn epoch_spec(&self) -> Instant<S> {
        self.epoch
    }

    /// The carried rotation components.
    pub closed spec fn rotation_spec(&self) -> R {
        self.rotation
    }

    /// The carried target-expressed angular velocity.
    pub closed spec fn angular_velocity_spec(&self) -> W {
        self.angular_velocity
    }

    /// The carried source-origin translation.
    pub closed spec fn translation_spec(&self) -> T {
        self.translation
    }

    /// The carried translation rate.
    pub closed spec fn translation_rate_spec(&self) -> U {
        self.translation_rate
    }

    /// Constructs a transform from already validated components.
    pub fn new(epoch: Instant<S>, rotation: R, angular_velocity: W, translation: T, translation_rate: U) -> (t: Self)
        ensures
            t.epoch_spec() == epoch,
            t.rotation_spec() == rotation,
            t.angular_velocity_spec() == angular_velocity,
            t.translation_spec() == translation,
            t.translation_rate_spec() == translation_rate,
    {
        StateTransform {
            epoch,
            rotation,
            angular_velocity,
            translation,
            translation_rate,
            from: PhantomData,
            to: PhantomData,
        }
    }

    /// Returns the physical epoch at which this transform is valid.
    pub fn epoch(&self) -> (t: Instant<S>)
        ensures
            t == self.epoch_spec(),
    {
        self.epoch
    }

    /// Returns the source-to-target component rotation.
    pub fn rotation(&self) -> (r: &R)
        ensures
            *r == self.rotation_spec(),
    {
        &self.rotation
    }

    /// Returns the target-expressed angular velocity of the component rotation.
    pub fn angular_velocity(&self) -> (w: &W)
        ensures
            *w == self.angular_velocity_spec(),
    {
        &self.angular_velocity
    }

    /// Returns the source origin relative to the target origin in target coordinates.
    pub fn translation(&self) -> (t: &T)
        ensures
            *t == self.translation_spec(),
    {
        &self.translation
    }

    /// Returns the physical-second derivative of the target-expressed translation.
    pub fn translation_rate(&self) -> (u: &U)
        ensures
            *u == self.translation_rate_spec(),
    {
        &self.translation_rate
    }

    /// Applies the full six-dimensional transform to a state at the same epoch.
    ///
    /// `apply` maps the source position and velocity to target components; it
    /// is called only when the state belongs to the transform's epoch, and the
    /// transformed state keeps that epoch.
    pub fn apply_state<P, V, P2, V2, F: FnOnce(P, V) -> (P2, V2)>(
        &self,
        state: State<From, S, P, V>,
        apply: F,
    ) -> (r: Result<State<To, S, P2, V2>, Error>)
        requires
            apply.requires((state.position_spec(), state.velocity_spec())),
        ensures
            r is Ok <==> self.epoch_spec()@ == state.epoch_spec()@,
            r matches Ok(s) ==> s.epoch_spec() == state.epoch_spec() && apply.ensures(
                (state.position_spec(), state.velocity_spec()),
                (s.position_spec(), s.velocity_spec()),
            ),
            r matches Err(e) ==> e == (Error::EpochMismatch {
                transform_tai_nanoseconds: self.epoch_spec()@ as i128,
                value_tai_nanoseconds: state.epoch_spec()@ as i128,
            }),
    {
        match ensure_same_epoch(self.epoch, state.epoch()) {
            Ok(()) => {
                let (position, velocity, epoch) = state.into_parts();
                let (p, v) = apply(position, velocity);
                Ok(State::new(p, v, epoch))
            },
            Err(e) => Err(e),
        }
    }

    /// Returns the target-to-source transform at the same physical epoch.
    ///
    /// `invert` computes the inverse components from this transform's components.
    pub fn inverse<R2, W2, T2, U2, F: FnOnce(R, W, T, U) -> (R2, W2, T2, U2)>(self, invert: F) -> (r: StateTransform<
        To,
        From,
        S,
        R2,
        W2,
        T2,
        U2,
    >)
        requires
            invert.requires(
                (self.rotation_spec(), self.angular_velocity_spec(), self.translation_spec(), self.translation_rate_spec()),
            ),
        ensures
            r.epoch_spec() == self.epoch_spec(),
            invert.ensures(
                (self.rotation_spec(), self.angular_velocity_spec(), self.translation_spec(), self.translation_rate_spec()),
                (r.rotation_spec(), r.angular_velocity_spec(), r.translation_spec(), r.translation_rate_spec()),
            ),
    {
        let (rotation, angular_velocity, translation, translation_rate) = invert(
            self.rotation,
            self.angular_velocity,
            self.translation,
            self.translation_rate,
        );
        StateTransform {
            epoch: self.epoch,
            rotation,
            angular_velocity,
            translation,
            translation_rate,
            from: PhantomData,
            to: PhantomData,
        }
    }
    /// Composes this transform with a following transform at the same epoch.
    ///
    /// `compose` combines both transforms' components; it is called only when
    /// both belong to the same physical epoch.
    pub fn then<Next: CoordinateFrame, R2, W2, T2, U2, R3, W3, T3, U3, F: FnOnce((R, W, T, U), (R2, W2, T2, U2)) -> (
        R3,
        W3,
        T3,
        U3,
    )>(self, next: StateTransform<To, Next, S, R2, W2, T2, U2>, compose: F) -> (r: Result<
        StateTransform<From, Next, S, R3, W3, T3, U3>,
        Error,
    >)
        requires
            compose.requires(
                (
                    (self.rotation_spec(), self.angular_velocity_spec(), self.translation_spec(), self.translation_rate_spec()),
                    (next.rotation_spec(), next.angular_velocity_spec(), next.translation_spec(), next.translation_rate_spec()),
                ),
            ),
        ensures
            r is Ok <==> self.epoch_spec()@ == next.epoch_spec()@,
            r matches Ok(c) ==> c.epoch_spec() == self.epoch_spec() && compose.ensures(
                (
                    (self.rotation_spec(), self.angular_velocity_spec(), self.translation_spec(), self.translation_rate_spec()),
                    (next.rotation_spec(), next.angular_velocity_spec(), next.translation_spec(), next.translation_rate_spec()),
                ),
                (c.rotation_spec(), c.angular_velocity_spec(), c.translation_spec(), c.translation_rate_spec()),
            ),
            r matches Err(e) ==> e == (Error::EpochMismatch {
                transform_tai_nanoseconds: self.epoch_spec()@ as i128,
                value_tai_nanoseconds: next.epoch_spec()@ as i128,
            }),
    {
        match ensure_same_epoch(self.epoch, next.epoch) {
            Ok(()) => {
                let (rotation, angular_velocity, translation, translation_rate) = compose(
                    (self.rotation, self.angular_velocity, self.translation, self.translation_rate),
                    (next.rotation, next.angular_velocity, next.translation, next.translation_rate),
                );
                Ok(StateTransform {
                    epoch: self.epoch,
                    rotation,
                    angular_velocity,
                    translation,
                    translation_rate,
                    from: PhantomData,
                    to: PhantomData,
                })
            },
            Err(e) => Err(e),
        }
    }
}

} // verus!
