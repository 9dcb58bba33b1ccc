use core::marker::PhantomData;
use vstd::prelude::*;

use crate::time::{Instant, TimeScale};

use super::CoordinateFrame;

verus! {

/// Position and velocity in one complete coordinate frame at one physical epoch.
///
/// The position `P` and velocity `V` components are carried unchanged.
pub struct State<F: CoordinateFrame, S: TimeScale, P, V> {
    position: P,
    velocity: V,
    epoch: Instant<S>,
    frame: PhantomData<F>,
}

impl<F: CoordinateFrame, S: TimeScale, P, V> State<F, S, P, V> {
    /// The stored position.
    pub closed spec fn position_spec(&self) -> P {
        self.position
    }

    /// The stored velocity.
    pub closed spec fn velocity_spec(&self) -> V {
        self.velocity
    }

    /// The stored physical epoch.
    pub closed spec fn epoch_spec(&self) -> Instant<S> {
        self.epoch
    }

    /// Constructs a state from a position, velocity, and typed physical epoch.
    pub fn new(position: P, velocity: V, epoch: Instant<S>) -> (s: Self)
        ensures
            s.position_spec() == position,
            s.velocity_spec() == velocity,
            s.epoch_spec() == epoch,
    {
        State { position, velocity, epoch, frame: PhantomData }
    }

    /// Returns the state position.
    pub fn position(&self) -> (p: &P)
        ensures
            *p == self.position_spec(),
    {
        &self.position
    }

    /// Returns the state velocity.
    pub fn velocity(&self) -> (v: &V)
        ensures
            *v == self.velocity_spec(),
    {
        &self.velocity
    }

    /// Returns the physical epoch.
    pub fn epoch(&self) -> (t: Instant<S>)
        ensures
            t == self.epoch_spec(),
    {
        self.epoch
    }

    /// Decomposes the state into position, velocity, and epoch.
    pub fn into_parts(self) -> (r: (P, V, Instant<S>))
        ensures
            r == (self.position_spec(), self.velocity_spec(), self.epoch_spec()),
    {
        (self.position, self.velocity, self.epoch)
    }
}

} // verus!
