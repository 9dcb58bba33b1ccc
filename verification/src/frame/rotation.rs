use core::marker::PhantomData;
use vstd::prelude::*;

use crate::time::{Instant, TimeScale};

use super::{CoordinateFrame, Error};

verus! {

/// Checks that a value belongs to the same physical epoch as a frame operation.
///
/// Succeeds exactly when both instants carry the same TAI nanosecond count;
/// otherwise reports both epochs.
pub fn ensure_same_epoch<S: TimeScale>(operation: Instant<S>, value: Instant<S>) -> (r: Result<(), Error>)
    ensures
        r is Ok <==> operation@ == value@,
        r is Err ==> r == Err::<(), Error>(Error::EpochMismatch {
            transform_tai_nanoseconds: operation@ as i128,
            value_tai_nanoseconds: value@ as i128,
        }),
{
    let operation_tai_nanoseconds = operation.tai_nanoseconds_since_1900();
    let value_tai_nanoseconds = value.tai_nanoseconds_since_1900();
    if operation_tai_nanoseconds == value_tai_nanoseconds {
        Ok(())
    } else {
        Err(Error::epoch_mismatch(operation_tai_nanoseconds, value_tai_nanoseconds))
    }
}

/// A source-to-target component rotation valid at one physical epoch.
///
/// The rotation components `R` are carried unchanged; composition and
/// inversion of the components are supplied by the caller.
pub struct FrameRotation<From: CoordinateFrame, To: CoordinateFrame, S: TimeScale, R> {
    epoch: Instant<S>,
    rotation: R,
    from: PhantomData<From>,
    to: PhantomData<To>,
}

impl<From: CoordinateFrame, To: CoordinateFrame, S: TimeScale, R> FrameRotation<From, To, S, R> {
    /// The epoch at which the rotation is valid.
    pub closed spec fn epoch_spec(&self) -> Instant<S> {
        self.epoch
    }

    /// The carried rotation components.
    pub closed spec fn rotation_spec(&self) -> R {
        self.rotation
    }

    /// Associates a validated rotation with its physical epoch.
    pub fn new(epoch: Instant<S>, rotation: R) -> (r: Self)
        ensures
            r.epoch_spec() == epoch,
            r.rotation_spec() == rotation,
    {
        FrameRotation { epoch, rotation, from: PhantomData, to: PhantomData }
    }

    /// Returns the physical epoch at which this rotation is valid.
    pub fn epoch(&self) -> (t: Instant<S>)
        ensures
            t == self.epoch_spec(),
    {
        self.epoch
    }

    /// Returns the source-to-target component rotation.
    pub fn rotation(&self) -> (r: &R)
        ensures
            *r == self.rotation_spec(),
    {
        &self.rotation
    }

    /// Returns the inverse rotation at the same physical epoch.
    ///
    /// `invert` computes the inverse components.
    pub fn inverse<R2, F: FnOnce(R) -> R2>(self, invert: F) -> (r: FrameRotation<To, From, S, R2>)
        requires
            invert.requires((self.rotation_spec(),)),
        ensures
            r.epoch_spec() == self.epoch_spec(),
            invert.ensures((self.rotation_spec(),), r.rotation_spec()),
    {
        let rotation = invert(self.rotation);
        FrameRotation { epoch: self.epoch, rotation, from: PhantomData, to: PhantomData }
    }

    /// Composes this rotation with a following rotation at the same epoch.
    ///
    /// `compose` combines the two component rotations; it is called only when
    /// both rotations belong to the same physical epoch.
    pub fn then<Next: CoordinateFrame, R2, R3, F: FnOnce(R, R2) -> R3>(
        self,
        next: FrameRotation<To, Next, S, R2>,
        compose: F,
    ) -> (r: Result<FrameRotation<From, Next, S, R3>, Error>)
        requires
            compose.requires((self.rotation_spec(), next.rotation_spec())),
        ensures
            r is Ok <==> self.epoch_spec()@ == next.epoch_spec()@,
            r matches Ok(c) ==> c.epoch_spec() == self.epoch_spec() && compose.ensures(
                (self.rotation_spec(), next.rotation_spec()),
                c.rotation_spec(),
            ),
            r matches Err(e) ==> e == (Error::EpochMismatch {
                transform_tai_nanoseconds: self.epoch_spec()@ as i128,
                value_tai_nanoseconds: next.epoch_spec()@ as i128,
            }),
    {
        match ensure_same_epoch(self.epoch, next.epoch) {
            Ok(()) => {
                let rotation = compose(self.rotation, next.rotation);
                Ok(FrameRotation { epoch: self.epoch, rotation, from: PhantomData, to: PhantomData })
            },
            Err(e) => Err(e),
        }
    }
}

} // verus!
