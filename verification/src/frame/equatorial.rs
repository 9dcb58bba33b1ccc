use core::marker::PhantomData;
use vstd::prelude::*;

use crate::time::{Instant, TimeScale};

verus! {

/// A right ascension `R` and declination `D` describing a unit direction on equatorial axes `F`.
#[derive(Debug)]
pub struct EquatorialDirection<F, R, D> {
    right_ascension: R,
    declination: D,
    axes: PhantomData<F>,
}

impl<F, R: Copy, D: Copy> Clone for EquatorialDirection<F, R, D> {
    fn clone(&self) -> (r: Self)
        ensures
            r == *self,
    {
        *self
    }
}

impl<F, R: Copy, D: Copy> Copy for EquatorialDirection<F, R, D> {}

impl<F, R: Copy, D: Copy> EquatorialDirection<F, R, D> {
    /// The right ascension.
    pub closed spec fn right_ascension_spec(self) -> R {
        self.right_ascension
    }

    /// The declination.
    pub closed spec fn declination_spec(self) -> D {
        self.declination
    }

    /// Constructs an equatorial direction.
    pub fn new(right_ascension: R, declination: D) -> (d: Self)
        ensures
            d.right_ascension_spec() == right_ascension,
            d.declination_spec() == declination,
    {
        EquatorialDirection { right_ascension, declination, axes: PhantomData }
    }

    /// Returns the right ascension.
    pub fn right_ascension(self) -> (r: R)
        ensures
            r == self.right_ascension_spec(),
    {
        self.right_ascension
    }

    /// Returns the declination.
    pub fn declination(self) -> (d: D)
        ensures
            d == self.declination_spec(),
    {
        self.declination
    }
}

/// An equatorial direction associated with one physical evaluation epoch.
#[derive(Debug)]
pub struct EquatorialDirectionAt<F, S: TimeScale, R, D> {
    epoch: Instant<S>,
    coordinates: EquatorialDirection<F, R, D>,
}

impl<F, S: TimeScale, R: Copy, D: Copy> Clone for EquatorialDirectionAt<F, S, R, D> {
    fn clone(&self) -> (r: Self)
        ensures
            r == *self,
    {
        *self
    }
}

impl<F, S: TimeScale, R: Copy, D: Copy> Copy for EquatorialDirectionAt<F, S, R, D> {}

impl<F, S: TimeScale, R: Copy, D: Copy> EquatorialDirectionAt<F, S, R, D> {
    /// The physical evaluation epoch.
    pub closed spec fn epoch_spec(self) -> Instant<S> {
        self.epoch
    }

    /// The equatorial coordinates.
    pub closed spec fn coordinates_spec(self) -> EquatorialDirection<F, R, D> {
        self.coordinates
    }

    /// Associates equatorial coordinates with their physical evaluation epoch.
    pub fn new(epoch: Instant<S>, coordinates: EquatorialDirection<F, R, D>) -> (d: Self)
        ensures
            d.epoch_spec() == epoch,
            d.coordinates_spec() == coordinates,
    {
        EquatorialDirectionAt { epoch, coordinates }
    }

    /// Returns the physical evaluation epoch.
    pub fn epoch(self) -> (t: Instant<S>)
        ensures
            t == self.epoch_spec(),
    {
        self.epoch
    }

    /// Returns the equatorial coordinates.
    pub fn coordinates(self) -> (c: EquatorialDirection<F, R, D>)
        ensures
            c == self.coordinates_spec(),
    {
        self.coordinates
    }

    /// Decomposes the result into its epoch and coordinates.
    pub fn into_parts(self) -> (p: (Instant<S>, EquatorialDirection<F, R, D>))
        ensures
            p == (self.epoch_spec(), self.coordinates_spec()),
    {
        (self.epoch, self.coordinates)
    }
}

} // verus!
