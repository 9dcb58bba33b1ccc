use vstd::prelude::*;

verus! {

/// Errors produced by coordinate-frame operations.
#[derive(Debug, Clone, Copy, PartialEq, Eq)]
#[non_exhaustive]
pub enum Error {
    /// A time-scale computation could not produce the transform epoch.
    Time(crate::time::Error),
    /// A transform was applied or composed at a different physical epoch.
    EpochMismatch {
        /// Transform epoch as TAI nanoseconds since 1900-01-01 TAI.
        transform_tai_nanoseconds: i128,
        /// State or following-transform epoch in the same representation.
        value_tai_nanoseconds: i128,
    },
}

impl Error {
    pub(crate) fn epoch_mismatch(transform_tai_nanoseconds: i128, value_tai_nanoseconds: i128) -> (e: Self)
        ensures
            e == (Error::EpochMismatch { transform_tai_nanoseconds, value_tai_nanoseconds }),
    {
        Error::EpochMismatch { transform_tai_nanoseconds, value_tai_nanoseconds }
    }
}

impl From<crate::time::Error> for Error {
    fn from(error: crate::time::Error) -> (e: Self) {
        Error::Time(error)
    }
}

impl vstd::std_specs::convert::FromSpecImpl<crate::time::Error> for Error {
    open spec fn obeys_from_spec() -> bool {
        true
    }

    open spec fn from_spec(v: crate::time::Error) -> Self {
        Error::Time(v)
    }
}

} // verus!
