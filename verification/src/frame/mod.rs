//! Static astronomical coordinate frames and epoch-bound frame values.
mod equatorial;
mod error;
mod rotation;
mod sealed;
mod state;
mod system;
mod transform;

pub use equatorial::{EquatorialDirection, EquatorialDirectionAt};
pub use error::Error;
pub use rotation::{ensure_same_epoch, FrameRotation};
pub use state::State;
pub use system::{
    Axes, Bcrs, Cirs, CoordinateFrame, EarthCenter, Equinox, FrameDefinition, Gcrs, Handedness,
    Icrs, Itrs, Origin, OriginId, ReferenceEpoch, ReferenceSystem, ReferenceSystemId,
    SolarSystemBarycenter, Tirs,
};
pub use transform::StateTransform;
