//! Camera core of a small interactive cube viewer.
//!
//! The library turns held directional keys into an exact unit movement
//! vector, integrates that vector into a world position, and tracks the
//! perspective projection that depends on the window's aspect ratio. All
//! coordinates are exact fixed-point numbers of the form
//! `(r + q*sqrt(2)/2) / ONE`, so every statement about motion is proved
//! without rounding; the renderer converts them to its own number format.

pub mod camera;
pub mod frame;
pub mod projection;
pub mod scalar;
pub mod vertex;

pub use camera::{Camera, Direction, InputState};
pub use frame::{App, Event};
pub use projection::{ProjMatrix, ProjectionManager};
pub use scalar::{Scalar, Vec3, ONE};
pub use vertex::Vertex;
