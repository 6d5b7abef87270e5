//! Input decisions of a free-look camera: which movement a set of held keys
//! asks for, and along which camera axis, in which sense, that movement goes.

pub mod movement;

pub use movement::{Axis, CameraMovement};
