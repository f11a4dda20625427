//! Directions in which a camera can be moved.

use vstd::prelude::*;

verus! {

/// Direction of a movement of the camera, as seen from the camera.
#[derive(Debug, Clone, Copy, PartialEq, Eq, Structural)]
pub enum CameraMovement {
    Fwd,
    Bwd,
    Left,
    Right,
}

} // verus!
