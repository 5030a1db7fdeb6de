//! When the orbit camera follows the pointer.

use vstd::prelude::*;

verus! {

/// What the camera does with one frame's pointer motion.
#[derive(Clone, Copy, Debug, PartialEq, Eq, Structural)]
pub enum CameraAction {
    /// The camera stays as it is; the motion is discarded.
    Hold,
    /// The motion turns the camera around its target.
    Orbit,
}

/// The camera orbits while the right or the middle button is held, and holds
/// still otherwise, whatever the pointer did.
pub open spec fn camera_action_spec(right_held: bool, middle_held: bool) -> CameraAction {
    if right_held || middle_held {
        CameraAction::Orbit
    } else {
        CameraAction::Hold
    }
}

/// Decides from the two drag buttons whether this frame's pointer motion is
/// applied to the camera.
pub fn camera_action(right_held: bool, middle_held: bool) -> (action: CameraAction)
    ensures
        action == camera_action_spec(right_held, middle_held),
{
    if right_held || middle_held {
        CameraAction::Orbit
    } else {
        CameraAction::Hold
    }
}

} // verus!
