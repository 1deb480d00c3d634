//! Editor flycam capture state.
//!
//! The camera-movement mathematics lives outside with the renderer; what is
//! specified here is the single source of truth other editor systems gate
//! on: whether the flycam currently owns the input.

use vstd::prelude::*;

verus! {

/// Marker for the editor's flycam camera entity.
pub struct FlyCam;

/// Global "is flycam active" state for the current frame.  The flycam is
/// captured on a right-button press that starts outside the UI and released
/// when the button is released.
#[derive(Clone, Copy, Debug, PartialEq, Eq, Structural)]
pub struct FlyCamActive(pub bool);

impl Default for FlyCamActive {
    /// The flycam starts inactive.
    fn default() -> (a: FlyCamActive)
        ensures
            !a.0,
    {
        FlyCamActive(false)
    }
}

/// The capture state after one frame of mouse input: a right-button press
/// captures exactly when the pointer is not over the UI, and a release in
/// the same frame always wins and stops the capture.
pub open spec fn spec_flycam_active_after(
    current: bool,
    rmb_just_pressed: bool,
    rmb_just_released: bool,
    pointer_over_ui: bool,
) -> bool {
    if rmb_just_released {
        false
    } else if rmb_just_pressed {
        !pointer_over_ui
    } else {
        current
    }
}

impl FlyCamActive {
    /// Advance the capture state for one frame of mouse input.
    pub fn update(&mut self, rmb_just_pressed: bool, rmb_just_released: bool, pointer_over_ui: bool)
        ensures
            final(self).0 == spec_flycam_active_after(
                old(self).0,
                rmb_just_pressed,
                rmb_just_released,
                pointer_over_ui,
            ),
    {
        // Only begin flycam if the press started outside UI.
        if rmb_just_pressed {
            self.0 = !pointer_over_ui;
        }
        // Always stop flycam when the button is released.
        if rmb_just_released {
            self.0 = false;
        }
    }
}

} // verus!
