//! Asset browser panel state.
//!
//! The panel itself (directory listing, scrolling, drawing) lives outside
//! with the UI toolkit; the persistent panel state is specified here.

use vstd::prelude::*;

verus! {

/// Whether the asset browser panel is shown.
#[derive(Clone, Copy, Debug, PartialEq, Eq, Structural)]
pub struct AssetBrowserUiState {
    pub visible: bool,
}

impl Default for AssetBrowserUiState {
    /// The panel starts visible.
    fn default() -> (s: AssetBrowserUiState)
        ensures
            s.visible,
    {
        AssetBrowserUiState { visible: true }
    }
}

} // verus!
