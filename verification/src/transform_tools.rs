//! Transform tool selection (Move / Rotate / Scale).
//!
//! The viewport toolbar offers three transform tools with W/E/R hotkeys.
//! The rendering of the toolbar lives outside; the selection state and the
//! hotkey rules are specified here.

use vstd::prelude::*;

verus! {

/// A transform tool: which drag behavior the editor applies.
#[derive(Clone, Copy, Debug, PartialEq, Eq, Hash, Structural)]
pub enum TransformToolMode {
    Translate,
    Rotate,
    Scale,
}

impl TransformToolMode {
    /// The toolbar label of the tool.
    pub open spec fn spec_label(self) -> Seq<char> {
        match self {
            TransformToolMode::Translate => "Move"@,
            TransformToolMode::Rotate => "Rotate"@,
            TransformToolMode::Scale => "Scale"@,
        }
    }

    /// The toolbar label of the tool.
    pub fn label(self) -> (r: &'static str)
        ensures
            r@ == self.spec_label(),
    {
        match self {
            TransformToolMode::Translate => "Move",
            TransformToolMode::Rotate => "Rotate",
            TransformToolMode::Scale => "Scale",
        }
    }

    /// The hotkey that selects the tool (W / E / R).
    pub open spec fn spec_hotkey(self) -> Seq<char> {
        match self {
            TransformToolMode::Translate => "W"@,
            TransformToolMode::Rotate => "E"@,
            TransformToolMode::Scale => "R"@,
        }
    }

    /// The hotkey that selects the tool (W / E / R).
    pub fn hotkey(self) -> (r: &'static str)
        ensures
            r@ == self.spec_hotkey(),
    {
        match self {
            TransformToolMode::Translate => "W",
            TransformToolMode::Rotate => "E",
            TransformToolMode::Scale => "R",
        }
    }
}

/// Global editor state: which transform tool is currently active.
#[derive(Clone, Copy, Debug, PartialEq, Eq, Structural)]
pub struct ActiveTransformTool {
    pub mode: TransformToolMode,
}

impl Default for ActiveTransformTool {
    /// The editor starts in translate mode.
    fn default() -> (t: ActiveTransformTool)
        ensures
            t.mode == TransformToolMode::Translate,
    {
        ActiveTransformTool { mode: TransformToolMode::Translate }
    }
}

/// The tool after one frame of hotkey input: W, E and R select translate,
/// rotate and scale, unless the flycam is active or the UI wants the
/// keyboard, in which cases the selection is unchanged.
pub open spec fn spec_mode_after_hotkeys(
    current: TransformToolMode,
    flycam_active: bool,
    ui_wants_input: bool,
    w_pressed: bool,
    e_pressed: bool,
    r_pressed: bool,
) -> TransformToolMode {
    if flycam_active || ui_wants_input {
        current
    } else if w_pressed {
        TransformToolMode::Translate
    } else if e_pressed {
        TransformToolMode::Rotate
    } else if r_pressed {
        TransformToolMode::Scale
    } else {
        current
    }
}

/// Apply one frame of hotkey input to the selection.
pub fn mode_after_hotkeys(
    current: TransformToolMode,
    flycam_active: bool,
    ui_wants_input: bool,
    w_pressed: bool,
    e_pressed: bool,
    r_pressed: bool,
) -> (m: TransformToolMode)
    ensures
        m == spec_mode_after_hotkeys(
            current,
            flycam_active,
            ui_wants_input,
            w_pressed,
            e_pressed,
            r_pressed,
        ),
{
    if flycam_active || ui_wants_input {
        current
    } else if w_pressed {
        TransformToolMode::Translate
    } else if e_pressed {
        TransformToolMode::Rotate
    } else if r_pressed {
        TransformToolMode::Scale
    } else {
        current
    }
}

} // verus!
