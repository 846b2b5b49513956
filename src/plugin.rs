use vstd::prelude::*;

verus! {

/// The per-frame stages of the orbit controls.
#[derive(Clone, Copy, Debug, PartialEq, Eq, Hash)]
pub enum FrameStage {
    /// Zooms on scroll input while idle.
    Wheel,
    /// Applies the button edges to the interaction state.
    Buttons,
    /// Moves the camera as the interaction state asks, and orients it.
    Placement,
}

/// The orbit controls as a unit that a host schedules once per frame.
#[derive(Clone, Copy, Debug, PartialEq, Eq)]
pub struct OrbitControlsPlugin;

impl OrbitControlsPlugin {
    /// The stages in the order in which they run each frame.
    pub fn stages(&self) -> (r: Vec<FrameStage>)
        ensures
            r@ == seq![FrameStage::Wheel, FrameStage::Buttons, FrameStage::Placement],
    {
        vec![FrameStage::Wheel, FrameStage::Buttons, FrameStage::Placement]
    }
}

} // verus!
