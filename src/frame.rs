use crate::interaction::InteractionState;
use vstd::prelude::*;

verus! {

/// What a frame's placement update does, given the interaction state and the cursor.
#[derive(Clone, Copy, Debug, PartialEq)]
pub enum FrameAction<C, S, P> {
    /// A drag is in progress and the cursor is outside the window: nothing is changed
    /// this frame.
    Skip,
    /// No drag, whether or not the cursor is in the window: the camera is only turned to
    /// look at the target.
    Orient,
    /// Pivot from the drag's start by the cursor's travel from `cursor_start` to `cursor`.
    Pivot { cursor: C, cursor_start: C, spherical_start: S },
    /// Pan from the drag's start by the cursor's travel from `cursor_start` to `cursor`.
    Pan { cursor: C, cursor_start: C, target_start: P },
}

pub open spec fn frame_action_of<C, S, P>(
    s: InteractionState<C, S, P>,
    cursor: Option<C>,
) -> FrameAction<C, S, P> {
    match s {
        InteractionState::Idle => FrameAction::Orient,
        InteractionState::Pivoting { cursor_start, spherical_start } => match cursor {
            None => FrameAction::Skip,
            Some(c) => FrameAction::Pivot { cursor: c, cursor_start, spherical_start },
        },
        InteractionState::Panning { cursor_start, target_start } => match cursor {
            None => FrameAction::Skip,
            Some(c) => FrameAction::Pan { cursor: c, cursor_start, target_start },
        },
    }
}

impl<C: Copy, S: Copy, P: Copy> InteractionState<C, S, P> {
    /// Decides the placement update of a frame. The camera is turned toward the target
    /// every frame, except that a drag whose cursor is outside the window skips the frame
    /// entirely; the drag itself persists.
    pub fn frame_action(&self, cursor: Option<C>) -> (r: FrameAction<C, S, P>)
        ensures
            r == frame_action_of(*self, cursor),
    {
        match self {
            InteractionState::Idle => FrameAction::Orient,
            InteractionState::Pivoting { cursor_start, spherical_start } => match cursor {
                None => FrameAction::Skip,
                Some(c) => FrameAction::Pivot {
                    cursor: c,
                    cursor_start: *cursor_start,
                    spherical_start: *spherical_start,
                },
            },
            InteractionState::Panning { cursor_start, target_start } => match cursor {
                None => FrameAction::Skip,
                Some(c) => FrameAction::Pan {
                    cursor: c,
                    cursor_start: *cursor_start,
                    target_start: *target_start,
                },
            },
        }
    }

    /// Decides whether a frame's scroll input zooms: only a non-zero scroll, and only
    /// while no drag is in progress.
    pub fn zoom_applies(&self, scroll_is_zero: bool) -> (r: bool)
        ensures
            r == (!scroll_is_zero && *self is Idle),
    {
        !scroll_is_zero && self.is_idle()
    }
}

} // verus!
