use vstd::prelude::*;

verus! {

/// Which drag, if any, is in progress.
///
/// A drag records where the cursor was when it began and the part of the camera's
/// placement that it moves: the spherical offset for a pivot, the target for a pan.
/// Being one value, at most one drag can be active at a time.
#[derive(Clone, Copy, Debug, PartialEq)]
pub enum InteractionState<C, S, P> {
    Idle,
    Pivoting { cursor_start: C, spherical_start: S },
    Panning { cursor_start: C, target_start: P },
}

/// The button edges seen during one frame. The primary button drives pivoting and the
/// secondary button drives panning.
#[derive(Clone, Copy, Debug, PartialEq, Eq)]
pub struct ButtonEdges {
    pub primary_pressed: bool,
    pub primary_released: bool,
    pub secondary_pressed: bool,
    pub secondary_released: bool,
}

/// A primary press while idle, with the cursor inside the window, starts a pivot drag
/// from the current spherical offset.
pub open spec fn after_primary_press<C, S, P>(
    s: InteractionState<C, S, P>,
    pressed: bool,
    cursor: Option<C>,
    spherical: S,
) -> InteractionState<C, S, P> {
    if pressed && s is Idle && cursor is Some {
        InteractionState::Pivoting { cursor_start: cursor.unwrap(), spherical_start: spherical }
    } else {
        s
    }
}

/// A primary release ends a pivot drag, and only a pivot drag.
pub open spec fn after_primary_release<C, S, P>(
    s: InteractionState<C, S, P>,
    released: bool,
) -> InteractionState<C, S, P> {
    if released && s is Pivoting {
        InteractionState::Idle
    } else {
        s
    }
}

/// A secondary press while idle, with the cursor inside the window, starts a pan drag
/// from the current target.
pub open spec fn after_secondary_press<C, S, P>(
    s: InteractionState<C, S, P>,
    pressed: bool,
    cursor: Option<C>,
    target: P,
) -> InteractionState<C, S, P> {
    if pressed && s is Idle && cursor is Some {
        InteractionState::Panning { cursor_start: cursor.unwrap(), target_start: target }
    } else {
        s
    }
}

/// A secondary release returns to idle whatever drag was in progress.
pub open spec fn after_secondary_release<C, S, P>(
    s: InteractionState<C, S, P>,
    released: bool,
) -> InteractionState<C, S, P> {
    if released {
        InteractionState::Idle
    } else {
        s
    }
}

/// The state after one frame's button edges, taken in the order primary press, primary
/// release, secondary press, secondary release.
pub open spec fn after_buttons<C, S, P>(
    s: InteractionState<C, S, P>,
    edges: ButtonEdges,
    cursor: Option<C>,
    spherical: S,
    target: P,
) -> InteractionState<C, S, P> {
    after_secondary_release(
        after_secondary_press(
            after_primary_release(
                after_primary_press(s, edges.primary_pressed, cursor, spherical),
                edges.primary_released,
            ),
            edges.secondary_pressed,
            cursor,
            target,
        ),
        edges.secondary_released,
    )
}

/// A primary press during a pan drag does not start a pivot drag: unless the secondary
/// button is released in the same frame, the pan drag goes on unchanged.
pub proof fn lemma_pan_excludes_pivot<C, S, P>(
    s: InteractionState<C, S, P>,
    edges: ButtonEdges,
    cursor: Option<C>,
    spherical: S,
    target: P,
)
    requires
        s is Panning,
        !edges.secondary_released,
    ensures
        after_buttons(s, edges, cursor, spherical, target) == s,
{
}

/// A secondary press during a pivot drag does not start a pan drag: unless a button is
/// released in the same frame, the pivot drag goes on unchanged.
pub proof fn lemma_pivot_excludes_pan<C, S, P>(
    s: InteractionState<C, S, P>,
    edges: ButtonEdges,
    cursor: Option<C>,
    spherical: S,
    target: P,
)
    requires
        s is Pivoting,
        !edges.primary_released,
        !edges.secondary_released,
    ensures
        after_buttons(s, edges, cursor, spherical, target) == s,
{
}

/// Releasing the secondary button always leaves the controller idle, also when the
/// drag in progress is a pivot drag, which the secondary button did not start.
pub proof fn lemma_secondary_release_forces_idle<C, S, P>(
    s: InteractionState<C, S, P>,
    edges: ButtonEdges,
    cursor: Option<C>,
    spherical: S,
    target: P,
)
    requires
        edges.secondary_released,
    ensures
        after_buttons(s, edges, cursor, spherical, target) is Idle,
{
}

/// Releasing the primary button ends a pivot drag and leaves a pan drag in progress.
pub proof fn lemma_primary_release_ends_only_pivot<C, S, P>(
    s: InteractionState<C, S, P>,
    edges: ButtonEdges,
    cursor: Option<C>,
    spherical: S,
    target: P,
)
    requires
        edges.primary_released,
        !edges.secondary_released,
        !edges.secondary_pressed,
    ensures
        s is Pivoting ==> after_buttons(s, edges, cursor, spherical, target) is Idle,
        s is Panning ==> after_buttons(s, edges, cursor, spherical, target) == s,
{
}

impl<C: Copy, S: Copy, P: Copy> InteractionState<C, S, P> {
    /// The state in which no drag is in progress.
    pub fn idle() -> (r: Self)
        ensures
            r is Idle,
    {
        InteractionState::Idle
    }

    pub fn is_idle(&self) -> (r: bool)
        ensures
            r == (*self is Idle),
    {
        match self {
            InteractionState::Idle => true,
            _ => false,
        }
    }

    pub fn is_pivoting(&self) -> (r: bool)
        ensures
            r == (*self is Pivoting),
    {
        match self {
            InteractionState::Pivoting { .. } => true,
            _ => false,
        }
    }

    pub fn is_panning(&self) -> (r: bool)
        ensures
            r == (*self is Panning),
    {
        match self {
            InteractionState::Panning { .. } => true,
            _ => false,
        }
    }

    /// Applies one frame's button edges. `cursor` is the pointer position, `None` when
    /// it is outside the window; `spherical` and `target` are the controller's current
    /// spherical offset and target, recorded by a drag that starts now.
    pub fn handle_button_transition(
        &mut self,
        edges: ButtonEdges,
        cursor: Option<C>,
        spherical: S,
        target: P,
    )
        ensures
            *final(self) == after_buttons(*old(self), edges, cursor, spherical, target),
    {
        if edges.primary_pressed && self.is_idle() {
            if let Some(c) = cursor {
                *self = InteractionState::Pivoting { cursor_start: c, spherical_start: spherical };
            }
        }
        if edges.primary_released && self.is_pivoting() {
            *self = InteractionState::Idle;
        }
        if edges.secondary_pressed && self.is_idle() {
            if let Some(c) = cursor {
                *self = InteractionState::Panning { cursor_start: c, target_start: target };
            }
        }
        if edges.secondary_released {
            *self = InteractionState::Idle;
        }
    }
}

} // verus!
