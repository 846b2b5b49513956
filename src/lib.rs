//! Orbit-style camera control: the interaction state machine that decides, frame by
//! frame, whether the camera pivots around its target, pans with it, or zooms toward it.
//!
//! The state machine is generic over what a drag records: the cursor position `C`, the
//! camera's spherical offset `S` and the target position `P`. The host supplies those
//! values and performs the geometry that each decision calls for.

pub mod frame;
pub mod interaction;
pub mod plugin;

pub use frame::FrameAction;
pub use interaction::{ButtonEdges, InteractionState};
pub use plugin::{FrameStage, OrbitControlsPlugin};
