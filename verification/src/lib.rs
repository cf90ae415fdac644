//! Reorderable flex containers: a flex-box layout resolver, a drag-and-drop
//! reorder state machine, and a per-slot offset animation set.
//!
//! The crate works on plain integer geometry (lengths and coordinates in
//! whole length units, time in whole milliseconds). A host toolkit adapter
//! is expected to measure children, feed pointer and redraw events in, and
//! render the frames that the library computes.

pub mod animation;
pub mod column;
pub mod drag;
pub mod event;
pub mod flex;
pub mod frame;
pub mod geometry;
pub mod length;
pub mod mouse_area;
pub mod row;
pub mod time;
