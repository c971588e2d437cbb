//! Interactive client library for a turn-based looter game.
//!
//! The client's logic lives here: the widget capability model (measure,
//! hit-test, draw, select), the client state machine driven by server
//! packets, the drag-and-drop transfer resolver, and the vertex-batching
//! renderer that widgets draw into.  All geometry is carried in fixed-point
//! integer coordinates (see [`geom`]); the thin host layer converts to the
//! browser's floating-point device coordinates at the boundary.

use vstd::prelude::*;

pub mod auth;
pub mod buttons;
pub mod click;
pub mod draw;
pub mod fmt;
pub mod geom;
pub mod input;
pub mod keyboard;
pub mod layout;
pub mod message;
pub mod model;
pub mod scene;
pub mod session;
pub mod vertex;
pub mod view;
pub mod widget;
pub mod wrap;

verus! {

/// Fixed-point scale: this many coordinate units make one normalized
/// device unit.  Chosen so every layout constant of the user interface
/// (unit sizes, grid gaps, the 1.1 sibling gap multiplier) stays integral.
pub const COORD_ONE: i64 = 16000;

} // verus!
