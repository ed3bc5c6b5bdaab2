//! Decision logic for moving between the workspaces of the active display,
//! wrapping around to an empty workspace at the ends of the occupied range.

pub mod direction;
pub mod laws;
pub mod occupied;
pub mod resolver;
pub mod snapshot;
