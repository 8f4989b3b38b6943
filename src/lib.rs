//! Frame orchestration for a ping-pong compute chain: the frame status state
//! machine, the plan of compute dispatches for one frame, the per-frame
//! uniform block, and the decisions taken on resize, redraw and surface
//! failures. The graphics work itself is carried out by the caller.

pub mod clock;
pub mod status;
pub mod chain;
pub mod config;
pub mod model;
