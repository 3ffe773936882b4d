//! Orchestration core for neural-network image upscaling.
//!
//! The library derives safe inference parameters (pre-padding, tile size,
//! model asset paths) from user-chosen quality settings and the queried
//! device memory budget, drives the progressive 2x scaling passes as an
//! explicit state machine, and adapts pixel buffers between the caller's
//! channel layout and the layouts the inference engine accepts. The opaque
//! engine itself (weight loading, tiled inference, buffer release) is an
//! external collaborator: callers perform those calls and feed the results
//! back into the state machine, which accounts for every live buffer.

pub mod context;
pub mod decimal;
pub mod errors;
pub mod params;
pub mod pipeline;
pub mod pixels;
pub mod scaler;
