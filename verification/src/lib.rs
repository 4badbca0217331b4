//! Core of a single-file audio visualizer: a decode state machine that pulls
//! one container packet per tick through symphonia, a sample accumulator that
//! is sized once from the first decoded frame and overwritten each tick, and
//! pure amplitude-to-visual mapping functions for the host to render.

pub mod amplitude;
pub mod errors;
pub mod media;
pub mod num_to_circle;
pub mod num_to_color;
pub mod player;
