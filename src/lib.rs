//! Decision logic for a presentation loop that renders into a swapchain:
//! a frame scheduler driven by outcome events, the choice of a physical
//! device from plain facts about the candidates, and the encoding of a
//! read-back RGBA buffer as a PNG file.

pub mod device;
pub mod laws;
pub mod scheduler;
pub mod snapshot;
