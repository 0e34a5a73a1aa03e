//! The decisions of a windowed program that draws one triangle.
//!
//! Opening a window, talking to the GPU and running the event loop are left
//! to the program that links this library. What that program has to do next
//! is decided here: which window to open, in which order the rendering
//! context is negotiated and when the negotiation is given up, what a frame
//! consists of, and how window events are answered.

pub mod app;
pub mod fault;
pub mod frame;
pub mod pipeline;
pub mod state;
pub mod window;
