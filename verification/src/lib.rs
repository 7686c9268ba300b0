//! Logic of a small overlay window that follows the pointer over a
//! multi-monitor desktop and shows a time-animated shader for a fixed time.
//!
//! The crate holds the decisions only: which output the pointer is on, where
//! the window goes, when the animation ends, how a shader binary is cut into
//! words. Talking to the display server and the GPU is left to the caller.

pub mod driver;
pub mod error;
pub mod geometry;
pub mod pipeline;
pub mod shader;
pub mod visual;
pub mod window;
