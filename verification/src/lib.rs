//! An in-memory pixel grid for a small LCD panel, and the flush that commits
//! it to a display device in one bulk write.
//!
//! The grid is kept by `embedded_graphics_framebuf::FrameBuf`. Contracts are
//! stated over the sequence of colours that the grid holds, row after row,
//! and over the transfer sequence made from it: every position with its
//! colour, in row-major order.

pub mod pixel;
pub mod framebuffer;
pub mod display;
pub mod recording;
