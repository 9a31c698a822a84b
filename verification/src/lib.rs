//! The verified core of a viewer for a set drawn over the complex plane.
//!
//! The viewer shows a rectangular window onto the plane. Each frame the
//! keyboard may signal one of a few zoom commands, the pointer may drag the
//! window, and the window's four coordinates are handed to the shader as a
//! sixteen-byte uniform before a full-screen quadrilateral is drawn.
//!
//! This crate holds what the viewer decides: which command wins when several
//! are signaled, what a command does to the window, how the window is laid
//! out for the shader, and which two operations a frame hands to the
//! renderer. Coordinates are carried as the bit patterns of IEEE-754
//! single-precision numbers. The arithmetic on them, the window system and the
//! graphics device belong to the caller.

pub mod command;
pub mod frame;
pub mod number;
pub mod uniform;
pub mod viewport;
