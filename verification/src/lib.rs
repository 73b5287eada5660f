//! Verified core of renderer backends for an immediate-mode GUI.
//!
//! The GUI library hands over one frame of draw data: draw lists of
//! vertices, indices and draw commands with clip rectangles and texture
//! ids. This crate compiles such a frame into what a graphics backend has
//! to do: which commands to draw and which to cull, the scissor rectangle
//! and the texture of each, when to upload a list's geometry and how far
//! to grow a buffer for it, and which projection to set.
//!
//! Nothing here touches a graphics API. A renderer of this crate keeps the
//! books and says what to do, one draw call at a time or as the plan of a
//! whole frame; the caller carries it out in order.
//!
//! All coordinates are exact integers in a fixed-point unit of the
//! caller's choosing, and a projection matrix is made of exact fractions,
//! so every result is stated and proved without rounding. Turning the
//! floats of a GUI library into these integers, and the fractions into
//! floats, is the caller's part.
//!
//! * [`helper`]: rectangles, the coordinate transform, culling, the
//!   projection matrix, and the walk through the commands of a frame.
//! * [`renderer`]: resolution of texture ids, and the renderers for three
//!   graphics APIs, which differ in how they fill their buffers and where
//!   their scissor rectangles have the origin.

pub mod helper;
pub mod renderer;
