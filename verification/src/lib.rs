//! A small real-time render pipeline for a windowed application.
//!
//! The crate holds the decisions of the pipeline as plain data: the surface
//! configuration and how it follows resizes, the texture cache, the vertex
//! and binding layouts, the commands of each render pass, the camera node a
//! scene selects, and the order in which one frame is put together. The
//! caller owns the window and the graphics device and carries out what the
//! pipeline asks for.

pub mod renderer;
