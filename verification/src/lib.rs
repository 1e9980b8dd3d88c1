//! Verified core of a small 2D panning renderer.
//!
//! The renderer shows a fixed house-like figure (17 vertices, 9 filled
//! triangles, 19 outline segments) that can be panned with the W/A/S/D keys,
//! with the panning step accelerating while a key stays held and resetting
//! when a movement key is released.
//!
//! All coordinates and step sizes in this crate are fixed-point integers in
//! thousandths of a normalized-device-coordinate unit, so a stored value of
//! `-810` stands for the on-screen coordinate `-0.810` and the initial step
//! of `10` stands for `0.010`.  An unverified shell owns the window, the
//! OpenGL context and the GPU handles; it converts these integers to the
//! floating-point values the GPU expects and drives the state machines
//! defined here.

pub mod events;
pub mod geometry;
pub mod settings;
pub mod shader_build;
