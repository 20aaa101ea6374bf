//! Verified core of a small real-time 3D scene: matrix containers, mesh
//! attribute assembly, the instance grid, viewport sizing, texture upload
//! layout, input intents and per-frame decisions.

pub mod mat;
pub mod mesh;
pub mod grid;
pub mod viewport;
pub mod texture;
pub mod input;
pub mod frame;
pub mod terrain;
