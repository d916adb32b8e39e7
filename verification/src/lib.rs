//! A verified 3D wireframe-rendering core.
//!
//! World-space points are transformed (translate, rotate, project, screen-map)
//! into screen-space points, a mesh's edge loops are turned into line
//! segments, and each frame becomes one atomic batch of drawing commands.
//! All coordinates are exact fixed-point numbers (`SCALE` units per 1.0), so
//! every stage of the pipeline carries a precise contract.

pub mod anim;
pub mod color;
pub mod constants;
pub mod cube;
pub mod fixed;
pub mod pipeline;
pub mod point2d;
pub mod point3d;
pub mod render;
pub mod shape;
