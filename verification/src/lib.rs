//! An offline ray-tracing core: shapes, a spatial hierarchy with composed
//! transforms, ray/primitive intersection, and recursive Whitted-style shading.
//!
//! All geometry is carried in a fixed-point scalar type (`math::Fx`), whose
//! arithmetic is total (saturating) and specified exactly, so every algorithm
//! here is verified against a mathematical mirror of its computation.

pub mod bounds;
pub mod intersection;
pub mod color;
pub mod light;
pub mod ray;
pub mod math;
pub mod matrix;
pub mod material;
pub mod patterns;
pub mod shapes;
pub mod transform;
pub mod vec4;
pub mod world;
