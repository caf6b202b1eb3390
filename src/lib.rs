//! A three-component vector over any copyable component type, with
//! componentwise arithmetic and bitwise operators, checked component access,
//! dot and cross products, and text framing.
//!
//! Contracts are stated over vstd's specifications of the component type's
//! operators (`add_spec`, `mul_req`, ...); for the primitive integer types
//! these are exact integer arithmetic, and the `_req` conditions rule out
//! overflow, division by zero and over-wide shifts.
pub mod laws;
mod ops;
pub mod render;
pub mod vector;

pub use render::render_components;
pub use vector::Vec3;
