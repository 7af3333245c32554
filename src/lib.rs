//! Discrete core of a box-scene path tracer: which face of a box a ray
//! struck and how its normal is oriented, how a surface decides to
//! scatter, when a light path ends, how pixels are laid out, and how
//! texels are looked up in named textures.

pub mod face;
pub mod integrator;
pub mod scatter;
pub mod texture;
pub mod render;
