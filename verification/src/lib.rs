//! Differentiable depth rendering for triangle meshes.
//!
//! Every geometric quantity is an IEEE-754 single-precision value carried as
//! its bit pattern (`Scalar`), and every arithmetic step goes through a small
//! set of trusted soft-float operations, so the whole pipeline — ray
//! generation, ray/triangle intersection, depth evaluation and the analytic
//! backward pass that accumulates per-vertex gradients — is verified
//! executable code with exact contracts.

pub mod scalar;
pub mod vec3;
pub mod mat4;
pub mod tri3;
pub mod cam3;
pub mod trimesh3;
pub mod pix2depth;
pub mod shape;
