//! A verified core for an instanced glyph-quad rendering backend.
//!
//! The executable GPU work (device calls, buffer uploads, render passes)
//! lives outside this library; what is verified here is everything the
//! backend decides or computes:
//!
//! - the exact geometry of the vertex-to-instance conversion, including
//!   the clipping of a glyph quad against its layout bounds and the
//!   aspect-preserving rescaling of its texture coordinates, carried out
//!   over exact rational arithmetic;
//! - the pipeline bookkeeping: instance-buffer capacity, the number of
//!   recorded instances, and which atlas generation the bind group
//!   references;
//! - the binary layout of the per-instance record that the shader
//!   consumes, and the resource-binding layout it expects.

pub mod convert;
pub mod laws;
pub mod layout;
pub mod pipeline;
pub mod rational;
