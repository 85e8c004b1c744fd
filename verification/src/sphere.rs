//! The sphere primitive and the layout of its vertex buffer.
//!
//! A sphere is one point with a radius. The native kernel reads it from a
//! single-element vertex buffer of four `f32` values in the order x, y, z,
//! radius; the coordinates cross this library as IEEE 754 bit patterns, one
//! `u32` per `f32`, and the shell converts bit for bit when it fills the
//! buffer the native kernel allocated.

use vstd::prelude::*;

verus! {

/// The number of 32-bit words in a sphere's vertex buffer.
pub const SPHERE_VERTEX_WORDS: usize = 4;

/// A sphere: origin and radius, each field the bit pattern of one `f32`.
#[derive(Clone, Copy, Debug, PartialEq, Eq, Structural)]
pub struct SphereDesc {
    pub origin_x_bits: u32,
    pub origin_y_bits: u32,
    pub origin_z_bits: u32,
    pub radius_bits: u32,
}

/// The contents of a sphere's vertex buffer: x, y, z, radius, in that order.
pub open spec fn sphere_vertex_spec(d: SphereDesc) -> Seq<u32> {
    seq![d.origin_x_bits, d.origin_y_bits, d.origin_z_bits, d.radius_bits]
}

/// Lays out the words to write into the vertex buffer the native kernel
/// allocated for a sphere: exactly the origin coordinates and the radius, in
/// the order the native kernel reads them.
pub fn sphere_vertex_words(d: &SphereDesc) -> (v: Vec<u32>)
    ensures
        v@ == sphere_vertex_spec(*d),
        v@.len() == SPHERE_VERTEX_WORDS,
{
    let mut v: Vec<u32> = Vec::new();
    v.push(d.origin_x_bits);
    v.push(d.origin_y_bits);
    v.push(d.origin_z_bits);
    v.push(d.radius_bits);
    v
}

} // verus!
