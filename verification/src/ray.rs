//! Ray and hit records, and the reading of a query's outcome.
//!
//! The native kernel's single-ray query fills in a fixed-layout record. Its
//! floating-point fields (origin, direction, parametric range, normal,
//! barycentric coordinates) cross this library as IEEE 754 bit patterns,
//! `u32` for one `f32`; the identifier fields are plain `u32`. The shell
//! converts at the boundary, bit for bit, and hands the filled record back
//! to [`classify_hit`], which alone decides whether the query hit, missed,
//! or failed.

use vstd::prelude::*;
use crate::error::{Error, Operation};

verus! {

/// The geometry identifier the native kernel reserves for "no geometry":
/// a query that found nothing reports it in [`Hit::geom_id`].
pub const INVALID_GEOMETRY_ID: u32 = 0xFFFF_FFFF;

/// The bit pattern of the `f32` value positive infinity, the default far
/// bound of a ray's parametric range.
pub const F32_INFINITY_BITS: u32 = 0x7F80_0000;

/// The bit pattern of the `f32` value zero.
pub const F32_ZERO_BITS: u32 = 0;

/// A single ray, laid out as the native kernel's ray record: fields ending
/// in `_bits` hold `f32` bit patterns, the rest are plain integers.
#[derive(Clone, Copy, Debug, PartialEq, Eq, Structural)]
pub struct Ray {
    /// Origin, one coordinate per field.
    pub org_x_bits: u32,
    pub org_y_bits: u32,
    pub org_z_bits: u32,
    /// Near bound of the parametric range.
    pub tnear_bits: u32,
    /// Direction, one coordinate per field.
    pub dir_x_bits: u32,
    pub dir_y_bits: u32,
    pub dir_z_bits: u32,
    /// Time value for motion blur.
    pub time_bits: u32,
    /// Far bound of the parametric range; after a query that hit, the hit
    /// distance.
    pub tfar_bits: u32,
    /// Geometry mask.
    pub mask: u32,
    /// Caller-chosen ray identifier.
    pub id: u32,
    /// Ray flags.
    pub flags: u32,
}

/// The hit half of the native kernel's query record.
#[derive(Clone, Copy, Debug, PartialEq, Eq, Structural)]
pub struct Hit {
    /// Unnormalized geometric normal at the hit, one coordinate per field.
    pub ng_x_bits: u32,
    pub ng_y_bits: u32,
    pub ng_z_bits: u32,
    /// Barycentric coordinates of the hit.
    pub u_bits: u32,
    pub v_bits: u32,
    /// Identifier of the hit primitive within its geometry.
    pub prim_id: u32,
    /// Identifier of the hit geometry, as assigned at attachment;
    /// [`INVALID_GEOMETRY_ID`] when nothing was hit.
    pub geom_id: u32,
    /// Identifier of the hit instance.
    pub inst_id: u32,
}

/// The record a query fills in: the ray (with `tfar` updated to the hit
/// distance) and the hit.
#[derive(Clone, Copy, Debug, PartialEq, Eq, Structural)]
pub struct RayHit {
    pub ray: Ray,
    pub hit: Hit,
}

/// The default ray: everything zero except the far bound, which is positive
/// infinity, and the mask, which admits every geometry.
pub open spec fn ray_default_spec() -> Ray {
    Ray {
        org_x_bits: 0,
        org_y_bits: 0,
        org_z_bits: 0,
        tnear_bits: 0,
        dir_x_bits: 0,
        dir_y_bits: 0,
        dir_z_bits: 0,
        time_bits: 0,
        tfar_bits: F32_INFINITY_BITS,
        mask: 0xFFFF_FFFF,
        id: 0,
        flags: 0,
    }
}

/// The hit value that stands for "nothing hit yet": the geometry and
/// instance identifiers are the invalid sentinel, all else is zero.
pub open spec fn hit_none_spec() -> Hit {
    Hit {
        ng_x_bits: 0,
        ng_y_bits: 0,
        ng_z_bits: 0,
        u_bits: 0,
        v_bits: 0,
        prim_id: 0,
        geom_id: INVALID_GEOMETRY_ID,
        inst_id: INVALID_GEOMETRY_ID,
    }
}

impl Default for Ray {
    /// The ray to start from: zero origin and direction, full parametric
    /// range `[0, infinity)`, every geometry admitted.
    fn default() -> (r: Self)
        ensures
            r == ray_default_spec(),
    {
        Ray {
            org_x_bits: 0,
            org_y_bits: 0,
            org_z_bits: 0,
            tnear_bits: 0,
            dir_x_bits: 0,
            dir_y_bits: 0,
            dir_z_bits: 0,
            time_bits: 0,
            tfar_bits: F32_INFINITY_BITS,
            mask: 0xFFFF_FFFF,
            id: 0,
            flags: 0,
        }
    }
}

impl Default for Hit {
    /// The hit value a query record starts from: nothing hit.
    fn default() -> (h: Self)
        ensures
            h == hit_none_spec(),
    {
        Hit {
            ng_x_bits: 0,
            ng_y_bits: 0,
            ng_z_bits: 0,
            u_bits: 0,
            v_bits: 0,
            prim_id: 0,
            geom_id: INVALID_GEOMETRY_ID,
            inst_id: INVALID_GEOMETRY_ID,
        }
    }
}

impl RayHit {
    /// The record to hand to the native query: the given ray, and the
    /// nothing-hit value for the hit half.
    pub fn new(ray: Ray) -> (rh: Self)
        ensures
            rh.ray == ray,
            rh.hit == hit_none_spec(),
    {
        RayHit { ray, hit: Hit::default() }
    }
}

/// What [`classify_hit`] returns. A nonzero device error value is a failure
/// of the query; otherwise the invalid-geometry sentinel means a miss, and
/// anything else is a hit, handed back unchanged.
pub open spec fn classify_hit_spec(rh: RayHit, raw_error: u32) -> Result<Option<RayHit>, Error> {
    if raw_error != 0 {
        Err(Error::OperationFailure { op: Operation::Intersect, raw_error })
    } else if rh.hit.geom_id == INVALID_GEOMETRY_ID {
        Ok(None)
    } else {
        Ok(Some(rh))
    }
}

/// Reads a filled query record together with the device error value polled
/// right after the query. An error state is a failure whatever the record
/// holds; with a clear state, a record whose geometry identifier is the
/// invalid sentinel is a miss (`Ok(None)`, not an error), and any other
/// record is a hit, returned without alteration.
pub fn classify_hit(rh: RayHit, raw_error: u32) -> (r: Result<Option<RayHit>, Error>)
    ensures
        r == classify_hit_spec(rh, raw_error),
{
    if raw_error != 0 {
        Err(Error::OperationFailure { op: Operation::Intersect, raw_error })
    } else if rh.hit.geom_id == INVALID_GEOMETRY_ID {
        Ok(None)
    } else {
        Ok(Some(rh))
    }
}

/// Law: a ray that hits nothing is an empty result, never an error — the
/// invalid-geometry sentinel with a clear error state reads as `Ok(None)`.
pub proof fn lemma_miss_is_not_an_error(rh: RayHit)
    requires
        rh.hit.geom_id == INVALID_GEOMETRY_ID,
    ensures
        classify_hit_spec(rh, 0) == Ok::<Option<RayHit>, Error>(None),
{
}

/// Law: a hit record reaches the caller unchanged — in particular the
/// geometry identifier it echoes is exactly the one the native kernel wrote,
/// so it can be correlated back to the attachment that produced it.
pub proof fn lemma_hit_passes_through(rh: RayHit)
    requires
        rh.hit.geom_id != INVALID_GEOMETRY_ID,
    ensures
        classify_hit_spec(rh, 0) == Ok::<Option<RayHit>, Error>(Some(rh)),
{
}

} // verus!
