//! Engine-wide laws, proved once and for all inputs.
//!
//! Both laws speak about a usable correction, that is about any `c` with
//! `correction_spec(a, h, s) == Some(c)`, so they cover every correction the
//! engine can ever act on, whatever the oracle replied.  Each is exact under
//! a divisibility premise; away from it the engine's truncating division
//! rounds the same quantities toward zero by less than one subunit.

use vstd::prelude::*;

use crate::correction::{correction_spec, CollisionCorrection, GetCollisionCorrectionArgs, RayHit,
    SweepHit};
use crate::math::{div_t, lemma_div_t_divides, lemma_mul_cancel};
use crate::vec2::{Vec2, NORMAL_SCALE};

verus! {

/// No penetration: the committed position stands exactly the padding
/// distance away from the exact contact position, measured along the
/// contact normal.
///
/// Stated for any usable correction whose normal has exactly the nominal
/// unit length and whose padding offset divides evenly (an axis-aligned
/// unit normal satisfies both for every padding): the displacement from
/// `hit_pos` to `hit_pos_with_padding`, projected on the normal, is
/// `padding` times the normal's length — that is, exactly `padding`
/// subunits along the unit normal.
pub proof fn lemma_no_penetration(
    a: GetCollisionCorrectionArgs,
    h: SweepHit,
    s: RayHit,
    c: CollisionCorrection,
)
    requires
        correction_spec(a, h, s) == Some(c),
        h.normal.norm2() == (NORMAL_SCALE as int) * (NORMAL_SCALE as int),
        (a.padding * h.normal.x) % (NORMAL_SCALE as int) == 0,
        (a.padding * h.normal.y) % (NORMAL_SCALE as int) == 0,
    ensures
        (c.hit_pos_with_padding.x - c.hit_pos.x) * h.normal.x + (c.hit_pos_with_padding.y
            - c.hit_pos.y) * h.normal.y == a.padding * (NORMAL_SCALE as int),
{
    let ns = NORMAL_SCALE as int;
    let nx = h.normal.x as int;
    let ny = h.normal.y as int;
    let pad = a.padding as int;
    let dx = div_t(pad * nx, ns);
    let dy = div_t(pad * ny, ns);
    assert(c.hit_pos_with_padding.x - c.hit_pos.x == dx);
    assert(c.hit_pos_with_padding.y - c.hit_pos.y == dy);
    lemma_div_t_divides(pad * nx, ns);
    lemma_div_t_divides(pad * ny, ns);
    assert((dx * nx + dy * ny) * ns == (pad * ns) * ns) by (nonlinear_arith)
        requires
            dx * ns == pad * nx && dy * ns == pad * ny && nx * nx + ny * ny == ns * ns,
    ;
    lemma_mul_cancel(dx * nx + dy * ny, pad * ns, ns);
}

/// Velocity decomposition: the corrected velocity has no component left
/// along the contact normal, and keeps the requested velocity's component
/// along the surface tangent unchanged.
///
/// Stated for any usable correction whose rejection divides evenly (an
/// axis-aligned normal satisfies this for every velocity).
pub proof fn lemma_velocity_decomposition(
    a: GetCollisionCorrectionArgs,
    h: SweepHit,
    s: RayHit,
    c: CollisionCorrection,
)
    requires
        correction_spec(a, h, s) == Some(c),
        (a.shape_linvel.dot(h.normal) * h.normal.x) % h.normal.norm2() == 0,
        (a.shape_linvel.dot(h.normal) * h.normal.y) % h.normal.norm2() == 0,
    ensures
        c.new_linvel.dot(h.normal) == 0,
        c.new_linvel.dot_perp(h.normal) == a.shape_linvel.dot_perp(h.normal),
{
    let v = a.shape_linvel;
    let n = h.normal;
    let nx = n.x as int;
    let ny = n.y as int;
    let d = v.dot(n);
    let nn = n.norm2();
    crate::vec2::lemma_norm2_pos(n);
    let qx = div_t(d * nx, nn);
    let qy = div_t(d * ny, nn);
    assert(c.new_linvel.x == v.x - qx);
    assert(c.new_linvel.y == v.y - qy);
    lemma_div_t_divides(d * nx, nn);
    lemma_div_t_divides(d * ny, nn);

    // The removed part `q` carries the whole normal component of `v` ...
    assert((qx * nx + qy * ny) * nn == d * nn) by (nonlinear_arith)
        requires
            qx * nn == d * nx && qy * nn == d * ny && nn == nx * nx + ny * ny,
    ;
    lemma_mul_cancel(qx * nx + qy * ny, d, nn);
    assert(c.new_linvel.dot(n) == (v.x - qx) * nx + (v.y - qy) * ny);
    assert((v.x - qx) * nx + (v.y - qy) * ny == d - (qx * nx + qy * ny)) by (nonlinear_arith)
        requires
            d == v.x * nx + v.y * ny,
    ;

    // ... and none of the tangential one.
    assert((qx * (-ny) + qy * nx) * nn == 0 * nn) by (nonlinear_arith)
        requires
            qx * nn == d * nx && qy * nn == d * ny,
    ;
    lemma_mul_cancel(qx * (-ny) + qy * nx, 0, nn);
    assert(c.new_linvel.dot_perp(n) == (v.x - qx) * (-ny) + (v.y - qy) * nx);
    assert((v.x - qx) * (-ny) + (v.y - qy) * nx == v.x * (-ny) + v.y * nx - (qx * (-ny) + qy
        * nx)) by (nonlinear_arith);
    assert(v.dot_perp(n) == v.x * (-ny) + v.y * nx);
}

} // verus!
