//! Contact correction: one swept-contact resolution, the multi-pass loop,
//! and the per-object integration step.
//!
//! The queries that find obstacles — a swept-shape (time-of-impact) cast and
//! a ray-versus-shape cast — are a read-only oracle owned by the caller and
//! passed in as closures.  Nothing is assumed about their answers: every
//! reply is checked against the acceptance predicates below, and a reply
//! that fails them is treated as degenerate geometry, meaning no usable
//! correction for that pass.  Everything computed *from* a reply is exact
//! and carries a full contract.
//!
//! Geometry of one pass: the sweep reports the obstacle's contact normal and
//! a witness point on the obstacle.  Because two parallel or antiparallel
//! surfaces give ambiguous witness points, the contact is reconstructed on
//! the moving shape's own boundary: the caller fires a ray from the witness
//! point opposite the requested movement against the moving shape, and
//! reports how long the shape could travel along its velocity before its
//! boundary reaches the witness point, as a rational number of time quanta.
//! The pass then stops the shape there, pads the stopping point outward
//! along the contact normal so that rounding can never leave the shape
//! inside the obstacle, and removes the velocity component along the normal
//! so the shape slides instead of sticking.

use vstd::prelude::*;

use crate::math::{abs_i, div_t};
use crate::object::KinematicObject;
use crate::vec2::{Vec2, MAX_COORD, MAX_NORMAL, MAX_OBJECT_SPEED, MAX_SPEED, MAX_TIME, NORMAL_SCALE};
use crate::velocity::{effective_component, KinematicVelocity};

verus! {

/// Most passes the correction loop will ever run in one tick.
pub const MAX_CORRECTION_ITERS: usize = 8;

/// One swept movement request: move the shape standing at `shape_pos` with
/// rotation `shape_rot` along `shape_linvel` for `max_toi` quanta, keeping
/// `padding` subunits clear of whatever it touches.
#[derive(Clone, Copy, Debug, PartialEq, Eq, Structural)]
pub struct GetCollisionCorrectionArgs {
    /// Current position of the moving shape, in subunits.
    pub shape_pos: Vec2,
    /// Rotation of the moving shape, in milliradians; carried to the oracle
    /// unread, since the engine's own arithmetic never needs it.
    pub shape_rot: i64,
    /// Requested velocity, in subunits per quantum.
    pub shape_linvel: Vec2,
    /// Movement budget for this pass, in quanta.
    pub max_toi: i64,
    /// Outward clearance kept from every touched surface, in subunits.
    pub padding: i64,
}

impl GetCollisionCorrectionArgs {
    /// The bounds under which every intermediate of a pass fits its
    /// integer type.
    pub open spec fn wf(self) -> bool {
        &&& self.shape_pos.in_range(MAX_COORD as int)
        &&& self.shape_linvel.in_range(MAX_SPEED as int)
        &&& 0 <= self.max_toi <= MAX_TIME
        &&& 0 <= self.padding <= MAX_COORD
    }
}

/// A sweep oracle's report of the first obstacle met along a movement.
#[derive(Clone, Copy, Debug, PartialEq, Eq, Structural)]
pub struct SweepHit {
    /// Quanta of movement consumed before first touch.
    pub toi: i64,
    /// Contact normal on the obstacle, nominally [`NORMAL_SCALE`] long.
    pub normal: Vec2,
    /// Witness point on the obstacle's boundary, in subunits.
    pub witness: Vec2,
}

/// A ray oracle's report: the shape may travel `toi_num / toi_den` quanta
/// along its velocity before its boundary reaches the witness point.
#[derive(Clone, Copy, Debug, PartialEq, Eq, Structural)]
pub struct RayHit {
    pub toi_num: i64,
    pub toi_den: i64,
}

/// The ray the oracle is asked to cast after a sweep hit: from `origin` (the
/// sweep's witness point), opposite `linvel`, against the moving shape
/// standing at `shape_pos` with rotation `shape_rot`, with unbounded range,
/// preferring a boundary intersection.
#[derive(Clone, Copy, Debug, PartialEq, Eq, Structural)]
pub struct RayQuery {
    pub shape_pos: Vec2,
    pub shape_rot: i64,
    pub origin: Vec2,
    pub linvel: Vec2,
}

/// How one contact is resolved.
#[derive(Clone, Copy, Debug, PartialEq, Eq, Structural)]
pub struct CollisionCorrection {
    /// Quanta of movement consumed, from the sweep.
    pub toi: i64,
    /// Contact normal of the touched surface, from the sweep.
    pub normal: Vec2,
    /// The exact stopping position of the shape at the moment of contact.
    pub hit_pos: Vec2,
    /// The stopping position shifted outward along the contact normal by the
    /// padding distance.  Position commits use this, never `hit_pos`:
    /// the pad keeps the shape strictly outside the obstacle so that
    /// rounding cannot make it phase through on the next tick.
    pub hit_pos_with_padding: Vec2,
    /// The requested velocity with its component along the contact normal
    /// removed: a frictionless slide along the surface.
    pub new_linvel: Vec2,
}

/// A sweep reply the engine will act on: the consumed movement lies within
/// this pass's budget and the normal is a nonzero vector of plausible size.
pub open spec fn hit_acceptable(a: GetCollisionCorrectionArgs, h: SweepHit) -> bool {
    &&& 0 <= h.toi <= a.max_toi
    &&& h.normal.x != 0 || h.normal.y != 0
    &&& h.normal.in_range(MAX_NORMAL as int)
}

/// A ray reply the engine will act on: a nonnegative rational number of
/// quanta with bounded terms.
pub open spec fn ray_acceptable(s: RayHit) -> bool {
    &&& 0 < s.toi_den <= MAX_TIME
    &&& 0 <= s.toi_num <= MAX_TIME
}

/// Exact stopping position: the shape advances `toi_num / toi_den` quanta
/// along its velocity, truncating toward zero.
pub open spec fn hit_pos_c(pos: int, vel: int, s: RayHit) -> int {
    pos + div_t(s.toi_num * vel, s.toi_den as int)
}

/// Padded stopping position: shifted `padding * n / NORMAL_SCALE` outward,
/// which is exactly `padding` along an exactly represented unit normal.
pub open spec fn padded_c(hit: int, padding: int, n: int) -> int {
    hit + div_t(padding * n, NORMAL_SCALE as int)
}

/// One component of the velocity rejection `v - ((v·n)/(n·n)) n`: what is
/// left of `v` after removing its component along `n`.
pub open spec fn reject_c(v: Vec2, n: Vec2, vc: int, nc: int) -> int {
    vc - div_t(v.dot(n) * nc, n.norm2())
}

/// Everything a pass computes stays within the engine's coordinate bounds.
pub open spec fn correction_in_range(a: GetCollisionCorrectionArgs, h: SweepHit, s: RayHit) -> bool {
    let hx = hit_pos_c(a.shape_pos.x as int, a.shape_linvel.x as int, s);
    let hy = hit_pos_c(a.shape_pos.y as int, a.shape_linvel.y as int, s);
    let px = padded_c(hx, a.padding as int, h.normal.x as int);
    let py = padded_c(hy, a.padding as int, h.normal.y as int);
    let nx = reject_c(a.shape_linvel, h.normal, a.shape_linvel.x as int, h.normal.x as int);
    let ny = reject_c(a.shape_linvel, h.normal, a.shape_linvel.y as int, h.normal.y as int);
    &&& abs_i(hx) <= MAX_COORD as int
    &&& abs_i(hy) <= MAX_COORD as int
    &&& abs_i(px) <= MAX_COORD as int
    &&& abs_i(py) <= MAX_COORD as int
    &&& abs_i(nx) <= MAX_SPEED as int
    &&& abs_i(ny) <= MAX_SPEED as int
}

/// What one pass makes of a sweep hit and a ray reply: `None` when either
/// reply fails the acceptance predicates or the computed values leave the
/// engine's bounds (degenerate geometry — the pass is skipped), otherwise
/// the exactly computed correction.
pub open spec fn correction_spec(a: GetCollisionCorrectionArgs, h: SweepHit, s: RayHit) -> Option<
    CollisionCorrection,
> {
    if a.wf() && hit_acceptable(a, h) && ray_acceptable(s) && correction_in_range(a, h, s) {
        let hx = hit_pos_c(a.shape_pos.x as int, a.shape_linvel.x as int, s);
        let hy = hit_pos_c(a.shape_pos.y as int, a.shape_linvel.y as int, s);
        Some(
            CollisionCorrection {
                toi: h.toi,
                normal: h.normal,
                hit_pos: Vec2 { x: hx as i64, y: hy as i64 },
                hit_pos_with_padding: Vec2 {
                    x: padded_c(hx, a.padding as int, h.normal.x as int) as i64,
                    y: padded_c(hy, a.padding as int, h.normal.y as int) as i64,
                },
                new_linvel: Vec2 {
                    x: reject_c(
                        a.shape_linvel,
                        h.normal,
                        a.shape_linvel.x as int,
                        h.normal.x as int,
                    ) as i64,
                    y: reject_c(
                        a.shape_linvel,
                        h.normal,
                        a.shape_linvel.y as int,
                        h.normal.y as int,
                    ) as i64,
                },
            },
        )
    } else {
        None
    }
}

/// What a usable correction guarantees about its own values: the consumed
/// movement fits the pass budget, and every computed coordinate is inside
/// the engine's bounds, so the next pass's arguments are well-formed again.
pub open spec fn correction_bounded(a: GetCollisionCorrectionArgs, c: CollisionCorrection) -> bool {
    &&& 0 <= c.toi <= a.max_toi
    &&& c.hit_pos.in_range(MAX_COORD as int)
    &&& c.hit_pos_with_padding.in_range(MAX_COORD as int)
    &&& c.new_linvel.in_range(MAX_SPEED as int)
    &&& c.normal.in_range(MAX_NORMAL as int)
    &&& (c.normal.x != 0 || c.normal.y != 0)
}

/// The ray query fired after a sweep hit: from the obstacle's witness
/// point, back against the moving shape, opposite the requested movement.
pub open spec fn ray_query_for(a: GetCollisionCorrectionArgs, h: SweepHit) -> RayQuery {
    RayQuery {
        shape_pos: a.shape_pos,
        shape_rot: a.shape_rot,
        origin: h.witness,
        linvel: a.shape_linvel,
    }
}

/// How a pass's outcome is accounted for by the oracle: some reply the
/// sweep closure could give explains it — `None` directly if the sweep
/// found nothing, otherwise through a reply of the ray closure and
/// [`correction_spec`].
pub open spec fn pass_explained<FS, FR>(
    sweep: FS,
    ray: FR,
    a: GetCollisionCorrectionArgs,
    r: Option<CollisionCorrection>,
) -> bool where
    FS: Fn(GetCollisionCorrectionArgs) -> Option<SweepHit>,
    FR: Fn(RayQuery) -> Option<RayHit>,
 {
    exists|ho: Option<SweepHit>|
        {
            &&& #[trigger] call_ensures(sweep, (a,), ho)
            &&& match ho {
                None => r is None,
                Some(h) => exists|so: Option<RayHit>|
                    {
                        &&& #[trigger] call_ensures(ray, (ray_query_for(a, h),), so)
                        &&& match so {
                            None => r is None,
                            Some(s) => r == correction_spec(a, h, s),
                        }
                    },
            }
        }
}

/// Resolve one contact, if there is one, along a movement: ask the sweep
/// oracle for the first obstacle in the way; on a hit, reconstruct the
/// contact on the moving shape's own boundary through the ray oracle, and
/// resolve it with [`correction_from_hit`].  Returns `None` when the
/// movement is free or the geometry is degenerate.
///
/// This never mutates caller state: it is a pure query-and-compute step,
/// safe to call speculatively.
pub fn get_collision_correction<FS, FR>(
    args: GetCollisionCorrectionArgs,
    sweep: &FS,
    ray: &FR,
) -> (r: Option<CollisionCorrection>) where
    FS: Fn(GetCollisionCorrectionArgs) -> Option<SweepHit>,
    FR: Fn(RayQuery) -> Option<RayHit>,

    requires
        args.wf(),
        forall|q: GetCollisionCorrectionArgs| #[trigger] call_requires(*sweep, (q,)),
        forall|q: RayQuery| #[trigger] call_requires(*ray, (q,)),
    ensures
        pass_explained(*sweep, *ray, args, r),
        r matches Some(c) ==> correction_bounded(args, c),
{
    let hit = sweep(args);
    match hit {
        Some(h) => {
            let q = RayQuery {
                shape_pos: args.shape_pos,
                shape_rot: args.shape_rot,
                origin: h.witness,
                linvel: args.shape_linvel,
            };
            let ray_toi = ray(q);
            proof {
                assert(q == ray_query_for(args, h));
                assert(call_ensures(*ray, (ray_query_for(args, h),), ray_toi));
            }
            match ray_toi {
                Some(s) => {
                    let c = correction_from_hit(args, h, s);
                    proof {
                        assert(call_ensures(*sweep, (args,), Some(h)));
                        assert(call_ensures(*ray, (ray_query_for(args, h),), Some(s)));
                    }
                    c
                },
                None => None,
            }
        },
        None => None,
    }
}

/// Where the multi-pass correction loop left the object.
#[derive(Debug)]
pub struct MultipassCollisionCorrection {
    /// Final resolved position, in subunits: the last padded contact
    /// position, with any leftover movement applied if the final pass ran
    /// free.
    pub pos: Vec2,
    /// Contact normal of every surface touched this tick, in pass order.
    /// When this is as long as the pass budget, the object was arrested.
    pub normals: Vec<Vec2>,
}

/// The arguments of pass `i` of the correction loop: each pass with a
/// usable correction restarts the next one from the padded contact
/// position, with the corrected velocity, on the remaining movement budget.
pub open spec fn args_after(
    a0: GetCollisionCorrectionArgs,
    cs: Seq<Option<CollisionCorrection>>,
    i: int,
) -> GetCollisionCorrectionArgs
    decreases i,
{
    if i <= 0 {
        a0
    } else {
        let prev = args_after(a0, cs, i - 1);
        match cs[i - 1] {
            Some(c) => GetCollisionCorrectionArgs {
                shape_pos: c.hit_pos_with_padding,
                shape_linvel: c.new_linvel,
                max_toi: (prev.max_toi - c.toi) as i64,
                ..prev
            },
            None => prev,
        }
    }
}

/// Pass `i`'s arguments read nothing past the first `i` passes.
pub proof fn lemma_args_after_prefix(
    a0: GetCollisionCorrectionArgs,
    cs1: Seq<Option<CollisionCorrection>>,
    cs2: Seq<Option<CollisionCorrection>>,
    i: int,
)
    requires
        0 <= i <= cs1.len(),
        cs1.len() <= cs2.len(),
        forall|j: int| 0 <= j < cs1.len() ==> cs1[j] == cs2[j],
    ensures
        args_after(a0, cs1, i) == args_after(a0, cs2, i),
    decreases i,
{
    if i > 0 {
        lemma_args_after_prefix(a0, cs1, cs2, i - 1);
    }
}

/// How many passes found a usable correction: all of them but a final
/// no-contact pass.
pub open spec fn some_count(cs: Seq<Option<CollisionCorrection>>) -> int {
    if cs.len() > 0 && cs.last() is None {
        cs.len() - 1
    } else {
        cs.len() as int
    }
}

/// The contact normals accumulated over a run of the loop, in pass order.
pub open spec fn normals_spec(cs: Seq<Option<CollisionCorrection>>) -> Seq<Vec2> {
    Seq::new(some_count(cs) as nat, |j: int| cs[j].unwrap().normal)
}

/// The final resolved position of a run of the loop, as exact integers.
/// `None` when the very first pass already found no contact; the position
/// of the last pass when the pass budget ran out while still contacting
/// (the object is arrested); otherwise the last padded contact position
/// with the leftover movement `linvel * max_toi` applied.
pub open spec fn resolved_pos_spec(
    a0: GetCollisionCorrectionArgs,
    cs: Seq<Option<CollisionCorrection>>,
) -> Option<(int, int)> {
    let af = args_after(a0, cs, cs.len() as int);
    if some_count(cs) == 0 {
        None
    } else if cs.last() is Some {
        Some((af.shape_pos.x as int, af.shape_pos.y as int))
    } else {
        Some(
            (
                af.shape_pos.x + af.shape_linvel.x * af.max_toi,
                af.shape_pos.y + af.shape_linvel.y * af.max_toi,
            ),
        )
    }
}

/// The shape of a completed run of the correction loop under a budget of
/// `iters` passes, with the per-pass outcomes `cs`: the loop ran at least
/// one pass if it could, never more than `iters`, and stopped early only on
/// a pass with no usable correction.
pub open spec fn multipass_trace_ok(
    iters: int,
    cs: Seq<Option<CollisionCorrection>>,
) -> bool {
    &&& cs.len() <= iters
    &&& (iters == 0 ==> cs.len() == 0)
    &&& (iters > 0 ==> cs.len() >= 1)
    &&& (cs.len() < iters ==> cs.len() == 0 || cs.last() is None)
    &&& (forall|j: int| 0 <= j < cs.len() - 1 ==> cs[j] is Some)
}

/// [`multipass_trace_ok`] together with how the loop's result is derived
/// from the trace.
pub open spec fn multipass_chain(
    a0: GetCollisionCorrectionArgs,
    iters: int,
    cs: Seq<Option<CollisionCorrection>>,
    r: Option<MultipassCollisionCorrection>,
) -> bool {
    &&& multipass_trace_ok(iters, cs)
    &&& match r {
        None => resolved_pos_spec(a0, cs) is None,
        Some(m) => {
            &&& resolved_pos_spec(a0, cs) == Some((m.pos.x as int, m.pos.y as int))
            &&& m.normals@ == normals_spec(cs)
        },
    }
}

/// Run up to `max_correction_iters` correction passes, re-aiming the
/// remaining movement after each contact and accumulating every contact
/// normal met, as [`multipass_chain`] describes.  Returns `None` when there
/// was no contact at all; the ghost sequence is the outcome of each pass
/// that ran, each accounted for by the oracle through [`pass_explained`].
pub fn get_collision_correction_multipass<FS, FR>(
    args: GetCollisionCorrectionArgs,
    max_correction_iters: usize,
    sweep: &FS,
    ray: &FR,
) -> (res: (Option<MultipassCollisionCorrection>, Ghost<Seq<Option<CollisionCorrection>>>)) where
    FS: Fn(GetCollisionCorrectionArgs) -> Option<SweepHit>,
    FR: Fn(RayQuery) -> Option<RayHit>,

    requires
        args.wf(),
        forall|q: GetCollisionCorrectionArgs| #[trigger] call_requires(*sweep, (q,)),
        forall|q: RayQuery| #[trigger] call_requires(*ray, (q,)),
    ensures
        multipass_chain(args, max_correction_iters as int, res.1@, res.0),
        forall|j: int|
            0 <= j < res.1@.len() ==> pass_explained(
                *sweep,
                *ray,
                args_after(args, res.1@, j),
                res.1@[j],
            ),
        res.0 matches Some(m) ==> m.normals@.len() <= max_correction_iters,
{
    let mut cur = args;
    let mut final_pos: Option<Vec2> = None;
    let mut normals: Vec<Vec2> = Vec::new();
    let mut done = false;
    let ghost mut cs: Seq<Option<CollisionCorrection>> = Seq::empty();
    let mut i: usize = 0;
    while i < max_correction_iters
        invariant
            args.wf(),
            forall|q: GetCollisionCorrectionArgs| #[trigger] call_requires(*sweep, (q,)),
            forall|q: RayQuery| #[trigger] call_requires(*ray, (q,)),
            0 <= i <= max_correction_iters,
            cs.len() <= i,
            !done ==> cs.len() == i,
            !done ==> forall|j: int| 0 <= j < cs.len() ==> cs[j] is Some,
            done ==> cs.len() >= 1 && cs.last() is None,
            forall|j: int| 0 <= j < cs.len() - 1 ==> cs[j] is Some,
            forall|j: int|
                0 <= j < cs.len() ==> pass_explained(*sweep, *ray, args_after(args, cs, j), cs[j]),
            cur == args_after(args, cs, cs.len() as int),
            cur.wf(),
            normals@ == normals_spec(cs),
            match final_pos {
                None => resolved_pos_spec(args, cs) is None,
                Some(p) => resolved_pos_spec(args, cs) == Some((p.x as int, p.y as int)),
            },
        decreases max_correction_iters - i,
    {
        if !done {
            let correction = get_collision_correction(cur, sweep, ray);
            let ghost cs0 = cs;
            proof {
                cs = cs.push(correction);
                assert forall|j: int| 0 <= j < cs.len() implies pass_explained(
                    *sweep,
                    *ray,
                    args_after(args, cs, j),
                    cs[j],
                ) by {
                    lemma_args_after_prefix(args, cs0, cs, j);
                    if j < cs0.len() {
                        assert(pass_explained(*sweep, *ray, args_after(args, cs0, j), cs0[j]));
                    }
                }
                lemma_args_after_prefix(args, cs0, cs, cs0.len() as int);
            }
            match correction {
                Some(c) => {
                    normals.push(c.normal);
                    final_pos = Some(c.hit_pos_with_padding);
                    cur = GetCollisionCorrectionArgs {
                        shape_pos: c.hit_pos_with_padding,
                        shape_linvel: c.new_linvel,
                        max_toi: cur.max_toi - c.toi,
                        ..cur
                    };
                    proof {
                        assert(normals@ =~= normals_spec(cs));
                    }
                },
                None => {
                    if let Some(p) = final_pos {
                        proof {
                            assert(resolved_pos_spec(args, cs0) == Some(
                                (p.x as int, p.y as int),
                            ));
                            assert(some_count(cs0) > 0);
                            assert(p.x == cur.shape_pos.x && p.y == cur.shape_pos.y);
                            crate::math::lemma_abs_mul_le(
                                cur.shape_linvel.x as int,
                                cur.max_toi as int,
                                MAX_SPEED as int,
                                MAX_TIME as int,
                            );
                            crate::math::lemma_abs_mul_le(
                                cur.shape_linvel.y as int,
                                cur.max_toi as int,
                                MAX_SPEED as int,
                                MAX_TIME as int,
                            );
                        }
                        let lx = (p.x as i128) + crate::math::mul_i64(
                            cur.shape_linvel.x,
                            cur.max_toi,
                        );
                        let ly = (p.y as i128) + crate::math::mul_i64(
                            cur.shape_linvel.y,
                            cur.max_toi,
                        );
                        final_pos = Some(Vec2 { x: lx as i64, y: ly as i64 });
                    }
                    done = true;
                    proof {
                        assert(normals@ =~= normals_spec(cs));
                    }
                },
            }
        }
        i += 1;
    }
    let ghost csr = cs;
    match final_pos {
        Some(pos) => (Some(MultipassCollisionCorrection { pos, normals }), Ghost(csr)),
        None => (None, Ghost(csr)),
    }
}

/// Resolve one contact from the oracle's replies: the exact stopping
/// position, its padded counterpart, and the velocity left after removing
/// the component along the contact normal.
pub fn correction_from_hit(a: GetCollisionCorrectionArgs, h: SweepHit, s: RayHit) -> (r: Option<
    CollisionCorrection,
>)
    requires
        a.wf(),
    ensures
        r == correction_spec(a, h, s),
        r matches Some(c) ==> correction_bounded(a, c),
{
    // Acceptance checks on the oracle's replies.
    if !(0 <= h.toi && h.toi <= a.max_toi) {
        return None;
    }
    if h.normal.x == 0 && h.normal.y == 0 {
        return None;
    }
    if !(-MAX_NORMAL <= h.normal.x && h.normal.x <= MAX_NORMAL && -MAX_NORMAL <= h.normal.y
        && h.normal.y <= MAX_NORMAL) {
        return None;
    }
    if !(0 < s.toi_den && s.toi_den <= MAX_TIME && 0 <= s.toi_num && s.toi_num <= MAX_TIME) {
        return None;
    }
    let v = a.shape_linvel;
    let n = h.normal;
    proof {
        crate::math::lemma_abs_mul_le(
            s.toi_num as int,
            v.x as int,
            MAX_TIME as int,
            MAX_SPEED as int,
        );
        crate::math::lemma_abs_mul_le(
            s.toi_num as int,
            v.y as int,
            MAX_TIME as int,
            MAX_SPEED as int,
        );
        crate::math::lemma_div_t_bound(s.toi_num * v.x, s.toi_den as int);
        crate::math::lemma_div_t_bound(s.toi_num * v.y, s.toi_den as int);
        crate::math::lemma_abs_mul_le(
            a.padding as int,
            n.x as int,
            MAX_COORD as int,
            MAX_NORMAL as int,
        );
        crate::math::lemma_abs_mul_le(
            a.padding as int,
            n.y as int,
            MAX_COORD as int,
            MAX_NORMAL as int,
        );
        crate::math::lemma_div_t_bound(a.padding * n.x, NORMAL_SCALE as int);
        crate::math::lemma_div_t_bound(a.padding * n.y, NORMAL_SCALE as int);
    }

    // Exact stopping position along the velocity.
    let hx = (a.shape_pos.x as i128) + crate::math::div_trunc(
        crate::math::mul_i64(s.toi_num, v.x),
        s.toi_den as i128,
    );
    let hy = (a.shape_pos.y as i128) + crate::math::div_trunc(
        crate::math::mul_i64(s.toi_num, v.y),
        s.toi_den as i128,
    );
    if !(-MAX_COORD as i128 <= hx && hx <= MAX_COORD as i128 && -MAX_COORD as i128 <= hy && hy
        <= MAX_COORD as i128) {
        return None;
    }

    // Padded stopping position along the contact normal.
    let px = hx + crate::math::div_trunc(
        crate::math::mul_i64(a.padding, n.x),
        NORMAL_SCALE as i128,
    );
    let py = hy + crate::math::div_trunc(
        crate::math::mul_i64(a.padding, n.y),
        NORMAL_SCALE as i128,
    );
    if !(-MAX_COORD as i128 <= px && px <= MAX_COORD as i128 && -MAX_COORD as i128 <= py && py
        <= MAX_COORD as i128) {
        return None;
    }

    // Velocity rejection: remove the component along the normal.
    proof {
        crate::vec2::lemma_norm2_pos(n);
        crate::vec2::lemma_dot_bound(v, n, MAX_SPEED as int, MAX_NORMAL as int);
        crate::vec2::lemma_dot_bound(n, n, MAX_NORMAL as int, MAX_NORMAL as int);
    }
    let d = crate::vec2::dot_i64(v, n);
    let nn = crate::vec2::dot_i64(n, n);
    proof {
        crate::math::lemma_abs_mul_le(
            d as int,
            n.x as int,
            2 * ((MAX_SPEED as int) * (MAX_NORMAL as int)),
            MAX_NORMAL as int,
        );
        crate::math::lemma_abs_mul_le(
            d as int,
            n.y as int,
            2 * ((MAX_SPEED as int) * (MAX_NORMAL as int)),
            MAX_NORMAL as int,
        );
        crate::math::lemma_div_t_bound(d * n.x, nn as int);
        crate::math::lemma_div_t_bound(d * n.y, nn as int);
    }
    let qx = crate::math::div_trunc(d * (n.x as i128), nn);
    let qy = crate::math::div_trunc(d * (n.y as i128), nn);
    let nvx = (v.x as i128) - qx;
    let nvy = (v.y as i128) - qy;
    if !(-MAX_SPEED as i128 <= nvx && nvx <= MAX_SPEED as i128 && -MAX_SPEED as i128 <= nvy && nvy
        <= MAX_SPEED as i128) {
        return None;
    }

    Some(
        CollisionCorrection {
            toi: h.toi,
            normal: h.normal,
            hit_pos: Vec2 { x: hx as i64, y: hy as i64 },
            hit_pos_with_padding: Vec2 { x: px as i64, y: py as i64 },
            new_linvel: Vec2 { x: nvx as i64, y: nvy as i64 },
        },
    )
}

/// The arguments the integration step hands the correction loop: the sweep
/// uses the trapezoidal effective velocity over the whole tick budget.
pub open spec fn integration_args(
    pos: Vec2,
    rot: i64,
    vel: KinematicVelocity,
    dt: i64,
    padding: i64,
) -> GetCollisionCorrectionArgs {
    GetCollisionCorrectionArgs {
        shape_pos: pos,
        shape_rot: rot,
        shape_linvel: Vec2 {
            x: effective_component(vel.prev_linvel.x as int, vel.linvel.x as int, 1) as i64,
            y: effective_component(vel.prev_linvel.y as int, vel.linvel.y as int, 1) as i64,
        },
        max_toi: dt,
        padding,
    }
}

/// One integration step for one moving object, run once per simulation
/// tick.
///
/// Below the rest threshold the object's velocity is zeroed and nothing
/// else changes: sweeping a near-zero vector is numerical noise, and the
/// direction of a near-zero velocity is not meaningful.  Otherwise the
/// multi-pass correction loop runs on the trapezoidal effective velocity
/// with the tick duration `dt` as its budget; if it found any contact the
/// padded resolved position is committed and the touching set replaced by
/// this tick's contact normals, and if the movement was entirely free the
/// position advances by plain Euler integration `linvel * dt` and the
/// touching set is cleared.  Either way the step ends by remembering the
/// current velocity for the next tick's trapezoidal estimate.
///
/// The returned ghost trace is the correction loop's per-pass outcome
/// sequence, each pass accounted for by the oracle through
/// [`pass_explained`]; an empty trace means the object was at rest.
pub fn adjust_object<FS, FR>(
    k_object: &mut KinematicObject,
    shape_pos: &mut Vec2,
    shape_vel: &mut KinematicVelocity,
    shape_rot: i64,
    dt: i64,
    padding: i64,
    rest_threshold: i64,
    sweep: &FS,
    ray: &FR,
) -> (trace: Ghost<Seq<Option<CollisionCorrection>>>) where
    FS: Fn(GetCollisionCorrectionArgs) -> Option<SweepHit>,
    FR: Fn(RayQuery) -> Option<RayHit>,

    requires
        old(shape_pos).in_range(MAX_COORD as int),
        old(shape_vel).linvel.in_range(MAX_OBJECT_SPEED as int),
        old(shape_vel).prev_linvel.in_range(MAX_OBJECT_SPEED as int),
        0 <= dt <= MAX_TIME,
        0 <= padding <= MAX_COORD,
        0 <= rest_threshold <= MAX_SPEED,
        forall|q: GetCollisionCorrectionArgs| #[trigger] call_requires(*sweep, (q,)),
        forall|q: RayQuery| #[trigger] call_requires(*ray, (q,)),
    ensures
        old(shape_vel).linvel.norm2() < rest_threshold * rest_threshold ==> {
            &&& *final(shape_pos) == *old(shape_pos)
            &&& final(k_object).touching@ == old(k_object).touching@
            &&& *final(shape_vel) == (KinematicVelocity {
                prev_linvel: Vec2 { x: 0, y: 0 },
                linvel: Vec2 { x: 0, y: 0 },
                ..*old(shape_vel)
            })
            &&& trace@.len() == 0
        },
        old(shape_vel).linvel.norm2() >= rest_threshold * rest_threshold ==> {
            let a0 = integration_args(*old(shape_pos), shape_rot, *old(shape_vel), dt, padding);
            &&& multipass_trace_ok(MAX_CORRECTION_ITERS as int, trace@)
            &&& forall|j: int|
                0 <= j < trace@.len() ==> pass_explained(
                    *sweep,
                    *ray,
                    args_after(a0, trace@, j),
                    trace@[j],
                )
            &&& match resolved_pos_spec(a0, trace@) {
                None => {
                    &&& final(shape_pos).x as int == old(shape_pos).x + old(
                        shape_vel,
                    ).linvel.x * dt
                    &&& final(shape_pos).y as int == old(shape_pos).y + old(
                        shape_vel,
                    ).linvel.y * dt
                    &&& final(k_object).touching@ == Seq::<Vec2>::empty()
                },
                Some(p) => {
                    &&& final(shape_pos).x as int == p.0
                    &&& final(shape_pos).y as int == p.1
                    &&& final(k_object).touching@ == normals_spec(trace@)
                },
            }
            &&& *final(shape_vel) == (KinematicVelocity {
                prev_linvel: old(shape_vel).linvel,
                ..*old(shape_vel)
            })
        },
{
    let sp = crate::vec2::dot_i64(shape_vel.linvel, shape_vel.linvel);
    let thr = crate::math::mul_i64(rest_threshold, rest_threshold);
    if sp < thr {
        shape_vel.halt_linvel();
        return Ghost(Seq::empty());
    }

    let eff = shape_vel.effective_linvel(1);
    proof {
        crate::math::lemma_div_t_bound(shape_vel.linvel.x * 1, 2);
        crate::math::lemma_div_t_bound(shape_vel.linvel.y * 1, 2);
    }
    let args = GetCollisionCorrectionArgs {
        shape_pos: *shape_pos,
        shape_rot,
        shape_linvel: eff,
        max_toi: dt,
        padding,
    };
    let (r, trace) = get_collision_correction_multipass(args, MAX_CORRECTION_ITERS, sweep, ray);
    match r {
        Some(m) => {
            k_object.touching = m.normals;
            *shape_pos = m.pos;
        },
        None => {
            proof {
                crate::math::lemma_abs_mul_le(
                    shape_vel.linvel.x as int,
                    dt as int,
                    MAX_OBJECT_SPEED as int,
                    MAX_TIME as int,
                );
                crate::math::lemma_abs_mul_le(
                    shape_vel.linvel.y as int,
                    dt as int,
                    MAX_OBJECT_SPEED as int,
                    MAX_TIME as int,
                );
            }
            let nx = (shape_pos.x as i128) + crate::math::mul_i64(shape_vel.linvel.x, dt);
            let ny = (shape_pos.y as i128) + crate::math::mul_i64(shape_vel.linvel.y, dt);
            *shape_pos = Vec2 { x: nx as i64, y: ny as i64 };
            k_object.touching = Vec::new();
        },
    }
    shape_vel.update_prev_linvel();
    trace
}

} // verus!
