//! Contact velocity constraints and their PGS sweep.
//!
//! One `VelocityConstraint` covers up to [`MAX_MANIFOLD_POINTS`] contact
//! points of one manifold. Each point carries a normal sub-constraint and
//! two tangent (friction) sub-constraints. `warmstart` pushes the cached
//! impulses into the shared velocity-delta buffer exactly as one PGS step
//! would; `solve` runs one sweep (friction first, then non-penetration);
//! `writeback_impulses` persists the accumulated impulses into the
//! manifold for the next step's warm start.
//!
//! Every mutation is pinned to spec-level folds (`warmstart_pass`,
//! `friction_pass`, `normal_pass`) over the constraint's spec model, so a
//! caller knows the resulting impulses and velocity deltas exactly.

use vstd::prelude::*;

use crate::fx::fabs;
use crate::fx::fclamp;
use crate::fx::fmax;
use crate::fx::fmul;
use crate::fx::fneg;
use crate::fx::fsub;
use crate::fx::fadd;
use crate::fx::fx_abs;
use crate::fx::fx_add;
use crate::fx::fx_clamp;
use crate::fx::fx_max;
use crate::fx::fx_mul;
use crate::fx::fx_neg;
use crate::fx::fx_sub;
use crate::fx::SCALE;
use crate::math::v_add;
use crate::math::v_cross;
use crate::math::v_dot;
use crate::math::v_normalize;
use crate::math::v_neg;
use crate::math::v_sub;
use crate::math::m_mul_v;
use crate::math::Mat3;
use crate::math::v_scale;
use crate::math::DeltaVel;
use crate::math::dv_add;
use crate::math::dv_zero;
use crate::math::Vec3;
use crate::manifold::ContactManifold;
use crate::manifold::ManifoldModel;
use crate::manifold::SolverContact;
use crate::manifold::manifold_wf;
use crate::body::RigidBody;
use crate::body::RigidBodySet;
use crate::body::IntegrationParameters;
use crate::body::params_wf;
use crate::fx::fmin;
use crate::fx::fx_min;
use crate::fx::fx_inv;
use crate::fx::finv;

verus! {

/// Largest number of contact points one constraint batch covers.
pub const MAX_MANIFOLD_POINTS: usize = 4;

/// One sub-constraint (normal or tangent) of one contact point:
/// the two body-space angular Jacobian terms, the right-hand side, the
/// accumulated impulse, and the effective-mass reciprocal `r`.
#[derive(Clone, Copy, Debug, PartialEq, Eq, Structural)]
pub struct VelocityConstraintElementPart {
    pub gcross1: Vec3,
    pub gcross2: Vec3,
    pub rhs: i64,
    pub impulse: i64,
    pub r: i64,
}

impl VelocityConstraintElementPart {
    /// An all-zero sub-constraint.
    pub fn zero() -> (r: VelocityConstraintElementPart)
        ensures
            r == (VelocityConstraintElementPart {
                gcross1: Vec3 { x: 0, y: 0, z: 0 },
                gcross2: Vec3 { x: 0, y: 0, z: 0 },
                rhs: 0i64,
                impulse: 0i64,
                r: 0i64,
            }),
    {
        VelocityConstraintElementPart {
            gcross1: Vec3::zero(),
            gcross2: Vec3::zero(),
            rhs: 0,
            impulse: 0,
            r: 0,
        }
    }
}

/// The sub-constraints of one contact point: one normal part and one part
/// per tangent direction.
#[derive(Clone, Copy, Debug, PartialEq, Eq, Structural)]
pub struct VelocityConstraintElement {
    pub normal_part: VelocityConstraintElementPart,
    pub tangent_part_a: VelocityConstraintElementPart,
    pub tangent_part_b: VelocityConstraintElementPart,
}

impl VelocityConstraintElement {
    /// An all-zero element.
    pub fn zero() -> (r: VelocityConstraintElement)
        ensures
            r == (VelocityConstraintElement {
                normal_part: VelocityConstraintElementPart {
                    gcross1: Vec3 { x: 0, y: 0, z: 0 },
                    gcross2: Vec3 { x: 0, y: 0, z: 0 },
                    rhs: 0i64,
                    impulse: 0i64,
                    r: 0i64,
                },
                tangent_part_a: VelocityConstraintElementPart {
                    gcross1: Vec3 { x: 0, y: 0, z: 0 },
                    gcross2: Vec3 { x: 0, y: 0, z: 0 },
                    rhs: 0i64,
                    impulse: 0i64,
                    r: 0i64,
                },
                tangent_part_b: VelocityConstraintElementPart {
                    gcross1: Vec3 { x: 0, y: 0, z: 0 },
                    gcross2: Vec3 { x: 0, y: 0, z: 0 },
                    rhs: 0i64,
                    impulse: 0i64,
                    r: 0i64,
                },
            }),
    {
        VelocityConstraintElement {
            normal_part: VelocityConstraintElementPart::zero(),
            tangent_part_a: VelocityConstraintElementPart::zero(),
            tangent_part_b: VelocityConstraintElementPart::zero(),
        }
    }
}

/// The spec-level image of a velocity constraint.
pub struct VcModel {
    pub dir1: Vec3,
    pub im1: i64,
    pub im2: i64,
    pub limit: i64,
    pub mj_lambda1: int,
    pub mj_lambda2: int,
    pub manifold_id: int,
    pub manifold_contact_id: Seq<u8>,
    pub num_contacts: int,
    pub elements: Seq<VelocityConstraintElement>,
}

/// One manifold batch's velocity constraint.
///
/// `dir1` is the non-penetration force direction for the first body (the
/// negated manifold normal), `limit` the friction coefficient, and
/// `mj_lambda1`/`mj_lambda2` the two bodies' slots in the shared
/// velocity-delta buffer. `manifold_contact_id[k]` is the stable index of
/// contact `k` in the manifold's point list, used at writeback.
pub struct VelocityConstraint {
    pub dir1: Vec3,
    pub im1: i64,
    pub im2: i64,
    pub limit: i64,
    pub mj_lambda1: usize,
    pub mj_lambda2: usize,
    pub manifold_id: usize,
    pub manifold_contact_id: Vec<u8>,
    pub num_contacts: u8,
    pub elements: Vec<VelocityConstraintElement>,
}

impl View for VelocityConstraint {
    type V = VcModel;

    open spec fn view(&self) -> VcModel {
        VcModel {
            dir1: self.dir1,
            im1: self.im1,
            im2: self.im2,
            limit: self.limit,
            mj_lambda1: self.mj_lambda1 as int,
            mj_lambda2: self.mj_lambda2 as int,
            manifold_id: self.manifold_id as int,
            manifold_contact_id: self.manifold_contact_id@,
            num_contacts: self.num_contacts as int,
            elements: self.elements@,
        }
    }
}

/// Shape invariant of a constraint: one element and one contact id per
/// contact, at most a batch of them, and a non-negative friction limit.
pub open spec fn vc_wf(c: VcModel) -> bool {
    &&& c.elements.len() == c.num_contacts
    &&& c.manifold_contact_id.len() == c.num_contacts
    &&& 0 <= c.num_contacts <= MAX_MANIFOLD_POINTS as int
    &&& c.limit >= 0
}

/// All accumulated normal impulses of `c` are non-negative.
pub open spec fn vc_normals_nonneg(c: VcModel) -> bool {
    forall|k: int|
        0 <= k < c.elements.len() ==> (#[trigger] c.elements[k]).normal_part.impulse >= 0
}

/// The coordinate axis along which `d` is smallest in magnitude.
pub open spec fn least_axis(d: Vec3) -> Vec3 {
    if fx_abs(d.x) <= fx_abs(d.y) && fx_abs(d.x) <= fx_abs(d.z) {
        Vec3 { x: SCALE, y: 0, z: 0 }
    } else if fx_abs(d.y) <= fx_abs(d.z) {
        Vec3 { x: 0, y: SCALE, z: 0 }
    } else {
        Vec3 { x: 0, y: 0, z: SCALE }
    }
}

/// First tangent of the orthonormal basis completing `d`.
pub open spec fn basis_a(d: Vec3) -> Vec3 {
    v_normalize(v_cross(d, least_axis(d)))
}

/// Second tangent of the orthonormal basis completing `d`.
pub open spec fn basis_b(d: Vec3) -> Vec3 {
    v_normalize(v_cross(d, basis_a(d)))
}

/// The two tangent directions completing `d` to a basis: `d` is crossed
/// with the coordinate axis least aligned with it and the result is
/// normalized; the second tangent is the normalized cross of `d` with the
/// first.
pub fn orthonormal_basis(d: &Vec3) -> (r: (Vec3, Vec3))
    ensures
        r.0 == basis_a(*d),
        r.1 == basis_b(*d),
{
    let ax: i64 = fabs(d.x);
    let ay: i64 = fabs(d.y);
    let az: i64 = fabs(d.z);
    let e: Vec3 = if ax <= ay && ax <= az {
        Vec3 { x: SCALE, y: 0, z: 0 }
    } else if ay <= az {
        Vec3 { x: 0, y: SCALE, z: 0 }
    } else {
        Vec3 { x: 0, y: 0, z: SCALE }
    };
    let ta: Vec3 = d.cross(&e).normalize();
    let tb: Vec3 = d.cross(&ta).normalize();
    (ta, tb)
}

/// Relative velocity of the bodies along `dir` under the deltas `l1`,
/// `l2`, plus the sub-constraint's right-hand side. The second body's
/// angular term is added, not subtracted: `gcross2` already carries the
/// opposite sign from assembly.
pub open spec fn part_dimpulse(
    dir: Vec3,
    p: VelocityConstraintElementPart,
    l1: DeltaVel,
    l2: DeltaVel,
) -> i64 {
    fx_add(
        fx_add(
            fx_sub(
                fx_add(v_dot(dir, l1.linear), v_dot(p.gcross1, l1.angular)),
                v_dot(dir, l2.linear),
            ),
            v_dot(p.gcross2, l2.angular),
        ),
        p.rhs,
    )
}

/// First body's delta after an impulse change `dl` along `dir`.
pub open spec fn apply_impulse1(
    dir: Vec3,
    p: VelocityConstraintElementPart,
    im1: i64,
    dl: i64,
    l1: DeltaVel,
) -> DeltaVel {
    DeltaVel {
        linear: v_add(l1.linear, v_scale(dir, fx_mul(im1, dl))),
        angular: v_add(l1.angular, v_scale(p.gcross1, dl)),
    }
}

/// Second body's delta after an impulse change `dl` along `dir`.
pub open spec fn apply_impulse2(
    dir: Vec3,
    p: VelocityConstraintElementPart,
    im2: i64,
    dl: i64,
    l2: DeltaVel,
) -> DeltaVel {
    DeltaVel {
        linear: v_add(l2.linear, v_scale(dir, fx_mul(fx_neg(im2), dl))),
        angular: v_add(l2.angular, v_scale(p.gcross2, dl)),
    }
}

/// One friction sub-iteration: the trial impulse is clamped to the cone
/// `[-limit * n_impulse, +limit * n_impulse]` around the contact's current
/// normal impulse, and the change is applied to both deltas.
pub open spec fn solve_tangent_part(
    dir: Vec3,
    limit: i64,
    n_impulse: i64,
    im1: i64,
    im2: i64,
    p: VelocityConstraintElementPart,
    l1: DeltaVel,
    l2: DeltaVel,
) -> (VelocityConstraintElementPart, DeltaVel, DeltaVel) {
    let dimp = part_dimpulse(dir, p, l1, l2);
    let lim = fx_mul(limit, n_impulse);
    let new_imp = fx_clamp(fx_sub(p.impulse, fx_mul(p.r, dimp)), fx_neg(lim), lim);
    let dl = fx_sub(new_imp, p.impulse);
    (
        VelocityConstraintElementPart { impulse: new_imp, ..p },
        apply_impulse1(dir, p, im1, dl, l1),
        apply_impulse2(dir, p, im2, dl, l2),
    )
}

/// One non-penetration sub-iteration: the trial impulse is projected onto
/// the non-negative cone, and the change is applied to both deltas.
pub open spec fn solve_normal_part(
    dir: Vec3,
    im1: i64,
    im2: i64,
    p: VelocityConstraintElementPart,
    l1: DeltaVel,
    l2: DeltaVel,
) -> (VelocityConstraintElementPart, DeltaVel, DeltaVel) {
    let dimp = part_dimpulse(dir, p, l1, l2);
    let new_imp = fx_max(fx_sub(p.impulse, fx_mul(p.r, dimp)), 0);
    let dl = fx_sub(new_imp, p.impulse);
    (
        VelocityConstraintElementPart { impulse: new_imp, ..p },
        apply_impulse1(dir, p, im1, dl, l1),
        apply_impulse2(dir, p, im2, dl, l2),
    )
}

/// Friction step of one contact: both tangent sub-constraints in order,
/// clamped against the contact's current normal impulse.
pub open spec fn friction_contact(
    dir: Vec3,
    im1: i64,
    im2: i64,
    limit: i64,
    e: VelocityConstraintElement,
    l1: DeltaVel,
    l2: DeltaVel,
) -> (VelocityConstraintElement, DeltaVel, DeltaVel) {
    let sa = solve_tangent_part(
        basis_a(dir),
        limit,
        e.normal_part.impulse,
        im1,
        im2,
        e.tangent_part_a,
        l1,
        l2,
    );
    let sb = solve_tangent_part(
        basis_b(dir),
        limit,
        e.normal_part.impulse,
        im1,
        im2,
        e.tangent_part_b,
        sa.1,
        sa.2,
    );
    (VelocityConstraintElement { tangent_part_a: sa.0, tangent_part_b: sb.0, ..e }, sb.1, sb.2)
}

/// Friction sweep over the first `n` contacts, threading the deltas.
pub open spec fn friction_pass(
    dir: Vec3,
    im1: i64,
    im2: i64,
    limit: i64,
    elems: Seq<VelocityConstraintElement>,
    l1: DeltaVel,
    l2: DeltaVel,
    n: int,
) -> (Seq<VelocityConstraintElement>, DeltaVel, DeltaVel)
    decreases n,
{
    if n <= 0 {
        (Seq::empty(), l1, l2)
    } else {
        let prev = friction_pass(dir, im1, im2, limit, elems, l1, l2, n - 1);
        let step = friction_contact(dir, im1, im2, limit, elems[n - 1], prev.1, prev.2);
        (prev.0.push(step.0), step.1, step.2)
    }
}

/// Non-penetration step of one contact.
pub open spec fn normal_contact(
    dir: Vec3,
    im1: i64,
    im2: i64,
    e: VelocityConstraintElement,
    l1: DeltaVel,
    l2: DeltaVel,
) -> (VelocityConstraintElement, DeltaVel, DeltaVel) {
    let sn = solve_normal_part(dir, im1, im2, e.normal_part, l1, l2);
    (VelocityConstraintElement { normal_part: sn.0, ..e }, sn.1, sn.2)
}

/// Non-penetration sweep over the first `n` contacts.
pub open spec fn normal_pass(
    dir: Vec3,
    im1: i64,
    im2: i64,
    elems: Seq<VelocityConstraintElement>,
    l1: DeltaVel,
    l2: DeltaVel,
    n: int,
) -> (Seq<VelocityConstraintElement>, DeltaVel, DeltaVel)
    decreases n,
{
    if n <= 0 {
        (Seq::empty(), l1, l2)
    } else {
        let prev = normal_pass(dir, im1, im2, elems, l1, l2, n - 1);
        let step = normal_contact(dir, im1, im2, elems[n - 1], prev.1, prev.2);
        (prev.0.push(step.0), step.1, step.2)
    }
}

/// Warm-start contribution of one contact: each cached impulse is pushed
/// into both deltas exactly as one PGS step would push it.
pub open spec fn warmstart_contact(
    dir: Vec3,
    im1: i64,
    im2: i64,
    e: VelocityConstraintElement,
    l1: DeltaVel,
    l2: DeltaVel,
) -> (DeltaVel, DeltaVel) {
    let l1n = apply_impulse1(dir, e.normal_part, im1, e.normal_part.impulse, l1);
    let l2n = apply_impulse2(dir, e.normal_part, im2, e.normal_part.impulse, l2);
    let l1a = apply_impulse1(basis_a(dir), e.tangent_part_a, im1, e.tangent_part_a.impulse, l1n);
    let l2a = apply_impulse2(basis_a(dir), e.tangent_part_a, im2, e.tangent_part_a.impulse, l2n);
    let l1b = apply_impulse1(basis_b(dir), e.tangent_part_b, im1, e.tangent_part_b.impulse, l1a);
    let l2b = apply_impulse2(basis_b(dir), e.tangent_part_b, im2, e.tangent_part_b.impulse, l2a);
    (l1b, l2b)
}

/// Warm-start contributions of the first `n` contacts.
pub open spec fn warmstart_pass(
    dir: Vec3,
    im1: i64,
    im2: i64,
    elems: Seq<VelocityConstraintElement>,
    l1: DeltaVel,
    l2: DeltaVel,
    n: int,
) -> (DeltaVel, DeltaVel)
    decreases n,
{
    if n <= 0 {
        (l1, l2)
    } else {
        let prev = warmstart_pass(dir, im1, im2, elems, l1, l2, n - 1);
        warmstart_contact(dir, im1, im2, elems[n - 1], prev.0, prev.1)
    }
}

/// Number of batches a point list of length `npts` splits into.
pub open spec fn num_batches(npts: int) -> int {
    npts / (MAX_MANIFOLD_POINTS as int) + if npts % (MAX_MANIFOLD_POINTS as int) != 0 {
        1int
    } else {
        0int
    }
}


/// The manifold's point list after the accumulated impulses of the first
/// `n` contacts are stored back at their stable ids.
pub open spec fn writeback_points(c: VcModel, pts: Seq<SolverContact>, n: int) -> Seq<
    SolverContact,
>
    decreases n,
{
    if n <= 0 {
        pts
    } else {
        let prev = writeback_points(c, pts, n - 1);
        let cid = c.manifold_contact_id[n - 1] as int;
        prev.update(
            cid,
            SolverContact {
                impulse: c.elements[n - 1].normal_part.impulse,
                tangent_impulse_a: c.elements[n - 1].tangent_part_a.impulse,
                tangent_impulse_b: c.elements[n - 1].tangent_part_b.impulse,
                ..prev[cid]
            },
        )
    }
}


/// Right-hand side of a contact's normal part: restitution-scaled closing
/// speed, a separating-velocity target when the contact is separated,
/// fractional stabilization for resting contacts, and velocity-based
/// error reduction for penetrating resting contacts.
pub open spec fn normal_rhs(
    vel_frac: i64,
    inv_dt: i64,
    erp_inv_dt: i64,
    p: SolverContact,
    vel1: Vec3,
    vel2: Vec3,
    dir1: Vec3,
) -> i64 {
    let base = fx_mul(
        fx_add(SCALE, if p.is_bouncy { p.restitution } else { 0i64 }),
        v_dot(v_sub(vel1, vel2), dir1),
    );
    let with_sep = fx_add(base, fx_mul(fx_max(p.dist, 0), inv_dt));
    let scaled = fx_mul(with_sep, if p.is_bouncy { SCALE } else { vel_frac });
    fx_add(scaled, if p.is_bouncy { 0i64 } else { fx_mul(erp_inv_dt, fx_min(p.dist, 0)) })
}

/// One assembled sub-constraint along `dir`: the inertia-weighted angular
/// Jacobians of both bodies, the effective-mass reciprocal, the given
/// right-hand side and the seeded impulse.
pub open spec fn gen_part(
    dir: Vec3,
    iw1: Mat3,
    iw2: Mat3,
    im1: i64,
    im2: i64,
    dp1: Vec3,
    dp2: Vec3,
    rhs: i64,
    imp: i64,
) -> VelocityConstraintElementPart {
    let g1 = m_mul_v(iw1, v_cross(dp1, dir));
    let g2 = m_mul_v(iw2, v_cross(dp2, v_neg(dir)));
    VelocityConstraintElementPart {
        gcross1: g1,
        gcross2: g2,
        rhs: rhs,
        impulse: imp,
        r: fx_inv(fx_add(fx_add(fx_add(im1, im2), v_dot(g1, g1)), v_dot(g2, g2))),
    }
}

/// The assembled element of one solver contact.
pub open spec fn gen_element(
    vel_frac: i64,
    inv_dt: i64,
    erp_inv_dt: i64,
    wcoeff: i64,
    dir1: Vec3,
    rb1: RigidBody,
    rb2: RigidBody,
    p: SolverContact,
) -> VelocityConstraintElement {
    let dp1 = v_sub(p.point, rb1.world_com);
    let dp2 = v_sub(p.point, rb2.world_com);
    let vel1 = v_add(rb1.linvel, v_cross(rb1.angvel, dp1));
    let vel2 = v_add(rb2.linvel, v_cross(rb2.angvel, dp2));
    let ta = basis_a(dir1);
    let tb = basis_b(dir1);
    VelocityConstraintElement {
        normal_part: gen_part(
            dir1,
            rb1.sqrt_inv_inertia,
            rb2.sqrt_inv_inertia,
            rb1.im,
            rb2.im,
            dp1,
            dp2,
            normal_rhs(vel_frac, inv_dt, erp_inv_dt, p, vel1, vel2, dir1),
            fx_mul(p.impulse, wcoeff),
        ),
        tangent_part_a: gen_part(
            ta,
            rb1.sqrt_inv_inertia,
            rb2.sqrt_inv_inertia,
            rb1.im,
            rb2.im,
            dp1,
            dp2,
            v_dot(v_add(v_sub(vel1, vel2), p.tangent_velocity), ta),
            fx_mul(p.tangent_impulse_a, wcoeff),
        ),
        tangent_part_b: gen_part(
            tb,
            rb1.sqrt_inv_inertia,
            rb2.sqrt_inv_inertia,
            rb1.im,
            rb2.im,
            dp1,
            dp2,
            v_dot(v_add(v_sub(vel1, vel2), p.tangent_velocity), tb),
            fx_mul(p.tangent_impulse_b, wcoeff),
        ),
    }
}

/// The points of batch `l` of a manifold: the `l`-th chunk of at most
/// [`MAX_MANIFOLD_POINTS`] solver contacts.
pub open spec fn batch_points(m: ManifoldModel, l: int) -> Seq<SolverContact> {
    let start = l * (MAX_MANIFOLD_POINTS as int);
    let end = if start + (MAX_MANIFOLD_POINTS as int) <= m.points.len() {
        start + (MAX_MANIFOLD_POINTS as int)
    } else {
        m.points.len() as int
    };
    m.points.subrange(start, end)
}

/// The constraint assembled for batch `l` of a manifold between `rb1` and
/// `rb2`. The friction `limit` is the last chunk contact's coefficient
/// (batches are expected friction-homogeneous); the seeded impulses are
/// the cached ones scaled by the manifold's warm-start multiplier times
/// the step's warm-start coefficient.
pub open spec fn gen_constraint(
    params: IntegrationParameters,
    manifold_id: int,
    m: ManifoldModel,
    rb1: RigidBody,
    rb2: RigidBody,
    l: int,
) -> VcModel {
    let chunk = batch_points(m, l);
    let dir1 = v_neg(m.normal);
    let wcoeff = fx_mul(m.warmstart_multiplier, params.warmstart_coeff);
    VcModel {
        dir1: dir1,
        im1: rb1.im,
        im2: rb2.im,
        limit: if chunk.len() > 0 {
            chunk.last().friction
        } else {
            0i64
        },
        mj_lambda1: rb1.active_set_offset as int,
        mj_lambda2: rb2.active_set_offset as int,
        manifold_id: manifold_id,
        manifold_contact_id: chunk.map_values(|p: SolverContact| p.contact_id),
        num_contacts: chunk.len() as int,
        elements: Seq::new(
            chunk.len(),
            |j: int|
                gen_element(
                    params.velocity_solve_fraction,
                    fx_inv(params.dt),
                    fx_mul(params.velocity_based_erp, fx_inv(params.dt)),
                    wcoeff,
                    dir1,
                    rb1,
                    rb2,
                    chunk[j],
                ),
        ),
    }
}

/// Every constraint `generate` assembles from a well-formed manifold is
/// well formed, has non-negative seeded normal impulses, and addresses
/// the two bodies' active-set slots.
pub proof fn lemma_gen_constraint_wf(
    params: IntegrationParameters,
    manifold_id: int,
    m: ManifoldModel,
    rb1: RigidBody,
    rb2: RigidBody,
    l: int,
)
    requires
        manifold_wf(m),
        params_wf(params),
        0 <= l,
        l * (MAX_MANIFOLD_POINTS as int) < m.points.len(),
    ensures
        vc_wf(gen_constraint(params, manifold_id, m, rb1, rb2, l)),
        vc_normals_nonneg(gen_constraint(params, manifold_id, m, rb1, rb2, l)),
        gen_constraint(params, manifold_id, m, rb1, rb2, l).mj_lambda1
            == rb1.active_set_offset as int,
        gen_constraint(params, manifold_id, m, rb1, rb2, l).mj_lambda2
            == rb2.active_set_offset as int,
        gen_constraint(params, manifold_id, m, rb1, rb2, l).manifold_id == manifold_id,
        gen_constraint(params, manifold_id, m, rb1, rb2, l).num_contacts > 0,
        forall|k: int|
            0 <= k < gen_constraint(params, manifold_id, m, rb1, rb2, l).num_contacts
                ==> ((#[trigger] gen_constraint(
                params,
                manifold_id,
                m,
                rb1,
                rb2,
                l,
            ).manifold_contact_id[k]) as int) < m.points.len(),
{
    let c = gen_constraint(params, manifold_id, m, rb1, rb2, l);
    let chunk = batch_points(m, l);
    let start = l * (MAX_MANIFOLD_POINTS as int);
    assert(l * 4 >= 0) by (nonlinear_arith)
        requires
            l >= 0,
    ;
    assert(start == l * 4);
    assert(chunk.len() > 0);
    let wcoeff = fx_mul(m.warmstart_multiplier, params.warmstart_coeff);
    crate::fx::lemma_fx_mul_nonneg(m.warmstart_multiplier, params.warmstart_coeff);
    assert(chunk.last() == m.points[start + chunk.len() - 1]);
    assert forall|k: int| 0 <= k < c.num_contacts implies (#[trigger] c.elements[k])
        .normal_part.impulse >= 0 by {
        assert(chunk[k] == m.points[start + k]);
        assert(m.points[start + k].impulse >= 0);
        crate::fx::lemma_fx_mul_nonneg(m.points[start + k].impulse, wcoeff);
    }
    assert forall|k: int| 0 <= k < c.num_contacts implies
        ((#[trigger] c.manifold_contact_id[k]) as int) < m.points.len() by {
        assert(chunk[k] == m.points[start + k]);
    }
}

/// The result of one full PGS sweep of `c` starting from the two bodies'
/// deltas: friction first over all contacts, then non-penetration.
pub open spec fn solve_model(c: VcModel, l1: DeltaVel, l2: DeltaVel) -> (
    Seq<VelocityConstraintElement>,
    DeltaVel,
    DeltaVel,
) {
    let f = friction_pass(c.dir1, c.im1, c.im2, c.limit, c.elements, l1, l2, c.elements.len() as int);
    normal_pass(c.dir1, c.im1, c.im2, f.0, f.1, f.2, f.0.len() as int)
}


impl VelocityConstraint {
    /// How many constraint batches `manifold` produces: one per chunk of
    /// at most [`MAX_MANIFOLD_POINTS`] solver contacts.
    pub fn num_active_constraints(manifold: &ContactManifold) -> (r: usize)
        ensures
            r == num_batches(manifold@.points.len() as int),
    {
        let len: usize = manifold.points.len();
        let rest: usize = if len % MAX_MANIFOLD_POINTS != 0 {
            1
        } else {
            0
        };
        len / MAX_MANIFOLD_POINTS + rest
    }

    /// Pushes the seeded impulses into the shared delta buffer, exactly as
    /// one PGS step would: the two bodies' entries receive the summed
    /// contributions of every contact's normal and tangent parts.
    #[verifier::rlimit(100)]
    pub fn warmstart(&self, mj_lambdas: &mut Vec<DeltaVel>)
        requires
            vc_wf(self@),
            self@.mj_lambda1 < old(mj_lambdas)@.len(),
            self@.mj_lambda2 < old(mj_lambdas)@.len(),
        ensures
            final(mj_lambdas)@.len() == old(mj_lambdas)@.len(),
            (final(mj_lambdas)@ == {
                let w = warmstart_pass(
                    self@.dir1,
                    self@.im1,
                    self@.im2,
                    self@.elements,
                    dv_zero(),
                    dv_zero(),
                    self@.num_contacts,
                );
                let s1 = old(mj_lambdas)@.update(
                    self@.mj_lambda1,
                    dv_add(old(mj_lambdas)@[self@.mj_lambda1], w.0),
                );
                s1.update(self@.mj_lambda2, dv_add(s1[self@.mj_lambda2], w.1))
            }),
    {
        let mut mj_lambda1: DeltaVel = DeltaVel::zero();
        let mut mj_lambda2: DeltaVel = DeltaVel::zero();
        let basis: (Vec3, Vec3) = orthonormal_basis(&self.dir1);
        let ta: Vec3 = basis.0;
        let tb: Vec3 = basis.1;
        let n: usize = self.num_contacts as usize;
        let mut i: usize = 0;
        while i < n
            invariant
                vc_wf(self@),
                n == self@.num_contacts,
                i <= n,
                ta == basis_a(self@.dir1),
                tb == basis_b(self@.dir1),
                (mj_lambda1, mj_lambda2) == warmstart_pass(
                    self@.dir1,
                    self@.im1,
                    self@.im2,
                    self@.elements,
                    dv_zero(),
                    dv_zero(),
                    i as int,
                ),
                mj_lambdas@ == old(mj_lambdas)@,
            decreases n - i,
        {
            let ghost prev = warmstart_pass(
                self@.dir1,
                self@.im1,
                self@.im2,
                self@.elements,
                dv_zero(),
                dv_zero(),
                i as int,
            );
            let e: VelocityConstraintElement = self.elements[i];

            mj_lambda1.linear = mj_lambda1.linear.add(
                &self.dir1.scale(fmul(self.im1, e.normal_part.impulse)),
            );
            mj_lambda1.angular = mj_lambda1.angular.add(
                &e.normal_part.gcross1.scale(e.normal_part.impulse),
            );
            mj_lambda2.linear = mj_lambda2.linear.add(
                &self.dir1.scale(fmul(fneg(self.im2), e.normal_part.impulse)),
            );
            mj_lambda2.angular = mj_lambda2.angular.add(
                &e.normal_part.gcross2.scale(e.normal_part.impulse),
            );

            mj_lambda1.linear = mj_lambda1.linear.add(
                &ta.scale(fmul(self.im1, e.tangent_part_a.impulse)),
            );
            mj_lambda1.angular = mj_lambda1.angular.add(
                &e.tangent_part_a.gcross1.scale(e.tangent_part_a.impulse),
            );
            mj_lambda2.linear = mj_lambda2.linear.add(
                &ta.scale(fmul(fneg(self.im2), e.tangent_part_a.impulse)),
            );
            mj_lambda2.angular = mj_lambda2.angular.add(
                &e.tangent_part_a.gcross2.scale(e.tangent_part_a.impulse),
            );

            mj_lambda1.linear = mj_lambda1.linear.add(
                &tb.scale(fmul(self.im1, e.tangent_part_b.impulse)),
            );
            mj_lambda1.angular = mj_lambda1.angular.add(
                &e.tangent_part_b.gcross1.scale(e.tangent_part_b.impulse),
            );
            mj_lambda2.linear = mj_lambda2.linear.add(
                &tb.scale(fmul(fneg(self.im2), e.tangent_part_b.impulse)),
            );
            mj_lambda2.angular = mj_lambda2.angular.add(
                &e.tangent_part_b.gcross2.scale(e.tangent_part_b.impulse),
            );

            proof {
                assert((mj_lambda1, mj_lambda2) == warmstart_contact(
                    self@.dir1,
                    self@.im1,
                    self@.im2,
                    self@.elements[i as int],
                    prev.0,
                    prev.1,
                ));
            }
            i = i + 1;
        }
        let i1: usize = self.mj_lambda1;
        let cur1: DeltaVel = mj_lambdas[i1];
        mj_lambdas[i1] = cur1.add(&mj_lambda1);
        let i2: usize = self.mj_lambda2;
        let cur2: DeltaVel = mj_lambdas[i2];
        mj_lambdas[i2] = cur2.add(&mj_lambda2);
    }

    /// One PGS sweep: every contact's friction parts (clamped against the
    /// contact's current normal impulse), then every contact's
    /// non-penetration part (projected onto the non-negative cone). The
    /// updated impulses and the two bodies' updated deltas are exactly
    /// `solve_model` of the pre-call state; every resulting normal impulse
    /// is non-negative, and every resulting tangent impulse lies within
    /// the friction cone of the pre-call normal impulse.
    #[verifier::rlimit(100)]
    pub fn solve(&mut self, mj_lambdas: &mut Vec<DeltaVel>)
        requires
            vc_wf(old(self)@),
            vc_normals_nonneg(old(self)@),
            old(self)@.mj_lambda1 < old(mj_lambdas)@.len(),
            old(self)@.mj_lambda2 < old(mj_lambdas)@.len(),
        ensures
            vc_wf(final(self)@),
            vc_normals_nonneg(final(self)@),
            final(self)@ == (VcModel {
                elements: final(self)@.elements,
                ..old(self)@
            }),
            (
            {
                let s = solve_model(
                    old(self)@,
                    old(mj_lambdas)@[old(self)@.mj_lambda1],
                    old(mj_lambdas)@[old(self)@.mj_lambda2],
                );
                final(self)@.elements == s.0 && final(mj_lambdas)@ == old(mj_lambdas)@.update(
                    old(self)@.mj_lambda1,
                    s.1,
                ).update(old(self)@.mj_lambda2, s.2)
            }),
            forall|k: int|
                0 <= k < final(self)@.elements.len() ==> {
                    let lim = fx_mul(
                        old(self)@.limit,
                        old(self)@.elements[k].normal_part.impulse,
                    );
                    &&& fx_neg(lim) <= (#[trigger] final(self)@.elements[k]).tangent_part_a.impulse
                        <= lim
                    &&& fx_neg(lim) <= final(self)@.elements[k].tangent_part_b.impulse <= lim
                },
    {
        let ghost c0 = self@;
        let ghost l10 = old(mj_lambdas)@[self@.mj_lambda1];
        let ghost l20 = old(mj_lambdas)@[self@.mj_lambda2];
        let mut mj_lambda1: DeltaVel = mj_lambdas[self.mj_lambda1];
        let mut mj_lambda2: DeltaVel = mj_lambdas[self.mj_lambda2];
        let basis: (Vec3, Vec3) = orthonormal_basis(&self.dir1);
        let ta: Vec3 = basis.0;
        let tb: Vec3 = basis.1;
        let n: usize = self.num_contacts as usize;

        let mut i: usize = 0;
        while i < n
            invariant
                vc_wf(c0),
                vc_normals_nonneg(c0),
                n == c0.num_contacts,
                i <= n,
                ta == basis_a(c0.dir1),
                tb == basis_b(c0.dir1),
                self.dir1 == c0.dir1,
                self.im1 == c0.im1,
                self.im2 == c0.im2,
                self.limit == c0.limit,
                self.mj_lambda1 as int == c0.mj_lambda1,
                self.mj_lambda2 as int == c0.mj_lambda2,
                self.manifold_id as int == c0.manifold_id,
                self.manifold_contact_id@ == c0.manifold_contact_id,
                self.num_contacts as int == c0.num_contacts,
                self.elements@.len() == n,
                forall|j: int| i <= j < n ==> self.elements@[j] == c0.elements[j],
                (self.elements@.subrange(0, i as int), mj_lambda1, mj_lambda2)
                    == friction_pass(c0.dir1, c0.im1, c0.im2, c0.limit, c0.elements, l10, l20, i as int),
                forall|j: int|
                    0 <= j < i ==> {
                        let lim = fx_mul(c0.limit, c0.elements[j].normal_part.impulse);
                        &&& fx_neg(lim) <= (#[trigger] self.elements@[j]).tangent_part_a.impulse
                            <= lim
                        &&& fx_neg(lim) <= self.elements@[j].tangent_part_b.impulse <= lim
                    },
                mj_lambdas@ == old(mj_lambdas)@,
            decreases n - i,
        {
            let ghost prev = friction_pass(
                c0.dir1,
                c0.im1,
                c0.im2,
                c0.limit,
                c0.elements,
                l10,
                l20,
                i as int,
            );
            let e: VelocityConstraintElement = self.elements[i];
            proof {
                assert(e == c0.elements[i as int]);
                assert(c0.elements[i as int].normal_part.impulse >= 0);
                crate::fx::lemma_fx_mul_nonneg(c0.limit, e.normal_part.impulse);
            }
            let lim: i64 = fmul(self.limit, e.normal_part.impulse);
            let neg_lim: i64 = fneg(lim);

            // Tangent a.
            let dimp_a: i64 = fadd(
                fadd(
                    fsub(
                        fadd(
                            ta.dot(&mj_lambda1.linear),
                            e.tangent_part_a.gcross1.dot(&mj_lambda1.angular),
                        ),
                        ta.dot(&mj_lambda2.linear),
                    ),
                    e.tangent_part_a.gcross2.dot(&mj_lambda2.angular),
                ),
                e.tangent_part_a.rhs,
            );
            let new_a: i64 = fclamp(
                fsub(e.tangent_part_a.impulse, fmul(e.tangent_part_a.r, dimp_a)),
                neg_lim,
                lim,
            );
            let dl_a: i64 = fsub(new_a, e.tangent_part_a.impulse);
            mj_lambda1.linear = mj_lambda1.linear.add(&ta.scale(fmul(self.im1, dl_a)));
            mj_lambda1.angular = mj_lambda1.angular.add(&e.tangent_part_a.gcross1.scale(dl_a));
            mj_lambda2.linear = mj_lambda2.linear.add(&ta.scale(fmul(fneg(self.im2), dl_a)));
            mj_lambda2.angular = mj_lambda2.angular.add(&e.tangent_part_a.gcross2.scale(dl_a));

            // Tangent b.
            let dimp_b: i64 = fadd(
                fadd(
                    fsub(
                        fadd(
                            tb.dot(&mj_lambda1.linear),
                            e.tangent_part_b.gcross1.dot(&mj_lambda1.angular),
                        ),
                        tb.dot(&mj_lambda2.linear),
                    ),
                    e.tangent_part_b.gcross2.dot(&mj_lambda2.angular),
                ),
                e.tangent_part_b.rhs,
            );
            let new_b: i64 = fclamp(
                fsub(e.tangent_part_b.impulse, fmul(e.tangent_part_b.r, dimp_b)),
                neg_lim,
                lim,
            );
            let dl_b: i64 = fsub(new_b, e.tangent_part_b.impulse);
            mj_lambda1.linear = mj_lambda1.linear.add(&tb.scale(fmul(self.im1, dl_b)));
            mj_lambda1.angular = mj_lambda1.angular.add(&e.tangent_part_b.gcross1.scale(dl_b));
            mj_lambda2.linear = mj_lambda2.linear.add(&tb.scale(fmul(fneg(self.im2), dl_b)));
            mj_lambda2.angular = mj_lambda2.angular.add(&e.tangent_part_b.gcross2.scale(dl_b));

            let mut e2: VelocityConstraintElement = e;
            e2.tangent_part_a.impulse = new_a;
            e2.tangent_part_b.impulse = new_b;
            self.elements[i] = e2;

            proof {
                let step = friction_contact(
                    c0.dir1,
                    c0.im1,
                    c0.im2,
                    c0.limit,
                    c0.elements[i as int],
                    prev.1,
                    prev.2,
                );
                assert((e2, mj_lambda1, mj_lambda2) == step);
                assert(self.elements@.subrange(0, i as int + 1) =~= prev.0.push(e2));
            }
            i = i + 1;
        }

        let ghost fpass = friction_pass(
            c0.dir1,
            c0.im1,
            c0.im2,
            c0.limit,
            c0.elements,
            l10,
            l20,
            n as int,
        );
        proof {
            assert(self.elements@.subrange(0, n as int) =~= self.elements@);
        }
        let ghost fl1 = mj_lambda1;
        let ghost fl2 = mj_lambda2;

        let mut k: usize = 0;
        while k < n
            invariant
                vc_wf(c0),
                n == c0.num_contacts,
                k <= n,
                self.dir1 == c0.dir1,
                self.im1 == c0.im1,
                self.im2 == c0.im2,
                self.limit == c0.limit,
                self.mj_lambda1 as int == c0.mj_lambda1,
                self.mj_lambda2 as int == c0.mj_lambda2,
                self.manifold_id as int == c0.manifold_id,
                self.manifold_contact_id@ == c0.manifold_contact_id,
                self.num_contacts as int == c0.num_contacts,
                self.elements@.len() == n,
                fpass.0.len() == n,
                forall|j: int| k <= j < n ==> self.elements@[j] == fpass.0[j],
                (self.elements@.subrange(0, k as int), mj_lambda1, mj_lambda2)
                    == normal_pass(c0.dir1, c0.im1, c0.im2, fpass.0, fpass.1, fpass.2, k as int),
                forall|j: int|
                    0 <= j < k ==> (#[trigger] self.elements@[j]).normal_part.impulse >= 0,
                forall|j: int|
                    0 <= j < n ==> {
                        let lim = fx_mul(c0.limit, c0.elements[j].normal_part.impulse);
                        &&& fx_neg(lim) <= (#[trigger] self.elements@[j]).tangent_part_a.impulse
                            <= lim
                        &&& fx_neg(lim) <= self.elements@[j].tangent_part_b.impulse <= lim
                    },
                mj_lambdas@ == old(mj_lambdas)@,
            decreases n - k,
        {
            let ghost prev = normal_pass(
                c0.dir1,
                c0.im1,
                c0.im2,
                fpass.0,
                fpass.1,
                fpass.2,
                k as int,
            );
            let e: VelocityConstraintElement = self.elements[k];
            let dimp: i64 = fadd(
                fadd(
                    fsub(
                        fadd(
                            self.dir1.dot(&mj_lambda1.linear),
                            e.normal_part.gcross1.dot(&mj_lambda1.angular),
                        ),
                        self.dir1.dot(&mj_lambda2.linear),
                    ),
                    e.normal_part.gcross2.dot(&mj_lambda2.angular),
                ),
                e.normal_part.rhs,
            );
            let new_imp: i64 = fmax(fsub(e.normal_part.impulse, fmul(e.normal_part.r, dimp)), 0);
            let dl: i64 = fsub(new_imp, e.normal_part.impulse);
            mj_lambda1.linear = mj_lambda1.linear.add(&self.dir1.scale(fmul(self.im1, dl)));
            mj_lambda1.angular = mj_lambda1.angular.add(&e.normal_part.gcross1.scale(dl));
            mj_lambda2.linear = mj_lambda2.linear.add(&self.dir1.scale(fmul(fneg(self.im2), dl)));
            mj_lambda2.angular = mj_lambda2.angular.add(&e.normal_part.gcross2.scale(dl));

            let mut e2: VelocityConstraintElement = e;
            e2.normal_part.impulse = new_imp;
            self.elements[k] = e2;

            proof {
                let step = normal_contact(c0.dir1, c0.im1, c0.im2, fpass.0[k as int], prev.1, prev.2);
                assert((e2, mj_lambda1, mj_lambda2) == step);
                assert(self.elements@.subrange(0, k as int + 1) =~= prev.0.push(e2));
            }
            k = k + 1;
        }
        proof {
            assert(self.elements@.subrange(0, n as int) =~= self.elements@);
        }

        let i1: usize = self.mj_lambda1;
        mj_lambdas[i1] = mj_lambda1;
        let i2: usize = self.mj_lambda2;
        mj_lambdas[i2] = mj_lambda2;
    }
}


impl VelocityConstraint {
    /// Stores the accumulated impulses into the manifold's points, at each
    /// contact's stable id, for the next step's warm start. No other
    /// manifold and no other field of this manifold changes.
    pub fn writeback_impulses(&self, manifolds: &mut Vec<ContactManifold>)
        requires
            vc_wf(self@),
            self@.manifold_id < old(manifolds)@.len(),
            forall|k: int|
                0 <= k < self@.num_contacts
                    ==> ((#[trigger] self@.manifold_contact_id[k]) as int)
                    < old(manifolds)@[self@.manifold_id]@.points.len(),
        ensures
            final(manifolds)@.len() == old(manifolds)@.len(),
            forall|j: int|
                0 <= j < old(manifolds)@.len() && j != self@.manifold_id ==> final(manifolds)@[j]
                    == old(manifolds)@[j],
            final(manifolds)@[self@.manifold_id]@ == (ManifoldModel {
                points: writeback_points(
                    self@,
                    old(manifolds)@[self@.manifold_id]@.points,
                    self@.num_contacts,
                ),
                ..old(manifolds)@[self@.manifold_id]@
            }),
    {
        let mid: usize = self.manifold_id;
        let n: usize = self.num_contacts as usize;
        let ghost pts0 = old(manifolds)@[mid as int]@.points;
        let mut k: usize = 0;
        while k < n
            invariant
                vc_wf(self@),
                n == self@.num_contacts,
                k <= n,
                mid == self@.manifold_id,
                mid < manifolds@.len(),
                manifolds@.len() == old(manifolds)@.len(),
                forall|j: int|
                    0 <= j < old(manifolds)@.len() && j != mid as int ==> manifolds@[j] == old(
                        manifolds,
                    )@[j],
                pts0 == old(manifolds)@[mid as int]@.points,
                forall|kk: int|
                    0 <= kk < n ==> ((#[trigger] self@.manifold_contact_id[kk]) as int)
                        < pts0.len(),
                manifolds@[mid as int]@ == (ManifoldModel {
                    points: writeback_points(self@, pts0, k as int),
                    ..old(manifolds)@[mid as int]@
                }),
                manifolds@[mid as int]@.points.len() == pts0.len(),
            decreases n - k,
        {
            let ghost prev = writeback_points(self@, pts0, k as int);
            let cid: usize = self.manifold_contact_id[k] as usize;
            let e: VelocityConstraintElement = self.elements[k];
            let mut p: SolverContact = manifolds[mid].points[cid];
            p.impulse = e.normal_part.impulse;
            p.tangent_impulse_a = e.tangent_part_a.impulse;
            p.tangent_impulse_b = e.tangent_part_b.impulse;
            manifolds[mid].points[cid] = p;
            proof {
                assert(manifolds@[mid as int]@.points =~= prev.update(
                    cid as int,
                    SolverContact {
                        impulse: self@.elements[k as int].normal_part.impulse,
                        tangent_impulse_a: self@.elements[k as int].tangent_part_a.impulse,
                        tangent_impulse_b: self@.elements[k as int].tangent_part_b.impulse,
                        ..prev[cid as int]
                    },
                ));
            }
            k = k + 1;
        }
    }
}


impl VelocityConstraint {
    /// Assembles the velocity constraints of one manifold: one constraint
    /// per chunk of at most [`MAX_MANIFOLD_POINTS`] solver contacts, each
    /// exactly `gen_constraint` of the manifold, the two bodies and the
    /// step parameters. With `push` the constraints are appended in batch
    /// order; otherwise they are written at the manifold's
    /// `constraint_index`, leaving every other slot unchanged. The
    /// manifold must have both bodies participating
    /// (`relative_dominance == 0`).
    #[verifier::rlimit(100)]
    pub fn generate(
        params: &IntegrationParameters,
        manifold_id: usize,
        manifold: &ContactManifold,
        bodies: &RigidBodySet,
        out_constraints: &mut Vec<AnyVelocityConstraint>,
        push: bool,
    )
        requires
            manifold@.relative_dominance == 0i8,
            manifold_wf(manifold@),
            params_wf(*params),
            manifold@.body1 < bodies@.len(),
            manifold@.body2 < bodies@.len(),
            !push ==> manifold@.constraint_index + num_batches(manifold@.points.len() as int)
                <= old(out_constraints)@.len(),
        ensures
            push ==> {
                &&& final(out_constraints)@.len() == old(out_constraints)@.len() + num_batches(
                    manifold@.points.len() as int,
                )
                &&& forall|j: int|
                    0 <= j < old(out_constraints)@.len() ==> final(out_constraints)@[j] == old(
                        out_constraints,
                    )@[j]
                &&& forall|l: int|
                    0 <= l < num_batches(manifold@.points.len() as int) ==> {
                        let c = #[trigger] final(out_constraints)@[old(out_constraints)@.len() + l];
                        c is Nongrouped && c->Nongrouped_0@ == gen_constraint(
                            *params,
                            manifold_id as int,
                            manifold@,
                            bodies@[manifold@.body1],
                            bodies@[manifold@.body2],
                            l,
                        )
                    }
            },
            !push ==> {
                &&& final(out_constraints)@.len() == old(out_constraints)@.len()
                &&& forall|j: int|
                    0 <= j < old(out_constraints)@.len() && !(manifold@.constraint_index <= j
                        < manifold@.constraint_index + num_batches(manifold@.points.len() as int))
                        ==> final(out_constraints)@[j] == old(out_constraints)@[j]
                &&& forall|l: int|
                    0 <= l < num_batches(manifold@.points.len() as int) ==> {
                        let c = #[trigger] final(out_constraints)@[manifold@.constraint_index + l];
                        c is Nongrouped && c->Nongrouped_0@ == gen_constraint(
                            *params,
                            manifold_id as int,
                            manifold@,
                            bodies@[manifold@.body1],
                            bodies@[manifold@.body2],
                            l,
                        )
                    }
            },
    {
        let rb1: RigidBody = *bodies.body(manifold.body1);
        let rb2: RigidBody = *bodies.body(manifold.body2);
        let mj_lambda1: usize = rb1.active_set_offset;
        let mj_lambda2: usize = rb2.active_set_offset;
        let inv_dt: i64 = params.inv_dt();
        let erp_inv_dt: i64 = params.velocity_based_erp_inv_dt();
        let force_dir1: Vec3 = manifold.normal.neg();
        let warmstart_coeff: i64 = fmul(manifold.warmstart_multiplier, params.warmstart_coeff);
        let basis: (Vec3, Vec3) = orthonormal_basis(&force_dir1);
        let ta: Vec3 = basis.0;
        let tb: Vec3 = basis.1;
        let npts: usize = manifold.points.len();
        let nb: usize = Self::num_active_constraints(manifold);
        let ghost base = if push {
            old(out_constraints)@.len() as int
        } else {
            manifold@.constraint_index
        };

        let mut l: usize = 0;
        while l < nb
            invariant
                manifold@.relative_dominance == 0i8,
                manifold_wf(manifold@),
                params_wf(*params),
                manifold@.body1 < bodies@.len(),
                manifold@.body2 < bodies@.len(),
                rb1 == bodies@[manifold@.body1],
                rb2 == bodies@[manifold@.body2],
                mj_lambda1 == rb1.active_set_offset,
                mj_lambda2 == rb2.active_set_offset,
                inv_dt == fx_inv(params.dt),
                erp_inv_dt == fx_mul(params.velocity_based_erp, fx_inv(params.dt)),
                force_dir1 == v_neg(manifold@.normal),
                warmstart_coeff == fx_mul(manifold@.warmstart_multiplier, params.warmstart_coeff),
                ta == basis_a(force_dir1),
                tb == basis_b(force_dir1),
                npts == manifold@.points.len(),
                nb == num_batches(npts as int),
                l <= nb,
                base == if push {
                    old(out_constraints)@.len() as int
                } else {
                    manifold@.constraint_index
                },
                push ==> out_constraints@.len() == old(out_constraints)@.len() + l,
                !push ==> out_constraints@.len() == old(out_constraints)@.len(),
                !push ==> manifold@.constraint_index + nb <= old(out_constraints)@.len(),
                forall|j: int|
                    0 <= j < old(out_constraints)@.len() && !(base <= j < base + l as int)
                        ==> out_constraints@[j] == old(out_constraints)@[j],
                forall|ll: int|
                    0 <= ll < l ==> {
                        let c = #[trigger] out_constraints@[base + ll];
                        c is Nongrouped && c->Nongrouped_0@ == gen_constraint(
                            *params,
                            manifold_id as int,
                            manifold@,
                            rb1,
                            rb2,
                            ll,
                        )
                    },
            decreases nb - l,
        {
            proof {
                assert(l * 4 < npts && l * 4 >= 0 && (l + 1) * 4 == l * 4 + 4)
                    by (nonlinear_arith)
                    requires
                        0 <= l < nb,
                        nb == (npts as int) / 4 + if (npts as int) % 4 != 0 { 1int } else { 0int },
                        npts <= usize::MAX,
                ;
            }
            let start: usize = l * MAX_MANIFOLD_POINTS;
            let end: usize = if npts - start > MAX_MANIFOLD_POINTS {
                start + MAX_MANIFOLD_POINTS
            } else {
                npts
            };
            let count: usize = end - start;
            let ghost chunk = batch_points(manifold@, l as int);
            proof {
                assert(chunk =~= manifold@.points.subrange(start as int, end as int));
            }

            let mut elements: Vec<VelocityConstraintElement> = Vec::new();
            let mut contact_ids: Vec<u8> = Vec::new();
            let mut limit: i64 = 0;
            let mut k: usize = 0;
            while k < count
                invariant
                    manifold_wf(manifold@),
                    start + count <= npts,
                    npts == manifold@.points.len(),
                    count > 0,
                    k <= count,
                    chunk == batch_points(manifold@, l as int),
                    chunk.len() == count,
                    forall|j: int| 0 <= j < count ==> chunk[j] == manifold@.points.subrange(
                        start as int, start + count as int)[j],
                    ta == basis_a(force_dir1),
                    tb == basis_b(force_dir1),
                    elements@.len() == k,
                    contact_ids@.len() == k,
                    forall|j: int|
                        0 <= j < k ==> #[trigger] elements@[j] == gen_element(
                            params.velocity_solve_fraction,
                            inv_dt,
                            erp_inv_dt,
                            warmstart_coeff,
                            force_dir1,
                            rb1,
                            rb2,
                            chunk[j],
                        ),
                    forall|j: int| 0 <= j < k ==> #[trigger] contact_ids@[j] == chunk[j].contact_id,
                    limit == if k > 0 {
                        chunk[k - 1].friction
                    } else {
                        0i64
                    },
                    inv_dt == fx_inv(params.dt),
                    erp_inv_dt == fx_mul(params.velocity_based_erp, fx_inv(params.dt)),
                decreases count - k,
            {
                let p: SolverContact = manifold.points[start + k];
                proof {
                    assert(p == chunk[k as int]);
                }
                let dp1: Vec3 = p.point.sub(&rb1.world_com);
                let dp2: Vec3 = p.point.sub(&rb2.world_com);
                let vel1: Vec3 = rb1.linvel.add(&rb1.angvel.cross(&dp1));
                let vel2: Vec3 = rb2.linvel.add(&rb2.angvel.cross(&dp2));
                limit = p.friction;
                contact_ids.push(p.contact_id);

                let g1: Vec3 = rb1.sqrt_inv_inertia.transform(&dp1.cross(&force_dir1));
                let g2: Vec3 = rb2.sqrt_inv_inertia.transform(&dp2.cross(&force_dir1.neg()));
                let rn: i64 = finv(fadd(fadd(fadd(rb1.im, rb2.im), g1.dot(&g1)), g2.dot(&g2)));
                let mut rhs: i64 = fmul(
                    fadd(
                        SCALE,
                        if p.is_bouncy {
                            p.restitution
                        } else {
                            0
                        },
                    ),
                    vel1.sub(&vel2).dot(&force_dir1),
                );
                rhs = fadd(rhs, fmul(fmax(p.dist, 0), inv_dt));
                rhs = fmul(
                    rhs,
                    if p.is_bouncy {
                        SCALE
                    } else {
                        params.velocity_solve_fraction
                    },
                );
                rhs = fadd(
                    rhs,
                    if p.is_bouncy {
                        0
                    } else {
                        fmul(erp_inv_dt, fmin(p.dist, 0))
                    },
                );
                let normal_part = VelocityConstraintElementPart {
                    gcross1: g1,
                    gcross2: g2,
                    rhs: rhs,
                    impulse: fmul(p.impulse, warmstart_coeff),
                    r: rn,
                };

                let ga1: Vec3 = rb1.sqrt_inv_inertia.transform(&dp1.cross(&ta));
                let ga2: Vec3 = rb2.sqrt_inv_inertia.transform(&dp2.cross(&ta.neg()));
                let ra: i64 = finv(
                    fadd(fadd(fadd(rb1.im, rb2.im), ga1.dot(&ga1)), ga2.dot(&ga2)),
                );
                let rhsa: i64 = vel1.sub(&vel2).add(&p.tangent_velocity).dot(&ta);
                let tangent_part_a = VelocityConstraintElementPart {
                    gcross1: ga1,
                    gcross2: ga2,
                    rhs: rhsa,
                    impulse: fmul(p.tangent_impulse_a, warmstart_coeff),
                    r: ra,
                };

                let gb1: Vec3 = rb1.sqrt_inv_inertia.transform(&dp1.cross(&tb));
                let gb2: Vec3 = rb2.sqrt_inv_inertia.transform(&dp2.cross(&tb.neg()));
                let rb_: i64 = finv(
                    fadd(fadd(fadd(rb1.im, rb2.im), gb1.dot(&gb1)), gb2.dot(&gb2)),
                );
                let rhsb: i64 = vel1.sub(&vel2).add(&p.tangent_velocity).dot(&tb);
                let tangent_part_b = VelocityConstraintElementPart {
                    gcross1: gb1,
                    gcross2: gb2,
                    rhs: rhsb,
                    impulse: fmul(p.tangent_impulse_b, warmstart_coeff),
                    r: rb_,
                };

                elements.push(
                    VelocityConstraintElement { normal_part, tangent_part_a, tangent_part_b },
                );
                proof {
                    assert(elements@[k as int] == gen_element(
                        params.velocity_solve_fraction,
                        inv_dt,
                        erp_inv_dt,
                        warmstart_coeff,
                        force_dir1,
                        rb1,
                        rb2,
                        chunk[k as int],
                    ));
                }
                k = k + 1;
            }

            let constraint = VelocityConstraint {
                dir1: force_dir1,
                im1: rb1.im,
                im2: rb2.im,
                limit: limit,
                mj_lambda1: mj_lambda1,
                mj_lambda2: mj_lambda2,
                manifold_id: manifold_id,
                manifold_contact_id: contact_ids,
                num_contacts: count as u8,
                elements: elements,
            };
            proof {
                let gc = gen_constraint(
                    *params,
                    manifold_id as int,
                    manifold@,
                    rb1,
                    rb2,
                    l as int,
                );
                assert(constraint@.manifold_contact_id =~= gc.manifold_contact_id);
                assert(constraint@.elements =~= gc.elements);
                assert(constraint@ == gc);
            }
            if push {
                out_constraints.push(AnyVelocityConstraint::Nongrouped(constraint));
            } else {
                let cur_len: usize = out_constraints.len();
                proof {
                    assert(manifold@.constraint_index + (l as int) < cur_len as int);
                }
                let idx: usize = manifold.constraint_index + l;
                out_constraints[idx] = AnyVelocityConstraint::Nongrouped(constraint);
            }
            l = l + 1;
        }
    }
}

/// The velocity-constraint variants the solver dispatches over. `Empty`
/// is the placeholder that pre-sizes the constraint vector when
/// constraints are written at their manifold's `constraint_index` instead
/// of pushed.
pub enum AnyVelocityConstraint {
    Nongrouped(VelocityConstraint),
    Empty,
}

impl AnyVelocityConstraint {
    /// An `Empty` placeholder, for pre-sizing the constraint vector.
    pub fn empty() -> (r: AnyVelocityConstraint)
        ensures
            r is Empty,
    {
        AnyVelocityConstraint::Empty
    }

    /// Read access to the scalar constraint, if this is one. (A mutable
    /// borrow cannot be returned from verified code; mutation goes
    /// through the in-place methods below.)
    pub fn as_nongrouped_mut(&mut self) -> (r: Option<&VelocityConstraint>)
        ensures
            *final(self) == *old(self),
            ((*old(self)) is Nongrouped) <==> r is Some,
            r is Some ==> *r->Some_0 == (*old(self))->Nongrouped_0,
    {
        match self {
            AnyVelocityConstraint::Nongrouped(c) => Some(c),
            AnyVelocityConstraint::Empty => None,
        }
    }

    /// Warm-starts the underlying scalar constraint.
    pub fn warmstart(&self, mj_lambdas: &mut Vec<DeltaVel>)
        requires
            self is Nongrouped,
            vc_wf(self->Nongrouped_0@),
            self->Nongrouped_0@.mj_lambda1 < old(mj_lambdas)@.len(),
            self->Nongrouped_0@.mj_lambda2 < old(mj_lambdas)@.len(),
        ensures
            final(mj_lambdas)@.len() == old(mj_lambdas)@.len(),
            (final(mj_lambdas)@ == {
                let c = self->Nongrouped_0@;
                let w = warmstart_pass(
                    c.dir1,
                    c.im1,
                    c.im2,
                    c.elements,
                    dv_zero(),
                    dv_zero(),
                    c.num_contacts,
                );
                let s1 = old(mj_lambdas)@.update(
                    c.mj_lambda1,
                    dv_add(old(mj_lambdas)@[c.mj_lambda1], w.0),
                );
                s1.update(c.mj_lambda2, dv_add(s1[c.mj_lambda2], w.1))
            }),
    {
        match self {
            AnyVelocityConstraint::Nongrouped(c) => c.warmstart(mj_lambdas),
            AnyVelocityConstraint::Empty => {
                proof {
                    assert(false);
                }
            },
        }
    }

    /// Runs one PGS sweep of the underlying scalar constraint.
    pub fn solve(&mut self, mj_lambdas: &mut Vec<DeltaVel>)
        requires
            (*old(self)) is Nongrouped,
            vc_wf((*old(self))->Nongrouped_0@),
            vc_normals_nonneg((*old(self))->Nongrouped_0@),
            (*old(self))->Nongrouped_0@.mj_lambda1 < old(mj_lambdas)@.len(),
            (*old(self))->Nongrouped_0@.mj_lambda2 < old(mj_lambdas)@.len(),
        ensures
            (*final(self)) is Nongrouped,
            vc_wf((*final(self))->Nongrouped_0@),
            vc_normals_nonneg((*final(self))->Nongrouped_0@),
            (*final(self))->Nongrouped_0@ == (VcModel {
                elements: (*final(self))->Nongrouped_0@.elements,
                ..(*old(self))->Nongrouped_0@
            }),
            final(mj_lambdas)@.len() == old(mj_lambdas)@.len(),
            (
            {
                let c = (*old(self))->Nongrouped_0@;
                let s = solve_model(
                    c,
                    old(mj_lambdas)@[c.mj_lambda1],
                    old(mj_lambdas)@[c.mj_lambda2],
                );
                (*final(self))->Nongrouped_0@.elements == s.0 && final(mj_lambdas)@ == old(
                    mj_lambdas,
                )@.update(c.mj_lambda1, s.1).update(c.mj_lambda2, s.2)
            }),
    {
        match self {
            AnyVelocityConstraint::Nongrouped(c) => c.solve(mj_lambdas),
            AnyVelocityConstraint::Empty => {
                proof {
                    assert(false);
                }
            },
        }
    }

    /// Writes the underlying constraint's impulses back to its manifold.
    pub fn writeback_impulses(&self, manifolds: &mut Vec<ContactManifold>)
        requires
            self is Nongrouped,
            vc_wf(self->Nongrouped_0@),
            self->Nongrouped_0@.manifold_id < old(manifolds)@.len(),
            forall|k: int|
                0 <= k < self->Nongrouped_0@.num_contacts
                    ==> ((#[trigger] self->Nongrouped_0@.manifold_contact_id[k]) as int)
                    < old(manifolds)@[self->Nongrouped_0@.manifold_id]@.points.len(),
        ensures
            final(manifolds)@.len() == old(manifolds)@.len(),
            forall|j: int|
                0 <= j < old(manifolds)@.len() && j != self->Nongrouped_0@.manifold_id
                    ==> final(manifolds)@[j] == old(manifolds)@[j],
            final(manifolds)@[self->Nongrouped_0@.manifold_id]@ == (ManifoldModel {
                points: writeback_points(
                    self->Nongrouped_0@,
                    old(manifolds)@[self->Nongrouped_0@.manifold_id]@.points,
                    self->Nongrouped_0@.num_contacts,
                ),
                ..old(manifolds)@[self->Nongrouped_0@.manifold_id]@
            }),
    {
        match self {
            AnyVelocityConstraint::Nongrouped(c) => c.writeback_impulses(manifolds),
            AnyVelocityConstraint::Empty => {
                proof {
                    assert(false);
                }
            },
        }
    }
}


/// The tangent trial at `(l1, l2)` leaves this part's impulse unchanged.
pub open spec fn tangent_fixed(
    dir: Vec3,
    limit: i64,
    n_impulse: i64,
    p: VelocityConstraintElementPart,
    l1: DeltaVel,
    l2: DeltaVel,
) -> bool {
    solve_tangent_part(dir, limit, n_impulse, 0, 0, p, l1, l2).0.impulse == p.impulse
}

/// The normal trial at `(l1, l2)` leaves this part's impulse unchanged.
pub open spec fn normal_fixed(
    dir: Vec3,
    p: VelocityConstraintElementPart,
    l1: DeltaVel,
    l2: DeltaVel,
) -> bool {
    solve_normal_part(dir, 0, 0, p, l1, l2).0.impulse == p.impulse
}

/// `(c, l1, l2)` is a PGS fixed point: every sub-constraint's trial
/// update, evaluated at the incoming deltas, returns its current impulse
/// (zero residual).
pub open spec fn is_fixed_point(c: VcModel, l1: DeltaVel, l2: DeltaVel) -> bool {
    forall|k: int|
        0 <= k < c.elements.len() ==> {
            let e = #[trigger] c.elements[k];
            &&& tangent_fixed(basis_a(c.dir1), c.limit, e.normal_part.impulse, e.tangent_part_a, l1, l2)
            &&& tangent_fixed(basis_b(c.dir1), c.limit, e.normal_part.impulse, e.tangent_part_b, l1, l2)
            &&& normal_fixed(c.dir1, e.normal_part, l1, l2)
        }
}

/// A zero impulse change leaves a body delta unchanged.
proof fn lemma_apply_zero(dir: Vec3, p: VelocityConstraintElementPart, im: i64, l: DeltaVel)
    ensures
        apply_impulse1(dir, p, im, 0, l) == l,
        apply_impulse2(dir, p, im, 0, l) == l,
{
    assert(fx_mul(im, 0) == 0);
    assert(fx_mul(fx_neg(im), 0) == 0);
    assert(v_scale(dir, 0) == crate::math::v_zero());
    assert(v_scale(p.gcross1, 0) == crate::math::v_zero());
    assert(v_scale(p.gcross2, 0) == crate::math::v_zero());
    assert(v_add(l.linear, crate::math::v_zero()) == l.linear);
    assert(v_add(l.angular, crate::math::v_zero()) == l.angular);
}

/// Warm-start idempotence at a fixed point: when every trial update of a
/// constraint has zero residual, one further PGS sweep changes neither
/// the accumulated impulses nor the two bodies' velocity deltas.
pub proof fn lemma_fixed_point_idempotent(c: VcModel, l1: DeltaVel, l2: DeltaVel)
    requires
        is_fixed_point(c, l1, l2),
    ensures
        solve_model(c, l1, l2).0 == c.elements,
        solve_model(c, l1, l2).1 == l1,
        solve_model(c, l1, l2).2 == l2,
{
    let n = c.elements.len() as int;
    lemma_friction_pass_fixed(c, l1, l2, n);
    assert(c.elements.subrange(0, n) =~= c.elements);
    lemma_normal_pass_fixed(c, l1, l2, n);
}

/// The friction pass of a fixed point returns the inputs unchanged.
proof fn lemma_friction_pass_fixed(c: VcModel, l1: DeltaVel, l2: DeltaVel, n: int)
    requires
        is_fixed_point(c, l1, l2),
        n <= c.elements.len(),
    ensures
        friction_pass(c.dir1, c.im1, c.im2, c.limit, c.elements, l1, l2, n) == (
            c.elements.subrange(0, if n >= 0 { n } else { 0 }),
            l1,
            l2,
        ),
    decreases n,
{
    if n <= 0 {
        assert(c.elements.subrange(0, 0) =~= Seq::<VelocityConstraintElement>::empty());
    } else {
        lemma_friction_pass_fixed(c, l1, l2, n - 1);
        let e = c.elements[n - 1];
        let sa = solve_tangent_part(
            basis_a(c.dir1),
            c.limit,
            e.normal_part.impulse,
            c.im1,
            c.im2,
            e.tangent_part_a,
            l1,
            l2,
        );
        assert(sa.0.impulse == e.tangent_part_a.impulse);
        lemma_apply_zero(basis_a(c.dir1), e.tangent_part_a, c.im1, l1);
        lemma_apply_zero(basis_a(c.dir1), e.tangent_part_a, c.im2, l2);
        assert(sa == (e.tangent_part_a, l1, l2));
        let sb = solve_tangent_part(
            basis_b(c.dir1),
            c.limit,
            e.normal_part.impulse,
            c.im1,
            c.im2,
            e.tangent_part_b,
            l1,
            l2,
        );
        assert(sb.0.impulse == e.tangent_part_b.impulse);
        lemma_apply_zero(basis_b(c.dir1), e.tangent_part_b, c.im1, l1);
        lemma_apply_zero(basis_b(c.dir1), e.tangent_part_b, c.im2, l2);
        assert(sb == (e.tangent_part_b, l1, l2));
        assert(friction_contact(c.dir1, c.im1, c.im2, c.limit, e, l1, l2) == (e, l1, l2));
        assert(c.elements.subrange(0, n) =~= c.elements.subrange(0, n - 1).push(e));
    }
}

/// The non-penetration pass of a fixed point returns the inputs
/// unchanged.
proof fn lemma_normal_pass_fixed(c: VcModel, l1: DeltaVel, l2: DeltaVel, n: int)
    requires
        is_fixed_point(c, l1, l2),
        n <= c.elements.len(),
    ensures
        normal_pass(c.dir1, c.im1, c.im2, c.elements, l1, l2, n) == (
            c.elements.subrange(0, if n >= 0 { n } else { 0 }),
            l1,
            l2,
        ),
    decreases n,
{
    if n <= 0 {
        assert(c.elements.subrange(0, 0) =~= Seq::<VelocityConstraintElement>::empty());
    } else {
        lemma_normal_pass_fixed(c, l1, l2, n - 1);
        let e = c.elements[n - 1];
        let sn = solve_normal_part(c.dir1, c.im1, c.im2, e.normal_part, l1, l2);
        assert(sn.0.impulse == e.normal_part.impulse);
        lemma_apply_zero(c.dir1, e.normal_part, c.im1, l1);
        lemma_apply_zero(c.dir1, e.normal_part, c.im2, l2);
        assert(sn == (e.normal_part, l1, l2));
        assert(normal_contact(c.dir1, c.im1, c.im2, e, l1, l2) == (e, l1, l2));
        assert(c.elements.subrange(0, n) =~= c.elements.subrange(0, n - 1).push(e));
    }
}

} // verus!
