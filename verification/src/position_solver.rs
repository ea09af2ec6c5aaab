//! The island's position solver: non-linear Gauss-Seidel over pose
//! deltas, correcting residual penetration directly on body positions.

use vstd::prelude::*;

use crate::body::bodies_wf;
use crate::body::IntegrationParameters;
use crate::body::RigidBody;
use crate::body::RigidBodySet;
use crate::fx::fadd;
use crate::fx::fmin;
use crate::fx::fmul;
use crate::fx::fneg;
use crate::fx::fsub;
use crate::fx::fx_add;
use crate::fx::fx_min;
use crate::fx::fx_mul;
use crate::fx::fx_neg;
use crate::fx::fx_sub;
use crate::math::v_add;
use crate::math::v_dot;
use crate::math::v_scale;
use crate::math::v_sub;
use crate::math::v_zero;
use crate::math::Vec3;
use crate::position_constraint::pcs_wf;
use crate::position_constraint::PositionConstraint;

verus! {

/// A buffer of `n` zero pose deltas.
pub open spec fn zero_dpos(n: int) -> Seq<Vec3> {
    Seq::new(n as nat, |i: int| v_zero())
}

/// One position correction: the current separation is the assembled
/// separation plus the normal component of the relative pose delta. When
/// it penetrates beyond the allowed slop, a correction clamped by
/// `max_linear_correction` and scaled by `erp` pushes the bodies apart
/// along the normal, weighted by their inverse masses.
pub open spec fn pos_step(
    c: PositionConstraint,
    erp: i64,
    slop: i64,
    max_corr: i64,
    dpos: Seq<Vec3>,
) -> Seq<Vec3> {
    let d = fx_add(c.dist, v_dot(c.normal, v_sub(dpos[c.slot2 as int], dpos[c.slot1 as int])));
    let err = fx_sub(fx_neg(d), slop);
    if err > 0 {
        let corr = fx_min(fx_mul(err, erp), max_corr);
        let lam = fx_mul(corr, c.r);
        let s1 = dpos.update(
            c.slot1 as int,
            v_sub(dpos[c.slot1 as int], v_scale(c.normal, fx_mul(c.im1, lam))),
        );
        s1.update(
            c.slot2 as int,
            v_add(s1[c.slot2 as int], v_scale(c.normal, fx_mul(c.im2, lam))),
        )
    } else {
        dpos
    }
}

/// One sweep over the first `n` position constraints.
pub open spec fn pos_sweep(
    cs: Seq<PositionConstraint>,
    erp: i64,
    slop: i64,
    max_corr: i64,
    dpos: Seq<Vec3>,
    n: int,
) -> Seq<Vec3>
    decreases n,
{
    if n <= 0 {
        dpos
    } else {
        pos_step(cs[n - 1], erp, slop, max_corr, pos_sweep(cs, erp, slop, max_corr, dpos, n - 1))
    }
}

/// `iters` full sweeps over all position constraints.
pub open spec fn pos_iterate(
    cs: Seq<PositionConstraint>,
    erp: i64,
    slop: i64,
    max_corr: i64,
    dpos: Seq<Vec3>,
    iters: int,
) -> Seq<Vec3>
    decreases iters,
{
    if iters <= 0 {
        dpos
    } else {
        pos_sweep(
            cs,
            erp,
            slop,
            max_corr,
            pos_iterate(cs, erp, slop, max_corr, dpos, iters - 1),
            cs.len() as int,
        )
    }
}

/// A body with its pose delta applied to the center of mass.
pub open spec fn pos_commit_body(b: RigidBody, dpos: Seq<Vec3>) -> RigidBody {
    RigidBody { world_com: v_add(b.world_com, dpos[b.active_set_offset as int]), ..b }
}

/// All bodies with their pose deltas applied.
pub open spec fn pos_commit_all(bs: Seq<RigidBody>, dpos: Seq<Vec3>) -> Seq<RigidBody> {
    Seq::new(bs.len(), |i: int| pos_commit_body(bs[i], dpos))
}

/// Runs the position-projection phase of one island. No impulses are
/// cached by this pass.
pub struct PositionSolver {
    pub dpos: Vec<Vec3>,
}

impl PositionSolver {
    /// A solver with an empty pose-delta buffer.
    pub fn new() -> (r: PositionSolver)
        ensures
            r.dpos@ == Seq::<Vec3>::empty(),
    {
        PositionSolver { dpos: Vec::new() }
    }

    /// One position solve: the pose-delta buffer is zeroed, the
    /// correction sweep runs `max_position_iterations` times over all
    /// constraints, and the deltas are committed to the bodies' centers
    /// of mass.
    #[verifier::loop_isolation(false)]
    #[verifier::rlimit(100)]
    pub fn solve(
        &mut self,
        params: &IntegrationParameters,
        bodies: &mut RigidBodySet,
        constraints: &Vec<PositionConstraint>,
    )
        requires
            bodies_wf(old(bodies)@),
            pcs_wf(constraints@, old(bodies)@.len() as int),
        ensures
            final(bodies)@.len() == old(bodies)@.len(),
            final(bodies)@ == pos_commit_all(
                old(bodies)@,
                pos_iterate(
                    constraints@,
                    params.erp,
                    params.allowed_linear_error,
                    params.max_linear_correction,
                    zero_dpos(old(bodies)@.len() as int),
                    params.max_position_iterations as int,
                ),
            ),
            bodies_wf(final(bodies)@),
    {
        let nbodies: usize = bodies.len();
        let ncs: usize = constraints.len();
        let erp: i64 = params.erp;
        let slop: i64 = params.allowed_linear_error;
        let max_corr: i64 = params.max_linear_correction;

        self.dpos.clear();
        let mut z: usize = 0;
        while z < nbodies
            invariant
                z <= nbodies,
                self.dpos@ =~= zero_dpos(z as int),
            decreases nbodies - z,
        {
            self.dpos.push(Vec3::zero());
            proof {
                assert(self.dpos@ =~= zero_dpos(z as int + 1));
            }
            z = z + 1;
        }
        proof {
            assert(self.dpos@ =~= zero_dpos(nbodies as int));
        }

        let ghost dpos0 = self.dpos@;
        let niters: usize = params.max_position_iterations;
        let mut it: usize = 0;
        while it < niters
            invariant
                it <= niters,
                self.dpos@.len() == nbodies,
                bodies@ == old(bodies)@,
                self.dpos@ == pos_iterate(constraints@, erp, slop, max_corr, dpos0, it as int),
            decreases niters - it,
        {
            let ghost sweep0 = self.dpos@;
            let mut j: usize = 0;
            while j < ncs
                invariant
                    j <= ncs,
                    self.dpos@.len() == nbodies,
                    bodies@ == old(bodies)@,
                    self.dpos@ == pos_sweep(constraints@, erp, slop, max_corr, sweep0, j as int),
                decreases ncs - j,
            {
                let c: PositionConstraint = constraints[j];
                let ghost prev = self.dpos@;
                let d: i64 = fadd(
                    c.dist,
                    c.normal.dot(&self.dpos[c.slot2].sub(&self.dpos[c.slot1])),
                );
                let err: i64 = fsub(fneg(d), slop);
                if err > 0 {
                    let corr: i64 = fmin(fmul(err, erp), max_corr);
                    let lam: i64 = fmul(corr, c.r);
                    let d1: Vec3 = self.dpos[c.slot1].sub(&c.normal.scale(fmul(c.im1, lam)));
                    self.dpos[c.slot1] = d1;
                    let d2: Vec3 = self.dpos[c.slot2].add(&c.normal.scale(fmul(c.im2, lam)));
                    self.dpos[c.slot2] = d2;
                }
                proof {
                    assert(self.dpos@ == pos_step(constraints@[j as int], erp, slop, max_corr, prev));
                }
                j = j + 1;
            }
            it = it + 1;
        }

        // Commit the pose deltas.
        let mut b: usize = 0;
        while b < nbodies
            invariant
                b <= nbodies,
                bodies@.len() == nbodies,
                self.dpos@.len() == nbodies,
                forall|q: int| b <= q < nbodies ==> bodies@[q] == old(bodies)@[q],
                forall|q: int|
                    0 <= q < b ==> bodies@[q] == pos_commit_body(old(bodies)@[q], self.dpos@),
            decreases nbodies - b,
        {
            let mut rb: RigidBody = bodies.bodies[b];
            let off: usize = rb.active_set_offset;
            rb.world_com = rb.world_com.add(&self.dpos[off]);
            bodies.bodies[b] = rb;
            b = b + 1;
        }
        proof {
            assert(bodies@ =~= pos_commit_all(old(bodies)@, self.dpos@));
        }
    }
}

} // verus!
