//! The island's velocity solver: warm start, PGS iterations, commit and
//! impulse writeback.

use vstd::prelude::*;

use crate::body::bodies_wf;
use crate::body::IntegrationParameters;
use crate::body::RigidBody;
use crate::body::RigidBodySet;
use crate::manifold::ContactManifold;
use crate::manifold::ManifoldModel;
use crate::math::dv_add;
use crate::math::dv_zero;
use crate::math::v_add;
use crate::math::DeltaVel;
use crate::velocity_constraint::solve_model;
use crate::velocity_constraint::vc_normals_nonneg;
use crate::velocity_constraint::vc_wf;
use crate::velocity_constraint::warmstart_pass;
use crate::velocity_constraint::writeback_points;
use crate::velocity_constraint::AnyVelocityConstraint;
use crate::velocity_constraint::VcModel;

verus! {

/// A buffer of `n` zero deltas.
pub open spec fn zero_lambdas(n: int) -> Seq<DeltaVel> {
    Seq::new(n as nat, |i: int| dv_zero())
}

/// The spec models of a constraint vector (every entry a scalar
/// constraint).
pub open spec fn models_of(cs: Seq<AnyVelocityConstraint>) -> Seq<VcModel> {
    cs.map_values(|c: AnyVelocityConstraint| c->Nongrouped_0@)
}

/// The spec models of a manifold vector.
pub open spec fn manifold_models(ms: Seq<ContactManifold>) -> Seq<ManifoldModel> {
    ms.map_values(|m: ContactManifold| m@)
}

/// Effect of warm-starting one constraint on the delta buffer.
pub open spec fn ws_effect(c: VcModel, lam: Seq<DeltaVel>) -> Seq<DeltaVel> {
    let w = warmstart_pass(c.dir1, c.im1, c.im2, c.elements, dv_zero(), dv_zero(), c.num_contacts);
    let s1 = lam.update(c.mj_lambda1, dv_add(lam[c.mj_lambda1], w.0));
    s1.update(c.mj_lambda2, dv_add(s1[c.mj_lambda2], w.1))
}

/// The delta buffer after warm-starting the first `n` constraints.
pub open spec fn warmstart_all(ms: Seq<VcModel>, lam: Seq<DeltaVel>, n: int) -> Seq<DeltaVel>
    decreases n,
{
    if n <= 0 {
        lam
    } else {
        ws_effect(ms[n - 1], warmstart_all(ms, lam, n - 1))
    }
}

/// Effect of one PGS sweep of one constraint: its updated elements and
/// the updated delta buffer.
pub open spec fn solve_effect(c: VcModel, lam: Seq<DeltaVel>) -> (VcModel, Seq<DeltaVel>) {
    let s = solve_model(c, lam[c.mj_lambda1], lam[c.mj_lambda2]);
    (
        VcModel { elements: s.0, ..c },
        lam.update(c.mj_lambda1, s.1).update(c.mj_lambda2, s.2),
    )
}

/// One sweep over the first `n` constraints, threading the delta buffer.
pub open spec fn sweep_all(ms: Seq<VcModel>, lam: Seq<DeltaVel>, n: int) -> (
    Seq<VcModel>,
    Seq<DeltaVel>,
)
    decreases n,
{
    if n <= 0 {
        (ms, lam)
    } else {
        let prev = sweep_all(ms, lam, n - 1);
        let e = solve_effect(prev.0[n - 1], prev.1);
        (prev.0.update(n - 1, e.0), e.1)
    }
}

/// `iters` full sweeps over all constraints.
pub open spec fn iterate_all(ms: Seq<VcModel>, lam: Seq<DeltaVel>, iters: int) -> (
    Seq<VcModel>,
    Seq<DeltaVel>,
)
    decreases iters,
{
    if iters <= 0 {
        (ms, lam)
    } else {
        let prev = iterate_all(ms, lam, iters - 1);
        sweep_all(prev.0, prev.1, prev.0.len() as int)
    }
}

/// A body with its delta applied: both velocities advance by the entry at
/// the body's active-set slot.
pub open spec fn commit_body(b: RigidBody, lam: Seq<DeltaVel>) -> RigidBody {
    RigidBody {
        linvel: v_add(b.linvel, lam[b.active_set_offset as int].linear),
        angvel: v_add(b.angvel, lam[b.active_set_offset as int].angular),
        ..b
    }
}

/// All bodies with their deltas applied.
pub open spec fn commit_all(bs: Seq<RigidBody>, lam: Seq<DeltaVel>) -> Seq<RigidBody> {
    Seq::new(bs.len(), |i: int| commit_body(bs[i], lam))
}

/// The manifolds after the first `n` constraints wrote their impulses
/// back.
pub open spec fn writeback_all(
    ms: Seq<VcModel>,
    manifolds: Seq<ManifoldModel>,
    n: int,
) -> Seq<ManifoldModel>
    decreases n,
{
    if n <= 0 {
        manifolds
    } else {
        let prev = writeback_all(ms, manifolds, n - 1);
        let c = ms[n - 1];
        prev.update(
            c.manifold_id,
            ManifoldModel {
                points: writeback_points(c, prev[c.manifold_id].points, c.num_contacts),
                ..prev[c.manifold_id]
            },
        )
    }
}

/// Writing impulses back never changes how many points a manifold has.
pub proof fn lemma_writeback_points_len(c: VcModel, pts: Seq<crate::manifold::SolverContact>, n: int)
    requires
        n <= c.manifold_contact_id.len(),
        forall|k: int|
            0 <= k < n ==> ((#[trigger] c.manifold_contact_id[k]) as int) < pts.len(),
    ensures
        writeback_points(c, pts, n).len() == pts.len(),
    decreases n,
{
    if n > 0 {
        lemma_writeback_points_len(c, pts, n - 1);
        assert(writeback_points(c, pts, n) == writeback_points(c, pts, n - 1).update(
            c.manifold_contact_id[n - 1] as int,
            crate::manifold::SolverContact {
                impulse: c.elements[n - 1].normal_part.impulse,
                tangent_impulse_a: c.elements[n - 1].tangent_part_a.impulse,
                tangent_impulse_b: c.elements[n - 1].tangent_part_b.impulse,
                ..writeback_points(c, pts, n - 1)[c.manifold_contact_id[n - 1] as int]
            },
        ));
    }
}


/// Writing one constraint's impulses back keeps every stored normal
/// impulse non-negative, given the constraint's accumulated normal
/// impulses are.
proof fn lemma_writeback_points_nonneg(c: VcModel, pts: Seq<crate::manifold::SolverContact>, n: int)
    requires
        vc_normals_nonneg(c),
        n <= c.elements.len(),
        n <= c.manifold_contact_id.len(),
        forall|k: int|
            0 <= k < n ==> ((#[trigger] c.manifold_contact_id[k]) as int) < pts.len(),
        forall|j: int| 0 <= j < pts.len() ==> (#[trigger] pts[j]).impulse >= 0,
    ensures
        forall|j: int|
            0 <= j < writeback_points(c, pts, n).len()
                ==> (#[trigger] writeback_points(c, pts, n)[j]).impulse >= 0,
    decreases n,
{
    if n > 0 {
        lemma_writeback_points_nonneg(c, pts, n - 1);
        lemma_writeback_points_len(c, pts, n - 1);
    }
}

/// Impulse cone at the manifolds: after the constraints of one velocity
/// solve write their impulses back, every stored normal impulse is
/// non-negative, provided the incoming cached impulses were and every
/// constraint's accumulated normal impulses are (which `solve`
/// guarantees).
pub proof fn lemma_writeback_all_nonneg(ms: Seq<VcModel>, manifolds: Seq<ManifoldModel>, n: int)
    requires
        n <= ms.len(),
        forall|i: int|
            0 <= i < ms.len() ==> vc_normals_nonneg(#[trigger] ms[i]) && vc_wf(ms[i])
                && 0 <= ms[i].manifold_id < manifolds.len(),
        forall|i: int, k: int|
            0 <= i < ms.len() && 0 <= k < ms[i].num_contacts
                ==> ((#[trigger] ms[i].manifold_contact_id[k]) as int)
                < manifolds[ms[i].manifold_id].points.len(),
        forall|q: int, j: int|
            0 <= q < manifolds.len() && 0 <= j < manifolds[q].points.len()
                ==> (#[trigger] manifolds[q].points[j]).impulse >= 0,
    ensures
        writeback_all(ms, manifolds, n).len() == manifolds.len(),
        forall|q: int|
            0 <= q < manifolds.len() ==> (#[trigger] writeback_all(ms, manifolds, n)[q])
                .points.len() == manifolds[q].points.len(),
        forall|q: int, j: int|
            0 <= q < manifolds.len() && 0 <= j < manifolds[q].points.len()
                ==> (#[trigger] writeback_all(ms, manifolds, n)[q].points[j]).impulse >= 0,
    decreases n,
{
    if n > 0 {
        lemma_writeback_all_nonneg(ms, manifolds, n - 1);
        let prev = writeback_all(ms, manifolds, n - 1);
        let c = ms[n - 1];
        lemma_writeback_points_len(c, prev[c.manifold_id].points, c.num_contacts);
        lemma_writeback_points_nonneg(c, prev[c.manifold_id].points, c.num_contacts);
    }
}

/// Every constraint is a scalar constraint, well formed, with
/// non-negative normal impulses and body slots inside a delta buffer of
/// length `nbodies`.
pub open spec fn cs_solver_wf(cs: Seq<AnyVelocityConstraint>, nbodies: int) -> bool {
    forall|i: int|
        0 <= i < cs.len() ==> {
            let c = (#[trigger] cs[i])->Nongrouped_0@;
            &&& cs[i] is Nongrouped
            &&& vc_wf(c)
            &&& vc_normals_nonneg(c)
            &&& c.mj_lambda1 < nbodies
            &&& c.mj_lambda2 < nbodies
        }
}

/// Every constraint's writeback targets lie inside its manifold.
pub open spec fn cs_manifold_wf(cs: Seq<AnyVelocityConstraint>, manifolds: Seq<ManifoldModel>) -> bool {
    forall|i: int|
        0 <= i < cs.len() ==> {
            let c = (#[trigger] cs[i])->Nongrouped_0@;
            &&& 0 <= c.manifold_id < manifolds.len()
            &&& forall|k: int|
                0 <= k < c.num_contacts ==> ((#[trigger] c.manifold_contact_id[k]) as int)
                    < manifolds[c.manifold_id].points.len()
        }
}

/// Runs the velocity phase of one island: the delta buffer is zeroed (one
/// slot per active body), every constraint is warm-started, the PGS sweep
/// runs `max_velocity_iterations` times over all constraints, the deltas
/// are committed to the bodies' velocities, and the accumulated impulses
/// are written back to the manifolds.
pub struct VelocitySolver {
    pub mj_lambdas: Vec<DeltaVel>,
}

#[verifier::loop_isolation(false)]
#[verifier::rlimit(100)]
fn fill_zero(buf: &mut Vec<DeltaVel>, n: usize)
    ensures
        final(buf)@ == zero_lambdas(n as int),
{
    buf.clear();
    let mut z: usize = 0;
    while z < n
        invariant
            z <= n,
            buf@ =~= zero_lambdas(z as int),
        decreases n - z,
    {
        buf.push(DeltaVel::zero());
        proof {
            assert(buf@ =~= zero_lambdas(z as int + 1));
        }
        z = z + 1;
    }
    proof {
        assert(buf@ =~= zero_lambdas(n as int));
    }
}

#[verifier::loop_isolation(false)]
#[verifier::rlimit(100)]
fn warmstart_phase(constraints: &Vec<AnyVelocityConstraint>, lam: &mut Vec<DeltaVel>)
    requires
        cs_solver_wf(constraints@, old(lam)@.len() as int),
    ensures
        final(lam)@.len() == old(lam)@.len(),
        final(lam)@ == warmstart_all(
            models_of(constraints@),
            old(lam)@,
            constraints@.len() as int,
        ),
{
    let ghost ms0 = models_of(constraints@);
    let ncs: usize = constraints.len();
    let mut i: usize = 0;
    while i < ncs
        invariant
            i <= ncs,
            lam@.len() == old(lam)@.len(),
            lam@ == warmstart_all(ms0, old(lam)@, i as int),
        decreases ncs - i,
    {
        let ghost prev = lam@;
        proof {
            assert(constraints@[i as int] is Nongrouped);
        }
        constraints[i].warmstart(lam);
        proof {
            assert(ms0[i as int] == constraints@[i as int]->Nongrouped_0@);
            assert(lam@ == ws_effect(ms0[i as int], prev));
        }
        i = i + 1;
    }
}

#[verifier::loop_isolation(false)]
#[verifier::rlimit(100)]
fn sweep_phase(constraints: &mut Vec<AnyVelocityConstraint>, lam: &mut Vec<DeltaVel>)
    requires
        cs_solver_wf(old(constraints)@, old(lam)@.len() as int),
    ensures
        final(lam)@.len() == old(lam)@.len(),
        final(constraints)@.len() == old(constraints)@.len(),
        cs_solver_wf(final(constraints)@, old(lam)@.len() as int),
        (models_of(final(constraints)@), final(lam)@) == sweep_all(
            models_of(old(constraints)@),
            old(lam)@,
            old(constraints)@.len() as int,
        ),
        forall|i: int|
            0 <= i < old(constraints)@.len()
                ==> ((#[trigger] final(constraints)@[i])->Nongrouped_0@ == (VcModel {
                elements: final(constraints)@[i]->Nongrouped_0@.elements,
                ..old(constraints)@[i]->Nongrouped_0@
            })),
{
    let ghost sweep_ms = models_of(constraints@);
    let ghost lam0 = lam@;
    let ncs: usize = constraints.len();
    let mut j: usize = 0;
    while j < ncs
        invariant
            j <= ncs,
            constraints@.len() == ncs,
            lam@.len() == old(lam)@.len(),
            cs_solver_wf(constraints@, old(lam)@.len() as int),
            (models_of(constraints@), lam@) == sweep_all(sweep_ms, lam0, j as int),
            forall|q: int| j <= q < ncs ==> constraints@[q] == old(constraints)@[q],
            forall|i: int|
                0 <= i < ncs ==> ((#[trigger] constraints@[i])->Nongrouped_0@ == (VcModel {
                    elements: constraints@[i]->Nongrouped_0@.elements,
                    ..old(constraints)@[i]->Nongrouped_0@
                })),
        decreases ncs - j,
    {
        let ghost prev_ms = models_of(constraints@);
        let ghost prev_lam = lam@;
        proof {
            assert(constraints@[j as int] is Nongrouped);
        }
        constraints[j].solve(lam);
        proof {
            let e = solve_effect(prev_ms[j as int], prev_lam);
            assert(constraints@[j as int]->Nongrouped_0@ == e.0);
            assert(models_of(constraints@) =~= prev_ms.update(j as int, e.0));
            assert(lam@ == e.1);
        }
        j = j + 1;
    }
}

#[verifier::loop_isolation(false)]
#[verifier::rlimit(100)]
fn commit_phase(bodies: &mut RigidBodySet, lam: &Vec<DeltaVel>)
    requires
        bodies_wf(old(bodies)@),
        lam@.len() == old(bodies)@.len(),
    ensures
        final(bodies)@.len() == old(bodies)@.len(),
        final(bodies)@ == commit_all(old(bodies)@, lam@),
        bodies_wf(final(bodies)@),
{
    let nbodies: usize = bodies.bodies.len();
    let mut b: usize = 0;
    while b < nbodies
        invariant
            b <= nbodies,
            bodies@.len() == nbodies,
            forall|q: int| b <= q < nbodies ==> bodies@[q] == old(bodies)@[q],
            forall|q: int| 0 <= q < b ==> bodies@[q] == commit_body(old(bodies)@[q], lam@),
        decreases nbodies - b,
    {
        let mut rb: RigidBody = bodies.bodies[b];
        let off: usize = rb.active_set_offset;
        let dv: DeltaVel = lam[off];
        rb.linvel = rb.linvel.add(&dv.linear);
        rb.angvel = rb.angvel.add(&dv.angular);
        bodies.bodies[b] = rb;
        b = b + 1;
    }
    proof {
        assert(bodies@ =~= commit_all(old(bodies)@, lam@));
    }
}

#[verifier::loop_isolation(false)]
#[verifier::rlimit(100)]
fn writeback_phase(constraints: &Vec<AnyVelocityConstraint>, manifolds: &mut Vec<ContactManifold>)
    requires
        cs_solver_wf(constraints@, 0x10000000000000000),
        cs_manifold_wf(constraints@, manifold_models(old(manifolds)@)),
    ensures
        final(manifolds)@.len() == old(manifolds)@.len(),
        manifold_models(final(manifolds)@) == writeback_all(
            models_of(constraints@),
            manifold_models(old(manifolds)@),
            constraints@.len() as int,
        ),
{
    let ghost ms_final = models_of(constraints@);
    let ghost manifolds0 = manifold_models(old(manifolds)@);
    let ncs: usize = constraints.len();
    let mut w: usize = 0;
    while w < ncs
        invariant
            w <= ncs,
            manifolds@.len() == old(manifolds)@.len(),
            manifold_models(manifolds@) == writeback_all(ms_final, manifolds0, w as int),
            forall|q: int|
                0 <= q < manifolds@.len() ==> (#[trigger] manifolds@[q])@.points.len()
                    == manifolds0[q].points.len(),
        decreases ncs - w,
    {
        let ghost prev = manifold_models(manifolds@);
        proof {
            assert(constraints@[w as int] is Nongrouped);
            let c = constraints@[w as int]->Nongrouped_0@;
            assert(manifolds0.len() == old(manifolds)@.len());
            assert(0 <= c.manifold_id < manifolds0.len());
            assert(manifolds@[c.manifold_id]@ == prev[c.manifold_id]);
            assert forall|k: int| 0 <= k < c.num_contacts implies
                ((#[trigger] c.manifold_contact_id[k]) as int)
                    < manifolds@[c.manifold_id]@.points.len() by {
                assert(((c.manifold_contact_id[k]) as int)
                    < manifolds0[c.manifold_id].points.len());
            }
        }
        constraints[w].writeback_impulses(manifolds);
        proof {
            let c = ms_final[w as int];
            lemma_writeback_points_len(c, prev[c.manifold_id].points, c.num_contacts);
            assert(manifold_models(manifolds@) =~= prev.update(
                c.manifold_id,
                ManifoldModel {
                    points: writeback_points(c, prev[c.manifold_id].points, c.num_contacts),
                    ..prev[c.manifold_id]
                },
            ));
        }
        w = w + 1;
    }
}

impl VelocitySolver {
    /// A solver with an empty delta buffer.
    pub fn new() -> (r: VelocitySolver)
        ensures
            r.mj_lambdas@ == Seq::<DeltaVel>::empty(),
    {
        VelocitySolver { mj_lambdas: Vec::new() }
    }

    /// One velocity solve. The final bodies, constraints and manifolds
    /// are exactly the warm-start/iterate/commit/writeback pipeline of
    /// the spec folds; afterwards every constraint still has non-negative
    /// normal impulses.
    #[verifier::loop_isolation(false)]
    #[verifier::rlimit(100)]
    pub fn solve(
        &mut self,
        params: &IntegrationParameters,
        bodies: &mut RigidBodySet,
        manifolds: &mut Vec<ContactManifold>,
        constraints: &mut Vec<AnyVelocityConstraint>,
    )
        requires
            bodies_wf(old(bodies)@),
            cs_solver_wf(old(constraints)@, old(bodies)@.len() as int),
            cs_manifold_wf(old(constraints)@, manifold_models(old(manifolds)@)),
        ensures
            final(bodies)@.len() == old(bodies)@.len(),
            ({
                let ms0 = models_of(old(constraints)@);
                let lam0 = warmstart_all(
                    ms0,
                    zero_lambdas(old(bodies)@.len() as int),
                    ms0.len() as int,
                );
                let it = iterate_all(ms0, lam0, params.max_velocity_iterations as int);
                &&& final(bodies)@ == commit_all(old(bodies)@, it.1)
                &&& models_of(final(constraints)@) == it.0
                &&& manifold_models(final(manifolds)@) == writeback_all(
                    it.0,
                    manifold_models(old(manifolds)@),
                    it.0.len() as int,
                )
            }),
            final(constraints)@.len() == old(constraints)@.len(),
            cs_solver_wf(final(constraints)@, old(bodies)@.len() as int),
            final(manifolds)@.len() == old(manifolds)@.len(),
            bodies_wf(final(bodies)@),
    {
        let nbodies: usize = bodies.len();
        let ghost ms0 = models_of(constraints@);
        let ghost manifolds0 = manifold_models(manifolds@);

        fill_zero(&mut self.mj_lambdas, nbodies);
        warmstart_phase(constraints, &mut self.mj_lambdas);
        let ghost lam0 = self.mj_lambdas@;

        let niters: usize = params.max_velocity_iterations;
        let mut it: usize = 0;
        while it < niters
            invariant
                it <= niters,
                constraints@.len() == old(constraints)@.len(),
                self.mj_lambdas@.len() == nbodies,
                cs_solver_wf(constraints@, nbodies as int),
                cs_manifold_wf(constraints@, manifolds0),
                bodies@ == old(bodies)@,
                manifolds@ == old(manifolds)@,
                (models_of(constraints@), self.mj_lambdas@) == iterate_all(ms0, lam0, it as int),
            decreases niters - it,
        {
            let ghost pre_ms = models_of(constraints@);
            proof {
                assert forall|i: int| 0 <= i < constraints@.len() implies {
                    let c = (#[trigger] constraints@[i])->Nongrouped_0@;
                    0 <= c.manifold_id < manifolds0.len() && (forall|k: int|
                        0 <= k < c.num_contacts ==> ((#[trigger] c.manifold_contact_id[k]) as int)
                            < manifolds0[c.manifold_id].points.len())
                } by {
                    assert(constraints@[i] is Nongrouped);
                }
            }
            sweep_phase(constraints, &mut self.mj_lambdas);
            proof {
                assert(iterate_all(ms0, lam0, it as int + 1) == sweep_all(
                    pre_ms,
                    iterate_all(ms0, lam0, it as int).1,
                    pre_ms.len() as int,
                ));
            }
            it = it + 1;
        }

        commit_phase(bodies, &self.mj_lambdas);
        proof {
            assert forall|i: int| 0 <= i < constraints@.len() implies {
                let c = (#[trigger] constraints@[i])->Nongrouped_0@;
                constraints@[i] is Nongrouped && vc_wf(c) && vc_normals_nonneg(c)
                    && c.mj_lambda1 < 0x10000000000000000 && c.mj_lambda2 < 0x10000000000000000
            } by {
                assert(constraints@[i] is Nongrouped);
            }
        }
        writeback_phase(constraints, manifolds);
    }
}

} // verus!
