//! The island solver driver: assembly, integration, velocity solve and
//! position solve of one simulation island.

use vstd::prelude::*;

use crate::body::bodies_wf;
use crate::body::integrate_spec;
use crate::body::params_wf;
use crate::body::IntegrationParameters;
use crate::body::RigidBody;
use crate::body::RigidBodySet;
use crate::counters::inc_sat;
use crate::counters::Counters;
use crate::counters::PhaseTimer;
use crate::counters::SolverCounters;
use crate::manifold::manifold_wf;
use crate::manifold::ContactManifold;
use crate::manifold::ManifoldModel;
use crate::position_constraint::gen_pos_constraints;
use crate::position_constraint::pcs_wf;
use crate::position_constraint::PositionConstraint;
use crate::position_solver::pos_commit_all;
use crate::position_solver::pos_iterate;
use crate::position_solver::zero_dpos;
use crate::position_solver::PositionSolver;
use crate::velocity_constraint::gen_constraint;
use crate::velocity_constraint::num_batches;
use crate::velocity_constraint::lemma_gen_constraint_wf;
use crate::velocity_constraint::AnyVelocityConstraint;
use crate::velocity_constraint::VcModel;
use crate::velocity_constraint::VelocityConstraint;
use crate::velocity_solver::commit_all;
use crate::velocity_solver::cs_manifold_wf;
use crate::velocity_solver::cs_solver_wf;
use crate::velocity_solver::iterate_all;
use crate::velocity_solver::manifold_models;
use crate::velocity_solver::models_of;
use crate::velocity_solver::warmstart_all;
use crate::velocity_solver::writeback_all;
use crate::velocity_solver::zero_lambdas;
use crate::velocity_solver::VelocitySolver;

verus! {

/// One joint edge of the island graph: the two coupled bodies. Joint
/// constraint assembly belongs to the joint-edge store, outside this
/// island solver; the driver reads the edges only to decide whether the
/// constrained path runs.
#[derive(Clone, Copy, Debug, PartialEq, Eq, Structural)]
pub struct JointGraphEdge {
    pub body1: usize,
    pub body2: usize,
}

/// The velocity constraints of one manifold, as spec models, in batch
/// order.
pub open spec fn gen_batch_models(
    params: IntegrationParameters,
    mid: int,
    m: ManifoldModel,
    bodies: Seq<RigidBody>,
) -> Seq<VcModel> {
    Seq::new(
        num_batches(m.points.len() as int) as nat,
        |l: int| gen_constraint(params, mid, m, bodies[m.body1], bodies[m.body2], l),
    )
}

/// The velocity-constraint models assembled from the first `n` referenced
/// manifolds, in reference order.
pub open spec fn assemble_vel(
    params: IntegrationParameters,
    manifolds: Seq<ManifoldModel>,
    idxs: Seq<usize>,
    bodies: Seq<RigidBody>,
    n: int,
) -> Seq<VcModel>
    decreases n,
{
    if n <= 0 {
        Seq::empty()
    } else {
        assemble_vel(params, manifolds, idxs, bodies, n - 1) + gen_batch_models(
            params,
            idxs[n - 1] as int,
            manifolds[idxs[n - 1] as int],
            bodies,
        )
    }
}

/// The position constraints assembled from the first `n` referenced
/// manifolds.
pub open spec fn assemble_pos(
    manifolds: Seq<ManifoldModel>,
    idxs: Seq<usize>,
    bodies: Seq<RigidBody>,
    n: int,
) -> Seq<PositionConstraint>
    decreases n,
{
    if n <= 0 {
        Seq::empty()
    } else {
        let m = manifolds[idxs[n - 1] as int];
        assemble_pos(manifolds, idxs, bodies, n - 1) + gen_pos_constraints(
            m,
            bodies[m.body1],
            bodies[m.body2],
        )
    }
}

/// Every referenced manifold exists, is well formed, has both bodies
/// participating, and references bodies of the island.
pub open spec fn manifolds_ok(
    manifolds: Seq<ManifoldModel>,
    idxs: Seq<usize>,
    nbodies: int,
) -> bool {
    forall|i: int|
        0 <= i < idxs.len() ==> {
            let mi = (#[trigger] idxs[i]) as int;
            &&& mi < manifolds.len()
            &&& manifold_wf(manifolds[mi])
            &&& manifolds[mi].relative_dominance == 0i8
            &&& manifolds[mi].body1 < nbodies
            &&& manifolds[mi].body2 < nbodies
        }
}

/// The whole constrained step of one island as a function of its inputs:
/// constraints are assembled from the pre-step poses, bodies are
/// integrated, the velocity pass warm-starts and iterates and commits and
/// writes impulses back, and the position pass corrects the poses.
pub open spec fn island_step(
    params: IntegrationParameters,
    bodies0: Seq<RigidBody>,
    manifolds0: Seq<ManifoldModel>,
    idxs: Seq<usize>,
) -> (Seq<RigidBody>, Seq<ManifoldModel>) {
    let ms = assemble_vel(params, manifolds0, idxs, bodies0, idxs.len() as int);
    let pcs = assemble_pos(manifolds0, idxs, bodies0, idxs.len() as int);
    let bodies1 = Seq::new(bodies0.len(), |i: int| integrate_spec(bodies0[i], params.dt));
    let lam = warmstart_all(ms, zero_lambdas(bodies1.len() as int), ms.len() as int);
    let it = iterate_all(ms, lam, params.max_velocity_iterations as int);
    let bodies2 = commit_all(bodies1, it.1);
    let manifolds1 = writeback_all(it.0, manifolds0, it.0.len() as int);
    let dpos = pos_iterate(
        pcs,
        params.erp,
        params.allowed_linear_error,
        params.max_linear_correction,
        zero_dpos(bodies2.len() as int),
        params.max_position_iterations as int,
    );
    (pos_commit_all(bodies2, dpos), manifolds1)
}

/// The constraint store of one island: the assembled contact velocity and
/// position constraints, reused (cleared and refilled) across steps.
pub struct SolverConstraints {
    pub velocity_constraints: Vec<AnyVelocityConstraint>,
    pub position_constraints: Vec<PositionConstraint>,
}

impl SolverConstraints {
    /// An empty store.
    pub fn new() -> (r: SolverConstraints)
        ensures
            r.velocity_constraints@ == Seq::<AnyVelocityConstraint>::empty(),
            r.position_constraints@ == Seq::<PositionConstraint>::empty(),
    {
        SolverConstraints { velocity_constraints: Vec::new(), position_constraints: Vec::new() }
    }

    /// Resets the store and assembles the velocity and position
    /// constraints of every referenced manifold, in reference order.
    #[verifier::loop_isolation(false)]
    #[verifier::rlimit(100)]
    pub fn init(
        &mut self,
        island_id: usize,
        params: &IntegrationParameters,
        bodies: &RigidBodySet,
        manifolds: &Vec<ContactManifold>,
        manifold_indices: &Vec<usize>,
    )
        requires
            params_wf(*params),
            bodies_wf(bodies@),
            manifolds_ok(manifold_models(manifolds@), manifold_indices@, bodies@.len() as int),
        ensures
            models_of(final(self).velocity_constraints@) == assemble_vel(
                *params,
                manifold_models(manifolds@),
                manifold_indices@,
                bodies@,
                manifold_indices@.len() as int,
            ),
            final(self).position_constraints@ == assemble_pos(
                manifold_models(manifolds@),
                manifold_indices@,
                bodies@,
                manifold_indices@.len() as int,
            ),
            cs_solver_wf(final(self).velocity_constraints@, bodies@.len() as int),
            cs_manifold_wf(final(self).velocity_constraints@, manifold_models(manifolds@)),
            pcs_wf(final(self).position_constraints@, bodies@.len() as int),
    {
        let ghost mmodels = manifold_models(manifolds@);
        self.velocity_constraints.clear();
        self.position_constraints.clear();
        let nidx: usize = manifold_indices.len();
        let mut i: usize = 0;
        while i < nidx
            invariant
                i <= nidx,
                nidx == manifold_indices@.len(),
                models_of(self.velocity_constraints@) == assemble_vel(
                    *params,
                    mmodels,
                    manifold_indices@,
                    bodies@,
                    i as int,
                ),
                self.position_constraints@ == assemble_pos(
                    mmodels,
                    manifold_indices@,
                    bodies@,
                    i as int,
                ),
                cs_solver_wf(self.velocity_constraints@, bodies@.len() as int),
                cs_manifold_wf(self.velocity_constraints@, mmodels),
                pcs_wf(self.position_constraints@, bodies@.len() as int),
            decreases nidx - i,
        {
            let mi: usize = manifold_indices[i];
            let manifold: &ContactManifold = &manifolds[mi];
            let ghost m = mmodels[mi as int];
            let ghost prev_vel = self.velocity_constraints@;
            let ghost prev_pos = self.position_constraints@;
            proof {
                assert(manifold@ == m);
            }
            VelocityConstraint::generate(
                params,
                mi,
                manifold,
                bodies,
                &mut self.velocity_constraints,
                true,
            );
            PositionConstraint::generate(manifold, bodies, &mut self.position_constraints);
            proof {
                let nb = num_batches(m.points.len() as int);
                let batch = gen_batch_models(*params, mi as int, m, bodies@);
                let cur = self.velocity_constraints@;
                assert(cur.len() == prev_vel.len() + nb);
                assert forall|l: int| 0 <= l < nb implies {
                    let c = #[trigger] cur[prev_vel.len() + l];
                    c is Nongrouped && c->Nongrouped_0@ == batch[l]
                } by {
                    assert(cur[prev_vel.len() + l] is Nongrouped);
                }
                assert forall|l: int| 0 <= l < nb implies {
                    let c = (#[trigger] cur[prev_vel.len() + l])->Nongrouped_0@;
                    crate::velocity_constraint::vc_wf(c)
                        && crate::velocity_constraint::vc_normals_nonneg(c)
                        && c.mj_lambda1 < bodies@.len() && c.mj_lambda2 < bodies@.len()
                        && 0 <= c.manifold_id < mmodels.len() && (forall|k: int|
                        0 <= k < c.num_contacts ==> ((#[trigger] c.manifold_contact_id[k]) as int)
                            < mmodels[c.manifold_id].points.len())
                } by {
                    assert(l * 4 < m.points.len() && l * 4 >= 0) by (nonlinear_arith)
                        requires
                            0 <= l < nb,
                            nb == (m.points.len() as int) / 4 + if (m.points.len() as int) % 4
                                != 0 { 1int } else { 0int },
                    ;
                    let rba = bodies@[m.body1];
                    let rbb = bodies@[m.body2];
                    lemma_gen_constraint_wf(*params, mi as int, m, rba, rbb, l);
                }
                assert forall|q: int| 0 <= q < cur.len() implies
                    (#[trigger] models_of(cur)[q]) == (models_of(prev_vel) + batch)[q] by {
                    if q < prev_vel.len() {
                        assert(cur[q] == prev_vel[q]);
                    } else {
                        let l = q - prev_vel.len();
                        assert(cur[prev_vel.len() + l] is Nongrouped
                            && cur[prev_vel.len() + l]->Nongrouped_0@ == batch[l]);
                    }
                }
                assert(models_of(cur) =~= models_of(prev_vel) + batch);
                assert(models_of(self.velocity_constraints@) == assemble_vel(
                    *params,
                    mmodels,
                    manifold_indices@,
                    bodies@,
                    i as int + 1,
                ));
                assert(self.position_constraints@ == assemble_pos(
                    mmodels,
                    manifold_indices@,
                    bodies@,
                    i as int + 1,
                ));
                assert forall|q: int| 0 <= q < cur.len() implies {
                    let c = (#[trigger] cur[q])->Nongrouped_0@;
                    &&& cur[q] is Nongrouped
                    &&& crate::velocity_constraint::vc_wf(c)
                    &&& crate::velocity_constraint::vc_normals_nonneg(c)
                    &&& c.mj_lambda1 < bodies@.len()
                    &&& c.mj_lambda2 < bodies@.len()
                    &&& 0 <= c.manifold_id < mmodels.len()
                    &&& forall|k: int|
                        0 <= k < c.num_contacts ==> ((#[trigger] c.manifold_contact_id[k]) as int)
                            < mmodels[c.manifold_id].points.len()
                } by {
                    if q < prev_vel.len() {
                        assert(cur[q] == prev_vel[q]);
                        assert(prev_vel[q] is Nongrouped);
                    } else {
                        let l = q - prev_vel.len();
                        assert(cur[prev_vel.len() + l] is Nongrouped);
                    }
                }
                assert(cs_solver_wf(self.velocity_constraints@, bodies@.len() as int));
                assert(cs_manifold_wf(self.velocity_constraints@, mmodels));
            }
            i = i + 1;
        }
    }
}

/// The per-island solver: owns the constraint store and the two PGS
/// solvers, all reused across steps.
pub struct IslandSolver {
    pub contact_constraints: SolverConstraints,
    pub velocity_solver: VelocitySolver,
    pub position_solver: PositionSolver,
}

impl IslandSolver {
    /// A fresh island solver with empty, reusable buffers.
    pub fn new() -> (r: IslandSolver)
        ensures
            r.contact_constraints.velocity_constraints@
                == Seq::<AnyVelocityConstraint>::empty(),
            r.contact_constraints.position_constraints@ == Seq::<PositionConstraint>::empty(),
    {
        IslandSolver {
            contact_constraints: SolverConstraints::new(),
            velocity_solver: VelocitySolver::new(),
            position_solver: PositionSolver::new(),
        }
    }

    /// Advances one island by one time step.
    ///
    /// With no referenced manifolds and no referenced joints, the bodies
    /// are only integrated by `dt` and nothing else changes. Otherwise
    /// the full pipeline runs: contact constraints are assembled from the
    /// pre-step poses, bodies are integrated, the velocity pass solves
    /// and writes impulses back to the manifolds, and the position pass
    /// corrects residual penetration; bodies and manifolds end exactly at
    /// `island_step` of the inputs. Joint constraint assembly lives with
    /// the joint-edge store and contributes no constraints here; the
    /// edges only select the constrained path. Each phase's counter
    /// completes exactly one span.
    #[verifier::loop_isolation(false)]
    #[verifier::rlimit(100)]
    pub fn solve_island(
        &mut self,
        island_id: usize,
        counters: &mut Counters,
        params: &IntegrationParameters,
        bodies: &mut RigidBodySet,
        manifolds: &mut Vec<ContactManifold>,
        manifold_indices: &Vec<usize>,
        joints: &mut Vec<JointGraphEdge>,
        joint_indices: &Vec<usize>,
    )
        requires
            params_wf(*params),
            bodies_wf(old(bodies)@),
            manifolds_ok(
                manifold_models(old(manifolds)@),
                manifold_indices@,
                old(bodies)@.len() as int,
            ),
        ensures
            final(joints)@ == old(joints)@,
            final(bodies)@.len() == old(bodies)@.len(),
            bodies_wf(final(bodies)@),
            manifold_indices@.len() == 0 && joint_indices@.len() == 0 ==> {
                &&& final(manifolds)@ == old(manifolds)@
                &&& forall|i: int|
                    0 <= i < old(bodies)@.len() ==> final(bodies)@[i] == integrate_spec(
                        old(bodies)@[i],
                        params.dt,
                    )
                &&& *final(counters) == (Counters {
                    solver: SolverCounters {
                        velocity_update_time: PhaseTimer {
                            running: false,
                            spans: inc_sat(old(counters).solver.velocity_update_time.spans),
                        },
                        ..old(counters).solver
                    },
                })
            },
            manifold_indices@.len() != 0 || joint_indices@.len() != 0 ==> {
                let step = island_step(
                    *params,
                    old(bodies)@,
                    manifold_models(old(manifolds)@),
                    manifold_indices@,
                );
                &&& final(bodies)@ == step.0
                &&& manifold_models(final(manifolds)@) == step.1
                &&& *final(counters) == (Counters {
                    solver: SolverCounters {
                        velocity_assembly_time: PhaseTimer {
                            running: false,
                            spans: inc_sat(old(counters).solver.velocity_assembly_time.spans),
                        },
                        velocity_update_time: PhaseTimer {
                            running: false,
                            spans: inc_sat(old(counters).solver.velocity_update_time.spans),
                        },
                        velocity_resolution_time: PhaseTimer {
                            running: false,
                            spans: inc_sat(old(counters).solver.velocity_resolution_time.spans),
                        },
                        position_resolution_time: PhaseTimer {
                            running: false,
                            spans: inc_sat(old(counters).solver.position_resolution_time.spans),
                        },
                    },
                })
            },
    {
        let has_constraints: bool = manifold_indices.len() != 0 || joint_indices.len() != 0;

        if has_constraints {
            // Symplectic Euler: assemble the constraints from the *old*
            // positions.
            counters.solver.velocity_assembly_time.resume();
            self.contact_constraints.init(island_id, params, bodies, manifolds, manifold_indices);
            counters.solver.velocity_assembly_time.pause();

            // Symplectic Euler: move the bodies using the *old*
            // velocities.
            counters.solver.velocity_update_time.resume();
            bodies.integrate_all(params.dt);
            counters.solver.velocity_update_time.pause();
            proof {
                assert(bodies_wf(bodies@));
            }

            counters.solver.velocity_resolution_time.resume();
            self.velocity_solver.solve(
                params,
                bodies,
                manifolds,
                &mut self.contact_constraints.velocity_constraints,
            );
            counters.solver.velocity_resolution_time.pause();

            counters.solver.position_resolution_time.resume();
            self.position_solver.solve(
                params,
                bodies,
                &self.contact_constraints.position_constraints,
            );
            counters.solver.position_resolution_time.pause();
        } else {
            counters.solver.velocity_update_time.resume();
            bodies.integrate_all(params.dt);
            counters.solver.velocity_update_time.pause();
            proof {
                assert(bodies_wf(bodies@));
            }
        }
    }
}

} // verus!
