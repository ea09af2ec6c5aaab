//! End-to-end scenarios for the island solver, in fixed-point units
//! (65536 units per 1.0).

use rigid_island::body::{IntegrationParameters, RigidBody, RigidBodySet};
use rigid_island::counters::Counters;
use rigid_island::fx::{fadd, fclamp, fmul, fsub, isqrt128, SCALE};
use rigid_island::island_solver::{IslandSolver, JointGraphEdge};
use rigid_island::manifold::{ContactManifold, SolverContact};
use rigid_island::math::{Mat3, Vec3};
use rigid_island::velocity_constraint::orthonormal_basis;

const ONE: i64 = SCALE;

fn v(x: i64, y: i64, z: i64) -> Vec3 {
    Vec3 { x, y, z }
}

fn body(im: i64, linvel: Vec3, world_com: Vec3, offset: usize) -> RigidBody {
    RigidBody {
        im,
        sqrt_inv_inertia: Mat3::diagonal(ONE),
        linvel,
        angvel: v(0, 0, 0),
        world_com,
        active_set_offset: offset,
    }
}

fn params(dt: i64, iters: usize, pos_iters: usize) -> IntegrationParameters {
    IntegrationParameters {
        dt,
        warmstart_coeff: ONE,
        velocity_solve_fraction: ONE,
        velocity_based_erp: 0,
        erp: ONE,
        allowed_linear_error: 0,
        max_linear_correction: ONE,
        max_velocity_iterations: iters,
        max_position_iterations: pos_iters,
    }
}

fn contact(point: Vec3, dist: i64, friction: i64, restitution: i64, bouncy: bool) -> SolverContact {
    SolverContact {
        point,
        dist,
        friction,
        restitution,
        tangent_velocity: v(0, 0, 0),
        is_bouncy: bouncy,
        contact_id: 0,
        impulse: 0,
        tangent_impulse_a: 0,
        tangent_impulse_b: 0,
    }
}

fn head_on_pair() -> (RigidBodySet, Vec<ContactManifold>) {
    let mut bodies = RigidBodySet::new();
    bodies.push(body(ONE, v(ONE, 0, 0), v(-ONE, 0, 0), 0));
    bodies.push(body(ONE, v(-ONE, 0, 0), v(ONE, 0, 0), 1));
    let manifold = ContactManifold {
        body1: 0,
        body2: 1,
        normal: v(ONE, 0, 0),
        relative_dominance: 0,
        warmstart_multiplier: ONE,
        constraint_index: 0,
        points: vec![contact(v(0, 0, 0), 0, 0, ONE, true)],
    };
    (bodies, vec![manifold])
}

const DT_60: i64 = SCALE / 60;

/// Pass-through integration: one body, no contacts, no joints. The
/// center of mass advances by linvel * dt and nothing else changes.
#[test]
fn s1_pass_through_integration() {
    let mut solver = IslandSolver::new();
    let mut counters = Counters::new();
    let p = params(DT_60, 4, 0);
    let mut bodies = RigidBodySet::new();
    bodies.push(body(ONE, v(ONE, 0, 0), v(0, 0, 0), 0));
    let mut manifolds: Vec<ContactManifold> = Vec::new();
    let mut joints: Vec<JointGraphEdge> = Vec::new();
    solver.solve_island(
        0,
        &mut counters,
        &p,
        &mut bodies,
        &mut manifolds,
        &vec![],
        &mut joints,
        &vec![],
    );
    let b = bodies.body(0);
    // fmul(ONE, dt) == dt exactly.
    assert_eq!(b.world_com, v(DT_60, 0, 0));
    assert_eq!(b.linvel, v(ONE, 0, 0));
    assert_eq!(b.angvel, v(0, 0, 0));
    assert_eq!(counters.solver.velocity_update_time.spans, 1);
    assert_eq!(counters.solver.velocity_assembly_time.spans, 0);
}

/// Single frictionless elastic contact, no warm start: the two unit-mass
/// spheres swap velocities exactly (momentum conserved).
#[test]
fn s2_single_contact_velocity_swap() {
    let mut solver = IslandSolver::new();
    let mut counters = Counters::new();
    let p = params(DT_60, 1, 0);
    let (mut bodies, mut manifolds) = head_on_pair();
    let mut joints: Vec<JointGraphEdge> = Vec::new();
    solver.solve_island(
        0,
        &mut counters,
        &p,
        &mut bodies,
        &mut manifolds,
        &vec![0],
        &mut joints,
        &vec![],
    );
    assert_eq!(bodies.body(0).linvel, v(-ONE, 0, 0));
    assert_eq!(bodies.body(1).linvel, v(ONE, 0, 0));
    // Momentum: equal masses, velocities exactly exchanged.
    let px = fadd(bodies.body(0).linvel.x, bodies.body(1).linvel.x);
    assert_eq!(px, 0);
    // Impulse cone: the stored normal impulse is non-negative.
    let stored = manifolds[0].points[0];
    assert_eq!(stored.impulse, 2 * ONE);
    assert!(stored.impulse >= 0);
    assert_eq!(counters.solver.velocity_resolution_time.spans, 1);
    assert_eq!(counters.solver.position_resolution_time.spans, 1);
}

/// Friction clamp: with friction 0.05 and a tangential driver velocity,
/// the tangent impulse is clamped exactly to friction * normal impulse.
#[test]
fn s3_friction_clamp() {
    let mut solver = IslandSolver::new();
    let mut counters = Counters::new();
    let p = params(DT_60, 4, 0);
    let (mut bodies, mut manifolds) = head_on_pair();
    let friction = 3277; // 0.05
    manifolds[0].points[0].friction = friction;
    manifolds[0].points[0].tangent_velocity = v(0, 0, ONE);
    let mut joints: Vec<JointGraphEdge> = Vec::new();
    solver.solve_island(
        0,
        &mut counters,
        &p,
        &mut bodies,
        &mut manifolds,
        &vec![0],
        &mut joints,
        &vec![],
    );
    let stored = manifolds[0].points[0];
    assert!(stored.impulse > 0);
    assert_eq!(stored.impulse, 2 * ONE);
    let limit = fmul(friction, stored.impulse);
    assert!(stored.tangent_impulse_a.abs() <= limit);
    assert!(stored.tangent_impulse_b.abs() <= limit);
    // The tangential demand (0.25) exceeds the cone (0.1): clamped to it.
    assert_eq!(stored.tangent_impulse_a.abs(), limit);
}

/// Warm-start reuse: with the impulses cached by a first step, the
/// warm start alone (zero PGS iterations) already produces the swapped
/// velocities that the first step needed an iteration for.
#[test]
fn s4_warm_start_reuse() {
    let mut solver = IslandSolver::new();
    let mut counters = Counters::new();
    let mut joints: Vec<JointGraphEdge> = Vec::new();

    // First step, no cache, zero iterations: the impulse stays zero and
    // the velocities are unchanged by the (empty) solve.
    let p0 = params(DT_60, 0, 0);
    let (mut bodies_a, mut manifolds_a) = head_on_pair();
    solver.solve_island(
        0,
        &mut counters,
        &p0,
        &mut bodies_a,
        &mut manifolds_a,
        &vec![0],
        &mut joints,
        &vec![],
    );
    assert_eq!(bodies_a.body(0).linvel, v(ONE, 0, 0));

    // First step again with one iteration: converges and caches.
    let p1 = params(DT_60, 1, 0);
    let (mut bodies_b, mut manifolds_b) = head_on_pair();
    solver.solve_island(
        0,
        &mut counters,
        &p1,
        &mut bodies_b,
        &mut manifolds_b,
        &vec![0],
        &mut joints,
        &vec![],
    );
    let cached = manifolds_b[0].points[0].impulse;
    assert_eq!(cached, 2 * ONE);

    // Second step on identical inputs with the cached impulse, zero
    // iterations: the warm start alone reproduces the solution, so the
    // iteration-0 residual is already zero where the cold start left the
    // full residual.
    let (mut bodies_c, mut manifolds_c) = head_on_pair();
    manifolds_c[0].points[0].impulse = cached;
    solver.solve_island(
        0,
        &mut counters,
        &p0,
        &mut bodies_c,
        &mut manifolds_c,
        &vec![0],
        &mut joints,
        &vec![],
    );
    assert_eq!(bodies_c.body(0).linvel, v(-ONE, 0, 0));
    assert_eq!(bodies_c.body(1).linvel, v(ONE, 0, 0));
}

/// Position correction: two resting bodies overlapping by 0.05 are pushed
/// apart by the position pass; the overlap shrinks below the initial one.
#[test]
fn s5_position_correction() {
    let mut solver = IslandSolver::new();
    let mut counters = Counters::new();
    let p = params(DT_60, 1, 1);
    let mut bodies = RigidBodySet::new();
    bodies.push(body(ONE, v(0, 0, 0), v(-ONE, 0, 0), 0));
    bodies.push(body(ONE, v(0, 0, 0), v(ONE, 0, 0), 1));
    let dist = -3277; // -0.05
    let manifold = ContactManifold {
        body1: 0,
        body2: 1,
        normal: v(ONE, 0, 0),
        relative_dominance: 0,
        warmstart_multiplier: ONE,
        constraint_index: 0,
        points: vec![contact(v(0, 0, 0), dist, 0, 0, false)],
    };
    let mut manifolds = vec![manifold];
    let mut joints: Vec<JointGraphEdge> = Vec::new();
    solver.solve_island(
        0,
        &mut counters,
        &p,
        &mut bodies,
        &mut manifolds,
        &vec![0],
        &mut joints,
        &vec![],
    );
    let shift1 = fsub(bodies.body(0).world_com.x, -ONE);
    let shift2 = fsub(bodies.body(1).world_com.x, ONE);
    assert!(shift1 < 0, "first body moves against the normal");
    assert!(shift2 > 0, "second body moves along the normal");
    let new_overlap = fadd(dist, fsub(shift2, shift1));
    assert!(new_overlap > dist, "overlap shrank");
    assert!(new_overlap <= 0);
    assert!(new_overlap.abs() < dist.abs());
}

/// Resting stack: two boxes on a static ground under a downward velocity
/// kick converge to (near) zero vertical velocity within a few sweeps,
/// and the stored normal impulses stay non-negative.
#[test]
fn resting_stack_converges() {
    let mut solver = IslandSolver::new();
    let mut counters = Counters::new();
    let p = params(DT_60, 20, 0);
    let vz = -655; // about -0.01 after one gravity tick
    let mut bodies = RigidBodySet::new();
    bodies.push(body(0, v(0, 0, 0), v(0, 0, -ONE), 0)); // static ground
    bodies.push(body(ONE, v(0, 0, vz), v(0, 0, ONE), 1));
    bodies.push(body(ONE, v(0, 0, vz), v(0, 0, 3 * ONE), 2));
    let m01 = ContactManifold {
        body1: 0,
        body2: 1,
        normal: v(0, 0, ONE),
        relative_dominance: 0,
        warmstart_multiplier: ONE,
        constraint_index: 0,
        points: vec![contact(v(0, 0, 0), 0, 0, 0, false)],
    };
    let m12 = ContactManifold {
        body1: 1,
        body2: 2,
        normal: v(0, 0, ONE),
        relative_dominance: 0,
        warmstart_multiplier: ONE,
        constraint_index: 0,
        points: vec![contact(v(0, 0, 2 * ONE), 0, 0, 0, false)],
    };
    let mut manifolds = vec![m01, m12];
    let mut joints: Vec<JointGraphEdge> = Vec::new();
    solver.solve_island(
        0,
        &mut counters,
        &p,
        &mut bodies,
        &mut manifolds,
        &vec![0, 1],
        &mut joints,
        &vec![],
    );
    let tol = 66; // 0.001
    assert!(bodies.body(1).linvel.z.abs() <= tol);
    assert!(bodies.body(2).linvel.z.abs() <= tol);
    assert!(bodies.body(0).linvel.z == 0, "static ground never moves");
    assert!(manifolds[0].points[0].impulse >= 0);
    assert!(manifolds[1].points[0].impulse >= 0);
}

/// With empty manifold and joint index lists the solve equals plain
/// integration for every body, and manifolds are untouched.
#[test]
fn no_constraint_equivalence() {
    let mut solver = IslandSolver::new();
    let mut counters = Counters::new();
    let p = params(DT_60, 4, 4);
    let mut bodies = RigidBodySet::new();
    bodies.push(body(ONE, v(3 * ONE, -ONE, ONE / 2), v(ONE, ONE, ONE), 0));
    bodies.push(body(ONE / 4, v(0, ONE, 0), v(-ONE, 0, 0), 1));
    let (_, mut manifolds) = head_on_pair();
    let before = manifolds[0].points[0];
    let mut joints: Vec<JointGraphEdge> = Vec::new();
    solver.solve_island(
        0,
        &mut counters,
        &p,
        &mut bodies,
        &mut manifolds,
        &vec![],
        &mut joints,
        &vec![],
    );
    // Each body: world_com += linvel * dt, velocities unchanged.
    assert_eq!(bodies.body(0).linvel, v(3 * ONE, -ONE, ONE / 2));
    assert_eq!(
        bodies.body(0).world_com,
        v(fadd(ONE, fmul(3 * ONE, DT_60)), fadd(ONE, fmul(-ONE, DT_60)), fadd(ONE, fmul(ONE / 2, DT_60)))
    );
    assert_eq!(bodies.body(1).world_com, v(-ONE, fmul(ONE, DT_60), 0));
    assert_eq!(manifolds[0].points[0], before);
}

/// Saturating fixed-point scalar operations on concrete values.
#[test]
fn fx_scalar_operations() {
    assert_eq!(fadd(i64::MAX, 1), i64::MAX);
    assert_eq!(fadd(3 * ONE, -ONE), 2 * ONE);
    assert_eq!(fsub(i64::MIN, 1), i64::MIN);
    assert_eq!(fmul(2 * ONE, 3 * ONE), 6 * ONE);
    assert_eq!(fmul(-2 * ONE, 3 * ONE), -6 * ONE);
    assert_eq!(fmul(ONE / 2, ONE / 2), ONE / 4);
    assert_eq!(fclamp(5, -3, 3), 3);
    assert_eq!(fclamp(-5, -3, 3), -3);
    assert_eq!(fclamp(1, -3, 3), 1);
    assert_eq!(isqrt128(0), 0);
    assert_eq!(isqrt128(15), 3);
    assert_eq!(isqrt128(16), 4);
    assert_eq!(isqrt128((1u128 << 126) as u128), 1u64 << 63);
}

/// The orthonormal basis of a unit axis: both tangents are unit vectors
/// orthogonal to it (exactly, at this representation).
#[test]
fn orthonormal_basis_of_axis() {
    let d = v(-ONE, 0, 0);
    let (ta, tb) = orthonormal_basis(&d);
    assert_eq!(ta.dot(&d), 0);
    assert_eq!(tb.dot(&d), 0);
    assert_eq!(ta.dot(&ta), ONE);
    assert_eq!(tb.dot(&tb), ONE);
    assert_eq!(ta.dot(&tb), 0);
}
