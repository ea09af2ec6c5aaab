//! Rigid bodies, the body store, and the integration parameters.

use vstd::prelude::*;

use crate::fx::finv;
use crate::fx::fmul;
use crate::fx::fx_inv;
use crate::fx::fx_mul;
use crate::math::v_add;
use crate::math::v_scale;
use crate::math::Mat3;
use crate::math::Vec3;

verus! {

/// The per-body state the solver consumes and mutates.
///
/// `im` is the inverse mass, `sqrt_inv_inertia` the square-root inverse
/// world inertia tensor (an operator on angular vectors), and
/// `active_set_offset` the body's 0-based slot in the island's active set,
/// used to index the shared velocity-delta buffer.
#[derive(Clone, Copy, Debug, PartialEq, Eq, Structural)]
pub struct RigidBody {
    pub im: i64,
    pub sqrt_inv_inertia: Mat3,
    pub linvel: Vec3,
    pub angvel: Vec3,
    pub world_com: Vec3,
    pub active_set_offset: usize,
}

/// Symplectic-Euler position update: the center of mass advances by the
/// (old) linear velocity scaled by `dt`; velocities are left to the
/// constraint passes.
pub open spec fn integrate_spec(b: RigidBody, dt: i64) -> RigidBody {
    RigidBody { world_com: v_add(b.world_com, v_scale(b.linvel, dt)), ..b }
}

impl RigidBody {
    /// Advances the pose by `dt` using the current velocities.
    pub fn integrate(&mut self, dt: i64)
        ensures
            *final(self) == integrate_spec(*old(self), dt),
    {
        self.world_com = self.world_com.add(&self.linvel.scale(dt));
    }
}

/// The bodies of one island, in active-set order.
pub struct RigidBodySet {
    pub bodies: Vec<RigidBody>,
}

impl View for RigidBodySet {
    type V = Seq<RigidBody>;

    open spec fn view(&self) -> Seq<RigidBody> {
        self.bodies@
    }
}

/// Every body of `s` is non-negatively massed and its active-set slot
/// addresses the island's delta-velocity buffer.
pub open spec fn bodies_wf(s: Seq<RigidBody>) -> bool {
    forall|i: int|
        0 <= i < s.len() ==> (#[trigger] s[i]).active_set_offset < s.len() && s[i].im >= 0
}

impl RigidBodySet {
    /// An empty island.
    pub fn new() -> (r: RigidBodySet)
        ensures
            r@ == Seq::<RigidBody>::empty(),
    {
        RigidBodySet { bodies: Vec::new() }
    }

    /// Number of active bodies.
    pub fn len(&self) -> (r: usize)
        ensures
            r == self@.len(),
    {
        self.bodies.len()
    }

    /// Read access to one body.
    pub fn body(&self, i: usize) -> (r: &RigidBody)
        requires
            i < self@.len(),
        ensures
            *r == self@[i as int],
    {
        &self.bodies[i]
    }

    /// Adds a body at the end of the active set.
    pub fn push(&mut self, b: RigidBody)
        ensures
            final(self)@ == old(self)@.push(b),
    {
        self.bodies.push(b);
    }

    /// Integrates every active body of the island by `dt`, touching
    /// nothing else.
    pub fn integrate_all(&mut self, dt: i64)
        ensures
            final(self)@.len() == old(self)@.len(),
            forall|i: int|
                0 <= i < old(self)@.len() ==> final(self)@[i] == integrate_spec(
                    old(self)@[i],
                    dt,
                ),
    {
        let n: usize = self.bodies.len();
        let mut i: usize = 0;
        while i < n
            invariant
                n == old(self)@.len(),
                self@.len() == n,
                i <= n,
                forall|j: int| 0 <= j < i ==> self@[j] == integrate_spec(old(self)@[j], dt),
                forall|j: int| i <= j < n ==> self@[j] == old(self)@[j],
            decreases n - i,
        {
            let mut b: RigidBody = self.bodies[i];
            b.integrate(dt);
            self.bodies[i] = b;
            i = i + 1;
        }
    }
}

/// Step-wide integration parameters, all fixed-point scalars unless noted.
///
/// `velocity_solve_fraction` scales the resting part of contact right-hand
/// sides; `velocity_based_erp` is the Baumgarte error-reduction factor
/// applied per unit time; `erp`, `allowed_linear_error` and
/// `max_linear_correction` drive the position pass; the two iteration
/// counts choose how many PGS sweeps each pass runs.
#[derive(Clone, Copy, Debug, PartialEq, Eq, Structural)]
pub struct IntegrationParameters {
    pub dt: i64,
    pub warmstart_coeff: i64,
    pub velocity_solve_fraction: i64,
    pub velocity_based_erp: i64,
    pub erp: i64,
    pub allowed_linear_error: i64,
    pub max_linear_correction: i64,
    pub max_velocity_iterations: usize,
    pub max_position_iterations: usize,
}

/// The parameter ranges the solver relies on.
pub open spec fn params_wf(p: IntegrationParameters) -> bool {
    &&& p.dt >= 0
    &&& p.warmstart_coeff >= 0
}

impl IntegrationParameters {
    /// The inverse time step; zero when `dt` is zero.
    pub fn inv_dt(&self) -> (r: i64)
        ensures
            r == fx_inv(self.dt),
    {
        finv(self.dt)
    }

    /// The velocity-based error-reduction factor per time step.
    pub fn velocity_based_erp_inv_dt(&self) -> (r: i64)
        ensures
            r == fx_mul(self.velocity_based_erp, fx_inv(self.dt)),
    {
        fmul(self.velocity_based_erp, finv(self.dt))
    }
}

} // verus!
