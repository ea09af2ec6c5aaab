//! Contact manifolds as the solver consumes them.

use vstd::prelude::*;

use crate::math::Vec3;

verus! {

/// One solver contact of a manifold.
///
/// `dist` is the signed separation (negative while interpenetrating),
/// `tangent_velocity` the surface-relative driver velocity, `is_bouncy`
/// the bounce-versus-resting policy flag, and `contact_id` the stable
/// index of this contact in the manifold's point list, used to write the
/// accumulated impulses back. `impulse`, `tangent_impulse_a` and
/// `tangent_impulse_b` are the cached impulses that warm-start the next
/// step.
#[derive(Clone, Copy, Debug, PartialEq, Eq, Structural)]
pub struct SolverContact {
    pub point: Vec3,
    pub dist: i64,
    pub friction: i64,
    pub restitution: i64,
    pub tangent_velocity: Vec3,
    pub is_bouncy: bool,
    pub contact_id: u8,
    pub impulse: i64,
    pub tangent_impulse_a: i64,
    pub tangent_impulse_b: i64,
}

/// The spec-level image of a manifold: the same fields with the point
/// list as a sequence.
pub struct ManifoldModel {
    pub body1: int,
    pub body2: int,
    pub normal: Vec3,
    pub relative_dominance: i8,
    pub warmstart_multiplier: i64,
    pub constraint_index: int,
    pub points: Seq<SolverContact>,
}

/// A contact manifold between the bodies at slots `body1` and `body2` of
/// the island's body store, with its world-space `normal` and the ordered
/// solver contacts. `relative_dominance` must be zero for this solver:
/// both bodies participate. `constraint_index` locates the manifold's
/// constraints when they are written into a pre-sized vector instead of
/// pushed. `warmstart_multiplier` scales the cached impulses on re-use.
pub struct ContactManifold {
    pub body1: usize,
    pub body2: usize,
    pub normal: Vec3,
    pub relative_dominance: i8,
    pub warmstart_multiplier: i64,
    pub constraint_index: usize,
    pub points: Vec<SolverContact>,
}

impl View for ContactManifold {
    type V = ManifoldModel;

    open spec fn view(&self) -> ManifoldModel {
        ManifoldModel {
            body1: self.body1 as int,
            body2: self.body2 as int,
            normal: self.normal,
            relative_dominance: self.relative_dominance,
            warmstart_multiplier: self.warmstart_multiplier,
            constraint_index: self.constraint_index as int,
            points: self.points@,
        }
    }
}

/// Every contact's stable id points back into the manifold's own point
/// list, frictions are non-negative, and the cached normal impulses are
/// non-negative (they are accumulated under projection onto the
/// non-negative cone).
pub open spec fn manifold_wf(m: ManifoldModel) -> bool {
    &&& m.warmstart_multiplier >= 0
    &&& forall|j: int|
        0 <= j < m.points.len() ==> {
            &&& ((#[trigger] m.points[j]).contact_id as int) < m.points.len()
            &&& m.points[j].friction >= 0
            &&& m.points[j].impulse >= 0
        }
}

} // verus!
