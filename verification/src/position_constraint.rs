//! Contact position constraints for the position-projection pass.

use vstd::prelude::*;

use crate::body::RigidBody;
use crate::body::RigidBodySet;
use crate::fx::fadd;
use crate::fx::finv;
use crate::fx::fx_add;
use crate::fx::fx_inv;
use crate::manifold::ContactManifold;
use crate::manifold::ManifoldModel;
use crate::math::Vec3;

verus! {

/// One contact's projection data for the position pass: the bodies'
/// inverse masses and active-set slots, the contact normal (pointing from
/// the first body to the second), the signed separation at assembly time,
/// and the effective-mass reciprocal of the translational correction.
#[derive(Clone, Copy, Debug, PartialEq, Eq, Structural)]
pub struct PositionConstraint {
    pub im1: i64,
    pub im2: i64,
    pub slot1: usize,
    pub slot2: usize,
    pub normal: Vec3,
    pub dist: i64,
    pub r: i64,
}

/// The position constraint of point `j` of a manifold.
pub open spec fn gen_pos_constraint(
    m: ManifoldModel,
    rb1: RigidBody,
    rb2: RigidBody,
    j: int,
) -> PositionConstraint {
    PositionConstraint {
        im1: rb1.im,
        im2: rb2.im,
        slot1: rb1.active_set_offset,
        slot2: rb2.active_set_offset,
        normal: m.normal,
        dist: m.points[j].dist,
        r: fx_inv(fx_add(rb1.im, rb2.im)),
    }
}

/// All position constraints of one manifold, in point order.
pub open spec fn gen_pos_constraints(
    m: ManifoldModel,
    rb1: RigidBody,
    rb2: RigidBody,
) -> Seq<PositionConstraint> {
    Seq::new(m.points.len(), |j: int| gen_pos_constraint(m, rb1, rb2, j))
}

/// Every slot of `cs` addresses a pose-delta buffer of length `nbodies`.
pub open spec fn pcs_wf(cs: Seq<PositionConstraint>, nbodies: int) -> bool {
    forall|i: int|
        0 <= i < cs.len() ==> (#[trigger] cs[i]).slot1 < nbodies && cs[i].slot2 < nbodies
}

impl PositionConstraint {
    /// Assembles one position constraint per solver contact of the
    /// manifold and appends them in point order.
    #[verifier::loop_isolation(false)]
    #[verifier::rlimit(100)]
    pub fn generate(
        manifold: &ContactManifold,
        bodies: &RigidBodySet,
        out_constraints: &mut Vec<PositionConstraint>,
    )
        requires
            manifold@.body1 < bodies@.len(),
            manifold@.body2 < bodies@.len(),
        ensures
            final(out_constraints)@ == old(out_constraints)@ + gen_pos_constraints(
                manifold@,
                bodies@[manifold@.body1],
                bodies@[manifold@.body2],
            ),
    {
        let rb1: RigidBody = *bodies.body(manifold.body1);
        let rb2: RigidBody = *bodies.body(manifold.body2);
        let r: i64 = finv(fadd(rb1.im, rb2.im));
        let npts: usize = manifold.points.len();
        let mut j: usize = 0;
        while j < npts
            invariant
                j <= npts,
                out_constraints@.len() == old(out_constraints)@.len() + j,
                rb1 == bodies@[manifold@.body1],
                rb2 == bodies@[manifold@.body2],
                r == fx_inv(fx_add(rb1.im, rb2.im)),
                npts == manifold@.points.len(),
                forall|q: int|
                    0 <= q < old(out_constraints)@.len() ==> out_constraints@[q] == old(
                        out_constraints,
                    )@[q],
                forall|q: int|
                    0 <= q < j ==> out_constraints@[old(out_constraints)@.len() + q]
                        == gen_pos_constraint(manifold@, rb1, rb2, q),
            decreases npts - j,
        {
            let p = manifold.points[j];
            out_constraints.push(
                PositionConstraint {
                    im1: rb1.im,
                    im2: rb2.im,
                    slot1: rb1.active_set_offset,
                    slot2: rb2.active_set_offset,
                    normal: manifold.normal,
                    dist: p.dist,
                    r: r,
                },
            );
            j = j + 1;
        }
        proof {
            assert(out_constraints@ =~= old(out_constraints)@ + gen_pos_constraints(
                manifold@,
                rb1,
                rb2,
            ));
        }
    }
}

} // verus!
