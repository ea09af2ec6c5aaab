//! Constraint-based rigid-body island solver.
//!
//! Given one simulation island (a set of rigid bodies coupled by contact
//! manifolds), the solver advances every body by one time step: it assembles
//! linearized velocity constraints from the manifolds, integrates bodies by
//! symplectic Euler, warm-starts and iterates a projected Gauss-Seidel (PGS)
//! impulse solver on shared per-body velocity deltas, writes the final
//! impulses back into the manifolds for the next step, and then runs a
//! position-projection pass that reduces residual penetration.
//!
//! All quantities are fixed-point numbers (see [`fx`]): `i64` values that
//! carry [`fx::SCALE`] units per 1.0, with saturating arithmetic. Every
//! public operation is specified exactly over that representation.

pub mod body;
pub mod counters;
pub mod fx;
pub mod island_solver;
pub mod manifold;
pub mod math;
pub mod position_constraint;
pub mod position_solver;
pub mod velocity_constraint;
pub mod velocity_solver;
