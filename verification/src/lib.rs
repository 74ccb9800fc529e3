//! Axial-force analysis of pin-jointed plane trusses.
//!
//! The crate owns the exact part of a truss solve: joint and member stores
//! with sequential ids and verified incidence invariants, assembly of the
//! static-equilibrium coefficient matrix and load vector with the tension
//! sign convention, and binding of solved member forces back into the
//! model. Scalars are carried as opaque 64-bit words (see [`scalar`]); the
//! numeric least-squares step on those words is the caller's, and its
//! outcome is fed back through [`system::bind_result`].

use vstd::prelude::*;

pub mod joints;
pub mod members;
pub mod scalar;
pub mod system;

verus! {

/// Failures of the truss pipeline.
#[derive(Clone, Copy, Debug, PartialEq, Eq, Structural)]
pub enum TrussError {
    /// A joint id was used that was never created.
    NotFound,
    /// The normal-equations matrix of the least-squares solve was not
    /// invertible, so no member forces exist.
    SingularSystem,
}

} // verus!
