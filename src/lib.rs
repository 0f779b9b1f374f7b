//! Static evaluation for a Solidity compiler front end: matching of `pragma`
//! version requirements against a version, and folding of constant expressions
//! into 256-bit unsigned integers.
//!
//! - [`version`]: versions, requirements, their order, matching and rendering.
//! - [`eval`]: the constant evaluator and its errors.
//! - [`scalar`]: 256-bit arithmetic on evaluated constants.
//! - [`hir`]: the expressions and declarations that the evaluator reads.
//! - [`diagnostics`]: the sink that failures are reported to.

use vstd::prelude::*;

pub mod diagnostics;
pub mod eval;
pub mod hir;
pub mod scalar;
pub mod span;
pub mod text;
pub mod version;

verus! {

} // verus!
