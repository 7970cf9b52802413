//! The escrow, whose entrypoints are spread over the modules of this crate.
use vstd::prelude::*;

verus! {

/// A milestone-based escrow between clients and freelancers.
///
/// Every entrypoint works on an [`Env`](crate::env::Env). It either answers and
/// changes the environment, or returns a [`Halt`](crate::types::Halt) and leaves
/// the environment as it was.
pub struct Escrow;

} // verus!
