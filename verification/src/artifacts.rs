//! The opaque artifacts the orchestrator tracks per project: the schema a
//! project's sources are validated against, built once at startup, and the
//! compiled artifact set ("programs") a successful check produces. The
//! orchestrator never looks inside either; it only stores, compares and
//! hands them out, so each is carried as an opaque token.

use vstd::prelude::*;

verus! {

/// The type-system definition one project is validated against.
#[derive(Clone, Copy, PartialEq, Eq, Structural, Debug)]
pub struct Schema {
    pub token: u64,
}

/// The compiled artifact set of one successful project check.
#[derive(Clone, Copy, PartialEq, Eq, Structural, Debug)]
pub struct Programs {
    pub token: u64,
}

} // verus!
