//! What a package's migration procedure reports back.
use vstd::prelude::*;

verus! {

/// What a package's migration reported: whether the package is configured afterwards.
#[derive(Clone, Copy, Debug, Default, PartialEq, Eq, Structural)]
pub struct MigrationRes {
    pub configured: bool,
}

} // verus!
