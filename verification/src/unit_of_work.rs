//! Local transaction boundary values for Work write services.

use vstd::prelude::*;

verus! {

/// Stable unit-of-work id used by adapters and diagnostics.
#[derive(Clone, Debug)]
pub struct UnitOfWorkId(pub String);

/// Opaque local transaction handle passed to repository writes.
#[derive(Clone, Debug)]
pub struct UnitOfWorkHandle {
    /// Stable handle id for logging and adapter assertions.
    pub handle_id: UnitOfWorkId,
}

} // verus!
