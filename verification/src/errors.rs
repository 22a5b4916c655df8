//! The error kinds that an operation can surface.

use vstd::prelude::*;

verus! {

/// Why an attempted operation was refused. Every error is terminal for the
/// attempt: the registry applies either the whole mutation or none of it.
#[derive(Clone, Copy, Debug, PartialEq, Eq, Structural)]
pub enum GitError {
    /// The signer does not stand in the relationship to the record that the
    /// operation demands (owner, collaborator, or original starrer).
    Unauthorized,
    /// A record already exists at the derived address: the identity tuple is
    /// already taken.
    AddressCollision,
    /// No record exists at the addressed slot.
    NotFound,
    /// A name is longer than one derivation seed may be, so no address could
    /// be derived from it; the write is rejected before derivation.
    NameTooLong,
}

} // verus!
