//! The error kinds this codec can surface.  Everything else — empty
//! strings, unknown option ids, empty registries, duplicate ids — is a
//! normal data state, not an error.

use vstd::prelude::*;

verus! {

#[derive(Clone, Copy, Debug, PartialEq, Eq, Structural)]
pub enum SelectError {
    /// A changeset instruction that does not parse as the expected
    /// two-optional-field shape.  Fatal to that single operation.
    InvalidChangesetPayload,
    /// A concrete select implementation was demanded for a field kind
    /// outside the closed single/multi/checklist set.
    UnsupportedFieldTypeForOperation,
    /// A payload named an empty grid id.
    GridIdIsEmpty,
    /// A payload named an empty field id.
    FieldIdIsEmpty,
    /// A payload named an empty row id.
    RowIdIsEmpty,
    /// A payload carried an insert or delete instruction with an empty
    /// option id.
    OptionIdIsEmpty,
}

} // verus!
