//! The transient messages that carry select operations across the
//! process boundary, and their validated forms.  Validation only checks
//! that the identifiers a message names are non-empty; everything else is
//! moved through unchanged.

use vstd::prelude::*;
use crate::changeset::{parsed_changeset, SelectOptionCellContentChangeset};
use crate::errors::SelectError;
use crate::select_option::SelectOption;

verus! {

/// Identifies one cell as a message names it: grid, field and row, each
/// by id, none yet checked.
#[derive(Debug, PartialEq, Eq)]
pub struct CellIdentifierPayload {
    pub grid_id: String,
    pub field_id: String,
    pub row_id: String,
}

/// A validated cell identifier: every id is non-empty.
#[derive(Debug, PartialEq, Eq)]
pub struct CellIdentifier {
    pub grid_id: String,
    pub field_id: String,
    pub row_id: String,
}

impl CellIdentifierPayload {
    /// Validates the identifier: each of the three ids must be non-empty,
    /// checked in grid, field, row order.
    pub fn try_into_identifier(self) -> (r: Result<CellIdentifier, SelectError>)
        ensures
            self.grid_id@.len() == 0 ==> r == Err::<CellIdentifier, SelectError>(
                SelectError::GridIdIsEmpty,
            ),
            self.grid_id@.len() > 0 && self.field_id@.len() == 0 ==> r == Err::<
                CellIdentifier,
                SelectError,
            >(SelectError::FieldIdIsEmpty),
            self.grid_id@.len() > 0 && self.field_id@.len() > 0 && self.row_id@.len() == 0 ==> r
                == Err::<CellIdentifier, SelectError>(SelectError::RowIdIsEmpty),
            self.grid_id@.len() > 0 && self.field_id@.len() > 0 && self.row_id@.len() > 0 ==> (
            r matches Ok(c) && c.grid_id == self.grid_id && c.field_id == self.field_id
                && c.row_id == self.row_id),
    {
        if self.grid_id.as_str().is_empty() {
            return Err(SelectError::GridIdIsEmpty);
        }
        if self.field_id.as_str().is_empty() {
            return Err(SelectError::FieldIdIsEmpty);
        }
        if self.row_id.as_str().is_empty() {
            return Err(SelectError::RowIdIsEmpty);
        }
        Ok(CellIdentifier { grid_id: self.grid_id, field_id: self.field_id, row_id: self.row_id })
    }
}

/// A message mutating a field's option registry: insert, update and/or
/// delete one option on the cell's field.
#[derive(Debug, PartialEq, Eq)]
pub struct SelectOptionChangesetPayload {
    pub cell_identifier: CellIdentifierPayload,
    pub insert_option: Option<SelectOption>,
    pub update_option: Option<SelectOption>,
    pub delete_option: Option<SelectOption>,
}

/// The validated form of `SelectOptionChangesetPayload`.
#[derive(Debug, PartialEq, Eq)]
pub struct SelectOptionChangeset {
    pub cell_identifier: CellIdentifier,
    pub insert_option: Option<SelectOption>,
    pub update_option: Option<SelectOption>,
    pub delete_option: Option<SelectOption>,
}

impl SelectOptionChangesetPayload {
    /// Validates the cell identifier and moves the three optional options
    /// through unchanged.
    pub fn try_into_changeset(self) -> (r: Result<SelectOptionChangeset, SelectError>)
        ensures
            self.cell_identifier.grid_id@.len() == 0 ==> r == Err::<
                SelectOptionChangeset,
                SelectError,
            >(SelectError::GridIdIsEmpty),
            self.cell_identifier.grid_id@.len() > 0 && self.cell_identifier.field_id@.len() == 0
                ==> r == Err::<SelectOptionChangeset, SelectError>(SelectError::FieldIdIsEmpty),
            self.cell_identifier.grid_id@.len() > 0 && self.cell_identifier.field_id@.len() > 0
                && self.cell_identifier.row_id@.len() == 0 ==> r == Err::<
                SelectOptionChangeset,
                SelectError,
            >(SelectError::RowIdIsEmpty),
            self.cell_identifier.grid_id@.len() > 0 && self.cell_identifier.field_id@.len() > 0
                && self.cell_identifier.row_id@.len() > 0 ==> (r matches Ok(c)
                && c.cell_identifier.grid_id == self.cell_identifier.grid_id
                && c.cell_identifier.field_id == self.cell_identifier.field_id
                && c.cell_identifier.row_id == self.cell_identifier.row_id && c.insert_option
                == self.insert_option && c.update_option == self.update_option && c.delete_option
                == self.delete_option),
    {
        let cell_identifier = match self.cell_identifier.try_into_identifier() {
            Ok(c) => c,
            Err(e) => {
                return Err(e);
            },
        };
        Ok(
            SelectOptionChangeset {
                cell_identifier,
                insert_option: self.insert_option,
                update_option: self.update_option,
                delete_option: self.delete_option,
            },
        )
    }
}

/// A message mutating one cell's selection: insert and/or delete one
/// option id.
#[derive(Debug, PartialEq, Eq)]
pub struct SelectOptionCellChangesetPayload {
    pub cell_identifier: CellIdentifierPayload,
    pub insert_option_id: Option<String>,
    pub delete_option_id: Option<String>,
}

/// The validated form of `SelectOptionCellChangesetPayload`: the ids it
/// names are non-empty.
#[derive(Debug, PartialEq, Eq)]
pub struct SelectOptionCellChangesetParams {
    pub cell_identifier: CellIdentifier,
    pub insert_option_id: Option<String>,
    pub delete_option_id: Option<String>,
}

/// One cell mutation as the storage layer accepts it: the cell's
/// coordinates and the instruction in its transport form.
#[derive(Debug, PartialEq, Eq)]
pub struct CellChangeset {
    pub grid_id: String,
    pub row_id: String,
    pub field_id: String,
    pub cell_content_changeset: Option<String>,
}

impl SelectOptionCellChangesetPayload {
    /// Validates the cell identifier, then each instruction id: one that
    /// is present must be non-empty.
    pub fn try_into_params(self) -> (r: Result<SelectOptionCellChangesetParams, SelectError>)
        ensures
            self.cell_identifier.grid_id@.len() == 0 ==> r == Err::<
                SelectOptionCellChangesetParams,
                SelectError,
            >(SelectError::GridIdIsEmpty),
            self.cell_identifier.grid_id@.len() > 0 && self.cell_identifier.field_id@.len() == 0
                ==> r == Err::<SelectOptionCellChangesetParams, SelectError>(
                SelectError::FieldIdIsEmpty,
            ),
            self.cell_identifier.grid_id@.len() > 0 && self.cell_identifier.field_id@.len() > 0
                && self.cell_identifier.row_id@.len() == 0 ==> r == Err::<
                SelectOptionCellChangesetParams,
                SelectError,
            >(SelectError::RowIdIsEmpty),
            self.cell_identifier.grid_id@.len() > 0 && self.cell_identifier.field_id@.len() > 0
                && self.cell_identifier.row_id@.len() > 0 ==> match r {
                Result::Ok(p) => (match self.insert_option_id {
                    Option::Some(s) => s@.len() > 0 && p.insert_option_id == self.insert_option_id,
                    Option::None => p.insert_option_id is None,
                }) && (match self.delete_option_id {
                    Option::Some(s) => s@.len() > 0 && p.delete_option_id == self.delete_option_id,
                    Option::None => p.delete_option_id is None,
                }) && p.cell_identifier.grid_id == self.cell_identifier.grid_id
                    && p.cell_identifier.field_id == self.cell_identifier.field_id
                    && p.cell_identifier.row_id == self.cell_identifier.row_id,
                Result::Err(e) => e == SelectError::OptionIdIsEmpty && ((
                self.insert_option_id matches Some(s) && s@.len() == 0) || (
                self.delete_option_id matches Some(s) && s@.len() == 0)),
            },
    {
        let cell_identifier = match self.cell_identifier.try_into_identifier() {
            Ok(c) => c,
            Err(e) => {
                return Err(e);
            },
        };
        let insert_option_id = match self.insert_option_id {
            None => None,
            Some(id) => {
                if id.as_str().is_empty() {
                    return Err(SelectError::OptionIdIsEmpty);
                }
                Some(id)
            },
        };
        let delete_option_id = match self.delete_option_id {
            None => None,
            Some(id) => {
                if id.as_str().is_empty() {
                    return Err(SelectError::OptionIdIsEmpty);
                }
                Some(id)
            },
        };
        Ok(SelectOptionCellChangesetParams { cell_identifier, insert_option_id, delete_option_id })
    }
}

impl SelectOptionCellChangesetParams {
    /// The storage-layer form of this mutation: the instruction is put
    /// into its transport string, which every applier parses back to
    /// exactly this insert/delete pair.
    pub fn into_cell_changeset(self) -> (r: CellChangeset)
        ensures
            r.grid_id == self.cell_identifier.grid_id,
            r.row_id == self.cell_identifier.row_id,
            r.field_id == self.cell_identifier.field_id,
            r.cell_content_changeset matches Some(s) && parsed_changeset(s@) == Some(
                (self.insert_option_id.deep_view(), self.delete_option_id.deep_view()),
            ),
    {
        let changeset = SelectOptionCellContentChangeset {
            insert_option_id: self.insert_option_id,
            delete_option_id: self.delete_option_id,
        };
        let s = changeset.to_str();
        CellChangeset {
            grid_id: self.cell_identifier.grid_id,
            row_id: self.cell_identifier.row_id,
            field_id: self.cell_identifier.field_id,
            cell_content_changeset: Some(s),
        }
    }
}

} // verus!
