//! Variant dispatch: from a field-kind tag to the concrete select
//! implementation.  The mapping is closed over exactly the three select
//! kinds; every other tag is a reportable error, never a panic.

use vstd::prelude::*;
use crate::checklist_select::ChecklistSelectTypeOption;
use crate::errors::SelectError;
use crate::field_type::FieldType;
use crate::multi_select::MultiSelectTypeOption;
use crate::select_option::SelectOption;
use crate::single_select::SingleSelectTypeOption;

verus! {

/// One of the three concrete select implementations, chosen by tag.
#[derive(Debug, PartialEq, Eq)]
pub enum SelectTypeOption {
    Single(SingleSelectTypeOption),
    Multi(MultiSelectTypeOption),
    Checklist(ChecklistSelectTypeOption),
}

/// The select implementation for a field of the given kind, built over
/// the field's registry; a kind outside the closed single/multi/checklist
/// set is refused with `UnsupportedFieldTypeForOperation`.
pub fn select_option_operation(
    field_type: &FieldType,
    options: Vec<SelectOption>,
    disable_color: bool,
) -> (r: Result<SelectTypeOption, SelectError>)
    ensures
        *field_type == FieldType::SingleSelect ==> r == Ok::<SelectTypeOption, SelectError>(
            SelectTypeOption::Single(SingleSelectTypeOption { options, disable_color }),
        ),
        *field_type == FieldType::MultiSelect ==> r == Ok::<SelectTypeOption, SelectError>(
            SelectTypeOption::Multi(MultiSelectTypeOption { options, disable_color }),
        ),
        *field_type == FieldType::ChecklistSelect ==> r == Ok::<SelectTypeOption, SelectError>(
            SelectTypeOption::Checklist(ChecklistSelectTypeOption { options, disable_color }),
        ),
        !(*field_type == FieldType::SingleSelect || *field_type == FieldType::MultiSelect
            || *field_type == FieldType::ChecklistSelect) ==> r == Err::<
            SelectTypeOption,
            SelectError,
        >(SelectError::UnsupportedFieldTypeForOperation),
{
    match field_type {
        FieldType::SingleSelect => Ok(
            SelectTypeOption::Single(SingleSelectTypeOption { options, disable_color }),
        ),
        FieldType::MultiSelect => Ok(
            SelectTypeOption::Multi(MultiSelectTypeOption { options, disable_color }),
        ),
        FieldType::ChecklistSelect => Ok(
            SelectTypeOption::Checklist(ChecklistSelectTypeOption { options, disable_color }),
        ),
        _ => Err(SelectError::UnsupportedFieldTypeForOperation),
    }
}

} // verus!
