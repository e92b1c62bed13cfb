//! The multi-select field: any number of options selected, changesets
//! toggle the insert id and remove the delete id unconditionally.

use vstd::prelude::*;
use crate::cell_data::{
    make_select_context_from, resolve_ids, resolve_select_options, SelectOptionCellData,
};
use crate::changeset::{
    parse_changeset, parsed_changeset, previous_ids, remove_id_occurrences, stateful_next_value,
    toggle_select_option_id,
};
use crate::errors::SelectError;
use crate::field_type::FieldType;
use crate::ids::{join_select_option_ids, select_option_ids, split_ids};
use crate::operation::SelectOptionOperation;
use crate::registry::{create_option_for, delete_option_from, insert_option_into};
use crate::select_option::{clone_select_options, SelectOption, SelectOptionData};

verus! {

/// The type-specific configuration of a multi-select field: its option
/// registry and the flag that suppresses automatic coloring.
#[derive(Debug, PartialEq, Eq)]
pub struct MultiSelectTypeOption {
    pub options: Vec<SelectOption>,
    pub disable_color: bool,
}

impl Default for MultiSelectTypeOption {
    fn default() -> (r: Self)
        ensures
            r.options.deep_view() == Seq::<SelectOptionData>::empty(),
            r.disable_color == false,
    {
        let r = MultiSelectTypeOption { options: Vec::new(), disable_color: false };
        proof {
            assert(r.options.deep_view() =~= Seq::<SelectOptionData>::empty());
        }
        r
    }
}

impl SelectOptionOperation for MultiSelectTypeOption {
    open spec fn spec_options(&self) -> Seq<SelectOptionData> {
        self.options.deep_view()
    }

    fn options(&self) -> (r: &Vec<SelectOption>) {
        &self.options
    }

    fn insert_option(&mut self, new_option: SelectOption) {
        insert_option_into(&mut self.options, new_option);
    }

    fn delete_option(&mut self, delete_option: SelectOption) {
        delete_option_from(&mut self.options, &delete_option);
    }

    fn create_option(&self, name: &str) -> (r: SelectOption) {
        create_option_for(&self.options, name)
    }

    fn select_option_cell_data(&self, cell_rev: &Option<String>) -> (r: SelectOptionCellData) {
        let select_options = make_select_context_from(cell_rev, &self.options);
        SelectOptionCellData { options: clone_select_options(&self.options), select_options }
    }
}

impl MultiSelectTypeOption {
    /// Decodes a persisted cell string: for a selection field, the full
    /// registry plus every persisted id resolved in order; for any other
    /// field kind, the empty default view.  Total — no input string is an
    /// error.
    pub fn decode_cell_data(&self, encoded_data: String, decoded_field_type: &FieldType) -> (r:
        SelectOptionCellData)
        ensures
            !(*decoded_field_type == FieldType::SingleSelect || *decoded_field_type
                == FieldType::MultiSelect) ==> r.options.deep_view() == Seq::<
                SelectOptionData,
            >::empty() && r.select_options.deep_view() == Seq::<SelectOptionData>::empty(),
            (*decoded_field_type == FieldType::SingleSelect || *decoded_field_type
                == FieldType::MultiSelect) ==> r.options.deep_view() == self.options.deep_view()
                && r.select_options.deep_view() == resolve_ids(
                split_ids(encoded_data@),
                self.options.deep_view(),
            ),
    {
        if !decoded_field_type.is_select_option() {
            return SelectOptionCellData::default();
        }
        let ids = select_option_ids(encoded_data);
        let select_options = resolve_select_options(&ids, &self.options);
        SelectOptionCellData { options: clone_select_options(&self.options), select_options }
    }

    /// Applies a changeset instruction to a multi-select cell: the
    /// previous selection is kept, the insert id toggles (off when
    /// present, appended when absent), the delete id is removed
    /// unconditionally; an unparseable instruction is rejected.
    pub fn apply_changeset(&self, changeset: String, cell_rev: Option<String>) -> (r: Result<
        String,
        SelectError,
    >)
        ensures
            match parsed_changeset(changeset@) {
                Option::None => r == Err::<String, SelectError>(
                    SelectError::InvalidChangesetPayload,
                ),
                Option::Some(p) => r matches Ok(s) && s@ == stateful_next_value(
                    cell_rev.deep_view(),
                    p.0,
                    p.1,
                ),
            },
    {
        apply_stateful_changeset(changeset, cell_rev)
    }
}

/// The shared stateful applier of the multi- and checklist-select kinds.
pub(crate) fn apply_stateful_changeset(changeset: String, cell_rev: Option<String>) -> (r: Result<
    String,
    SelectError,
>)
    ensures
        match parsed_changeset(changeset@) {
            Option::None => r == Err::<String, SelectError>(SelectError::InvalidChangesetPayload),
            Option::Some(p) => r matches Ok(s) && s@ == stateful_next_value(
                cell_rev.deep_view(),
                p.0,
                p.1,
            ),
        },
{
    match parse_changeset(changeset.as_str()) {
        None => Err(SelectError::InvalidChangesetPayload),
        Some((insert_option_id, delete_option_id)) => match cell_rev {
            None => match insert_option_id {
                Some(id) => Ok(id),
                None => Ok(String::new()),
            },
            Some(cell_data) => {
                let ghost prev_view = cell_data@;
                let mut selected_options: Vec<String> = if cell_data.as_str().is_empty() {
                    Vec::new()
                } else {
                    select_option_ids(cell_data)
                };
                proof {
                    assert(selected_options.deep_view() =~= previous_ids(prev_view));
                }
                selected_options = match &insert_option_id {
                    Some(id) => toggle_select_option_id(selected_options, id),
                    None => selected_options,
                };
                selected_options = match &delete_option_id {
                    Some(id) => remove_id_occurrences(selected_options, id),
                    None => selected_options,
                };
                Ok(join_select_option_ids(&selected_options))
            },
        },
    }
}

/// Accumulates options for a multi-select field before it is finalised.
#[derive(Debug, PartialEq, Eq)]
pub struct MultiSelectTypeOptionBuilder(pub MultiSelectTypeOption);

impl Default for MultiSelectTypeOptionBuilder {
    fn default() -> (r: Self)
        ensures
            r.0.options.deep_view() == Seq::<SelectOptionData>::empty(),
            r.0.disable_color == false,
    {
        MultiSelectTypeOptionBuilder(MultiSelectTypeOption::default())
    }
}

impl MultiSelectTypeOptionBuilder {
    /// Appends one option to the accumulating registry.
    pub fn option(self, opt: SelectOption) -> (r: Self)
        ensures
            r.0.options.deep_view() == self.0.options.deep_view().push(opt@),
            r.0.disable_color == self.0.disable_color,
    {
        let MultiSelectTypeOptionBuilder(mut t) = self;
        let ghost old_deep = t.options.deep_view();
        t.options.push(opt);
        proof {
            assert(t.options.deep_view() =~= old_deep.push(opt@));
        }
        MultiSelectTypeOptionBuilder(t)
    }

    /// The field kind this builder builds.
    pub fn field_type(&self) -> (r: FieldType)
        ensures
            r == FieldType::MultiSelect,
    {
        FieldType::MultiSelect
    }

    /// The finished type-specific configuration.
    pub fn build(self) -> (r: MultiSelectTypeOption)
        ensures
            r == self.0,
    {
        self.0
    }
}

} // verus!
