//! The single-select field: at most one option is selected, and a
//! changeset overwrites the whole selection (last write wins) instead of
//! toggling.

use vstd::prelude::*;
use crate::cell_data::{
    find_option, find_select_option, make_select_context_from, SelectOptionCellData,
};
use crate::changeset::{parse_changeset, parsed_changeset, single_select_next_value};
use crate::errors::SelectError;
use crate::field_type::FieldType;
use crate::ids::{select_option_ids, split_ids};
use crate::operation::SelectOptionOperation;
use crate::registry::{create_option_for, delete_option_from, insert_option_into};
use crate::select_option::{clone_select_options, SelectOption, SelectOptionData};

verus! {

/// What a single-select cell decodes to: only the first persisted id is
/// considered, and only when it resolves.
pub open spec fn single_select_resolved(
    ids: Seq<Seq<char>>,
    options: Seq<SelectOptionData>,
) -> Seq<SelectOptionData> {
    if ids.len() == 0 {
        Seq::<SelectOptionData>::empty()
    } else {
        match find_option(options, ids[0]) {
            Some(o) => seq![o],
            None => Seq::<SelectOptionData>::empty(),
        }
    }
}

/// The type-specific configuration of a single-select field: its option
/// registry and the flag that suppresses automatic coloring.
#[derive(Debug, PartialEq, Eq)]
pub struct SingleSelectTypeOption {
    pub options: Vec<SelectOption>,
    pub disable_color: bool,
}

impl Default for SingleSelectTypeOption {
    fn default() -> (r: Self)
        ensures
            r.options.deep_view() == Seq::<SelectOptionData>::empty(),
            r.disable_color == false,
    {
        let r = SingleSelectTypeOption { options: Vec::new(), disable_color: false };
        proof {
            assert(r.options.deep_view() =~= Seq::<SelectOptionData>::empty());
        }
        r
    }
}

impl SelectOptionOperation for SingleSelectTypeOption {
    open spec fn spec_options(&self) -> Seq<SelectOptionData> {
        self.options.deep_view()
    }

    fn options(&self) -> (r: &Vec<SelectOption>) {
        &self.options
    }

    fn insert_option(&mut self, new_option: SelectOption) {
        insert_option_into(&mut self.options, new_option);
    }

    fn delete_option(&mut self, delete_option: SelectOption) {
        delete_option_from(&mut self.options, &delete_option);
    }

    fn create_option(&self, name: &str) -> (r: SelectOption) {
        create_option_for(&self.options, name)
    }

    fn select_option_cell_data(&self, cell_rev: &Option<String>) -> (r: SelectOptionCellData) {
        let select_options = make_select_context_from(cell_rev, &self.options);
        SelectOptionCellData { options: clone_select_options(&self.options), select_options }
    }
}

impl SingleSelectTypeOption {
    /// Decodes a persisted cell string: for a selection field, the full
    /// registry plus at most the first persisted id resolved; for any
    /// other field kind, the empty default view.  Total — no input string
    /// is an error.
    pub fn decode_cell_data(&self, encoded_data: String, decoded_field_type: &FieldType) -> (r:
        SelectOptionCellData)
        ensures
            !(*decoded_field_type == FieldType::SingleSelect || *decoded_field_type
                == FieldType::MultiSelect) ==> r.options.deep_view() == Seq::<
                SelectOptionData,
            >::empty() && r.select_options.deep_view() == Seq::<SelectOptionData>::empty(),
            (*decoded_field_type == FieldType::SingleSelect || *decoded_field_type
                == FieldType::MultiSelect) ==> r.options.deep_view() == self.options.deep_view()
                && r.select_options.deep_view() == single_select_resolved(
                split_ids(encoded_data@),
                self.options.deep_view(),
            ),
    {
        if !decoded_field_type.is_select_option() {
            return SelectOptionCellData::default();
        }
        let ids = select_option_ids(encoded_data);
        let mut select_options: Vec<SelectOption> = Vec::new();
        proof {
            assert(select_options.deep_view() =~= Seq::<SelectOptionData>::empty());
            assert(ids.deep_view()[0] == ids@[0]@);
        }
        match find_select_option(&self.options, &ids[0]) {
            Some(option) => {
                let ghost old_deep = select_options.deep_view();
                select_options.push(option);
                proof {
                    assert(select_options.deep_view() =~= old_deep.push(
                        select_options@[0]@,
                    ));
                    assert(select_options.deep_view() =~= single_select_resolved(
                        split_ids(encoded_data@),
                        self.options.deep_view(),
                    ));
                }
            },
            None => {},
        }
        SelectOptionCellData { options: clone_select_options(&self.options), select_options }
    }

    /// Applies a changeset instruction to a single-select cell.  The
    /// previous value plays no part: a parseable instruction yields
    /// exactly its insert id (or the empty string when it has none), and
    /// an unparseable instruction is rejected.
    pub fn apply_changeset(&self, changeset: String, _cell_rev: Option<String>) -> (r: Result<
        String,
        SelectError,
    >)
        ensures
            match parsed_changeset(changeset@) {
                Option::None => r == Err::<String, SelectError>(
                    SelectError::InvalidChangesetPayload,
                ),
                Option::Some(p) => r matches Ok(s) && s@ == single_select_next_value(p.0),
            },
    {
        match parse_changeset(changeset.as_str()) {
            None => Err(SelectError::InvalidChangesetPayload),
            Some((insert_option_id, _delete_option_id)) => match insert_option_id {
                Some(id) => Ok(id),
                None => Ok(String::new()),
            },
        }
    }
}

/// Accumulates options for a single-select field before it is finalised.
#[derive(Debug, PartialEq, Eq)]
pub struct SingleSelectTypeOptionBuilder(pub SingleSelectTypeOption);

impl Default for SingleSelectTypeOptionBuilder {
    fn default() -> (r: Self)
        ensures
            r.0.options.deep_view() == Seq::<SelectOptionData>::empty(),
            r.0.disable_color == false,
    {
        SingleSelectTypeOptionBuilder(SingleSelectTypeOption::default())
    }
}

impl SingleSelectTypeOptionBuilder {
    /// Appends one option to the accumulating registry.
    pub fn option(self, opt: SelectOption) -> (r: Self)
        ensures
            r.0.options.deep_view() == self.0.options.deep_view().push(opt@),
            r.0.disable_color == self.0.disable_color,
    {
        let SingleSelectTypeOptionBuilder(mut t) = self;
        let ghost old_deep = t.options.deep_view();
        t.options.push(opt);
        proof {
            assert(t.options.deep_view() =~= old_deep.push(opt@));
        }
        SingleSelectTypeOptionBuilder(t)
    }

    /// The field kind this builder builds.
    pub fn field_type(&self) -> (r: FieldType)
        ensures
            r == FieldType::SingleSelect,
    {
        FieldType::SingleSelect
    }

    /// The finished type-specific configuration.
    pub fn build(self) -> (r: SingleSelectTypeOption)
        ensures
            r == self.0,
    {
        self.0
    }
}

} // verus!
