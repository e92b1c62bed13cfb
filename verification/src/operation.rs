//! The capability set shared by the three select-type field
//! implementations: each owns an option registry and answers the shared
//! registry operations with the same semantics.

use vstd::prelude::*;
use crate::cell_data::{resolve_ids, SelectOptionCellData};
use crate::ids::{comma_free, split_ids};
use crate::registry::{deleted_options, inserted_options};
use crate::select_option::{color_of_index, SelectOption, SelectOptionData};

verus! {

pub trait SelectOptionOperation: Sized {
    /// The registry this field owns, as its mathematical image.
    spec fn spec_options(&self) -> Seq<SelectOptionData>;

    /// The registry as stored.
    fn options(&self) -> (r: &Vec<SelectOption>)
        ensures
            r.deep_view() == self.spec_options(),
    ;

    /// Inserts an option: replaces the first id-or-name match in place,
    /// else prepends at position 0.
    fn insert_option(&mut self, new_option: SelectOption)
        ensures
            final(self).spec_options() == inserted_options(
                old(self).spec_options(),
                new_option@,
            ),
    ;

    /// Deletes the first option with the given option's id; no-op when
    /// absent.
    fn delete_option(&mut self, delete_option: SelectOption)
        ensures
            final(self).spec_options() == deleted_options(
                old(self).spec_options(),
                delete_option@.id,
            ),
    ;

    /// A fresh, un-inserted option named `name`, colored by the current
    /// registry length.
    fn create_option(&self, name: &str) -> (r: SelectOption)
        ensures
            r@.name == name@,
            r@.color == color_of_index(self.spec_options().len() as int),
            r@.id.len() == 4,
            comma_free(r@.id),
    ;

    /// The decoded view of one cell of this field: the full registry and
    /// the selection resolved from the persisted string (empty when the
    /// cell was never written).
    fn select_option_cell_data(&self, cell_rev: &Option<String>) -> (r: SelectOptionCellData)
        ensures
            r.options.deep_view() == self.spec_options(),
            r.select_options.deep_view() == match cell_rev {
                Option::None => Seq::<SelectOptionData>::empty(),
                Option::Some(s) => resolve_ids(split_ids(s@), self.spec_options()),
            },
    ;
}

} // verus!
