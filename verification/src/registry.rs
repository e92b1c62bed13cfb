//! The option registry of one select-type field: an ordered list of
//! options, mutated only through insert (replace-in-place on an id or
//! name match, else prepend), delete (first id match, no-op when absent)
//! and create (fresh option colored by the current registry length).

use vstd::prelude::*;
use vstd::pervasive::VecAdditionalExecFns;
use crate::ids::comma_free;
use crate::select_option::{
    color_of_index, select_option_color_from_index, SelectOption, SelectOptionData,
};

verus! {

/// An incoming option matches an existing registry entry when either the
/// id or the display name coincides.
pub open spec fn option_matches(existing: SelectOptionData, incoming: SelectOptionData) -> bool {
    existing.id == incoming.id || existing.name == incoming.name
}

pub open spec fn has_matching_option(options: Seq<SelectOptionData>, o: SelectOptionData) -> bool {
    exists|i: int| 0 <= i < options.len() && option_matches(options[i], o)
}

/// The position of the first entry that `o` matches (meaningful only when
/// one exists).
pub open spec fn first_matching_index(options: Seq<SelectOptionData>, o: SelectOptionData) -> int
    decreases options.len(),
{
    if options.len() == 0 {
        0
    } else if option_matches(options[0], o) {
        0
    } else {
        1 + first_matching_index(options.drop_first(), o)
    }
}

/// The registry after inserting `o`: replaced in place at the first id-or-
/// name match, otherwise prepended at position 0.
pub open spec fn inserted_options(
    options: Seq<SelectOptionData>,
    o: SelectOptionData,
) -> Seq<SelectOptionData> {
    if has_matching_option(options, o) {
        options.update(first_matching_index(options, o), o)
    } else {
        seq![o] + options
    }
}

pub open spec fn has_option_with_id(options: Seq<SelectOptionData>, id: Seq<char>) -> bool {
    exists|i: int| 0 <= i < options.len() && options[i].id == id
}

/// The position of the first entry whose id is `id` (meaningful only when
/// one exists).
pub open spec fn first_index_with_id(options: Seq<SelectOptionData>, id: Seq<char>) -> int
    decreases options.len(),
{
    if options.len() == 0 {
        0
    } else if options[0].id == id {
        0
    } else {
        1 + first_index_with_id(options.drop_first(), id)
    }
}

/// The registry after deleting the option with id `id`: the first entry
/// with that id is removed; absent ids leave the registry unchanged.
pub open spec fn deleted_options(
    options: Seq<SelectOptionData>,
    id: Seq<char>,
) -> Seq<SelectOptionData> {
    if has_option_with_id(options, id) {
        options.remove(first_index_with_id(options, id))
    } else {
        options
    }
}

pub proof fn lemma_first_matching_index(options: Seq<SelectOptionData>, o: SelectOptionData)
    requires
        has_matching_option(options, o),
    ensures
        0 <= first_matching_index(options, o) < options.len(),
        option_matches(options[first_matching_index(options, o)], o),
        forall|k: int|
            0 <= k < first_matching_index(options, o) ==> !option_matches(options[k], o),
    decreases options.len(),
{
    if option_matches(options[0], o) {
    } else {
        let i = choose|i: int| 0 <= i < options.len() && option_matches(options[i], o);
        assert(options.drop_first()[i - 1] == options[i]);
        assert(has_matching_option(options.drop_first(), o));
        lemma_first_matching_index(options.drop_first(), o);
        let f = first_matching_index(options.drop_first(), o);
        assert(options.drop_first()[f] == options[f + 1]);
        assert(forall|k: int|
            1 <= k < 1 + f ==> options.drop_first()[k - 1] == options[k] && !option_matches(
                options[k],
                o,
            ));
    }
}

pub proof fn lemma_first_index_with_id(options: Seq<SelectOptionData>, id: Seq<char>)
    requires
        has_option_with_id(options, id),
    ensures
        0 <= first_index_with_id(options, id) < options.len(),
        options[first_index_with_id(options, id)].id == id,
        forall|k: int| 0 <= k < first_index_with_id(options, id) ==> options[k].id != id,
    decreases options.len(),
{
    if options[0].id == id {
    } else {
        let i = choose|i: int| 0 <= i < options.len() && options[i].id == id;
        assert(options.drop_first()[i - 1] == options[i]);
        assert(has_option_with_id(options.drop_first(), id));
        lemma_first_index_with_id(options.drop_first(), id);
        let f = first_index_with_id(options.drop_first(), id);
        assert(options.drop_first()[f] == options[f + 1]);
        assert(forall|k: int|
            1 <= k < 1 + f ==> options.drop_first()[k - 1] == options[k] && options[k].id != id);
    }
}

/// Law: an insert either replaces the first id-or-name match exactly where
/// it stood (all earlier entries match neither id nor name), or, when
/// nothing matches, puts the incoming option at position 0 and shifts the
/// rest — never at the end.
pub proof fn lemma_insert_replace_semantics(options: Seq<SelectOptionData>, o: SelectOptionData)
    ensures
        has_matching_option(options, o) ==> inserted_options(options, o) == options.update(
            first_matching_index(options, o),
            o,
        ) && option_matches(options[first_matching_index(options, o)], o) && (forall|k: int|
            0 <= k < first_matching_index(options, o) ==> !option_matches(options[k], o)),
        !has_matching_option(options, o) ==> inserted_options(options, o) == seq![o] + options,
{
    if has_matching_option(options, o) {
        lemma_first_matching_index(options, o);
    }
}

/// Inserts `new_option` into the registry: replaces the first entry whose
/// id or name matches, else prepends at position 0.
pub fn insert_option_into(options: &mut Vec<SelectOption>, new_option: SelectOption)
    ensures
        final(options).deep_view() == inserted_options(old(options).deep_view(), new_option@),
{
    let ghost old_deep = options.deep_view();
    let n = options.len();
    let mut i: usize = 0;
    while i < n
        invariant
            i <= n,
            n == options.len(),
            options.deep_view() == old_deep,
            *options == *old(options),
            forall|k: int| 0 <= k < i ==> !option_matches(old_deep[k], new_option@),
        decreases n - i,
    {
        if options[i].id == new_option.id || options[i].name == new_option.name {
            proof {
                assert(option_matches(old_deep[i as int], new_option@));
                lemma_first_matching_index(old_deep, new_option@);
                assert(first_matching_index(old_deep, new_option@) == i as int);
            }
            options.set(i, new_option);
            proof {
                assert(options.deep_view() =~= old_deep.update(i as int, new_option@));
            }
            return ;
        }
        i = i + 1;
    }
    proof {
        assert(!has_matching_option(old_deep, new_option@));
    }
    options.insert(0, new_option);
    proof {
        assert(options.deep_view() =~= seq![new_option@] + old_deep);
    }
}

/// Deletes the first registry entry whose id matches `delete_option`'s id;
/// does nothing when no entry has that id.
pub fn delete_option_from(options: &mut Vec<SelectOption>, delete_option: &SelectOption)
    ensures
        final(options).deep_view() == deleted_options(old(options).deep_view(), delete_option@.id),
{
    let ghost old_deep = options.deep_view();
    let n = options.len();
    let mut i: usize = 0;
    while i < n
        invariant
            i <= n,
            n == options.len(),
            options.deep_view() == old_deep,
            *options == *old(options),
            forall|k: int| 0 <= k < i ==> old_deep[k].id != delete_option@.id,
        decreases n - i,
    {
        if options[i].id == delete_option.id {
            proof {
                assert(old_deep[i as int].id == delete_option@.id);
                assert(has_option_with_id(old_deep, delete_option@.id));
                lemma_first_index_with_id(old_deep, delete_option@.id);
                assert(first_index_with_id(old_deep, delete_option@.id) == i as int);
            }
            options.remove(i);
            proof {
                assert(options.deep_view() =~= old_deep.remove(i as int));
            }
            return ;
        }
        i = i + 1;
    }
    proof {
        assert(!has_option_with_id(old_deep, delete_option@.id));
    }
}

/// A fresh option named `name`, colored deterministically by the current
/// registry length through the fixed palette.  The caller decides whether
/// and where to insert it.
pub fn create_option_for(options: &Vec<SelectOption>, name: &str) -> (r: SelectOption)
    ensures
        r@.name == name@,
        r@.color == color_of_index(options.len() as int),
        r@.id.len() == 4,
        comma_free(r@.id),
{
    let color = select_option_color_from_index(options.len());
    SelectOption::with_color(name, color)
}

} // verus!
