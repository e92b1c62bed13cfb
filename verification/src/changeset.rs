//! The cell changeset instruction: at most one option id to insert
//! (toggle, for the stateful variants) and at most one to delete.  The
//! instruction crosses the process boundary as a JSON string; this module
//! carries it to and from that transport form and holds the id-list
//! transformations the appliers share.

use vstd::prelude::*;
use crate::ids::{join_ids, split_ids};

verus! {

/// What the transport string parses to: `None` when it is not a valid
/// instruction, otherwise the insert and delete ids.  The outcome of
/// `serde_json`'s parse is a function of the characters alone; this names
/// it without restating the JSON grammar.
pub uninterp spec fn parsed_changeset(s: Seq<char>) -> Option<
    (Option<Seq<char>>, Option<Seq<char>>),
>;

/// Relies on `serde_json::from_str`: deserializes the instruction's JSON
/// object (each field an optional string) into a map and moves the two
/// instruction fields out.  The outcome depends on the input characters
/// alone and is named `parsed_changeset`.
#[verifier::external_body]
pub(crate) fn parse_changeset(s: &str) -> (r: Option<(Option<String>, Option<String>)>)
    ensures
        r.deep_view() == parsed_changeset(s@),
{
    let m: std::collections::BTreeMap<String, Option<String>> = match serde_json::from_str(s) {
        Ok(m) => m,
        Err(_) => {
            return None;
        },
    };
    let insert_option_id = m.get("insert_option_id").cloned().flatten();
    let delete_option_id = m.get("delete_option_id").cloned().flatten();
    Some((insert_option_id, delete_option_id))
}

/// Relies on `serde_json::to_string` writing the two optional string
/// fields as a JSON object, and on `serde_json::from_str` reading back
/// what `to_string` wrote: the encoded instruction parses to exactly the
/// given pair.
#[verifier::external_body]
fn encode_changeset(
    insert_option_id: &Option<String>,
    delete_option_id: &Option<String>,
) -> (r: String)
    ensures
        parsed_changeset(r@) == Some(
            (insert_option_id.deep_view(), delete_option_id.deep_view()),
        ),
{
    let mut m: std::collections::BTreeMap<&str, &Option<String>> =
        std::collections::BTreeMap::new();
    m.insert("insert_option_id", insert_option_id);
    m.insert("delete_option_id", delete_option_id);
    serde_json::to_string(&m).unwrap()
}

/// The instruction applied to one cell: insert (toggle) and/or delete one
/// option id.  Consumed immediately; never persisted.
#[derive(Debug, PartialEq, Eq)]
pub struct SelectOptionCellContentChangeset {
    pub insert_option_id: Option<String>,
    pub delete_option_id: Option<String>,
}

impl Clone for SelectOptionCellContentChangeset {
    fn clone(&self) -> (r: Self)
        ensures
            r == *self,
    {
        SelectOptionCellContentChangeset {
            insert_option_id: match &self.insert_option_id {
                Some(s) => Some(s.clone()),
                None => None,
            },
            delete_option_id: match &self.delete_option_id {
                Some(s) => Some(s.clone()),
                None => None,
            },
        }
    }
}

impl SelectOptionCellContentChangeset {
    /// An instruction that only inserts (toggles) one option id.
    pub fn from_insert(option_id: &str) -> (r: Self)
        ensures
            r.insert_option_id.deep_view() == Some(option_id@),
            r.delete_option_id is None,
    {
        SelectOptionCellContentChangeset {
            insert_option_id: Some(String::from_str(option_id)),
            delete_option_id: None,
        }
    }

    /// An instruction that only deletes one option id.
    pub fn from_delete(option_id: &str) -> (r: Self)
        ensures
            r.insert_option_id is None,
            r.delete_option_id.deep_view() == Some(option_id@),
    {
        SelectOptionCellContentChangeset {
            insert_option_id: None,
            delete_option_id: Some(String::from_str(option_id)),
        }
    }

    /// The transport form of this instruction: a string every applier
    /// accepts and reads back as exactly this instruction.
    pub fn to_str(&self) -> (r: String)
        ensures
            parsed_changeset(r@) == Some(
                (self.insert_option_id.deep_view(), self.delete_option_id.deep_view()),
            ),
    {
        encode_changeset(&self.insert_option_id, &self.delete_option_id)
    }
}

/// The id list with every occurrence of `id` removed, order kept.
pub open spec fn remove_id(ids: Seq<Seq<char>>, id: Seq<char>) -> Seq<Seq<char>>
    decreases ids.len(),
{
    if ids.len() == 0 {
        Seq::<Seq<char>>::empty()
    } else if ids[0] == id {
        remove_id(ids.drop_first(), id)
    } else {
        seq![ids[0]] + remove_id(ids.drop_first(), id)
    }
}

/// The id list after a toggle: an id already present is removed (all of
/// its occurrences), an absent id is appended at the end.
pub open spec fn toggled_ids(ids: Seq<Seq<char>>, id: Seq<char>) -> Seq<Seq<char>> {
    if ids.contains(id) {
        remove_id(ids, id)
    } else {
        ids.push(id)
    }
}

/// The previous id list after the whole instruction: the insert id is
/// toggled first, then the delete id is removed unconditionally.
pub open spec fn applied_ids(
    prev: Seq<Seq<char>>,
    insert_id: Option<Seq<char>>,
    delete_id: Option<Seq<char>>,
) -> Seq<Seq<char>> {
    let after_insert = match insert_id {
        Some(id) => toggled_ids(prev, id),
        None => prev,
    };
    match delete_id {
        Some(id) => remove_id(after_insert, id),
        None => after_insert,
    }
}

/// The id list a stateful applier starts from: an empty previous value
/// is an empty selection, not one empty id (on decode the empty id fails
/// registry lookup anyway; the applier must also not let it creep into
/// the next persisted string).
pub open spec fn previous_ids(p: Seq<char>) -> Seq<Seq<char>> {
    if p.len() == 0 {
        Seq::<Seq<char>>::empty()
    } else {
        split_ids(p)
    }
}

/// The next persisted value of a stateful (multi- or checklist-select)
/// cell.  A cell never written before takes the insert id verbatim (or
/// stays empty); otherwise the previous value is split, transformed and
/// re-joined.
pub open spec fn stateful_next_value(
    prev: Option<Seq<char>>,
    insert_id: Option<Seq<char>>,
    delete_id: Option<Seq<char>>,
) -> Seq<char> {
    match prev {
        None => match insert_id {
            Some(id) => id,
            None => Seq::<char>::empty(),
        },
        Some(p) => join_ids(applied_ids(previous_ids(p), insert_id, delete_id)),
    }
}

/// The next persisted value of a single-select cell: the previous value
/// plays no part — an insert overwrites, no insert clears.
pub open spec fn single_select_next_value(insert_id: Option<Seq<char>>) -> Seq<char> {
    match insert_id {
        Some(id) => id,
        None => Seq::<char>::empty(),
    }
}

/// Law: removal is unconditional and complete — no occurrence of the
/// removed id survives.
pub proof fn lemma_remove_id_complete(ids: Seq<Seq<char>>, id: Seq<char>)
    ensures
        forall|j: int| 0 <= j < remove_id(ids, id).len() ==> remove_id(ids, id)[j] != id,
    decreases ids.len(),
{
    if ids.len() == 0 {
    } else {
        lemma_remove_id_complete(ids.drop_first(), id);
        assert forall|j: int| 0 <= j < remove_id(ids, id).len() implies remove_id(ids, id)[j]
            != id by {
            if ids[0] == id {
                assert(remove_id(ids, id) == remove_id(ids.drop_first(), id));
            } else if j == 0 {
                assert(remove_id(ids, id)[0] == ids[0]);
            } else {
                assert(remove_id(ids, id)[j] == remove_id(ids.drop_first(), id)[j - 1]);
            }
        }
    }
}

/// Law: toggling an absent id twice returns the list to its start — the
/// first toggle appends it, the second removes exactly it.
pub proof fn lemma_toggle_twice(ids: Seq<Seq<char>>, id: Seq<char>)
    requires
        !ids.contains(id),
    ensures
        toggled_ids(ids, id) == ids.push(id),
        toggled_ids(toggled_ids(ids, id), id) == ids,
    decreases ids.len(),
{
    let p = ids.push(id);
    assert(p[ids.len() as int] == id);
    assert(p.contains(id));
    lemma_remove_push_absent(ids, id);
}

/// Removing an absent id right after pushing it undoes the push.
proof fn lemma_remove_push_absent(ids: Seq<Seq<char>>, id: Seq<char>)
    requires
        !ids.contains(id),
    ensures
        remove_id(ids.push(id), id) == ids,
    decreases ids.len(),
{
    let p = ids.push(id);
    if ids.len() == 0 {
        assert(p[0] == id);
        assert(p.drop_first() =~= Seq::<Seq<char>>::empty());
        assert(remove_id(Seq::<Seq<char>>::empty(), id) == Seq::<Seq<char>>::empty());
        assert(remove_id(p, id) =~= ids);
    } else {
        assert(p[0] == ids[0]);
        assert(ids[0] != id) by {
            if ids[0] == id {
                assert(ids.contains(id));
            }
        }
        assert(p.drop_first() =~= ids.drop_first().push(id));
        assert(!ids.drop_first().contains(id)) by {
            if ids.drop_first().contains(id) {
                let j = choose|j: int|
                    0 <= j < ids.drop_first().len() && ids.drop_first()[j] == id;
                assert(ids[j + 1] == id);
            }
        }
        lemma_remove_push_absent(ids.drop_first(), id);
        assert(remove_id(p, id) =~= seq![ids[0]] + ids.drop_first());
        assert(seq![ids[0]] + ids.drop_first() =~= ids);
    }
}

/// Whether the id list holds the given id.
pub fn ids_contain(ids: &Vec<String>, id: &String) -> (r: bool)
    ensures
        r == ids.deep_view().contains(id@),
{
    let ghost deep = ids.deep_view();
    let n = ids.len();
    let mut i: usize = 0;
    while i < n
        invariant
            i <= n,
            n == ids.len(),
            deep == ids.deep_view(),
            forall|k: int| 0 <= k < i ==> deep[k] != id@,
        decreases n - i,
    {
        if ids[i] == *id {
            proof {
                assert(deep[i as int] == id@);
            }
            return true;
        }
        i = i + 1;
    }
    proof {
        if deep.contains(id@) {
            let j = choose|j: int| 0 <= j < deep.len() && deep[j] == id@;
        }
    }
    false
}

/// Removes every occurrence of `id` from the list, keeping the order of
/// the rest.
pub fn remove_id_occurrences(ids: Vec<String>, id: &String) -> (r: Vec<String>)
    ensures
        r.deep_view() == remove_id(ids.deep_view(), id@),
{
    let ghost deep = ids.deep_view();
    let mut r: Vec<String> = Vec::new();
    let mut i: usize = 0;
    proof {
        assert(deep.subrange(0, deep.len() as int) =~= deep);
        assert(r.deep_view() =~= Seq::<Seq<char>>::empty());
        assert(r.deep_view() + remove_id(deep, id@) =~= remove_id(deep, id@));
    }
    while i < ids.len()
        invariant
            i <= ids.len(),
            deep == ids.deep_view(),
            remove_id(deep, id@) == r.deep_view() + remove_id(
                deep.subrange(i as int, deep.len() as int),
                id@,
            ),
        decreases ids.len() - i,
    {
        let ghost suffix = deep.subrange(i as int, deep.len() as int);
        proof {
            assert(suffix[0] == deep[i as int]);
            assert(suffix.drop_first() =~= deep.subrange(i as int + 1, deep.len() as int));
            assert(ids.deep_view()[i as int] == ids@[i as int]@);
        }
        if !(ids[i] == *id) {
            let ghost old_deep = r.deep_view();
            r.push(ids[i].clone());
            proof {
                assert(r.deep_view() =~= old_deep.push(deep[i as int]));
                assert(old_deep + (seq![deep[i as int]] + remove_id(suffix.drop_first(), id@))
                    =~= old_deep.push(deep[i as int]) + remove_id(suffix.drop_first(), id@));
            }
        }
        i = i + 1;
    }
    proof {
        assert(deep.subrange(ids.len() as int, deep.len() as int) =~= Seq::<Seq<char>>::empty());
        assert(remove_id(Seq::<Seq<char>>::empty(), id@) == Seq::<Seq<char>>::empty());
        assert(r.deep_view() + Seq::<Seq<char>>::empty() =~= r.deep_view());
    }
    r
}

/// Toggles one id: removes all its occurrences when present, appends it
/// at the end when absent.
pub fn toggle_select_option_id(ids: Vec<String>, id: &String) -> (r: Vec<String>)
    ensures
        r.deep_view() == toggled_ids(ids.deep_view(), id@),
{
    if ids_contain(&ids, id) {
        remove_id_occurrences(ids, id)
    } else {
        let mut r = ids;
        let ghost old_deep = r.deep_view();
        r.push(id.clone());
        proof {
            assert(r.deep_view() =~= old_deep.push(id@));
        }
        r
    }
}

} // verus!
