//! Decoding a persisted cell string against an option registry: every id
//! is looked up in order, ids that no longer resolve are silently dropped,
//! and duplicates produce duplicate entries.  Decoding is total — no input
//! string is an error.

use vstd::prelude::*;
use crate::ids::{comma_free, join_ids, lemma_split_join_roundtrip, select_option_ids, split_ids};
use crate::registry::{first_index_with_id, has_option_with_id, lemma_first_index_with_id};
use crate::select_option::{SelectOption, SelectOptionData};

verus! {

/// An id a registry can actually carry: non-empty (ids are generator-
/// assigned) and free of the delimiter.
pub open spec fn wf_option_id(id: Seq<char>) -> bool {
    id.len() > 0 && comma_free(id)
}

/// Every id of the registry is well formed.  All generator-created
/// registries satisfy this; decoding laws that mention the empty id need
/// it.
pub open spec fn wf_registry(options: Seq<SelectOptionData>) -> bool {
    forall|i: int| 0 <= i < options.len() ==> wf_option_id(#[trigger] options[i].id)
}

/// The first registry entry with the given id, if any.
pub open spec fn find_option(options: Seq<SelectOptionData>, id: Seq<char>) -> Option<
    SelectOptionData,
>
    decreases options.len(),
{
    if options.len() == 0 {
        None
    } else if options[0].id == id {
        Some(options[0])
    } else {
        find_option(options.drop_first(), id)
    }
}

/// The decoded selection: each id in order, resolved against the registry;
/// unresolvable ids are dropped, duplicates are kept.
pub open spec fn resolve_ids(ids: Seq<Seq<char>>, options: Seq<SelectOptionData>) -> Seq<
    SelectOptionData,
>
    decreases ids.len(),
{
    if ids.len() == 0 {
        Seq::<SelectOptionData>::empty()
    } else {
        let rest = resolve_ids(ids.drop_first(), options);
        match find_option(options, ids[0]) {
            Some(o) => seq![o] + rest,
            None => rest,
        }
    }
}

/// The subsequence of ids that resolve against the registry, in order.
pub open spec fn resolvable_ids(ids: Seq<Seq<char>>, options: Seq<SelectOptionData>) -> Seq<
    Seq<char>,
>
    decreases ids.len(),
{
    if ids.len() == 0 {
        Seq::<Seq<char>>::empty()
    } else {
        let rest = resolvable_ids(ids.drop_first(), options);
        if has_option_with_id(options, ids[0]) {
            seq![ids[0]] + rest
        } else {
            rest
        }
    }
}

/// `find_option` finds exactly the first entry with the id, and finds one
/// if and only if the registry holds one.
pub proof fn lemma_find_option(options: Seq<SelectOptionData>, id: Seq<char>)
    ensures
        find_option(options, id) == if has_option_with_id(options, id) {
            Some(options[first_index_with_id(options, id)])
        } else {
            None::<SelectOptionData>
        },
    decreases options.len(),
{
    if options.len() == 0 {
        assert(!has_option_with_id(options, id));
    } else if options[0].id == id {
        assert(has_option_with_id(options, id));
        lemma_first_index_with_id(options, id);
    } else {
        lemma_find_option(options.drop_first(), id);
        if has_option_with_id(options.drop_first(), id) {
            let j = choose|j: int|
                0 <= j < options.drop_first().len() && options.drop_first()[j].id == id;
            assert(options[j + 1] == options.drop_first()[j]);
            assert(has_option_with_id(options, id));
            lemma_first_index_with_id(options, id);
            let f = first_index_with_id(options, id);
            assert(options.drop_first()[f - 1] == options[f]);
        } else {
            if has_option_with_id(options, id) {
                let j = choose|j: int| 0 <= j < options.len() && options[j].id == id;
                assert(options.drop_first()[j - 1] == options[j]);
            }
        }
    }
}

/// Law: every decoded entry comes from the registry and its id stands in
/// the persisted id list — in particular an id absent from the registry
/// never reaches the selection, and no entry is invented.
pub proof fn lemma_resolve_membership(ids: Seq<Seq<char>>, options: Seq<SelectOptionData>)
    ensures
        forall|j: int|
            0 <= j < resolve_ids(ids, options).len() ==> options.contains(
                #[trigger] resolve_ids(ids, options)[j],
            ) && ids.contains(resolve_ids(ids, options)[j].id),
    decreases ids.len(),
{
    if ids.len() == 0 {
    } else {
        let rest = resolve_ids(ids.drop_first(), options);
        lemma_resolve_membership(ids.drop_first(), options);
        assert(forall|j: int|
            0 <= j < rest.len() ==> ids.drop_first().contains(#[trigger] rest[j].id)
                ==> ids.contains(rest[j].id)) by {
            assert(forall|k: int|
                0 <= k < ids.drop_first().len() ==> ids.drop_first()[k] == ids[k + 1]);
        }
        match find_option(options, ids[0]) {
            Some(o) => {
                lemma_find_option(options, ids[0]);
                if has_option_with_id(options, ids[0]) {
                    lemma_first_index_with_id(options, ids[0]);
                }
                assert(options.contains(o));
                assert(o.id == ids[0]);
                assert(ids.contains(ids[0]));
                assert(forall|j: int|
                    1 <= j < resolve_ids(ids, options).len() ==> resolve_ids(ids, options)[j]
                        == rest[j - 1]);
            },
            None => {},
        }
    }
}

/// Law: a dangling id — one no registry entry carries — is absent from
/// the decoded selection, and decoding still succeeds around it.
pub proof fn lemma_decode_filters_dangling(
    ids: Seq<Seq<char>>,
    options: Seq<SelectOptionData>,
    id: Seq<char>,
)
    requires
        !has_option_with_id(options, id),
    ensures
        forall|j: int|
            0 <= j < resolve_ids(ids, options).len() ==> (#[trigger] resolve_ids(ids, options)[j]).id
                != id,
{
    lemma_resolve_membership(ids, options);
    assert forall|j: int| 0 <= j < resolve_ids(ids, options).len() implies (#[trigger] resolve_ids(
        ids,
        options,
    )[j]).id != id by {
        let o = resolve_ids(ids, options)[j];
        if o.id == id {
            assert(options.contains(o));
            let k = choose|k: int| 0 <= k < options.len() && options[k] == o;
            assert(options[k].id == id);
        }
    }
}

/// Law: decoding preserves the order of the persisted string — the ids of
/// the decoded selection are exactly the resolvable ids of the persisted
/// list, in the order they appear there (not in registry order).
pub proof fn lemma_resolve_order(ids: Seq<Seq<char>>, options: Seq<SelectOptionData>)
    ensures
        resolve_ids(ids, options).map_values(|o: SelectOptionData| o.id) == resolvable_ids(
            ids,
            options,
        ),
    decreases ids.len(),
{
    if ids.len() == 0 {
        assert(resolve_ids(ids, options).map_values(|o: SelectOptionData| o.id)
            =~= resolvable_ids(ids, options));
    } else {
        lemma_resolve_order(ids.drop_first(), options);
        lemma_find_option(options, ids[0]);
        if has_option_with_id(options, ids[0]) {
            lemma_first_index_with_id(options, ids[0]);
        }
        assert(resolve_ids(ids, options).map_values(|o: SelectOptionData| o.id)
            =~= resolvable_ids(ids, options));
    }
}

/// When every persisted id resolves, the resolvable subsequence is the
/// whole list.
pub proof fn lemma_resolvable_all(ids: Seq<Seq<char>>, options: Seq<SelectOptionData>)
    requires
        forall|i: int| 0 <= i < ids.len() ==> has_option_with_id(options, #[trigger] ids[i]),
    ensures
        resolvable_ids(ids, options) == ids,
    decreases ids.len(),
{
    if ids.len() == 0 {
        assert(resolvable_ids(ids, options) =~= ids);
    } else {
        assert(forall|i: int|
            0 <= i < ids.drop_first().len() ==> #[trigger] ids.drop_first()[i] == ids[i + 1]);
        lemma_resolvable_all(ids.drop_first(), options);
        assert(resolvable_ids(ids, options) =~= ids);
    }
}

/// Law: the empty persisted string decodes to the empty selection on any
/// well-formed registry (its single empty segment cannot resolve, because
/// registry ids are non-empty).
pub proof fn lemma_decode_empty(options: Seq<SelectOptionData>)
    requires
        wf_registry(options),
    ensures
        resolve_ids(split_ids(Seq::<char>::empty()), options) == Seq::<SelectOptionData>::empty(),
{
    let e = Seq::<char>::empty();
    assert(split_ids(e) == seq![e]);
    assert(!has_option_with_id(options, e));
    lemma_find_option(options, e);
    assert(seq![e].drop_first() =~= Seq::<Seq<char>>::empty());
    assert(resolve_ids(Seq::<Seq<char>>::empty(), options) == Seq::<SelectOptionData>::empty());
    assert(resolve_ids(seq![e], options) =~= Seq::<SelectOptionData>::empty());
}

/// Law (round-trip): joining any list of ids drawn from a well-formed
/// registry and decoding the result selects exactly those ids, in order.
pub proof fn lemma_decode_roundtrip(ids: Seq<Seq<char>>, options: Seq<SelectOptionData>)
    requires
        wf_registry(options),
        forall|i: int| 0 <= i < ids.len() ==> has_option_with_id(options, #[trigger] ids[i]),
    ensures
        resolve_ids(split_ids(join_ids(ids)), options).map_values(|o: SelectOptionData| o.id)
            == ids,
{
    if ids.len() == 0 {
        lemma_decode_empty(options);
        assert(join_ids(ids) == Seq::<char>::empty());
        assert(resolve_ids(split_ids(join_ids(ids)), options).map_values(
            |o: SelectOptionData| o.id,
        ) =~= ids);
    } else {
        assert(forall|i: int| 0 <= i < ids.len() ==> comma_free(#[trigger] ids[i])) by {
            assert forall|i: int| 0 <= i < ids.len() implies comma_free(#[trigger] ids[i]) by {
                lemma_first_index_with_id(options, ids[i]);
            }
        }
        lemma_split_join_roundtrip(ids);
        lemma_resolve_order(ids, options);
        lemma_resolvable_all(ids, options);
    }
}

/// Looks up an option by id: the first registry entry carrying it.
pub fn find_select_option(options: &Vec<SelectOption>, id: &String) -> (r: Option<SelectOption>)
    ensures
        r.deep_view() == find_option(options.deep_view(), id@),
{
    let ghost deep = options.deep_view();
    let n = options.len();
    let mut i: usize = 0;
    while i < n
        invariant
            i <= n,
            n == options.len(),
            deep == options.deep_view(),
            forall|k: int| 0 <= k < i ==> (#[trigger] deep[k]).id != id@,
        decreases n - i,
    {
        if options[i].id == *id {
            proof {
                assert(deep[i as int].id == id@);
                assert(has_option_with_id(deep, id@));
                lemma_first_index_with_id(deep, id@);
                assert(first_index_with_id(deep, id@) == i as int);
                lemma_find_option(deep, id@);
            }
            return Some(options[i].clone());
        }
        i = i + 1;
    }
    proof {
        assert(!has_option_with_id(deep, id@));
        lemma_find_option(deep, id@);
    }
    None
}

/// Resolves an ordered id list against the registry, keeping the order of
/// the ids and dropping those that do not resolve.
pub fn resolve_select_options(ids: &Vec<String>, options: &Vec<SelectOption>) -> (r: Vec<
    SelectOption,
>)
    ensures
        r.deep_view() == resolve_ids(ids.deep_view(), options.deep_view()),
{
    let ghost ids_deep = ids.deep_view();
    let ghost opts_deep = options.deep_view();
    let mut r: Vec<SelectOption> = Vec::new();
    let mut i: usize = 0;
    proof {
        assert(ids_deep.subrange(0, ids_deep.len() as int) =~= ids_deep);
        assert(r.deep_view() =~= Seq::<SelectOptionData>::empty());
        assert(r.deep_view() + resolve_ids(ids_deep, opts_deep) =~= resolve_ids(
            ids_deep,
            opts_deep,
        ));
    }
    while i < ids.len()
        invariant
            i <= ids.len(),
            ids_deep == ids.deep_view(),
            opts_deep == options.deep_view(),
            resolve_ids(ids_deep, opts_deep) == r.deep_view() + resolve_ids(
                ids_deep.subrange(i as int, ids_deep.len() as int),
                opts_deep,
            ),
        decreases ids.len() - i,
    {
        let ghost suffix = ids_deep.subrange(i as int, ids_deep.len() as int);
        proof {
            assert(suffix[0] == ids_deep[i as int]);
            assert(suffix.drop_first() =~= ids_deep.subrange(i as int + 1, ids_deep.len() as int));
            assert(ids.deep_view()[i as int] == ids@[i as int]@);
        }
        match find_select_option(options, &ids[i]) {
            Some(o) => {
                let ghost old_deep = r.deep_view();
                r.push(o);
                proof {
                    assert(r.deep_view() =~= old_deep.push(o@));
                    assert(old_deep + (seq![o@] + resolve_ids(suffix.drop_first(), opts_deep))
                        =~= old_deep.push(o@) + resolve_ids(suffix.drop_first(), opts_deep));
                }
            },
            None => {},
        }
        i = i + 1;
    }
    proof {
        assert(ids_deep.subrange(ids.len() as int, ids_deep.len() as int)
            =~= Seq::<Seq<char>>::empty());
        assert(resolve_ids(Seq::<Seq<char>>::empty(), opts_deep)
            == Seq::<SelectOptionData>::empty());
        assert(r.deep_view() + Seq::<SelectOptionData>::empty() =~= r.deep_view());
    }
    r
}

/// The decoded view of one cell: the field's full registry, and the
/// currently selected subset in persisted order.  Recomputed on every
/// read, never persisted.
#[derive(Debug, PartialEq, Eq)]
pub struct SelectOptionCellData {
    pub options: Vec<SelectOption>,
    pub select_options: Vec<SelectOption>,
}

impl Default for SelectOptionCellData {
    fn default() -> (r: Self)
        ensures
            r.options.deep_view() == Seq::<SelectOptionData>::empty(),
            r.select_options.deep_view() == Seq::<SelectOptionData>::empty(),
    {
        let r = SelectOptionCellData { options: Vec::new(), select_options: Vec::new() };
        proof {
            assert(r.options.deep_view() =~= Seq::<SelectOptionData>::empty());
            assert(r.select_options.deep_view() =~= Seq::<SelectOptionData>::empty());
        }
        r
    }
}

/// The selected subset for a cell: nothing when the cell was never
/// written, otherwise the persisted string split and resolved against the
/// registry.
pub fn make_select_context_from(cell_rev: &Option<String>, options: &Vec<SelectOption>) -> (r: Vec<
    SelectOption,
>)
    ensures
        r.deep_view() == match cell_rev {
            Option::None => Seq::<SelectOptionData>::empty(),
            Option::Some(s) => resolve_ids(split_ids(s@), options.deep_view()),
        },
{
    match cell_rev {
        None => {
            let r: Vec<SelectOption> = Vec::new();
            proof {
                assert(r.deep_view() =~= Seq::<SelectOptionData>::empty());
            }
            r
        },
        Some(data) => {
            let ids = select_option_ids(data.clone());
            resolve_select_options(&ids, options)
        },
    }
}

} // verus!
