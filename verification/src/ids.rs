//! The persisted form of a select cell: zero or more option ids joined by
//! a comma.  `split_ids` / `join_ids` are the mathematical model, and the
//! executable `select_option_ids` / `join_select_option_ids` are proved
//! against them.
//!
//! Splitting is total: the empty string splits to one empty id, and empty
//! segments between adjacent commas are kept (they simply never resolve
//! against a registry, whose ids are non-empty).

use vstd::prelude::*;

verus! {

/// The model of splitting a persisted cell string on the comma delimiter.
/// Always yields at least one (possibly empty) id.
pub open spec fn split_ids(s: Seq<char>) -> Seq<Seq<char>>
    decreases s.len(),
{
    if s.len() == 0 {
        seq![Seq::<char>::empty()]
    } else if s[0] == ',' {
        seq![Seq::<char>::empty()] + split_ids(s.drop_first())
    } else {
        let rest = split_ids(s.drop_first());
        seq![seq![s[0]] + rest[0]] + rest.drop_first()
    }
}

/// The model of joining ids with the comma delimiter.
pub open spec fn join_ids(ids: Seq<Seq<char>>) -> Seq<char>
    decreases ids.len(),
{
    if ids.len() == 0 {
        Seq::<char>::empty()
    } else if ids.len() == 1 {
        ids[0]
    } else {
        ids[0] + seq![','] + join_ids(ids.drop_first())
    }
}

/// An id that the delimiter cannot cut apart.
pub open spec fn comma_free(id: Seq<char>) -> bool {
    forall|i: int| 0 <= i < id.len() ==> id[i] != ','
}

pub proof fn lemma_split_ids_len(s: Seq<char>)
    ensures
        split_ids(s).len() >= 1,
    decreases s.len(),
{
    if s.len() == 0 {
    } else {
        lemma_split_ids_len(s.drop_first());
    }
}

/// A comma-free string splits to exactly itself.
pub proof fn lemma_split_comma_free(t: Seq<char>)
    requires
        comma_free(t),
    ensures
        split_ids(t) == seq![t],
    decreases t.len(),
{
    if t.len() == 0 {
        assert(t =~= Seq::<char>::empty());
        assert(split_ids(t) =~= seq![t]);
    } else {
        assert(comma_free(t.drop_first()));
        lemma_split_comma_free(t.drop_first());
        assert(seq![t[0]] + t.drop_first() =~= t);
        assert(split_ids(t) =~= seq![t]);
    }
}

/// Splitting cuts exactly at the first comma: a comma-free prefix comes
/// off as the first id, and the rest splits on its own.
pub proof fn lemma_split_around_comma(t: Seq<char>, rest: Seq<char>)
    requires
        comma_free(t),
    ensures
        split_ids(t + seq![','] + rest) == seq![t] + split_ids(rest),
    decreases t.len(),
{
    let s = t + seq![','] + rest;
    if t.len() == 0 {
        assert(s[0] == ',');
        assert(s.drop_first() =~= rest);
        assert(t =~= Seq::<char>::empty());
        assert(split_ids(s) =~= seq![t] + split_ids(rest));
    } else {
        assert(s[0] == t[0]);
        assert(s[0] != ',');
        assert(comma_free(t.drop_first()));
        assert(s.drop_first() =~= t.drop_first() + seq![','] + rest);
        lemma_split_around_comma(t.drop_first(), rest);
        let inner = split_ids(s.drop_first());
        lemma_split_ids_len(rest);
        assert(inner == seq![t.drop_first()] + split_ids(rest));
        assert(inner[0] == t.drop_first());
        assert(seq![s[0]] + inner[0] =~= t);
        assert(inner.drop_first() =~= split_ids(rest));
        assert(split_ids(s) =~= seq![t] + split_ids(rest));
    }
}

/// Joining a non-empty list of comma-free ids and splitting the result
/// gives the list back unchanged.
pub proof fn lemma_split_join_roundtrip(ids: Seq<Seq<char>>)
    requires
        ids.len() >= 1,
        forall|i: int| 0 <= i < ids.len() ==> comma_free(#[trigger] ids[i]),
    ensures
        split_ids(join_ids(ids)) == ids,
    decreases ids.len(),
{
    if ids.len() == 1 {
        lemma_split_comma_free(ids[0]);
        assert(split_ids(join_ids(ids)) =~= ids);
    } else {
        let rest = ids.drop_first();
        assert(forall|i: int| 0 <= i < rest.len() ==> comma_free(#[trigger] rest[i]));
        lemma_split_join_roundtrip(rest);
        lemma_split_around_comma(ids[0], join_ids(rest));
        assert(split_ids(join_ids(ids)) =~= seq![ids[0]] + rest);
        assert(seq![ids[0]] + rest =~= ids);
    }
}

/// Appending one more id to a non-empty list adds one delimiter and the id
/// to the joined string.
pub proof fn lemma_join_push(ids: Seq<Seq<char>>, x: Seq<char>)
    requires
        ids.len() >= 1,
    ensures
        join_ids(ids.push(x)) == join_ids(ids) + seq![','] + x,
    decreases ids.len(),
{
    let p = ids.push(x);
    if ids.len() == 1 {
        assert(p.len() == 2);
        assert(p.drop_first() =~= seq![x]);
        assert(join_ids(seq![x]) == x);
        assert(join_ids(p) == p[0] + seq![','] + join_ids(p.drop_first()));
        assert(p[0] == ids[0]);
        assert(join_ids(ids) == ids[0]);
        assert(join_ids(p) =~= join_ids(ids) + seq![','] + x);
    } else {
        assert(p.drop_first() =~= ids.drop_first().push(x));
        lemma_join_push(ids.drop_first(), x);
        assert(join_ids(p) == p[0] + seq![','] + join_ids(p.drop_first()));
        assert(join_ids(ids) == ids[0] + seq![','] + join_ids(ids.drop_first()));
        assert(join_ids(p) =~= join_ids(ids) + seq![','] + x);
    }
}

/// Splits a persisted cell string on the comma delimiter into the ordered
/// list of option ids it mentions.
pub fn select_option_ids(data: String) -> (r: Vec<String>)
    ensures
        r.deep_view() == split_ids(data@),
        r.len() >= 1,
{
    let s: &str = data.as_str();
    let n: usize = s.unicode_len();
    let mut r: Vec<String> = Vec::new();
    let mut start: usize = 0;
    let mut i: usize = 0;
    proof {
        assert(r.deep_view() =~= Seq::<Seq<char>>::empty());
        assert(s@.subrange(0, s@.len() as int) =~= s@);
        assert(r.deep_view() + split_ids(s@) =~= split_ids(s@));
    }
    while i < n
        invariant
            start <= i <= n,
            n == s@.len(),
            s@ == data@,
            comma_free(s@.subrange(start as int, i as int)),
            split_ids(s@) == r.deep_view() + split_ids(
                s@.subrange(start as int, s@.len() as int),
            ),
        decreases n - i,
    {
        if s.get_char(i) == ',' {
            let ghost pre = s@.subrange(start as int, i as int);
            let ghost after = s@.subrange(i as int + 1, s@.len() as int);
            let token = s.substring_char(start, i);
            proof {
                let suffix = s@.subrange(start as int, s@.len() as int);
                assert(suffix =~= pre + seq![','] + after);
                lemma_split_around_comma(pre, after);
            }
            let ghost old_deep = r.deep_view();
            r.push(String::from_str(token));
            proof {
                assert(r.deep_view() =~= old_deep.push(pre));
                assert(old_deep + (seq![pre] + split_ids(after)) =~= old_deep.push(pre)
                    + split_ids(after));
            }
            start = i + 1;
            proof {
                assert(s@.subrange(start as int, i as int + 1) =~= Seq::<char>::empty());
            }
        } else {
            proof {
                assert(s@.subrange(start as int, i as int + 1) =~= s@.subrange(
                    start as int,
                    i as int,
                ).push(s@[i as int]));
            }
        }
        i = i + 1;
    }
    let ghost suffix = s@.subrange(start as int, s@.len() as int);
    let token = s.substring_char(start, n);
    proof {
        lemma_split_comma_free(suffix);
    }
    let ghost old_deep = r.deep_view();
    r.push(String::from_str(token));
    proof {
        assert(r.deep_view() =~= old_deep.push(suffix));
        assert(old_deep + seq![suffix] =~= old_deep.push(suffix));
    }
    r
}

/// Joins an ordered list of option ids with the comma delimiter, forming
/// the persisted cell string.
pub fn join_select_option_ids(ids: &Vec<String>) -> (r: String)
    ensures
        r@ == join_ids(ids.deep_view()),
{
    let mut r = String::new();
    let mut i: usize = 0;
    proof {
        assert(ids.deep_view().subrange(0, 0) =~= Seq::<Seq<char>>::empty());
        assert(join_ids(Seq::<Seq<char>>::empty()) == Seq::<char>::empty());
    }
    while i < ids.len()
        invariant
            i <= ids.len(),
            r@ == join_ids(ids.deep_view().subrange(0, i as int)),
        decreases ids.len() - i,
    {
        proof {
            reveal_strlit(",");
        }
        let ghost prefix = ids.deep_view().subrange(0, i as int);
        let ghost x = ids.deep_view()[i as int];
        if i > 0 {
            r.append(",");
        }
        r.append(ids[i].as_str());
        proof {
            let prefix1 = ids.deep_view().subrange(0, i as int + 1);
            assert(prefix1 =~= prefix.push(x));
            assert(ids.deep_view()[i as int] == ids@[i as int]@);
            if i > 0 {
                assert(prefix.len() >= 1);
                lemma_join_push(prefix, x);
                assert(","@ =~= seq![',']);
                assert(r@ =~= join_ids(prefix) + seq![','] + x);
            } else {
                assert(prefix =~= Seq::<Seq<char>>::empty());
                assert(join_ids(prefix) == Seq::<char>::empty());
                assert(prefix1.len() == 1);
                assert(join_ids(prefix1) == prefix1[0]);
                assert(r@ =~= x);
            }
        }
        i = i + 1;
    }
    proof {
        assert(ids.deep_view().subrange(0, ids.len() as int) =~= ids.deep_view());
    }
    r
}

} // verus!
