//! The token among the parameters of a query.

use vstd::prelude::*;

verus! {

/// The value of the last pair in `pairs` that is named `name`, if there is one.
///
/// A query may name a parameter more than once; the last one counts.
pub open spec fn last_value(pairs: Seq<(Seq<char>, Seq<char>)>, name: Seq<char>) -> Option<
    Seq<char>,
>
    decreases pairs.len(),
{
    if pairs.len() == 0 {
        None
    } else if pairs.last().0 == name {
        Some(pairs.last().1)
    } else {
        last_value(pairs.drop_last(), name)
    }
}

/// Some pair in `pairs` is named `name`.
pub open spec fn names(pairs: Seq<(Seq<char>, Seq<char>)>, name: Seq<char>) -> bool {
    exists|i: int| 0 <= i < pairs.len() && (#[trigger] pairs[i]).0 == name
}

/// The value of the last pair in `pairs` that is named `name`.
pub fn find_value(pairs: &Vec<(String, String)>, name: &str) -> (found: Option<String>)
    ensures
        found is Some <==> names(pairs.deep_view(), name@),
        found matches Some(value) ==> last_value(pairs.deep_view(), name@) == Some(value@),
        found is None ==> last_value(pairs.deep_view(), name@) is None,
{
    let wanted = name.to_owned();
    let ghost all = pairs.deep_view();
    let mut rest: usize = pairs.len();
    assert(all.take(rest as int) =~= all);
    while rest > 0
        invariant
            rest <= pairs.len(),
            wanted@ == name@,
            all == pairs.deep_view(),
            last_value(all, name@) == last_value(all.take(rest as int), name@),
            forall|i: int| rest <= i < pairs.len() ==> (#[trigger] all[i]).0 != name@,
        decreases rest,
    {
        rest = rest - 1;
        proof {
            let upto = all.take(rest + 1);
            assert(upto.last() == all[rest as int]);
            assert(upto.drop_last() =~= all.take(rest as int));
            assert(all[rest as int] == (pairs@[rest as int].0@, pairs@[rest as int].1@));
        }
        if pairs[rest].0 == wanted {
            return Some(pairs[rest].1.clone());
        }
    }
    proof {
        assert(all.take(0).len() == 0);
    }
    None
}

/// Where one pair only is named `name`, its value is the one found,
/// wherever the pair stands among the others.
pub proof fn lemma_only_occurrence_is_found(
    pairs: Seq<(Seq<char>, Seq<char>)>,
    name: Seq<char>,
    at: int,
)
    requires
        0 <= at < pairs.len(),
        pairs[at].0 == name,
        forall|other: int| 0 <= other < pairs.len() && other != at ==> pairs[other].0 != name,
    ensures
        last_value(pairs, name) == Some(pairs[at].1),
    decreases pairs.len(),
{
    if at < pairs.len() - 1 {
        lemma_only_occurrence_is_found(pairs.drop_last(), name, at);
    }
}

/// A value is found exactly where some pair is named `name`, and it is the
/// value of a pair of that name after which no pair of that name comes.
pub proof fn lemma_last_value_is_of_last_occurrence(
    pairs: Seq<(Seq<char>, Seq<char>)>,
    name: Seq<char>,
)
    ensures
        last_value(pairs, name) is Some <==> names(pairs, name),
        last_value(pairs, name) matches Some(value) ==> exists|at: int|
            0 <= at < pairs.len() && #[trigger] pairs[at] == (name, value) && forall|later: int|
                at < later < pairs.len() ==> (#[trigger] pairs[later]).0 != name,
    decreases pairs.len(),
{
    if pairs.len() > 0 {
        let front = pairs.drop_last();
        lemma_last_value_is_of_last_occurrence(front, name);
        if pairs.last().0 == name {
            assert(pairs[pairs.len() - 1] == (name, pairs.last().1));
        } else {
            if names(front, name) {
                let i = choose|i: int| 0 <= i < front.len() && (#[trigger] front[i]).0 == name;
                assert(pairs[i].0 == name);
            }
            if names(pairs, name) {
                let i = choose|i: int| 0 <= i < pairs.len() && (#[trigger] pairs[i]).0 == name;
                assert(front[i].0 == name);
            }
            match last_value(front, name) {
                Some(value) => {
                    let at = choose|at: int|
                        0 <= at < front.len() && #[trigger] front[at] == (name, value)
                            && forall|later: int|
                            at < later < front.len() ==> (#[trigger] front[later]).0 != name;
                    assert(pairs[at] == (name, value));
                    assert forall|later: int| at < later < pairs.len() implies (
                    #[trigger] pairs[later]).0 != name by {
                        if later < front.len() {
                            assert(front[later].0 != name);
                        }
                    }
                },
                None => {},
            }
        }
    }
}

} // verus!
