use crate::builder::{request_of, Request};
use crate::catalog::Catalog;
use vstd::prelude::*;

verus! {

/// The view of a builder started with `new(key)` and then given each pair
/// of `ps`, in order, through `set_args`.
pub open spec fn filled(key: Seq<char>, ps: Seq<(Seq<char>, Seq<char>)>) -> (
    Seq<char>,
    Map<Seq<char>, Seq<char>>,
)
    decreases ps.len(),
{
    if ps.len() == 0 {
        (key, Map::empty())
    } else {
        let v = filled(key, ps.drop_last());
        (v.0, v.1.insert(ps.last().0, ps.last().1))
    }
}

proof fn lemma_filled_key(key: Seq<char>, other: Seq<char>, ps: Seq<(Seq<char>, Seq<char>)>)
    ensures
        filled(key, ps).0 == key,
        filled(key, ps).1 == filled(other, ps).1,
    decreases ps.len(),
{
    if ps.len() > 0 {
        lemma_filled_key(key, other, ps.drop_last());
    }
}

/// Setting the same argument twice keeps the later value only, so `build()`
/// gives what it gives with the later value set once.
pub proof fn law_later_value_wins(
    catalog: Catalog,
    key: Seq<char>,
    ps: Seq<(Seq<char>, Seq<char>)>,
    name: Seq<char>,
    first: Seq<char>,
    second: Seq<char>,
)
    ensures
        filled(key, ps.push((name, first)).push((name, second))) == filled(
            key,
            ps.push((name, second)),
        ),
        catalog.text(
            request_of(key, filled(key, ps.push((name, first)).push((name, second))).1),
        ) == catalog.text(request_of(key, filled(key, ps.push((name, second))).1)),
{
    let twice = ps.push((name, first)).push((name, second));
    let once = ps.push((name, second));
    assert(twice.drop_last() =~= ps.push((name, first)));
    assert(ps.push((name, first)).drop_last() =~= ps);
    assert(once.drop_last() =~= ps);
    let base = filled(key, ps);
    assert(filled(key, ps.push((name, first))) == (base.0, base.1.insert(name, first)));
    assert(filled(key, twice) == (base.0, base.1.insert(name, first).insert(name, second)));
    assert(filled(key, once) == (base.0, base.1.insert(name, second)));
    assert(base.1.insert(name, first).insert(name, second) =~= base.1.insert(name, second));
}

/// `args(other)` on a builder started with any key asks the catalog for the
/// same lookup, and so gives the same text, as `build()` on a builder started
/// with `new(other)` and given the same arguments.
pub proof fn law_args_is_build_of_fresh(
    catalog: Catalog,
    key: Seq<char>,
    other: Seq<char>,
    ps: Seq<(Seq<char>, Seq<char>)>,
)
    ensures
        request_of(other, filled(key, ps).1) == request_of(
            filled(other, ps).0,
            filled(other, ps).1,
        ),
        catalog.text(request_of(other, filled(key, ps).1)) == catalog.text(
            request_of(filled(other, ps).0, filled(other, ps).1),
        ),
{
    lemma_filled_key(other, key, ps);
}

/// `build()` on a builder with no arguments asks the catalog for the same
/// lookup as `get(key)`, the key alone, and so gives the same text.
pub proof fn law_build_without_args_is_get(catalog: Catalog, key: Seq<char>)
    ensures
        request_of(filled(key, seq![]).0, filled(key, seq![]).1) == Request::Plain(key),
        catalog.text(request_of(filled(key, seq![]).0, filled(key, seq![]).1)) == catalog.text(
            Request::Plain(key),
        ),
{
}

/// `build()` on a builder with arguments hands the catalog its key and every
/// argument set, each with the value it was last given.
pub proof fn law_build_hands_every_argument(key: Seq<char>, ps: Seq<(Seq<char>, Seq<char>)>)
    requires
        ps.len() > 0,
    ensures
        request_of(filled(key, ps).0, filled(key, ps).1) == Request::WithArgs(
            key,
            filled(key, ps).1,
        ),
        forall|i: int|
            0 <= i < ps.len() && (forall|j: int| i < j < ps.len() ==> ps[j].0 != ps[i].0)
                ==> #[trigger] filled(key, ps).1.contains_pair(ps[i].0, ps[i].1),
        forall|n: Seq<char>|
            #[trigger] filled(key, ps).1.dom().contains(n) ==> exists|i: int|
                0 <= i < ps.len() && ps[i].0 == n,
    decreases ps.len(),
{
    lemma_filled_key(key, key, ps);
    assert(filled(key, ps).1.dom().contains(ps.last().0));
    lemma_filled_contents(key, ps);
}

proof fn lemma_filled_contents(key: Seq<char>, ps: Seq<(Seq<char>, Seq<char>)>)
    ensures
        forall|i: int|
            0 <= i < ps.len() && (forall|j: int| i < j < ps.len() ==> ps[j].0 != ps[i].0)
                ==> #[trigger] filled(key, ps).1.contains_pair(ps[i].0, ps[i].1),
        forall|n: Seq<char>|
            #[trigger] filled(key, ps).1.dom().contains(n) ==> exists|i: int|
                0 <= i < ps.len() && ps[i].0 == n,
    decreases ps.len(),
{
    if ps.len() > 0 {
        let rest = ps.drop_last();
        lemma_filled_contents(key, rest);
        assert forall|i: int|
            0 <= i < ps.len() && (forall|j: int| i < j < ps.len() ==> ps[j].0 != ps[i].0)
                implies #[trigger] filled(key, ps).1.contains_pair(ps[i].0, ps[i].1) by {
            if i < ps.len() - 1 {
                assert(ps[ps.len() - 1].0 != ps[i].0);
                assert forall|j: int| i < j < rest.len() implies rest[j].0 != rest[i].0 by {
                    assert(ps[j].0 != ps[i].0);
                }
                assert(filled(key, rest).1.contains_pair(rest[i].0, rest[i].1));
            }
        }
        assert forall|n: Seq<char>| #[trigger]
            filled(key, ps).1.dom().contains(n) implies exists|i: int|
                0 <= i < ps.len() && ps[i].0 == n by {
            if n != ps.last().0 {
                assert(filled(key, rest).1.dom().contains(n));
                let i = choose|i: int| 0 <= i < rest.len() && rest[i].0 == n;
                assert(ps[i].0 == n);
            } else {
                assert(ps[ps.len() - 1].0 == n);
            }
        }
    }
}

} // verus!
