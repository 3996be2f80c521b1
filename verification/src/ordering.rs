//! Display order chosen by a user: a list of record ids, first shown first. Each
//! record whose id is in the list gets as order number its position in the
//! list, counted from one.
use crate::ids::Id;
use vstd::prelude::*;

verus! {

broadcast use vstd::seq_lib::group_filter_ensures;

/// `i` is the first position of `x` in `s`.
pub open spec fn is_first_position(s: Seq<Id>, x: Id, i: int) -> bool {
    &&& 0 <= i < s.len()
    &&& s[i] == x
    &&& forall|j: int| 0 <= j < i ==> s[j] != x
}

/// The first position of `x` in `s` (meaningful when `s` contains `x`).
pub open spec fn first_position(s: Seq<Id>, x: Id) -> int {
    choose|i: int| is_first_position(s, x, i)
}

/// The order number that `ordering` gives to `id`: its first position plus one,
/// as an `i32`.
pub open spec fn order_number(ordering: Seq<Id>, id: Id) -> i32 {
    (first_position(ordering, id) + 1) as i32
}

/// The predicate "is listed in `ordering`".
pub open spec fn listed_in(ordering: Seq<Id>) -> spec_fn(Id) -> bool {
    |x: Id| ordering.contains(x)
}

/// The order numbers given to the records with ids `found`: one pair for each
/// found id that the list names, in the order of `found`.
pub open spec fn order_updates(found: Seq<Id>, ordering: Seq<Id>) -> Seq<(Id, i32)> {
    found.filter(listed_in(ordering)).map_values(|id: Id| (id, order_number(ordering, id)))
}

/// A sequence has at most one first position for a value.
pub proof fn lemma_first_position_unique(s: Seq<Id>, x: Id, i: int)
    requires
        is_first_position(s, x, i),
    ensures
        first_position(s, x) == i,
{
    assert(is_first_position(s, x, i));
    let k = first_position(s, x);
    assert(is_first_position(s, x, k));
    if k < i {
        assert(s[k] != x);
    } else if i < k {
        assert(s[i] != x);
    }
}

/// Every value a sequence contains has a first position in it.
pub proof fn lemma_first_position_exists(s: Seq<Id>, x: Id)
    requires
        s.contains(x),
    ensures
        is_first_position(s, x, first_position(s, x)),
    decreases s.len(),
{
    if s[0] == x {
        assert(is_first_position(s, x, 0));
    } else {
        let t = s.drop_first();
        let i = choose|i: int| 0 <= i < s.len() && s[i] == x;
        assert(t[i - 1] == x);
        lemma_first_position_exists(t, x);
        let k = first_position(t, x);
        assert forall|j: int| 0 <= j < k + 1 implies s[j] != x by {
            if j > 0 {
                assert(s[j] == t[j - 1]);
            }
        }
        assert(is_first_position(s, x, k + 1));
    }
}

/// The first position of `id` in `ids`, or `None` when `ids` does not hold it
/// (the value of `ids.iter().position(|x| x == &id)`).
pub fn position_of(ids: &Vec<Id>, id: Id) -> (r: Option<usize>)
    ensures
        r matches Some(p) ==> is_first_position(ids@, id, p as int),
        r is None <==> !ids@.contains(id),
{
    let n = ids.len();
    for i in 0..n
        invariant
            n == ids@.len(),
            forall|j: int| 0 <= j < i ==> ids@[j] != id,
    {
        if ids[i] == id {
            return Some(i);
        }
    }
    None
}

/// For each found record id that `ordering` lists, the id and its order number
/// (first position in `ordering` plus one), in the order of `found`.
pub fn plan_order_updates(found: &Vec<Id>, ordering: &Vec<Id>) -> (r: Vec<(Id, i32)>)
    ensures
        r@ == order_updates(found@, ordering@),
{
    let mut r: Vec<(Id, i32)> = Vec::new();
    let n = found.len();
    let m = ordering.len();
    let ghost f = |id: Id| (id, order_number(ordering@, id));
    for i in 0..n
        invariant
            n == found@.len(),
            m == ordering@.len(),
            f == (|id: Id| (id, order_number(ordering@, id))),
            r@ == found@.take(i as int).filter(listed_in(ordering@)).map_values(f),
    {
        let id = found[i];
        let ghost before = found@.take(i as int).filter(listed_in(ordering@));
        proof {
            assert(found@.take(i as int).push(id) =~= found@.take(i + 1));
            found@.take(i as int).lemma_filter_push(id, listed_in(ordering@));
        }
        match position_of(ordering, id) {
            Some(p) => {
                proof {
                    lemma_first_position_unique(ordering@, id, p as int);
                    assert(before.push(id).map_values(f) =~= before.map_values(f).push(f(id)));
                }
                r.push((id, (p + 1) as i32));
            },
            None => {},
        }
    }
    assert(found@.take(n as int) =~= found@);
    r
}

/// Two different records never get the same order number from one list, as
/// long as the list is short enough for its positions to fit in an `i32`.
pub proof fn lemma_order_numbers_distinct(ordering: Seq<Id>, a: Id, b: Id)
    requires
        ordering.contains(a),
        ordering.contains(b),
        a != b,
        ordering.len() < i32::MAX,
    ensures
        order_number(ordering, a) != order_number(ordering, b),
        order_number(ordering, a) >= 1,
{
    lemma_first_position_exists(ordering, a);
    lemma_first_position_exists(ordering, b);
}

/// The order number of a listed record names the place where the list shows it:
/// counting from one, the list holds the record's id at that place, and at no
/// earlier one.
pub proof fn lemma_order_number_points_back(ordering: Seq<Id>, id: Id)
    requires
        ordering.contains(id),
        ordering.len() < i32::MAX,
    ensures
        1 <= order_number(ordering, id) <= ordering.len(),
        ordering[order_number(ordering, id) - 1] == id,
        forall|j: int| 0 <= j < order_number(ordering, id) - 1 ==> ordering[j] != id,
{
    lemma_first_position_exists(ordering, id);
}

/// The ordering updates name exactly the found records that the list shows:
/// each update is for a found, listed record and gives it the place where the
/// list first shows it, counting from one; every found, listed record gets one.
pub proof fn lemma_order_updates_cover_listed_records(found: Seq<Id>, ordering: Seq<Id>)
    requires
        ordering.len() < i32::MAX,
    ensures
        forall|i: int|
            0 <= i < order_updates(found, ordering).len() ==> {
                let (id, n) = #[trigger] order_updates(found, ordering)[i];
                &&& found.contains(id)
                &&& ordering.contains(id)
                &&& 1 <= n <= ordering.len()
                &&& ordering[n - 1] == id
                &&& forall|j: int| 0 <= j < n - 1 ==> ordering[j] != id
            },
        forall|id: Id|
            found.contains(id) && ordering.contains(id) ==> exists|i: int|
                0 <= i < order_updates(found, ordering).len() && (#[trigger] order_updates(found, ordering)[i]).0
                    == id,
{
    let listed = found.filter(listed_in(ordering));
    assert forall|i: int| 0 <= i < order_updates(found, ordering).len() implies {
        let (id, n) = #[trigger] order_updates(found, ordering)[i];
        &&& found.contains(id)
        &&& ordering.contains(id)
        &&& 1 <= n <= ordering.len()
        &&& ordering[n - 1] == id
        &&& forall|j: int| 0 <= j < n - 1 ==> ordering[j] != id
    } by {
        let id = listed[i];
        assert(listed.contains(id));
        found.lemma_filter_contains_rev(listed_in(ordering), id);
        assert(listed_in(ordering)(id));
        lemma_order_number_points_back(ordering, id);
    }
    assert forall|id: Id| found.contains(id) && ordering.contains(id) implies exists|i: int|
        0 <= i < order_updates(found, ordering).len() && (#[trigger] order_updates(found, ordering)[i]).0 == id by {
        let k = choose|k: int| 0 <= k < found.len() && found[k] == id;
        assert(listed_in(ordering)(found[k]));
        assert(listed.contains(id));
        let i = choose|i: int| 0 <= i < listed.len() && listed[i] == id;
        assert(order_updates(found, ordering)[i].0 == id);
    }
}


} // verus!
