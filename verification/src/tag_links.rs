//! Reconciling the tags linked to a record with the tags a user asks for: which
//! links to add and which to remove, as every partial update with a tag list does.
use crate::ids::Id;
use vstd::prelude::*;

verus! {

broadcast use vstd::seq_lib::group_filter_ensures;

/// The predicate "is not among `ids`".
pub open spec fn absent_from(ids: Seq<Id>) -> spec_fn(Id) -> bool {
    |x: Id| !ids.contains(x)
}

/// The ids of `from` that do not occur in `other`, in their order in `from`.
pub open spec fn missing_from(from: Seq<Id>, other: Seq<Id>) -> Seq<Id> {
    from.filter(absent_from(other))
}

/// The links a record has once `to_delete` is removed from `linked` and
/// `to_create` is added.
pub open spec fn links_after(linked: Seq<Id>, to_create: Seq<Id>, to_delete: Seq<Id>) -> Seq<Id> {
    linked.filter(absent_from(to_delete)) + to_create
}

/// What a partial update does to the tag links of one record.
pub struct TagLinkPlan {
    /// Tag ids to link: the requested ones not linked yet, in the requested order.
    pub to_create: Vec<Id>,
    /// Tag ids to unlink: the linked ones not requested, in their linked order.
    pub to_delete: Vec<Id>,
}

/// Whether `id` occurs in `ids`.
pub fn contains_id(ids: &Vec<Id>, id: Id) -> (r: bool)
    ensures
        r == ids@.contains(id),
{
    let n = ids.len();
    for i in 0..n
        invariant
            n == ids@.len(),
            forall|j: int| 0 <= j < i ==> ids@[j] != id,
    {
        if ids[i] == id {
            return true;
        }
    }
    false
}

/// The ids of `from` that do not occur in `other`, in their order in `from`
/// (a repeated id stays repeated).
pub fn ids_missing_from(from: &Vec<Id>, other: &Vec<Id>) -> (r: Vec<Id>)
    ensures
        r@ == missing_from(from@, other@),
{
    let mut r: Vec<Id> = Vec::new();
    let n = from.len();
    for i in 0..n
        invariant
            n == from@.len(),
            r@ == from@.take(i as int).filter(absent_from(other@)),
    {
        let x = from[i];
        let absent = !contains_id(other, x);
        if absent {
            r.push(x);
        }
        proof {
            assert(from@.take(i as int).push(x) =~= from@.take(i + 1));
            from@.take(i as int).lemma_filter_push(x, absent_from(other@));
        }
    }
    assert(from@.take(n as int) =~= from@);
    r
}

impl TagLinkPlan {
    /// The links to add and to remove so that a record linked to `linked` ends up
    /// linked to `wanted`.
    pub fn new(linked: &Vec<Id>, wanted: &Vec<Id>) -> (plan: TagLinkPlan)
        ensures
            plan.to_create@ == missing_from(wanted@, linked@),
            plan.to_delete@ == missing_from(linked@, wanted@),
    {
        TagLinkPlan {
            to_create: ids_missing_from(wanted, linked),
            to_delete: ids_missing_from(linked, wanted),
        }
    }

    /// Whether the plan removes any link.
    pub fn has_deletions(&self) -> (r: bool)
        ensures
            r == (self.to_delete@.len() > 0),
    {
        self.to_delete.len() > 0
    }
}

/// After a tag update, a record is linked to exactly the requested tags: a tag
/// is linked afterwards if and only if it was requested.
pub proof fn lemma_links_match_request(linked: Seq<Id>, wanted: Seq<Id>)
    ensures
        forall|x: Id|
            links_after(
                linked,
                missing_from(wanted, linked),
                missing_from(linked, wanted),
            ).contains(x) <==> wanted.contains(x),
{
    let to_create = missing_from(wanted, linked);
    let to_delete = missing_from(linked, wanted);
    let kept = linked.filter(absent_from(to_delete));
    let after = kept + to_create;
    assert forall|x: Id| after.contains(x) <==> wanted.contains(x) by {
        if wanted.contains(x) {
            let i = choose|i: int| 0 <= i < wanted.len() && wanted[i] == x;
            if linked.contains(x) {
                let j = choose|j: int| 0 <= j < linked.len() && linked[j] == x;
                if to_delete.contains(x) {
                    linked.lemma_filter_contains_rev(absent_from(wanted), x);
                    let k = choose|k: int| 0 <= k < to_delete.len() && to_delete[k] == x;
                    assert(absent_from(wanted)(to_delete[k]));
                }
                assert(absent_from(to_delete)(linked[j]));
                assert(kept.contains(linked[j]));
                let m = choose|m: int| 0 <= m < kept.len() && kept[m] == x;
                assert(after[m] == x);
            } else {
                assert(absent_from(linked)(wanted[i]));
                assert(to_create.contains(wanted[i]));
                let m = choose|m: int| 0 <= m < to_create.len() && to_create[m] == x;
                assert(after[kept.len() + m] == x);
            }
        }
        if after.contains(x) {
            let m = choose|m: int| 0 <= m < after.len() && after[m] == x;
            if m < kept.len() {
                assert(kept[m] == x);
                assert(absent_from(to_delete)(kept[m]));
                linked.lemma_filter_contains_rev(absent_from(to_delete), x);
                if !wanted.contains(x) {
                    let j = choose|j: int| 0 <= j < linked.len() && linked[j] == x;
                    assert(absent_from(wanted)(linked[j]));
                    assert(to_delete.contains(linked[j]));
                }
            } else {
                assert(to_create[m - kept.len()] == x);
                assert(to_create.contains(x));
                wanted.lemma_filter_contains_rev(absent_from(linked), x);
            }
        }
    }
}

/// A tag update links no tag twice: every link it adds is to a tag the record
/// was not linked to, and every link it removes is one the record had.
pub proof fn lemma_plan_touches_only_differences(linked: Seq<Id>, wanted: Seq<Id>)
    ensures
        forall|x: Id| missing_from(wanted, linked).contains(x) ==> !linked.contains(x),
        forall|x: Id| missing_from(linked, wanted).contains(x) ==> linked.contains(x) && !wanted.contains(x),
{
    assert forall|x: Id| missing_from(wanted, linked).contains(x) implies !linked.contains(x) by {
        let m = choose|m: int| 0 <= m < missing_from(wanted, linked).len() && missing_from(wanted, linked)[m] == x;
        assert(absent_from(linked)(missing_from(wanted, linked)[m]));
    }
    assert forall|x: Id| missing_from(linked, wanted).contains(x) implies linked.contains(x) && !wanted.contains(x) by {
        let m = choose|m: int| 0 <= m < missing_from(linked, wanted).len() && missing_from(linked, wanted)[m] == x;
        assert(absent_from(wanted)(missing_from(linked, wanted)[m]));
        linked.lemma_filter_contains_rev(absent_from(wanted), x);
    }
}

/// A tag update repeated with the same request adds and removes no link: once a
/// record is linked to the requested tags, nothing is missing on either side.
pub proof fn lemma_repeated_update_changes_no_links(linked: Seq<Id>, wanted: Seq<Id>)
    ensures
        ({
            let after = links_after(linked, missing_from(wanted, linked), missing_from(linked, wanted));
            &&& missing_from(wanted, after) =~= Seq::<Id>::empty()
            &&& missing_from(after, wanted) =~= Seq::<Id>::empty()
        }),
{
    let after = links_after(linked, missing_from(wanted, linked), missing_from(linked, wanted));
    lemma_links_match_request(linked, wanted);
    let c = missing_from(wanted, after);
    if c.len() > 0 {
        assert(absent_from(after)(c[0]));
        assert(c.contains(c[0]));
        wanted.lemma_filter_contains_rev(absent_from(after), c[0]);
    }
    let d = missing_from(after, wanted);
    if d.len() > 0 {
        assert(absent_from(wanted)(d[0]));
        assert(d.contains(d[0]));
        after.lemma_filter_contains_rev(absent_from(wanted), d[0]);
    }
}

} // verus!
