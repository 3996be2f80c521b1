//! Creating, renaming and ordering the categories of desired states.
use crate::entities::DesiredStateCategory;
use crate::ids::{now_v7_id, uuid_version, Id};
use vstd::prelude::*;

verus! {

/// The fields that creating a category sets; the store leaves its ordering
/// unset.
#[derive(Clone, Debug, PartialEq, Eq)]
pub struct DesiredStateCategoryInsert {
    pub id: Id,
    pub user_id: Id,
    pub name: String,
}

/// The categories of `params`, each with the ordering paired with it.
pub open spec fn reordered_categories(params: Seq<(DesiredStateCategory, Option<i32>)>) -> Seq<DesiredStateCategory> {
    params.map_values(|p: (DesiredStateCategory, Option<i32>)| DesiredStateCategory { ordering: p.1, ..p.0 })
}

/// The category of `user_id` named `name`, under `id`.
pub open spec fn new_category(user_id: Id, name: String, id: Id) -> DesiredStateCategoryInsert {
    DesiredStateCategoryInsert { id, user_id, name }
}

/// `category` renamed to `name`.
pub open spec fn renamed_category(category: DesiredStateCategory, name: String) -> DesiredStateCategory {
    DesiredStateCategory { name, ..category }
}

pub struct DesiredStateCategoryMutation;

impl DesiredStateCategoryMutation {
    /// The category to insert for `user_id` with name `name`, under a fresh
    /// version 7 id.
    pub fn create(user_id: Id, name: String) -> (r: DesiredStateCategoryInsert)
        ensures
            r == new_category(user_id, name, r.id),
            uuid_version(r.id) == 7,
    {
        DesiredStateCategoryInsert { id: now_v7_id(), user_id, name }
    }

    /// `category` renamed to `name`.
    pub fn update(category: DesiredStateCategory, name: String) -> (r: DesiredStateCategory)
        ensures
            r == renamed_category(category, name),
    {
        DesiredStateCategory { name, ..category }
    }

    /// Each category of `params` with the ordering given beside it, in the order
    /// of `params`.
    pub fn bulk_update_ordering(params: Vec<(DesiredStateCategory, Option<i32>)>) -> (r: Vec<
        DesiredStateCategory,
    >)
        ensures
            r@ == reordered_categories(params@),
    {
        let mut r: Vec<DesiredStateCategory> = Vec::new();
        let ghost all = params@;
        let ghost f = |p: (DesiredStateCategory, Option<i32>)| DesiredStateCategory { ordering: p.1, ..p.0 };
        for p in it: params.into_iter()
            invariant
                f == (|p: (DesiredStateCategory, Option<i32>)| DesiredStateCategory { ordering: p.1, ..p.0 }),
                it.seq() == all,
                r@ == all.take(it.index() as int).map_values(f),
        {
            let (category, ordering) = p;
            proof {
                let k = it.index() as int;
                assert(all.take(k + 1) =~= all.take(k).push(all[k]));
                assert(all.take(k).push(all[k]).map_values(f) =~= all.take(k).map_values(f).push(f(all[k])));
            }
            r.push(DesiredStateCategory { ordering, ..category });
        }
        assert(all.take(all.len() as int) =~= all);
        r
    }
}

/// A new category belongs to the given user and has the given name.
pub proof fn lemma_new_category_keeps_input(user_id: Id, name: String, id: Id)
    ensures
        ({
            let c = new_category(user_id, name, id);
            &&& c.id == id
            &&& c.user_id == user_id
            &&& c.name == name
        }),
{
}

/// Renaming a category sets the given name and changes nothing else.
pub proof fn lemma_rename_sets_only_the_name(category: DesiredStateCategory, name: String)
    ensures
        ({
            let c = renamed_category(category, name);
            &&& c.name == name
            &&& c.id == category.id
            &&& c.user_id == category.user_id
            &&& c.ordering == category.ordering
        }),
{
}

/// Reordering gives one category for each pair, in the same order: the pair's
/// category with the pair's ordering, and nothing else changed.
pub proof fn lemma_reordering_sets_each_ordering(params: Seq<(DesiredStateCategory, Option<i32>)>)
    ensures
        reordered_categories(params).len() == params.len(),
        forall|i: int|
            0 <= i < params.len() ==> {
                let c = #[trigger] reordered_categories(params)[i];
                &&& c.ordering == params[i].1
                &&& c.id == params[i].0.id
                &&& c.user_id == params[i].0.user_id
                &&& c.name == params[i].0.name
            },
{
}


} // verus!
