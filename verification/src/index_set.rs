//! The insertion-ordered set of `indexmap` that class lists are deduplicated with.
use indexmap::IndexSet;
use vstd::prelude::*;

verus! {

#[verifier::external_type_specification]
#[verifier::external_body]
#[verifier::reject_recursive_types(T)]
#[verifier::reject_recursive_types(S)]
pub struct ExIndexSet<T, S>(IndexSet<T, S>);

/// The items of an `IndexSet<String>`, each taken by its characters, in insertion order.
pub uninterp spec fn index_set_items(set: IndexSet<String>) -> Seq<Seq<char>>;

/// The characters of each string of `v`.
pub open spec fn views(v: Seq<String>) -> Seq<Seq<char>> {
    v.map_values(|s: String| s@)
}

/// `IndexSet::new`: a set with no items.
#[verifier::external_body]
pub(crate) fn index_set_new() -> (set: IndexSet<String>)
    ensures
        index_set_items(set) == Seq::<Seq<char>>::empty(),
{
    IndexSet::new()
}

/// `IndexSet::insert`: when an equal item is already present the set is left as it
/// was and `false` comes back; otherwise the item goes to the end and `true` comes back.
#[verifier::external_body]
pub(crate) fn index_set_insert(set: &mut IndexSet<String>, value: String) -> (inserted: bool)
    ensures
        inserted == !index_set_items(*old(set)).contains(value@),
        index_set_items(*final(set)) == (if inserted {
            index_set_items(*old(set)).push(value@)
        } else {
            index_set_items(*old(set))
        }),
{
    set.insert(value)
}

/// `IndexSet::into_iter`, collected: the items in insertion order.
#[verifier::external_body]
pub(crate) fn index_set_into_vec(set: IndexSet<String>) -> (v: Vec<String>)
    ensures
        views(v@) == index_set_items(set),
{
    set.into_iter().collect()
}

} // verus!
