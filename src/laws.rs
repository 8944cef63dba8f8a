use crate::recipe::RecipeView;
use crate::store::{insert_all, lemma_insert_all_keys, lists_keys, names_of};
use vstd::prelude::*;

verus! {

/// `name` stands in `names` at exactly one position.
pub open spec fn occurs_once(names: Seq<Seq<char>>, name: Seq<char>) -> bool {
    exists|i: int|
        0 <= i < names.len() && names[i] == name && forall|j: int|
            0 <= j < names.len() && names[j] == name ==> j == i
}

/// After a sequence of puts with distinct names into an empty store, listing
/// the names yields exactly the names that were put, in whatever order.
pub proof fn law_puts_then_list(
    puts: Seq<(Seq<char>, RecipeView)>,
    listed: Seq<Seq<char>>,
)
    requires
        names_of(puts).no_duplicates(),
        lists_keys(listed, insert_all(Map::empty(), puts)),
    ensures
        listed.to_set() == names_of(puts).to_set(),
{
    lemma_insert_all_keys(puts);
}

/// Putting `r1` and then `r2` under one name leaves that name listed once,
/// holding `r2` whole: the second put replaces the first, with nothing merged.
pub proof fn law_second_put_replaces_first(
    m: Map<Seq<char>, RecipeView>,
    name: Seq<char>,
    r1: RecipeView,
    r2: RecipeView,
    listed: Seq<Seq<char>>,
)
    requires
        lists_keys(listed, m.insert(name, r1).insert(name, r2)),
    ensures
        m.insert(name, r1).insert(name, r2) == m.insert(name, r2),
        m.insert(name, r1).insert(name, r2)[name] == r2,
        occurs_once(listed, name),
{
    let after = m.insert(name, r1).insert(name, r2);
    assert(after =~= m.insert(name, r2));
    assert(after.dom().contains(name));
    assert(listed.to_set().contains(name));
    let i = choose|i: int| 0 <= i < listed.len() && listed[i] == name;
    assert forall|j: int| 0 <= j < listed.len() && listed[j] == name implies j == i by {}
}

/// Two listings of one unchanged store hold the same names, as many of each.
pub proof fn law_listing_is_stable(
    m: Map<Seq<char>, RecipeView>,
    first: Seq<Seq<char>>,
    second: Seq<Seq<char>>,
)
    requires
        lists_keys(first, m),
        lists_keys(second, m),
    ensures
        first.to_set() == second.to_set(),
        first.len() == second.len(),
{
    first.unique_seq_to_set();
    second.unique_seq_to_set();
}

/// However `n` puts with distinct names are ordered, as when `n` callers put
/// concurrently and each put takes the store's lock in turn, the store ends
/// up listing exactly `n` names.
pub proof fn law_distinct_puts_in_any_order(
    puts: Seq<(Seq<char>, RecipeView)>,
    listed: Seq<Seq<char>>,
)
    requires
        names_of(puts).no_duplicates(),
        lists_keys(listed, insert_all(Map::empty(), puts)),
    ensures
        listed.len() == puts.len(),
{
    lemma_insert_all_keys(puts);
    listed.unique_seq_to_set();
    names_of(puts).unique_seq_to_set();
}

} // verus!
