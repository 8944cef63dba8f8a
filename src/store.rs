use crate::recipe::{Recipe, RecipeView};
use vstd::prelude::*;

verus! {

/// The map that results from inserting each `(name, recipe)` pair of `puts`
/// into `m`, first to last; a later pair replaces an earlier one of the same name.
pub open spec fn insert_all(
    m: Map<Seq<char>, RecipeView>,
    puts: Seq<(Seq<char>, RecipeView)>,
) -> Map<Seq<char>, RecipeView>
    decreases puts.len(),
{
    if puts.len() == 0 {
        m
    } else {
        insert_all(m, puts.drop_last()).insert(puts.last().0, puts.last().1)
    }
}

/// The names of a sequence of `(name, recipe)` pairs, in order.
pub open spec fn names_of(puts: Seq<(Seq<char>, RecipeView)>) -> Seq<Seq<char>> {
    puts.map_values(|p: (Seq<char>, RecipeView)| p.0)
}

/// `names` lists every key of `m` exactly once, in some order.
pub open spec fn lists_keys(names: Seq<Seq<char>>, m: Map<Seq<char>, RecipeView>) -> bool {
    &&& names.no_duplicates()
    &&& names.to_set() == m.dom()
}

/// The characters of each string of `v`, in order.
pub open spec fn texts(v: Seq<String>) -> Seq<Seq<char>> {
    v.map_values(|s: String| s@)
}

/// A map from recipe name to recipe, holding at most one record per name.
pub struct RecipeStore {
    entries: Vec<(String, Recipe)>,
}

impl RecipeStore {
    /// The entries as mathematical values, in the order they were first inserted.
    pub closed spec fn model(&self) -> Seq<(Seq<char>, RecipeView)> {
        self.entries@.map_values(|e: (String, Recipe)| (e.0@, e.1@))
    }

    /// No name is held twice.
    pub closed spec fn wf(&self) -> bool {
        names_of(self.model()).no_duplicates()
    }
}

impl View for RecipeStore {
    type V = Map<Seq<char>, RecipeView>;

    closed spec fn view(&self) -> Map<Seq<char>, RecipeView> {
        insert_all(Map::empty(), self.model())
    }
}

/// The keys of the map that a sequence of puts builds from an empty one are
/// the names that were put.
pub proof fn lemma_insert_all_keys(puts: Seq<(Seq<char>, RecipeView)>)
    ensures
        insert_all(Map::empty(), puts).dom() == names_of(puts).to_set(),
    decreases puts.len(),
{
    if puts.len() > 0 {
        let rest = puts.drop_last();
        lemma_insert_all_keys(rest);
        assert(names_of(puts) == names_of(rest).push(puts.last().0));
        assert forall|k: Seq<char>|
            insert_all(Map::empty(), puts).dom().contains(k) <==> names_of(puts).to_set().contains(
                k,
            ) by {
            if k == puts.last().0 {
                assert(names_of(puts)[puts.len() - 1] == k);
            } else {
                if names_of(rest).contains(k) {
                    let i = choose|i: int| 0 <= i < names_of(rest).len() && names_of(rest)[i] == k;
                    assert(names_of(puts)[i] == k);
                }
                if names_of(puts).contains(k) {
                    let i = choose|i: int|
                        0 <= i < names_of(puts).len() && names_of(puts)[i] == k;
                    assert(i < puts.len() - 1);
                    assert(names_of(rest)[i] == k);
                }
            }
        }
        assert(insert_all(Map::empty(), puts).dom() =~= names_of(puts).to_set());
    } else {
        assert(insert_all(Map::empty(), puts).dom() =~= names_of(puts).to_set());
    }
}

/// Replacing the recipe of the pair at `i` replaces it in the resulting map,
/// when no two pairs share a name.
proof fn lemma_insert_all_update(
    m: Map<Seq<char>, RecipeView>,
    puts: Seq<(Seq<char>, RecipeView)>,
    i: int,
    r: RecipeView,
)
    requires
        0 <= i < puts.len(),
        names_of(puts).no_duplicates(),
    ensures
        insert_all(m, puts.update(i, (puts[i].0, r))) == insert_all(m, puts).insert(puts[i].0, r),
    decreases puts.len(),
{
    let updated = puts.update(i, (puts[i].0, r));
    let rest = puts.drop_last();
    if i == puts.len() - 1 {
        assert(updated.drop_last() == rest);
        assert(insert_all(m, updated) =~= insert_all(m, puts).insert(puts[i].0, r));
    } else {
        assert(updated.drop_last() == rest.update(i, (puts[i].0, r)));
        assert(names_of(rest)[i] == names_of(puts)[i]);
        assert forall|a: int, b: int|
            0 <= a < names_of(rest).len() && 0 <= b < names_of(rest).len() && a != b implies
            names_of(rest)[a] != names_of(rest)[b] by {
            assert(names_of(rest)[a] == names_of(puts)[a]);
            assert(names_of(rest)[b] == names_of(puts)[b]);
        }
        lemma_insert_all_update(m, rest, i, r);
        assert(names_of(puts)[i] != names_of(puts)[puts.len() - 1]);
        assert(insert_all(m, updated) =~= insert_all(m, puts).insert(puts[i].0, r));
    }
}

impl RecipeStore {
    /// An empty store.
    pub fn new() -> (s: RecipeStore)
        ensures
            s.wf(),
            s@ == Map::<Seq<char>, RecipeView>::empty(),
    {
        let s = RecipeStore { entries: Vec::new() };
        assert(s.model() =~= Seq::empty());
        s
    }

    /// Inserts `recipe` under `name`, replacing whatever was held under that name.
    pub fn put(&mut self, name: String, recipe: Recipe)
        requires
            old(self).wf(),
        ensures
            final(self).wf(),
            final(self)@ == old(self)@.insert(name@, recipe@),
    {
        let ghost before = self.model();
        let n = self.entries.len();
        let mut i: usize = 0;
        while i < n
            invariant
                n == self.entries.len(),
                i <= n,
                self.model() == before,
                before == old(self).model(),
                self.wf(),
                forall|j: int| 0 <= j < i ==> before[j].0 != name@,
            decreases n - i,
        {
            if self.entries[i].0 == name {
                let ghost r = recipe@;
                assert(before[i as int].0 == name@);
                self.entries.set(i, (name, recipe));
                proof {
                    assert(self.model() =~= before.update(i as int, (before[i as int].0, r)));
                    lemma_insert_all_update(Map::empty(), before, i as int, r);
                    assert(names_of(self.model()) =~= names_of(before));
                }
                return;
            }
            i = i + 1;
        }
        let ghost r = recipe@;
        let ghost key = name@;
        self.entries.push((name, recipe));
        proof {
            assert(self.model() =~= before.push((key, r)));
            assert(self.model().drop_last() =~= before);
            assert(names_of(self.model()) =~= names_of(before).push(key));
        }
    }

    /// The name of every record currently held, each once, in some order.
    pub fn list_names(&self) -> (names: Vec<String>)
        requires
            self.wf(),
        ensures
            lists_keys(texts(names@), self@),
    {
        let mut names: Vec<String> = Vec::new();
        let n = self.entries.len();
        let mut i: usize = 0;
        while i < n
            invariant
                n == self.entries.len(),
                i <= n,
                names@.len() == i,
                texts(names@) == names_of(self.model()).take(i as int),
            decreases n - i,
        {
            let name = self.entries[i].0.clone();
            let ghost prev = names@;
            names.push(name);
            proof {
                assert(names@ == prev.push(name));
                assert(self.model()[i as int].0 == self.entries@[i as int].0@);
                assert(texts(names@)[i as int] == names_of(self.model())[i as int]);
                assert(texts(names@) =~= names_of(self.model()).take(i + 1));
            }
            i = i + 1;
        }
        proof {
            assert(names_of(self.model()).take(n as int) =~= names_of(self.model()));
            lemma_insert_all_keys(self.model());
        }
        names
    }
}

} // verus!
