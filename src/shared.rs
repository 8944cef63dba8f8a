use crate::handler::{is_bare, is_pong, respond, status_of, Reply, Route, NOT_FOUND};
use crate::recipe::Recipe;
use crate::store::{texts, RecipeStore};
use vstd::prelude::*;
use vstd::rwlock::{RwLock, RwLockPredicate};

verus! {

/// What the lock guarantees of the store it guards: no name held twice.
pub struct StoreIsWellFormed;

impl RwLockPredicate<RecipeStore> for StoreIsWellFormed {
    open spec fn inv(self, v: RecipeStore) -> bool {
        v.wf()
    }
}

/// A recipe store that many threads share: one lock guards the whole map, so
/// each operation sees and leaves it whole.
pub struct SharedRecipeStore {
    lock: RwLock<RecipeStore, StoreIsWellFormed>,
}

impl SharedRecipeStore {
    /// An empty store, ready to be shared.
    pub fn new() -> (s: SharedRecipeStore) {
        SharedRecipeStore { lock: RwLock::new(RecipeStore::new(), Ghost(StoreIsWellFormed)) }
    }

    /// Inserts `recipe` under `name`, replacing whatever was held under that
    /// name, while no other operation runs.
    pub fn put(&self, name: String, recipe: Recipe) {
        let (mut store, handle) = self.lock.acquire_write();
        store.put(name, recipe);
        handle.release_write(store);
    }

    /// A snapshot of the names held: each once, as they stood at one instant.
    pub fn list_names(&self) -> (names: Vec<String>)
        ensures
            texts(names@).no_duplicates(),
    {
        let handle = self.lock.acquire_read();
        let names = handle.borrow().list_names();
        handle.release_read();
        names
    }

    /// Serves one request on `route` against the store, all of it while no
    /// other operation runs.
    pub fn handle(&self, route: Route, decoded: Option<Recipe>) -> (r: Reply)
        ensures
            r.status == status_of(route, decoded is Some),
            route == Route::Ping ==> is_pong(&r),
            route == Route::ListRecipes ==> r.body is Names && texts(
                r.body->Names_0@,
            ).no_duplicates(),
            route == Route::AddRecipe ==> r.body is Empty,
            route == Route::NotFound ==> is_bare(&r, NOT_FOUND),
    {
        let (mut store, handle) = self.lock.acquire_write();
        let r = respond(&mut store, route, decoded);
        handle.release_write(store);
        r
    }
}

} // verus!
