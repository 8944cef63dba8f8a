use crate::recipe::{Recipe, RecipeView};
use crate::store::{lists_keys, texts, RecipeStore};
use vstd::prelude::*;

verus! {

/// Status of a request that was served.
pub const OK: u16 = 200;

/// Status of a recipe that was stored.
pub const CREATED: u16 = 201;

/// Status of a body that did not decode into a recipe.
pub const BAD_REQUEST: u16 = 400;

/// Status of a method and path that no route serves.
pub const NOT_FOUND: u16 = 404;

/// The operation that a request's method and path select.
#[derive(PartialEq, Eq, Structural, Clone, Copy, Debug)]
pub enum Route {
    Ping,
    ListRecipes,
    AddRecipe,
    NotFound,
}

/// The route served for `method` on `path`.
pub open spec fn route_of(method: Seq<char>, path: Seq<char>) -> Route {
    if path == "/ping"@ && method == "GET"@ {
        Route::Ping
    } else if path == "/recipes"@ && method == "GET"@ {
        Route::ListRecipes
    } else if path == "/recipes"@ && method == "POST"@ {
        Route::AddRecipe
    } else {
        Route::NotFound
    }
}

/// The status answered on `route`, where `decoded` tells whether the body
/// decoded into a recipe.
pub open spec fn status_of(route: Route, decoded: bool) -> u16 {
    match route {
        Route::Ping => OK,
        Route::ListRecipes => OK,
        Route::AddRecipe => if decoded {
            CREATED
        } else {
            BAD_REQUEST
        },
        Route::NotFound => NOT_FOUND,
    }
}

/// What a reply carries besides its status.
pub enum ReplyBody {
    Empty,
    Text(String),
    Names(Vec<String>),
}

/// A status and a body, for the transport to encode and send.
pub struct Reply {
    pub status: u16,
    pub body: ReplyBody,
}

/// The liveness answer.
pub open spec fn is_pong(r: &Reply) -> bool {
    &&& r.status == OK
    &&& r.body is Text
    &&& r.body->Text_0@ == "pong"@
}

/// An answer that lists the keys of `m`.
pub open spec fn is_listing_of(r: &Reply, m: Map<Seq<char>, RecipeView>) -> bool {
    &&& r.status == OK
    &&& r.body is Names
    &&& lists_keys(texts(r.body->Names_0@), m)
}

/// An answer with `status` and nothing else.
pub open spec fn is_bare(r: &Reply, status: u16) -> bool {
    r.status == status && r.body is Empty
}

/// Selects the route for `method` on `path`.
pub fn route(method: &str, path: &str) -> (r: Route)
    ensures
        r == route_of(method@, path@),
{
    proof {
        reveal_strlit("/ping");
        reveal_strlit("/recipes");
        reveal_strlit("GET");
        reveal_strlit("POST");
        assert("/ping"@.len() != "/recipes"@.len());
        assert("GET"@.len() != "POST"@.len());
    }
    let m = method.to_owned();
    let p = path.to_owned();
    let get = "GET".to_owned();
    let post = "POST".to_owned();
    if p == "/ping".to_owned() {
        if m == get {
            Route::Ping
        } else {
            Route::NotFound
        }
    } else if p == "/recipes".to_owned() {
        if m == get {
            Route::ListRecipes
        } else if m == post {
            Route::AddRecipe
        } else {
            Route::NotFound
        }
    } else {
        Route::NotFound
    }
}

/// Answers a liveness check; no store is involved.
pub fn ping() -> (r: Reply)
    ensures
        is_pong(&r),
{
    Reply { status: OK, body: ReplyBody::Text("pong".to_owned()) }
}

/// Answers with the name of every recipe in `store`.
pub fn list_recipes(store: &RecipeStore) -> (r: Reply)
    requires
        store.wf(),
    ensures
        is_listing_of(&r, store@),
{
    Reply { status: OK, body: ReplyBody::Names(store.list_names()) }
}

/// Stores a recipe that decoded from a request body under its own name, or
/// rejects the request, leaving `store` as it was, where decoding failed.
pub fn add_recipe(store: &mut RecipeStore, decoded: Option<Recipe>) -> (r: Reply)
    requires
        old(store).wf(),
    ensures
        final(store).wf(),
        match decoded {
            Some(recipe) => {
                &&& is_bare(&r, CREATED)
                &&& final(store)@ == old(store)@.insert(recipe.name@, recipe@)
            },
            None => {
                &&& is_bare(&r, BAD_REQUEST)
                &&& final(store)@ == old(store)@
            },
        },
{
    match decoded {
        Some(recipe) => {
            let name = recipe.name.clone();
            store.put(name, recipe);
            Reply { status: CREATED, body: ReplyBody::Empty }
        },
        None => Reply { status: BAD_REQUEST, body: ReplyBody::Empty },
    }
}

/// Serves one request on `route`; `decoded` is the request body as a recipe,
/// or `None` where it did not decode, and is read on `AddRecipe` alone.
pub fn respond(store: &mut RecipeStore, route: Route, decoded: Option<Recipe>) -> (r: Reply)
    requires
        old(store).wf(),
    ensures
        final(store).wf(),
        r.status == status_of(route, decoded is Some),
        route != Route::AddRecipe ==> final(store)@ == old(store)@,
        route == Route::Ping ==> is_pong(&r),
        route == Route::ListRecipes ==> is_listing_of(&r, old(store)@),
        route == Route::AddRecipe ==> match decoded {
            Some(recipe) => {
                &&& is_bare(&r, CREATED)
                &&& final(store)@ == old(store)@.insert(recipe.name@, recipe@)
            },
            None => {
                &&& is_bare(&r, BAD_REQUEST)
                &&& final(store)@ == old(store)@
            },
        },
        route == Route::NotFound ==> is_bare(&r, NOT_FOUND),
{
    match route {
        Route::Ping => ping(),
        Route::ListRecipes => list_recipes(store),
        Route::AddRecipe => add_recipe(store, decoded),
        Route::NotFound => Reply { status: NOT_FOUND, body: ReplyBody::Empty },
    }
}

} // verus!
