use recipe_store::handler::{
    add_recipe, list_recipes, ping, respond, route, Reply, ReplyBody, Route, BAD_REQUEST,
    CREATED, NOT_FOUND, OK,
};
use recipe_store::recipe::Recipe;
use recipe_store::shared::SharedRecipeStore;
use recipe_store::store::RecipeStore;

fn recipe(name: &str, category: Option<&str>) -> Recipe {
    Recipe {
        name: name.to_string(),
        category: category.map(|c| c.to_string()),
        method: None,
        difficulty: None,
    }
}

fn sorted(mut v: Vec<String>) -> Vec<String> {
    v.sort();
    v
}

fn names_in(reply: Reply) -> Vec<String> {
    match reply.body {
        ReplyBody::Names(v) => v,
        _ => panic!("expected a list of names"),
    }
}

#[test]
fn empty_store_lists_nothing() {
    let store = RecipeStore::new();
    assert!(store.list_names().is_empty());
}

#[test]
fn distinct_puts_are_all_listed() {
    let mut store = RecipeStore::new();
    for name in ["Soup", "Bread", "Pancakes", "Salad"] {
        store.put(name.to_string(), recipe(name, None));
    }
    assert_eq!(
        sorted(store.list_names()),
        vec!["Bread", "Pancakes", "Salad", "Soup"]
    );
}

#[test]
fn second_put_under_a_name_replaces_the_first() {
    let mut store = RecipeStore::new();
    store.put("Soup".to_string(), recipe("Soup", Some("Lunch")));
    store.put("Bread".to_string(), recipe("Bread", None));
    store.put("Soup".to_string(), recipe("Soup", Some("Dinner")));
    assert_eq!(sorted(store.list_names()), vec!["Bread", "Soup"]);
}

#[test]
fn names_differing_in_case_or_space_are_distinct() {
    let mut store = RecipeStore::new();
    store.put("soup".to_string(), recipe("soup", None));
    store.put("Soup".to_string(), recipe("Soup", None));
    store.put("Soup ".to_string(), recipe("Soup ", None));
    assert_eq!(store.list_names().len(), 3);
}

#[test]
fn listing_twice_gives_the_same_names() {
    let mut store = RecipeStore::new();
    store.put("A".to_string(), recipe("A", None));
    store.put("B".to_string(), recipe("B", None));
    let first = store.list_names();
    let second = store.list_names();
    assert_eq!(first, second);
}

#[test]
fn shared_store_keeps_every_distinct_put() {
    let store = SharedRecipeStore::new();
    let n = 25;
    for k in 0..n {
        let name = format!("recipe {}", k);
        store.put(name.clone(), recipe(&name, None));
    }
    let names = store.list_names();
    assert_eq!(names.len(), n);
    let mut expected: Vec<String> = (0..n).map(|k| format!("recipe {}", k)).collect();
    expected.sort();
    assert_eq!(sorted(names), expected);
}

#[test]
fn shared_store_overwrites_by_name() {
    let store = SharedRecipeStore::new();
    store.put("Soup".to_string(), recipe("Soup", None));
    store.put("Soup".to_string(), recipe("Soup", Some("Dinner")));
    assert_eq!(store.list_names(), vec!["Soup"]);
}

#[test]
fn routes_follow_method_and_path() {
    assert_eq!(route("GET", "/ping"), Route::Ping);
    assert_eq!(route("GET", "/recipes"), Route::ListRecipes);
    assert_eq!(route("POST", "/recipes"), Route::AddRecipe);
    assert_eq!(route("PUT", "/recipes"), Route::NotFound);
    assert_eq!(route("POST", "/ping"), Route::NotFound);
    assert_eq!(route("GET", "/recipe"), Route::NotFound);
    assert_eq!(route("get", "/ping"), Route::NotFound);
}

#[test]
fn post_pancakes_then_list() {
    let store = SharedRecipeStore::new();
    assert_eq!(route("PUT", "/recipes"), Route::NotFound);
    let pancakes = Recipe {
        name: "Pancakes".to_string(),
        category: Some("Breakfast".to_string()),
        method: Some("Pan".to_string()),
        difficulty: Some("Easy".to_string()),
    };
    let created = store.handle(route("POST", "/recipes"), Some(pancakes));
    assert_eq!(created.status, CREATED);
    assert!(matches!(created.body, ReplyBody::Empty));
    let listed = store.handle(route("GET", "/recipes"), None);
    assert_eq!(listed.status, OK);
    assert_eq!(names_in(listed), vec!["Pancakes"]);
}

#[test]
fn post_without_name_is_rejected() {
    let store = SharedRecipeStore::new();
    let rejected = store.handle(route("POST", "/recipes"), None);
    assert_eq!(rejected.status, BAD_REQUEST);
    assert!(matches!(rejected.body, ReplyBody::Empty));
    let listed = store.handle(route("GET", "/recipes"), None);
    assert_eq!(listed.status, OK);
    assert!(names_in(listed).is_empty());
}

#[test]
fn ping_answers_pong_whatever_is_stored() {
    let reply = ping();
    assert_eq!(reply.status, OK);
    assert!(matches!(reply.body, ReplyBody::Text(ref t) if t == "pong"));
    let store = SharedRecipeStore::new();
    store.put("Soup".to_string(), recipe("Soup", None));
    let reply = store.handle(route("GET", "/ping"), None);
    assert_eq!(reply.status, 200);
    assert!(matches!(reply.body, ReplyBody::Text(ref t) if t == "pong"));
    assert_eq!(store.list_names(), vec!["Soup"]);
}

#[test]
fn unknown_route_is_not_found_and_changes_nothing() {
    let mut store = RecipeStore::new();
    store.put("Soup".to_string(), recipe("Soup", None));
    let reply = respond(&mut store, Route::NotFound, Some(recipe("Bread", None)));
    assert_eq!(reply.status, NOT_FOUND);
    assert!(matches!(reply.body, ReplyBody::Empty));
    assert_eq!(store.list_names(), vec!["Soup"]);
}

#[test]
fn add_recipe_stores_under_the_recipe_name() {
    let mut store = RecipeStore::new();
    let reply = add_recipe(&mut store, Some(recipe("Stew", Some("Dinner"))));
    assert_eq!(reply.status, 201);
    let rejected = add_recipe(&mut store, None);
    assert_eq!(rejected.status, 400);
    assert_eq!(names_in(list_recipes(&store)), vec!["Stew"]);
    let listed = respond(&mut store, Route::ListRecipes, None);
    assert_eq!(listed.status, 200);
    assert_eq!(names_in(listed), vec!["Stew"]);
}
