use vstd::prelude::*;

verus! {

/// What a recipe is, as mathematical values.
pub struct RecipeView {
    pub name: Seq<char>,
    pub category: Option<Seq<char>>,
    pub method: Option<Seq<char>>,
    pub difficulty: Option<Seq<char>>,
}

/// The characters of an optional string.
pub open spec fn opt_text(o: Option<String>) -> Option<Seq<char>> {
    match o {
        Some(s) => Some(s@),
        None => None,
    }
}

/// A named record with optional descriptive fields.
pub struct Recipe {
    pub name: String,
    pub category: Option<String>,
    pub method: Option<String>,
    pub difficulty: Option<String>,
}

impl View for Recipe {
    type V = RecipeView;

    open spec fn view(&self) -> RecipeView {
        RecipeView {
            name: self.name@,
            category: opt_text(self.category),
            method: opt_text(self.method),
            difficulty: opt_text(self.difficulty),
        }
    }
}

} // verus!
