use std::collections::{HashMap, HashSet};

use vstd::prelude::*;
use vstd::std_specs::hash::*;

use crate::datatypes::recipe::{Recipe, RecipeView};

verus! {

broadcast use group_hash_axioms;

/// A request that a web worker makes of the recipe store.
#[derive(Debug)]
pub enum StoreRequest {
    /// every recipe, for presentation
    AllRecipes,
    /// one recipe, to be viewed and not edited
    RecipeReadOnly(u128),
    /// one recipe, to be edited: it is locked for the requester
    RecipeReadWrite(u128),
    /// the current contents of a recipe that the requester has locked
    UpdateRecipeRequest(u128),
    /// an edited recipe; the flag says whether editing goes on (the lock is
    /// kept) or is finished (the lock is released)
    EditedRecipe(Recipe, bool),
    /// a newly created recipe
    NewRecipe(Recipe),
}

/// The store's answer to a request.
#[derive(Debug)]
pub enum StoreResponse {
    /// every recipe
    AllRecipes(HashMap<u128, Recipe>),
    /// one recipe
    Recipe(Recipe),
    /// the recipe is already locked for editing by someone else
    EditingError(u128),
}

/// A request that the store refuses; the store is left as it was.
#[derive(Clone, Copy, Debug, PartialEq, Eq, Structural)]
pub enum StoreError {
    /// no recipe has this ID
    RecipeNotFound(u128),
    /// the recipe was to be changed without having been locked
    RecipeNotLocked(u128),
    /// a new recipe carries the ID of a recipe already stored
    RecipeAlreadyExists(u128),
}

/// The contents of a request.
pub enum RequestView {
    /// every recipe
    AllRecipes,
    /// read one recipe
    RecipeReadOnly(u128),
    /// lock and read one recipe
    RecipeReadWrite(u128),
    /// read a locked recipe
    UpdateRecipeRequest(u128),
    /// store an edited recipe, keeping the lock or not
    EditedRecipe(RecipeView, bool),
    /// store a new recipe
    NewRecipe(RecipeView),
}

/// The contents of a response.
pub enum ResponseView {
    /// every recipe
    AllRecipes(Map<u128, RecipeView>),
    /// one recipe
    Recipe(RecipeView),
    /// the recipe is locked by someone else
    EditingError(u128),
}

impl StoreRequest {
    /// The contents of the request.
    pub open spec fn view(self) -> RequestView {
        match self {
            StoreRequest::AllRecipes => RequestView::AllRecipes,
            StoreRequest::RecipeReadOnly(id) => RequestView::RecipeReadOnly(id),
            StoreRequest::RecipeReadWrite(id) => RequestView::RecipeReadWrite(id),
            StoreRequest::UpdateRecipeRequest(id) => RequestView::UpdateRecipeRequest(id),
            StoreRequest::EditedRecipe(r, keep) => RequestView::EditedRecipe(r.view(), keep),
            StoreRequest::NewRecipe(r) => RequestView::NewRecipe(r.view()),
        }
    }
}

/// The contents of a map of recipes.
pub open spec fn recipe_map_view(m: Map<u128, Recipe>) -> Map<u128, RecipeView> {
    m.map_values(|r: Recipe| r.view())
}

impl StoreResponse {
    /// The contents of the response.
    pub open spec fn view(self) -> ResponseView {
        match self {
            StoreResponse::AllRecipes(m) => ResponseView::AllRecipes(recipe_map_view(m@)),
            StoreResponse::Recipe(r) => ResponseView::Recipe(r.view()),
            StoreResponse::EditingError(id) => ResponseView::EditingError(id),
        }
    }
}

/// The contents of the store: the recipes by ID, and the IDs of the recipes
/// locked for editing.
pub struct StoreModel {
    /// recipes by ID
    pub recipes: Map<u128, RecipeView>,
    /// IDs of the recipes being edited
    pub locked: Set<u128>,
}

/// The answer of the store in state `m` to request `req`, and its next
/// state. Refused requests leave the state unchanged.
pub open spec fn store_step(m: StoreModel, req: RequestView) -> (StoreModel, Result<ResponseView, StoreError>) {
    match req {
        RequestView::AllRecipes => (m, Ok(ResponseView::AllRecipes(m.recipes))),
        RequestView::RecipeReadOnly(id) => if m.recipes.contains_key(id) {
            (m, Ok(ResponseView::Recipe(m.recipes[id])))
        } else {
            (m, Err(StoreError::RecipeNotFound(id)))
        },
        RequestView::RecipeReadWrite(id) => if m.locked.contains(id) {
            (m, Ok(ResponseView::EditingError(id)))
        } else if !m.recipes.contains_key(id) {
            (m, Err(StoreError::RecipeNotFound(id)))
        } else {
            (
                StoreModel { recipes: m.recipes, locked: m.locked.insert(id) },
                Ok(ResponseView::Recipe(m.recipes[id])),
            )
        },
        RequestView::UpdateRecipeRequest(id) => if !m.locked.contains(id) {
            (m, Err(StoreError::RecipeNotLocked(id)))
        } else if !m.recipes.contains_key(id) {
            (m, Err(StoreError::RecipeNotFound(id)))
        } else {
            (m, Ok(ResponseView::Recipe(m.recipes[id])))
        },
        RequestView::EditedRecipe(r, keep) => if !m.locked.contains(r.id) {
            (m, Err(StoreError::RecipeNotLocked(r.id)))
        } else if !m.recipes.contains_key(r.id) {
            (m, Err(StoreError::RecipeNotFound(r.id)))
        } else {
            (
                StoreModel {
                    recipes: m.recipes.insert(r.id, r),
                    locked: if keep {
                        m.locked
                    } else {
                        m.locked.remove(r.id)
                    },
                },
                Ok(ResponseView::Recipe(r)),
            )
        },
        RequestView::NewRecipe(r) => if m.recipes.contains_key(r.id) {
            (m, Err(StoreError::RecipeAlreadyExists(r.id)))
        } else {
            (
                StoreModel { recipes: m.recipes.insert(r.id, r), locked: m.locked },
                Ok(ResponseView::Recipe(r)),
            )
        },
    }
}

/// The contents of an answer.
pub open spec fn result_view(r: Result<StoreResponse, StoreError>) -> Result<ResponseView, StoreError> {
    match r {
        Ok(resp) => Ok(resp.view()),
        Err(e) => Err(e),
    }
}

/// `RecipeStore` owns the recipes while the web interface runs, and the set
/// of recipes locked for editing. Web workers reach it by requests.
#[derive(Debug)]
pub struct RecipeStore {
    recipes: HashMap<u128, Recipe>,
    locked: HashSet<u128>,
}

impl RecipeStore {
    /// The contents of the store.
    pub closed spec fn model(&self) -> StoreModel {
        StoreModel { recipes: recipe_map_view(self.recipes@), locked: self.locked@ }
    }

    /// `new` creates a store of the given recipes, none of them locked.
    pub fn new(recipes: HashMap<u128, Recipe>) -> (s: RecipeStore)
        ensures
            s.model().recipes == recipe_map_view(recipes@),
            s.model().locked == Set::<u128>::empty(),
    {
        RecipeStore { recipes, locked: HashSet::new() }
    }

    /// `recipes` returns the stored recipes.
    pub fn recipes(&self) -> (r: &HashMap<u128, Recipe>)
        ensures
            recipe_map_view(r@) == self.model().recipes,
    {
        &self.recipes
    }

    /// `is_locked` decides whether the recipe `id` is locked for editing.
    pub fn is_locked(&self, id: u128) -> (b: bool)
        ensures
            b == self.model().locked.contains(id),
    {
        self.locked.contains(&id)
    }

    fn copy_of(&self, id: u128) -> (r: Recipe)
        requires
            self.model().recipes.contains_key(id),
        ensures
            r.view() == self.model().recipes[id],
    {
        match self.recipes.get(&id) {
            Some(r) => r.duplicate(),
            None => {
                assert(false);
                Recipe::new()
            },
        }
    }

    /// `handle` answers one request and updates the store, as `store_step`
    /// describes: reads give copies of the stored recipes, a read for
    /// editing locks the recipe unless it is locked already, an edited
    /// recipe replaces the stored one and keeps or releases the lock, and a
    /// new recipe is added. A refused request changes nothing.
    pub fn handle(&mut self, req: StoreRequest) -> (r: Result<StoreResponse, StoreError>)
        ensures
            (final(self).model(), result_view(r)) == store_step(old(self).model(), req.view()),
    {
        let ghost m = self.model();
        match req {
            StoreRequest::AllRecipes => {
                let all = self.recipes.clone();
                assert(recipe_map_view(all@) == m.recipes);
                Ok(StoreResponse::AllRecipes(all))
            },
            StoreRequest::RecipeReadOnly(id) => {
                if self.recipes.contains_key(&id) {
                    Ok(StoreResponse::Recipe(self.copy_of(id)))
                } else {
                    Err(StoreError::RecipeNotFound(id))
                }
            },
            StoreRequest::RecipeReadWrite(id) => {
                if self.locked.contains(&id) {
                    Ok(StoreResponse::EditingError(id))
                } else if !self.recipes.contains_key(&id) {
                    Err(StoreError::RecipeNotFound(id))
                } else {
                    let r = self.copy_of(id);
                    self.locked.insert(id);
                    Ok(StoreResponse::Recipe(r))
                }
            },
            StoreRequest::UpdateRecipeRequest(id) => {
                if !self.locked.contains(&id) {
                    Err(StoreError::RecipeNotLocked(id))
                } else if !self.recipes.contains_key(&id) {
                    Err(StoreError::RecipeNotFound(id))
                } else {
                    Ok(StoreResponse::Recipe(self.copy_of(id)))
                }
            },
            StoreRequest::EditedRecipe(recipe, keep_editing) => {
                let id = recipe.id;
                if !self.locked.contains(&id) {
                    Err(StoreError::RecipeNotLocked(id))
                } else if !self.recipes.contains_key(&id) {
                    Err(StoreError::RecipeNotFound(id))
                } else {
                    if !keep_editing {
                        self.locked.remove(&id);
                    }
                    let stored = recipe.duplicate();
                    self.recipes.insert(id, stored);
                    proof {
                        assert(recipe_map_view(self.recipes@) =~= m.recipes.insert(id, recipe.view()));
                    }
                    Ok(StoreResponse::Recipe(recipe))
                }
            },
            StoreRequest::NewRecipe(recipe) => {
                let id = recipe.id;
                if self.recipes.contains_key(&id) {
                    Err(StoreError::RecipeAlreadyExists(id))
                } else {
                    let stored = recipe.duplicate();
                    self.recipes.insert(id, stored);
                    proof {
                        assert(recipe_map_view(self.recipes@) =~= m.recipes.insert(id, recipe.view()));
                    }
                    Ok(StoreResponse::Recipe(recipe))
                }
            },
        }
    }
}

/// A refused request leaves the store unchanged.
pub proof fn lemma_refusal_changes_nothing(m: StoreModel, req: RequestView)
    ensures
        store_step(m, req).1 is Err ==> store_step(m, req).0 == m,
{
}

/// A recipe that is not locked can be locked for editing, and is then
/// refused to a second request for editing, which leaves the store as it
/// was.
pub proof fn lemma_lock_is_exclusive(m: StoreModel, id: u128)
    requires
        m.recipes.contains_key(id),
        !m.locked.contains(id),
    ensures
        store_step(m, RequestView::RecipeReadWrite(id)).1 == Ok::<ResponseView, StoreError>(
            ResponseView::Recipe(m.recipes[id]),
        ),
        store_step(store_step(m, RequestView::RecipeReadWrite(id)).0, RequestView::RecipeReadWrite(id))
            == (store_step(m, RequestView::RecipeReadWrite(id)).0, Ok::<ResponseView, StoreError>(
            ResponseView::EditingError(id),
        )),
{
}

/// An edited recipe that was stored is what a later read of its ID gives.
pub proof fn lemma_read_after_edit(m: StoreModel, r: RecipeView, keep: bool)
    requires
        m.locked.contains(r.id),
        m.recipes.contains_key(r.id),
    ensures
        store_step(store_step(m, RequestView::EditedRecipe(r, keep)).0, RequestView::RecipeReadOnly(r.id)).1
            == Ok::<ResponseView, StoreError>(ResponseView::Recipe(r)),
{
}

/// Finishing an edit releases the lock: the recipe can be locked again and
/// is handed out as it was stored.
pub proof fn lemma_finish_edit_releases(m: StoreModel, r: RecipeView)
    requires
        m.locked.contains(r.id),
        m.recipes.contains_key(r.id),
    ensures
        store_step(store_step(m, RequestView::EditedRecipe(r, false)).0, RequestView::RecipeReadWrite(r.id)).1
            == Ok::<ResponseView, StoreError>(ResponseView::Recipe(r)),
{
}

/// Editing and keeping the lock leaves the recipe locked.
pub proof fn lemma_keep_editing_keeps_lock(m: StoreModel, r: RecipeView)
    requires
        m.locked.contains(r.id),
        m.recipes.contains_key(r.id),
    ensures
        store_step(m, RequestView::EditedRecipe(r, true)).0.locked.contains(r.id),
        store_step(store_step(m, RequestView::EditedRecipe(r, true)).0, RequestView::RecipeReadWrite(r.id)).1
            == Ok::<ResponseView, StoreError>(ResponseView::EditingError(r.id)),
{
}

/// A newly created recipe is what a later read of its ID gives, and it is
/// not locked.
pub proof fn lemma_read_after_create(m: StoreModel, r: RecipeView)
    requires
        !m.recipes.contains_key(r.id),
    ensures
        store_step(store_step(m, RequestView::NewRecipe(r)).0, RequestView::RecipeReadOnly(r.id)).1
            == Ok::<ResponseView, StoreError>(ResponseView::Recipe(r)),
{
}

/// Every locked recipe is stored: the store keeps no lock on a recipe it
/// does not have.
pub open spec fn locks_stored(m: StoreModel) -> bool {
    m.locked.subset_of(m.recipes.dom())
}

/// The store keeps its locks on stored recipes, whatever is asked of it.
pub proof fn lemma_locks_stay_on_stored_recipes(m: StoreModel, req: RequestView)
    requires
        locks_stored(m),
    ensures
        locks_stored(store_step(m, req).0),
{
}

/// Only a request to edit takes a lock, and it takes the lock of the recipe
/// it asks for: every other request leaves the locks as they were or
/// releases one.
pub proof fn lemma_only_edit_requests_lock(m: StoreModel, req: RequestView, id: u128)
    requires
        store_step(m, req).0.locked.contains(id),
        !m.locked.contains(id),
    ensures
        req == RequestView::RecipeReadWrite(id),
{
}

/// A new recipe is stored unlocked: creating it leaves the locks as they
/// were, and the recipe can then be locked for editing at once, which hands
/// it out as it was created.
pub proof fn lemma_create_then_edit(m: StoreModel, r: RecipeView)
    requires
        locks_stored(m),
        !m.recipes.contains_key(r.id),
    ensures
        store_step(m, RequestView::NewRecipe(r)).0.locked == m.locked,
        store_step(store_step(m, RequestView::NewRecipe(r)).0, RequestView::RecipeReadWrite(r.id)).1
            == Ok::<ResponseView, StoreError>(ResponseView::Recipe(r)),
{
    assert(!m.locked.contains(r.id));
}

} // verus!
