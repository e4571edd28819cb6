use std::collections::HashMap;

use vstd::prelude::*;
use vstd::std_specs::hash::*;
use vstd::std_specs::iter::IteratorSpec;
use vstd::string::StrSliceExecFns;

use super::app::{App, CurrentScreen, EditingState, State};
use super::keybinds::{keybind_text, EditingKeybinds, Keybinds};
use crate::datatypes::recipe::{Recipe, RecipeFields};

verus! {

broadcast use group_hash_axioms;

/// What a piece of text on screen is, which decides its style.
#[derive(Clone, Copy, Debug, PartialEq, Eq, Structural)]
pub enum TextRole {
    /// a placeholder for a missing list
    Missing,
    /// a recipe in the recipe list
    RecipeEntry,
    /// a tag in the tag list
    TagEntry,
    /// the title of the browser
    BrowseTitle,
    /// the title of a recipe being created
    CreateTitle,
    /// the title of a recipe being edited
    EditTitle,
    /// the status of the browser
    BrowsingStatus,
    /// the status of the viewer
    ViewingStatus,
    /// the status of the creator
    CreatingStatus,
    /// the status of the editor
    EditingStatus,
    /// a keybind
    Shortcut,
    /// plain text
    Plain,
}

/// A piece of text on screen and what it is.
#[derive(Debug)]
pub struct StyledText {
    /// the text
    pub text: String,
    /// what it is
    pub role: TextRole,
}

impl StyledText {
    /// The text and what it is.
    pub open spec fn view(&self) -> (Seq<char>, TextRole) {
        (self.text@, self.role)
    }
}

/// The views of a list of texts.
pub open spec fn styled_views(s: Seq<StyledText>) -> Seq<(Seq<char>, TextRole)> {
    s.map_values(|t: StyledText| t.view())
}

/// What the middle of the screen shows.
#[derive(Clone, Copy, Debug, PartialEq, Eq, Structural)]
pub enum MainView {
    /// the recipe list has recipes; nothing is drawn there yet
    Preview,
    /// the area is cleared
    Clear,
    /// the editor of the recipe itself
    RecipeEditor,
    /// the editor of the step at this position
    StepEditor(usize),
    /// the editor of an ingredient: step, then ingredient
    IngredientEditor(usize, usize),
    /// the editor of equipment: step, then equipment
    EquipmentEditor(usize, usize),
    /// the save prompt
    SavePrompt,
    /// nothing, as no recipe is being edited
    Blank,
}

/// What the screen shows, before it is drawn.
#[derive(Debug)]
pub struct ScreenPlan {
    /// the items of the recipe list
    pub recipe_list: Vec<StyledText>,
    /// the items of the tag list, when it is drawn
    pub tag_list: Option<Vec<StyledText>>,
    /// the title, if any
    pub title: Option<StyledText>,
    /// the status line
    pub status: StyledText,
    /// the line of keybinds
    pub keybind_line: Vec<StyledText>,
    /// how many lines the keybind area takes
    pub keybind_area_height: u16,
    /// what the middle of the screen shows
    pub main: MainView,
    /// where the cursor stands within the middle of the screen, if shown
    pub cursor: Option<(u16, u16)>,
}

/// The separator between keybinds.
pub open spec fn separator() -> (Seq<char>, TextRole) {
    (" | "@, TextRole::Plain)
}

/// The keybind line of the editor, where the user stands at `es`.
pub open spec fn editor_keybind_line(kb: EditingKeybinds, es: EditingState) -> Seq<(Seq<char>, TextRole)> {
    let t = |d: Seq<char>, i: Seq<char>| (keybind_text(d, i, false), TextRole::Shortcut);
    let base = seq![
        t(kb.exit.display_text@, kb.exit.instructional_text@),
        separator(),
        t(kb.edit.display_text@, kb.edit.instructional_text@),
        separator(),
        t(kb.field_scroll.display_text@, kb.field_scroll.instructional_text@),
        separator(),
        t(kb.item_scroll.display_text@, kb.item_scroll.instructional_text@),
        separator(),
        t(kb.item_switch.display_text@, kb.item_switch.instructional_text@),
        separator(),
        t(kb.item_switch.display_text@, kb.item_switch.instructional_text@),
        separator(),
    ];
    match es {
        EditingState::Recipe => base.push(t(kb.new_step.display_text@, kb.new_step.instructional_text@)),
        EditingState::Step(_) => base + seq![
            t(kb.new_ingredient.display_text@, kb.new_ingredient.instructional_text@),
            separator(),
            t(kb.new_equipment.display_text@, kb.new_equipment.instructional_text@),
        ],
        EditingState::SavePrompt => seq![("Save Recipe?"@, TextRole::Shortcut)],
        _ => base,
    }
}

/// The keybind line of a screen.
pub open spec fn keybind_line(kb: Keybinds, screen: CurrentScreen, es: EditingState) -> Seq<(Seq<char>, TextRole)> {
    match screen {
        CurrentScreen::RecipeBrowser => seq![
            (keybind_text(kb.browsing.quit.display_text@, kb.browsing.quit.instructional_text@, false), TextRole::Shortcut),
            separator(),
            (keybind_text(kb.browsing.new.display_text@, kb.browsing.new.instructional_text@, false), TextRole::Shortcut),
            separator(),
            (
                keybind_text(kb.browsing.recipe_scroll.display_text@, kb.browsing.recipe_scroll.instructional_text@, false),
                TextRole::Shortcut,
            ),
        ],
        CurrentScreen::RecipeViewer => seq![
            (keybind_text(kb.viewing.exit.display_text@, kb.viewing.exit.instructional_text@, false), TextRole::Shortcut),
        ],
        _ => editor_keybind_line(kb.editing, es),
    }
}

/// The title of a screen, if any.
pub open spec fn screen_title(app: App) -> Option<(Seq<char>, TextRole)> {
    match app.current_screen {
        CurrentScreen::RecipeBrowser => Some(("Cookbook"@, TextRole::BrowseTitle)),
        CurrentScreen::RecipeViewer => None,
        _ => match app.edit_recipe {
            Some(r) => if r.name@.len() == 0 && app.current_screen == CurrentScreen::RecipeCreator {
                Some(("New Recipe"@, TextRole::CreateTitle))
            } else {
                Some((r.name@, TextRole::EditTitle))
            },
            None => None,
        },
    }
}

/// The status line of a screen.
pub open spec fn screen_status(screen: CurrentScreen) -> (Seq<char>, TextRole) {
    match screen {
        CurrentScreen::RecipeBrowser => ("Browsing"@, TextRole::BrowsingStatus),
        CurrentScreen::RecipeViewer => ("Viewing"@, TextRole::ViewingStatus),
        CurrentScreen::RecipeCreator => ("Creating"@, TextRole::CreatingStatus),
        CurrentScreen::RecipeEditor => ("Editing"@, TextRole::EditingStatus),
    }
}

/// What the middle of a screen shows.
pub open spec fn main_view(app: App, es: EditingState) -> MainView {
    match app.current_screen {
        CurrentScreen::RecipeBrowser | CurrentScreen::RecipeViewer => if app.recipes@.len() == 0 {
            MainView::Clear
        } else {
            MainView::Preview
        },
        _ => if app.edit_recipe is None {
            MainView::Blank
        } else {
            match es {
                EditingState::Recipe => MainView::RecipeEditor,
                EditingState::Step(i) => MainView::StepEditor(i),
                EditingState::Ingredient(i, k) => MainView::IngredientEditor(i, k),
                EditingState::Equipment(i, k) => MainView::EquipmentEditor(i, k),
                EditingState::SavePrompt => MainView::SavePrompt,
            }
        },
    }
}

/// The line of a field of the recipe editor below its top: the heights of
/// the fields drawn above it.
pub open spec fn recipe_field_offset(f: RecipeFields) -> u16 {
    match f {
        RecipeFields::Name => 0,
        RecipeFields::Description => 3,
        RecipeFields::Comments => 10,
        RecipeFields::Source => 17,
        RecipeFields::Author => 20,
        RecipeFields::AmountMade => 23,
    }
}

/// Where the cursor stands, within the borders of the middle of the
/// screen: while a field of the recipe is edited, after the edited text on
/// the line of the field.
pub open spec fn screen_cursor(app: App, st: State) -> Option<(u16, u16)> {
    if (app.current_screen == CurrentScreen::RecipeCreator || app.current_screen == CurrentScreen::RecipeEditor)
        && app.edit_recipe is Some && st.editing_state == EditingState::Recipe {
        match st.recipe_state.editing_selected_field {
            Some(f) => Some(
                (
                    (st.recipe_state.editing_field_cursor_position.unwrap() + 1) as u16,
                    (recipe_field_offset(f) + 1) as u16,
                ),
            ),
            None => None,
        }
    } else {
        None
    }
}

/// The screen can be drawn: while a field of the recipe is edited, the
/// cursor has a position, and the amount made is not edited (its editor is
/// not implemented).
pub open spec fn drawable(app: App, st: State) -> bool {
    (app.current_screen == CurrentScreen::RecipeCreator || app.current_screen == CurrentScreen::RecipeEditor)
        && app.edit_recipe is Some && st.editing_state == EditingState::Recipe
        && st.recipe_state.editing_selected_field is Some ==> {
        &&& st.recipe_state.editing_selected_field != Some(RecipeFields::AmountMade)
        &&& st.recipe_state.editing_field_cursor_position is Some
        &&& st.recipe_state.editing_field_cursor_position.unwrap() < u16::MAX
    }
}

/// The names of the recipes at `ids`, in order.
pub open spec fn names_at(m: Map<u128, Recipe>, ids: Seq<u128>) -> Seq<Seq<char>> {
    ids.map_values(|k: u128| m[k].name@)
}

/// `recipe_names` lists the names of the recipes, one for each ID, in the
/// order in which the map is walked.
pub fn recipe_names(recipes: &HashMap<u128, Recipe>) -> (names: Vec<String>)
    ensures
        exists|ids: Seq<u128>|
            #![trigger names_at(recipes@, ids)]
            ids.no_duplicates() && ids.to_set() == recipes@.dom() && crate::text::views(names@) == names_at(recipes@, ids),
{
    let mut names: Vec<String> = Vec::new();
    let ghost entries = recipes.iter().remaining();
    let ghost mut ids: Seq<u128> = Seq::empty();
    for item in it: recipes.iter()
        invariant
            entries == it.seq(),
            entries.no_duplicates(),
            forall|k: int|
                #![trigger entries[k]]
                0 <= k < entries.len() ==> recipes@.contains_key(*entries[k].0) && recipes@[*entries[k].0]
                    == *entries[k].1,
            ids.len() == it.index(),
            names@.len() == it.index(),
            forall|j: int| 0 <= j < ids.len() ==> #[trigger] ids[j] == *entries[j].0,
            crate::text::views(names@) == names_at(recipes@, ids),
    {
        let (id, recipe) = item;
        let ghost idx = it.index();
        names.push(recipe.name.clone());
        proof {
            assert(entries[idx] == (id, recipe));
            let old_ids = ids;
            ids = ids.push(*id);
            assert(crate::text::views(names@) =~= names_at(recipes@, ids)) by {
                assert(recipes@[*id] == *recipe);
                assert(crate::text::views(names@).drop_last() =~= names_at(recipes@, old_ids));
                assert(names_at(recipes@, ids).drop_last() =~= names_at(recipes@, old_ids));
                assert(names_at(recipes@, ids)[idx as int] == recipe.name@);
                assert(crate::text::views(names@)[idx as int] == names@[idx as int]@);
                assert(names@[idx as int]@ == recipe.name@);
                assert(crate::text::views(names@).len() == names_at(recipes@, ids).len());
                assert forall|j: int| 0 <= j < ids.len() implies crate::text::views(names@)[j] == names_at(recipes@, ids)[j] by {
                    if j < idx {
                        assert(crate::text::views(names@).drop_last()[j] == crate::text::views(names@)[j]);
                        assert(names_at(recipes@, ids).drop_last()[j] == names_at(recipes@, ids)[j]);
                    }
                }
            }
        }
    }
    proof {
        assert forall|a: int, b: int| 0 <= a < b < ids.len() implies ids[a] != ids[b] by {
            if ids[a] == ids[b] {
                assert(entries[a] == entries[b]);
            }
        }
        assert forall|k: u128| ids.to_set().contains(k) <==> recipes@.dom().contains(k) by {
            if recipes@.contains_key(k) {
                assert(entries.contains((&k, &recipes@[k])));
                let j = choose|j: int| 0 <= j < entries.len() && entries[j] == (&k, &recipes@[k]);
                assert(ids[j] == k);
            }
            if ids.to_set().contains(k) {
                let j = choose|j: int| 0 <= j < ids.len() && ids[j] == k;
                assert(recipes@.contains_key(*entries[j].0));
            }
        }
        assert(ids.to_set() =~= recipes@.dom());
        assert(names_at(recipes@, ids) == names_at(recipes@, ids));
    }
    names
}

/// Each text of a list, as a piece of text of the role `role`.
pub open spec fn with_role(s: Seq<Seq<char>>, role: TextRole) -> Seq<(Seq<char>, TextRole)> {
    s.map_values(|t: Seq<char>| (t, role))
}

/// `styled` gives a text its role.
fn styled(text: &str, role: TextRole) -> (t: StyledText)
    ensures
        t.view() == (text@, role),
{
    StyledText { text: String::from_str(text), role }
}

/// `with_role_list` gives each text of a list the role `role`.
fn with_role_list(v: &Vec<String>, role: TextRole) -> (r: Vec<StyledText>)
    ensures
        styled_views(r@) == with_role(crate::text::views(v@), role),
{
    let mut r: Vec<StyledText> = Vec::new();
    let mut i: usize = 0;
    while i < v.len()
        invariant
            i <= v.len(),
            r@.len() == i,
            styled_views(r@) == with_role(crate::text::views(v@.take(i as int)), role),
        decreases v.len() - i,
    {
        let ghost prev = styled_views(r@);
        let ghost old_r = r@;
        r.push(StyledText { text: v[i].clone(), role });
        proof {
            let a = styled_views(r@);
            let b = with_role(crate::text::views(v@.take(i as int + 1)), role);
            assert(crate::text::views(v@.take(i as int + 1)) =~= crate::text::views(v@.take(i as int)).push(v@[i as int]@));
            assert forall|j: int| 0 <= j < a.len() implies a[j] == b[j] by {
                if j < i {
                    assert(r@[j] == old_r[j]);
                    assert(a[j] == r@[j].view());
                    assert(prev[j] == old_r[j].view());
                }
            }
            assert(a =~= b);
        }
        i += 1;
    }
    assert(v@.take(i as int) =~= v@);
    r
}

/// `keybind_line_of` builds the keybind line of a screen.
fn keybind_line_of(kb: &Keybinds, screen: CurrentScreen, es: EditingState) -> (r: Vec<StyledText>)
    ensures
        styled_views(r@) == keybind_line(*kb, screen, es),
        r@.len() <= 15,
{
    let mut r: Vec<StyledText> = Vec::new();
    match screen {
        CurrentScreen::RecipeBrowser => {
            r.push(StyledText { text: kb.browsing.quit.to_text(false), role: TextRole::Shortcut });
            r.push(styled(" | ", TextRole::Plain));
            r.push(StyledText { text: kb.browsing.new.to_text(false), role: TextRole::Shortcut });
            r.push(styled(" | ", TextRole::Plain));
            r.push(StyledText { text: kb.browsing.recipe_scroll.to_text(false), role: TextRole::Shortcut });
        },
        CurrentScreen::RecipeViewer => {
            r.push(StyledText { text: kb.viewing.exit.to_text(false), role: TextRole::Shortcut });
        },
        _ => {
            let e = &kb.editing;
            match es {
                EditingState::SavePrompt => {
                    r.push(styled("Save Recipe?", TextRole::Shortcut));
                },
                _ => {
                    r.push(StyledText { text: e.exit.to_text(false), role: TextRole::Shortcut });
                    r.push(styled(" | ", TextRole::Plain));
                    r.push(StyledText { text: e.edit.to_text(false), role: TextRole::Shortcut });
                    r.push(styled(" | ", TextRole::Plain));
                    r.push(StyledText { text: e.field_scroll.to_text(false), role: TextRole::Shortcut });
                    r.push(styled(" | ", TextRole::Plain));
                    r.push(StyledText { text: e.item_scroll.to_text(false), role: TextRole::Shortcut });
                    r.push(styled(" | ", TextRole::Plain));
                    r.push(StyledText { text: e.item_switch.to_text(false), role: TextRole::Shortcut });
                    r.push(styled(" | ", TextRole::Plain));
                    r.push(StyledText { text: e.item_switch.to_text(false), role: TextRole::Shortcut });
                    r.push(styled(" | ", TextRole::Plain));
                    match es {
                        EditingState::Recipe => {
                            r.push(StyledText { text: e.new_step.to_text(false), role: TextRole::Shortcut });
                        },
                        EditingState::Step(_) => {
                            r.push(StyledText { text: e.new_ingredient.to_text(false), role: TextRole::Shortcut });
                            r.push(styled(" | ", TextRole::Plain));
                            r.push(StyledText { text: e.new_equipment.to_text(false), role: TextRole::Shortcut });
                        },
                        _ => {},
                    }
                },
            }
        },
    }
    assert(styled_views(r@) =~= keybind_line(*kb, screen, es));
    r
}

/// `screen_plan` decides what the screen shows: the recipe list, the tag
/// list of the browser (and the empty one of the viewer), the title, the
/// status line, the keybinds, the middle of the screen and the cursor. It
/// records the lengths of the lists it draws in the state.
pub fn screen_plan(app: &App, st: &mut State) -> (p: ScreenPlan)
    requires
        drawable(*app, *old(st)),
    ensures
        app.recipes@.len() == 0 ==> styled_views(p.recipe_list@) == seq![("No Recipes"@, TextRole::Missing)],
        app.recipes@.len() > 0 ==> exists|ids: Seq<u128>|
            #![trigger names_at(app.recipes@, ids)]
            ids.no_duplicates() && ids.to_set() == app.recipes@.dom() && styled_views(p.recipe_list@) == with_role(
                names_at(app.recipes@, ids),
                TextRole::RecipeEntry,
            ),
        match app.current_screen {
            CurrentScreen::RecipeBrowser => p.tag_list matches Some(t) && styled_views(t@) == (if app.tags@.len() == 0 {
                seq![("No Tags"@, TextRole::Missing)]
            } else {
                with_role(crate::text::views(app.tags@), TextRole::TagEntry)
            }) && *final(st) == (State {
                recipe_list_len: p.recipe_list@.len() as usize,
                tag_list_len: t@.len() as usize,
                ..*old(st)
            }),
            CurrentScreen::RecipeViewer => p.tag_list matches Some(t) && t@.len() == 0 && *final(st) == (State {
                recipe_list_len: p.recipe_list@.len() as usize,
                ..*old(st)
            }),
            _ => p.tag_list is None && *final(st) == (State { recipe_list_len: p.recipe_list@.len() as usize, ..*old(st) }),
        },
        match p.title {
            Some(t) => screen_title(*app) == Some(t.view()),
            None => screen_title(*app) is None,
        },
        p.status.view() == screen_status(app.current_screen),
        styled_views(p.keybind_line@) == keybind_line(app.keybinds, app.current_screen, old(st).editing_state),
        p.keybind_area_height == p.keybind_line@.len(),
        p.main == main_view(*app, old(st).editing_state),
        p.cursor == screen_cursor(*app, *old(st)),
{
    let recipe_list = if app.recipes.len() == 0 {
        let mut v: Vec<StyledText> = Vec::new();
        v.push(styled("No Recipes", TextRole::Missing));
        assert(styled_views(v@) =~= seq![("No Recipes"@, TextRole::Missing)]);
        v
    } else {
        let names = recipe_names(&app.recipes);
        with_role_list(&names, TextRole::RecipeEntry)
    };
    st.recipe_list_len = recipe_list.len();
    let tag_list = match app.current_screen {
        CurrentScreen::RecipeBrowser => {
            let t = if app.tags.len() == 0 {
                let mut v: Vec<StyledText> = Vec::new();
                v.push(styled("No Tags", TextRole::Missing));
                assert(styled_views(v@) =~= seq![("No Tags"@, TextRole::Missing)]);
                v
            } else {
                with_role_list(&app.tags, TextRole::TagEntry)
            };
            st.tag_list_len = t.len();
            Some(t)
        },
        CurrentScreen::RecipeViewer => Some(Vec::new()),
        _ => None,
    };
    let title = match app.current_screen {
        CurrentScreen::RecipeBrowser => Some(styled("Cookbook", TextRole::BrowseTitle)),
        CurrentScreen::RecipeViewer => None,
        _ => match &app.edit_recipe {
            Some(r) => {
                if r.name.as_str().unicode_len() == 0 && app.current_screen == CurrentScreen::RecipeCreator {
                    Some(styled("New Recipe", TextRole::CreateTitle))
                } else {
                    Some(StyledText { text: r.name.clone(), role: TextRole::EditTitle })
                }
            },
            None => None,
        },
    };
    let status = match app.current_screen {
        CurrentScreen::RecipeBrowser => styled("Browsing", TextRole::BrowsingStatus),
        CurrentScreen::RecipeViewer => styled("Viewing", TextRole::ViewingStatus),
        CurrentScreen::RecipeCreator => styled("Creating", TextRole::CreatingStatus),
        CurrentScreen::RecipeEditor => styled("Editing", TextRole::EditingStatus),
    };
    let keybind_line = keybind_line_of(&app.keybinds, app.current_screen, st.editing_state);
    let height = keybind_line.len() as u16;
    let editing = app.current_screen == CurrentScreen::RecipeCreator || app.current_screen == CurrentScreen::RecipeEditor;
    let main = if !editing {
        if app.recipes.len() == 0 {
            MainView::Clear
        } else {
            MainView::Preview
        }
    } else if app.edit_recipe.is_none() {
        MainView::Blank
    } else {
        match st.editing_state {
            EditingState::Recipe => MainView::RecipeEditor,
            EditingState::Step(i) => MainView::StepEditor(i),
            EditingState::Ingredient(i, k) => MainView::IngredientEditor(i, k),
            EditingState::Equipment(i, k) => MainView::EquipmentEditor(i, k),
            EditingState::SavePrompt => MainView::SavePrompt,
        }
    };
    let cursor = if editing && app.edit_recipe.is_some() && st.editing_state == EditingState::Recipe {
        match st.recipe_state.editing_selected_field {
            Some(f) => {
                let x = match st.recipe_state.editing_field_cursor_position {
                    Some(c) => c + 1,
                    None => 0,
                };
                let y: u16 = match f {
                    RecipeFields::Name => 1,
                    RecipeFields::Description => 4,
                    RecipeFields::Comments => 11,
                    RecipeFields::Source => 18,
                    RecipeFields::Author => 21,
                    RecipeFields::AmountMade => 24,
                };
                Some((x, y))
            },
            None => None,
        }
    } else {
        None
    };
    ScreenPlan { recipe_list, tag_list, title, status, keybind_line, keybind_area_height: height, main, cursor }
}

/// `can_draw` decides whether the screen can be drawn: while a field of the
/// recipe is edited, the cursor must have a position and the field must not
/// be the amount made; where it cannot, the terminal interface stops with an
/// error.
pub fn can_draw(app: &App, st: &State) -> (b: bool)
    ensures
        b == drawable(*app, *st),
{
    let editing = app.current_screen == CurrentScreen::RecipeCreator || app.current_screen == CurrentScreen::RecipeEditor;
    if editing && app.edit_recipe.is_some() && st.editing_state == EditingState::Recipe
        && st.recipe_state.editing_selected_field.is_some() {
        match st.recipe_state.editing_selected_field {
            Some(RecipeFields::AmountMade) => false,
            _ => match st.recipe_state.editing_field_cursor_position {
                Some(c) => c < u16::MAX,
                None => false,
            },
        }
    } else {
        true
    }
}

} // verus!
