use std::collections::HashMap;

use vstd::prelude::*;

use super::choice_popup::{self, ChoicePopup};
use super::keybinds::Keybinds;
use super::style::AppStyle;
use crate::datatypes::recipe::{self, Recipe};
use crate::datatypes::{equipment, ingredient, step};
use crate::text::{join_str, decimal, usize_to_string};

verus! {

/// `CurrentScreen` is the screen the user is looking at.
#[derive(Clone, Copy, Debug, PartialEq, Eq, Structural)]
pub enum CurrentScreen {
    /// the list of recipes, which can be searched and filtered
    RecipeBrowser,
    /// the editor of an existing recipe
    RecipeEditor,
    /// the view of a recipe
    RecipeViewer,
    /// the editor of a new recipe
    RecipeCreator,
}

impl Default for CurrentScreen {
    /// The app starts in the recipe browser.
    fn default() -> (s: CurrentScreen)
        ensures
            s == CurrentScreen::RecipeBrowser,
    {
        CurrentScreen::RecipeBrowser
    }
}

/// `EditingState` is where the user stands in the editor: the recipe, a
/// step, an ingredient or piece of equipment of a step, or the prompt that
/// asks whether to save.
#[derive(Clone, Copy, Debug, PartialEq, Eq, Structural)]
pub enum EditingState {
    /// editing the recipe itself
    Recipe,
    /// editing the step at this position
    Step(usize),
    /// editing an ingredient: the position of the step, then of the
    /// ingredient within it
    Ingredient(usize, usize),
    /// editing equipment: the position of the step, then of the equipment
    /// within it
    Equipment(usize, usize),
    /// asking whether to save the recipe
    SavePrompt,
}

impl Default for EditingState {
    /// The editor starts on the recipe itself.
    fn default() -> (s: EditingState)
        ensures
            s == EditingState::Recipe,
    {
        EditingState::Recipe
    }
}

impl EditingState {
    /// The text that names the editing state on screen.
    pub open spec fn spec_text(self) -> Seq<char> {
        match self {
            EditingState::Recipe => "Recipe"@,
            EditingState::Step(s) => "Step: "@ + decimal(s as nat),
            EditingState::Ingredient(s, i) => "Ingredient "@ + decimal(i as nat) + " of Step "@ + decimal(s as nat),
            EditingState::Equipment(s, e) => "Equipment "@ + decimal(e as nat) + " of Step "@ + decimal(s as nat),
            EditingState::SavePrompt => "SavePrompt"@,
        }
    }

    /// `to_text` names the editing state: `Recipe`, `Step: <step>`,
    /// `Ingredient <ingredient> of Step <step>`, `Equipment <equipment> of
    /// Step <step>` or `SavePrompt`.
    pub fn to_text(&self) -> (s: String)
        ensures
            s@ == self.spec_text(),
    {
        match self {
            EditingState::Recipe => String::from_str("Recipe"),
            EditingState::Step(s) => {
                let t = String::from_str("Step: ");
                join_str(&t, usize_to_string(*s).as_str())
            },
            EditingState::Ingredient(s, i) => {
                let t = String::from_str("Ingredient ");
                let t = join_str(&t, usize_to_string(*i).as_str());
                let t = join_str(&t, " of Step ");
                join_str(&t, usize_to_string(*s).as_str())
            },
            EditingState::Equipment(s, e) => {
                let t = String::from_str("Equipment ");
                let t = join_str(&t, usize_to_string(*e).as_str());
                let t = join_str(&t, " of Step ");
                join_str(&t, usize_to_string(*s).as_str())
            },
            EditingState::SavePrompt => String::from_str("SavePrompt"),
        }
    }
}

/// `App` is the state of the terminal interface that the keys act on.
#[derive(Debug)]
pub struct App {
    /// the recipes, by ID
    pub recipes: HashMap<u128, Recipe>,
    /// the recipe being created, or a copy of the recipe being edited
    pub edit_recipe: Option<Recipe>,
    /// the screen the user is looking at
    pub current_screen: CurrentScreen,
    /// which recipe is being edited, when an existing one is
    pub editing: Option<usize>,
    /// whether the app keeps running
    pub running: bool,
    /// the tags of all recipes
    pub tags: Vec<String>,
    /// the keybinds
    pub keybinds: Keybinds,
    /// the styles
    pub style: AppStyle,
    /// the popup that asks whether to save an edited recipe
    pub save_prompt: ChoicePopup,
}

impl App {
    /// `new` is an app with no recipe, on the recipe browser, not running,
    /// with the given keybinds and styles. Its save prompt is titled "Save
    /// Recipe?", takes 75% of the width and 10% of the height of the screen,
    /// and offers "Yes", "No" and "Cancel" in the styles of those answers,
    /// the first by default, in the styles of the save prompt.
    pub fn new(keybinds: Keybinds, style: AppStyle) -> (a: App)
        ensures
            a.recipes@ == Map::<u128, Recipe>::empty(),
            a.edit_recipe is None,
            a.current_screen == CurrentScreen::RecipeBrowser,
            a.editing is None,
            !a.running,
            a.tags@.len() == 0,
            a.keybinds == keybinds,
            a.style == style,
            a.save_prompt.contents() == ("Save Recipe?"@, None::<Seq<char>>, seq!["Yes"@, "No"@, "Cancel"@], 0usize, (
                75u16,
                10u16,
            )),
            a.save_prompt.styles() == (style.save_block, style.selected_text, style.normal_text, seq![
                style.yes_text,
                style.no_text,
                style.cancel_text,
            ]),
    {
        let save_prompt = ChoicePopup::new().title("Save Recipe?").percent_x(75).percent_y(10).append_choice(
            "Yes",
            style.yes_text,
        ).append_choice("No", style.no_text).append_choice("Cancel", style.cancel_text).block_style(
            style.save_block,
        ).description_style(style.normal_text).selected_style(style.selected_text);
        assert(save_prompt.choice_texts() =~= seq!["Yes"@, "No"@, "Cancel"@]);
        assert(save_prompt.choice_styles() =~= seq![style.yes_text, style.no_text, style.cancel_text]);
        App {
            recipes: HashMap::new(),
            edit_recipe: None,
            current_screen: CurrentScreen::RecipeBrowser,
            editing: None,
            running: false,
            tags: Vec::new(),
            keybinds,
            style,
            save_prompt,
        }
    }

    /// `exit` stops the app.
    pub fn exit(&mut self)
        ensures
            *final(self) == (App { running: false, ..*old(self) }),
    {
        self.running = false;
    }

    /// `tick` handles the tick event of the app: nothing happens.
    pub fn tick(&self) {
    }
}

/// `State` is the state of the widgets of the terminal interface.
#[derive(Debug)]
pub struct State {
    /// the position selected in the recipe list, if any
    pub recipe_list_selected: Option<usize>,
    /// the position selected in the tag list, if any
    pub tag_list_selected: Option<usize>,
    /// the length of the tag list
    pub tag_list_len: usize,
    /// the length of the recipe list
    pub recipe_list_len: usize,
    /// where the user stands in the editor
    pub editing_state: EditingState,
    /// state of the recipe editor
    pub recipe_state: recipe::State,
    /// state of the step editor
    pub step_state: step::State,
    /// state of the ingredient editor
    pub ingredient_state: ingredient::State,
    /// state of the equipment editor
    pub equipment_state: equipment::State,
    /// state of the save prompt
    pub save_prompt_state: choice_popup::State,
}

impl State {
    /// Every wrapping position lies within its range.
    pub open spec fn wf(&self) -> bool {
        &&& self.recipe_state.selected_field.wf()
        &&& self.step_state.selected_field.wf()
        &&& self.step_state.dropdown_state.selected_entry.wf()
        &&& self.ingredient_state.selected_field.wf()
        &&& self.equipment_state.selected_field.wf()
        &&& self.save_prompt_state.wf()
    }

    /// `new` is the state of a fresh interface whose save prompt is
    /// `save_prompt`: nothing selected, the editor on the recipe.
    pub fn new(save_prompt: &ChoicePopup) -> (s: State)
        requires
            save_prompt.spec_default_choice() < save_prompt.choice_texts().len(),
        ensures
            s.wf(),
            s.recipe_list_selected is None,
            s.tag_list_selected is None,
            s.tag_list_len == 0,
            s.recipe_list_len == 0,
            s.editing_state == EditingState::Recipe,
            s.recipe_state.selected_field.value == 0,
            s.recipe_state.editing_selected_field is None,
            s.step_state.editing_selected_field is None,
            s.ingredient_state.editing_selected_field is None,
            s.equipment_state.editing_selected_field is None,
            s.save_prompt_state.spec_selected().value == save_prompt.spec_default_choice(),
    {
        State {
            recipe_list_selected: None,
            tag_list_selected: None,
            tag_list_len: 0,
            recipe_list_len: 0,
            editing_state: EditingState::Recipe,
            recipe_state: recipe::State::default(),
            step_state: step::State::default(),
            ingredient_state: ingredient::State::default(),
            equipment_state: equipment::State::default(),
            save_prompt_state: choice_popup::State::new(save_prompt),
        }
    }
}

} // verus!
