use std::collections::HashMap;

use cookbook_core::datatypes::recipe::{Recipe, RecipeFields};
use cookbook_core::datatypes::step::{Step, StepFields};
use cookbook_core::datatypes::ingredient::{Ingredient, IngredientFields};
use cookbook_core::tui::app::{App, CurrentScreen, EditingState, State};
use cookbook_core::tui::key_handler::{can_handle, handle_key_events, key_action, KeyAction};
use cookbook_core::tui::keybinds::Keybinds;
use cookbook_core::tui::keys::{KeyCode, KeyEvent, KeyEventKind, KeyModifiers};
use cookbook_core::tui::ranged::RangedWrapping;
use cookbook_core::tui::style::AppStyle;
use ratatui::style::Style;

fn plain_style() -> AppStyle {
    let s = Style::default();
    AppStyle {
        normal_text: s,
        missing_text: s,
        title_block: s,
        browse_title_text: s,
        view_title_text: s,
        create_title_text: s,
        edit_title_text: s,
        recipe_list_entries: s,
        tag_list_entries: s,
        keyboard_shortcut_text: s,
        status_block: s,
        browsing_status: s,
        viewing_status: s,
        creating_status: s,
        editing_status: s,
        save_block: s,
        yes_text: s,
        no_text: s,
        cancel_text: s,
        selected_text: s,
    }
}


fn fresh() -> (App, State) {
    let mut app = App::new(Keybinds::default(), plain_style());
    app.running = true;
    let state = State::new(&app.save_prompt);
    (app, state)
}

fn press(app: &mut App, st: &mut State, code: KeyCode, modifiers: KeyModifiers) {
    let ev = KeyEvent::new(code, modifiers);
    assert!(can_handle(app, st, &ev));
    handle_key_events(app, st, ev);
}

fn ch(app: &mut App, st: &mut State, c: char) {
    press(app, st, KeyCode::Char(c), KeyModifiers::none());
}

#[test]
fn default_keybinds_are_complete() {
    let kb = Keybinds::default();
    assert!(kb.is_complete());
    assert_eq!(kb.browsing.quit.key, KeyCode::Char('q'));
    assert_eq!(kb.editing.item_scroll.get("item_scroll_up").unwrap().modifiers, KeyModifiers::shift());
    assert_eq!(kb.editing.item_scroll.display_text, "\u{21E7}+\u{2195}");
    assert_eq!(kb.browsing.quit.to_text(false), "q: quit");
    assert_eq!(kb.browsing.quit.to_text(true), "q");
    assert_eq!(kb.browsing.recipe_scroll.to_text(false), "\u{2195}: scroll to select recipe");
}

#[test]
fn core_exit_binds_control_c_and_control_shift_c() {
    let kb = Keybinds::default();
    assert_eq!(kb.core.exit.get("^C").unwrap().modifiers.bits, 3);
    assert!(kb.core.exit.any(KeyCode::Char('c'), KeyModifiers::control()));
    assert!(kb.core.exit.any(KeyCode::Char('c'), KeyModifiers::control().union(KeyModifiers::shift())));
    assert!(!kb.core.exit.any(KeyCode::Char('c'), KeyModifiers::none()));
    assert!(!kb.core.exit.any(KeyCode::Char('x'), KeyModifiers::none()));
}

#[test]
fn released_keys_change_nothing() {
    let (mut app, mut st) = fresh();
    let ev = KeyEvent { code: KeyCode::Char('q'), modifiers: KeyModifiers::none(), kind: KeyEventKind::Release };
    handle_key_events(&mut app, &mut st, ev);
    assert!(app.running);
    assert_eq!(app.current_screen, CurrentScreen::RecipeBrowser);
}

#[test]
fn quit_key_stops_the_app() {
    let (mut app, mut st) = fresh();
    ch(&mut app, &mut st, 'q');
    assert!(!app.running);
}

#[test]
fn control_c_stops_the_app_anywhere() {
    let (mut app, mut st) = fresh();
    ch(&mut app, &mut st, 'n');
    assert_eq!(app.current_screen, CurrentScreen::RecipeCreator);
    press(&mut app, &mut st, KeyCode::Char('c'), KeyModifiers::control());
    assert!(!app.running);
}

#[test]
fn new_key_opens_a_blank_recipe() {
    let (mut app, mut st) = fresh();
    ch(&mut app, &mut st, 'n');
    assert_eq!(app.current_screen, CurrentScreen::RecipeCreator);
    assert_eq!(st.editing_state, EditingState::Recipe);
    assert!(app.edit_recipe.as_ref().unwrap().is_new());
    assert!(app.running);
}

#[test]
fn typing_edits_the_selected_field_and_backspace_undoes_it() {
    let (mut app, mut st) = fresh();
    ch(&mut app, &mut st, 'n');
    ch(&mut app, &mut st, 'e');
    assert_eq!(st.recipe_state.editing_selected_field, Some(RecipeFields::Name));
    ch(&mut app, &mut st, 'P');
    ch(&mut app, &mut st, 'i');
    ch(&mut app, &mut st, 'e');
    assert_eq!(app.edit_recipe.as_ref().unwrap().name, "Pie");
    press(&mut app, &mut st, KeyCode::Backspace, KeyModifiers::none());
    assert_eq!(app.edit_recipe.as_ref().unwrap().name, "Pi");
    // escape leaves the field
    press(&mut app, &mut st, KeyCode::Esc, KeyModifiers::none());
    assert_eq!(st.recipe_state.editing_selected_field, None);
    // escape on a changed recipe asks whether to save
    press(&mut app, &mut st, KeyCode::Esc, KeyModifiers::none());
    assert_eq!(st.editing_state, EditingState::SavePrompt);
}

#[test]
fn typing_into_a_missing_description_creates_it() {
    let (mut app, mut st) = fresh();
    ch(&mut app, &mut st, 'n');
    press(&mut app, &mut st, KeyCode::Down, KeyModifiers::none());
    assert_eq!(st.recipe_state.selected_field.value, 1);
    ch(&mut app, &mut st, 'i');
    assert_eq!(st.recipe_state.editing_selected_field, Some(RecipeFields::Description));
    ch(&mut app, &mut st, 'x');
    assert_eq!(app.edit_recipe.as_ref().unwrap().description.as_deref(), Some("x"));
    press(&mut app, &mut st, KeyCode::Backspace, KeyModifiers::none());
    assert_eq!(app.edit_recipe.as_ref().unwrap().description.as_deref(), Some(""));
}

#[test]
fn escape_on_a_blank_recipe_returns_to_the_browser() {
    let (mut app, mut st) = fresh();
    ch(&mut app, &mut st, 'n');
    press(&mut app, &mut st, KeyCode::Esc, KeyModifiers::none());
    assert_eq!(app.current_screen, CurrentScreen::RecipeBrowser);
}

#[test]
fn field_selection_wraps_past_the_last_position() {
    let (mut app, mut st) = fresh();
    ch(&mut app, &mut st, 'n');
    press(&mut app, &mut st, KeyCode::Up, KeyModifiers::none());
    // the range holds one position past the last field
    assert_eq!(st.recipe_state.selected_field.value, 6);
    press(&mut app, &mut st, KeyCode::Down, KeyModifiers::none());
    assert_eq!(st.recipe_state.selected_field.value, 0);
    // editing the position past the last field is not handled
    press(&mut app, &mut st, KeyCode::Up, KeyModifiers::none());
    let ev = KeyEvent::new(KeyCode::Char('e'), KeyModifiers::none());
    assert!(!can_handle(&app, &st, &ev));
}

#[test]
fn steps_ingredients_and_switching() {
    let (mut app, mut st) = fresh();
    ch(&mut app, &mut st, 'n');
    // tab does nothing without steps
    press(&mut app, &mut st, KeyCode::Tab, KeyModifiers::none());
    assert_eq!(st.editing_state, EditingState::Recipe);
    ch(&mut app, &mut st, 's');
    assert_eq!(app.edit_recipe.as_ref().unwrap().steps.len(), 1);
    press(&mut app, &mut st, KeyCode::Tab, KeyModifiers::none());
    assert_eq!(st.editing_state, EditingState::Step(0));
    // a step without ingredients or equipment switches back to the recipe
    ch(&mut app, &mut st, 'g');
    assert_eq!(app.edit_recipe.as_ref().unwrap().steps[0].ingredients.len(), 1);
    press(&mut app, &mut st, KeyCode::Tab, KeyModifiers::none());
    assert_eq!(st.editing_state, EditingState::Ingredient(0, 0));
    ch(&mut app, &mut st, 'e');
    assert_eq!(st.ingredient_state.editing_selected_field, Some(IngredientFields::Name));
    ch(&mut app, &mut st, 'a');
    assert_eq!(app.edit_recipe.as_ref().unwrap().steps[0].ingredients[0].name, "a");
    // the description is missing, so typing into it changes nothing
    press(&mut app, &mut st, KeyCode::Esc, KeyModifiers::none());
    press(&mut app, &mut st, KeyCode::Down, KeyModifiers::none());
    ch(&mut app, &mut st, 'e');
    ch(&mut app, &mut st, 'z');
    assert_eq!(app.edit_recipe.as_ref().unwrap().steps[0].ingredients[0].description, None);
    press(&mut app, &mut st, KeyCode::Esc, KeyModifiers::none());
    press(&mut app, &mut st, KeyCode::Tab, KeyModifiers::none());
    assert_eq!(st.editing_state, EditingState::Recipe);
}

#[test]
fn step_instructions_and_dropdown() {
    let (mut app, mut st) = fresh();
    ch(&mut app, &mut st, 'n');
    ch(&mut app, &mut st, 's');
    press(&mut app, &mut st, KeyCode::Tab, KeyModifiers::none());
    press(&mut app, &mut st, KeyCode::Down, KeyModifiers::none());
    press(&mut app, &mut st, KeyCode::Down, KeyModifiers::none());
    ch(&mut app, &mut st, 'e');
    assert_eq!(st.step_state.editing_selected_field, Some(StepFields::Instructions));
    ch(&mut app, &mut st, 'M');
    ch(&mut app, &mut st, 'i');
    ch(&mut app, &mut st, 'x');
    assert_eq!(app.edit_recipe.as_ref().unwrap().steps[0].instructions, "Mix");
    press(&mut app, &mut st, KeyCode::Esc, KeyModifiers::none());
    press(&mut app, &mut st, KeyCode::Down, KeyModifiers::none());
    ch(&mut app, &mut st, 'e');
    assert_eq!(st.step_state.editing_selected_field, Some(StepFields::StepType));
    press(&mut app, &mut st, KeyCode::Enter, KeyModifiers::none());
    assert!(st.step_state.dropdown_state.expanded);
    press(&mut app, &mut st, KeyCode::Esc, KeyModifiers::none());
    assert!(!st.step_state.dropdown_state.expanded);
    assert_eq!(st.step_state.editing_selected_field, Some(StepFields::StepType));
    press(&mut app, &mut st, KeyCode::Esc, KeyModifiers::none());
    assert_eq!(st.step_state.editing_selected_field, None);
    press(&mut app, &mut st, KeyCode::Esc, KeyModifiers::none());
    assert_eq!(st.editing_state, EditingState::Recipe);
}

#[test]
fn step_scrolling_wraps_by_the_number_of_step_fields() {
    let (mut app, mut st) = fresh();
    ch(&mut app, &mut st, 'n');
    ch(&mut app, &mut st, 's');
    press(&mut app, &mut st, KeyCode::Tab, KeyModifiers::none());
    press(&mut app, &mut st, KeyCode::Up, KeyModifiers::shift());
    assert_eq!(st.editing_state, EditingState::Step(0));
    for expected in [1usize, 2, 3, 0] {
        press(&mut app, &mut st, KeyCode::Down, KeyModifiers::shift());
        assert_eq!(st.editing_state, EditingState::Step(expected));
    }
}

#[test]
fn save_prompt_yes_stores_the_recipe_under_its_id() {
    let (mut app, mut st) = fresh();
    ch(&mut app, &mut st, 'n');
    app.edit_recipe.as_mut().unwrap().id = 7;
    ch(&mut app, &mut st, 'e');
    ch(&mut app, &mut st, 'T');
    press(&mut app, &mut st, KeyCode::Esc, KeyModifiers::none());
    press(&mut app, &mut st, KeyCode::Esc, KeyModifiers::none());
    assert_eq!(st.editing_state, EditingState::SavePrompt);
    assert_eq!(st.save_prompt_state.value(), 0);
    press(&mut app, &mut st, KeyCode::Enter, KeyModifiers::none());
    assert_eq!(app.current_screen, CurrentScreen::RecipeBrowser);
    assert!(app.edit_recipe.is_none());
    assert_eq!(app.recipes.get(&7).unwrap().name, "T");
}

#[test]
fn save_prompt_choices_wrap_and_cancel_returns_to_editing_state() {
    let (mut app, mut st) = fresh();
    ch(&mut app, &mut st, 'n');
    ch(&mut app, &mut st, 'e');
    ch(&mut app, &mut st, 'T');
    press(&mut app, &mut st, KeyCode::Esc, KeyModifiers::none());
    press(&mut app, &mut st, KeyCode::Esc, KeyModifiers::none());
    press(&mut app, &mut st, KeyCode::Left, KeyModifiers::none());
    assert_eq!(st.save_prompt_state.value(), 2);
    press(&mut app, &mut st, KeyCode::Right, KeyModifiers::none());
    assert_eq!(st.save_prompt_state.value(), 0);
    press(&mut app, &mut st, KeyCode::Left, KeyModifiers::none());
    press(&mut app, &mut st, KeyCode::Enter, KeyModifiers::none());
    assert_eq!(st.editing_state, EditingState::Recipe);
    assert_eq!(app.current_screen, CurrentScreen::RecipeCreator);
    assert!(app.edit_recipe.is_some());
    assert!(app.recipes.is_empty());
}

#[test]
fn browser_list_scrolls_with_wrapping_arithmetic() {
    let (mut app, mut st) = fresh();
    st.recipe_list_len = 3;
    st.recipe_list_selected = Some(2);
    press(&mut app, &mut st, KeyCode::Down, KeyModifiers::none());
    assert_eq!(st.recipe_list_selected, Some(0));
    press(&mut app, &mut st, KeyCode::Up, KeyModifiers::none());
    // zero steps down to the largest usize before the remainder
    assert_eq!(st.recipe_list_selected, Some(usize::MAX % 3));
    st.recipe_list_selected = None;
    press(&mut app, &mut st, KeyCode::Down, KeyModifiers::none());
    assert_eq!(st.recipe_list_selected, None);
}

#[test]
fn viewer_escape_returns_to_the_browser() {
    let (mut app, mut st) = fresh();
    app.current_screen = CurrentScreen::RecipeViewer;
    let ev = KeyEvent::new(KeyCode::Esc, KeyModifiers::none());
    assert_eq!(key_action(&app, &st, &ev), KeyAction::LeaveViewer);
    press(&mut app, &mut st, KeyCode::Esc, KeyModifiers::none());
    assert_eq!(app.current_screen, CurrentScreen::RecipeBrowser);
}

#[test]
fn unimplemented_keys_are_not_handled() {
    let (mut app, mut st) = fresh();
    ch(&mut app, &mut st, 'n');
    // confirming in the recipe editor is not implemented
    let ev = KeyEvent::new(KeyCode::Enter, KeyModifiers::none());
    assert!(!can_handle(&app, &st, &ev));
    // nor is deleting forwards in a field
    ch(&mut app, &mut st, 'e');
    let ev = KeyEvent::new(KeyCode::Delete, KeyModifiers::none());
    assert!(!can_handle(&app, &st, &ev));
}

#[test]
fn ranged_wrapping_round_trip() {
    let mut r = RangedWrapping::new(0, 3);
    r.decrement();
    assert_eq!(r.value, 3);
    r.increment();
    assert_eq!(r.value, 0);
    r.increment();
    r.decrement();
    assert_eq!(r, RangedWrapping { value: 0, min: 0, max: 3 });
    let d = RangedWrapping::default();
    assert_eq!((d.value, d.min, d.max), (0, 0, 0));
}

#[test]
fn editing_state_text() {
    assert_eq!(EditingState::Recipe.to_text(), "Recipe");
    assert_eq!(EditingState::Step(2).to_text(), "Step: 2");
    assert_eq!(EditingState::Ingredient(1, 4).to_text(), "Ingredient 4 of Step 1");
    assert_eq!(EditingState::Equipment(0, 3).to_text(), "Equipment 3 of Step 0");
    assert_eq!(EditingState::SavePrompt.to_text(), "SavePrompt");
}

#[test]
fn new_app_is_empty_and_not_running() {
    let app = App::new(Keybinds::default(), plain_style());
    assert!(!app.running);
    assert!(app.recipes.is_empty());
    assert_eq!(app.current_screen, CurrentScreen::default());
    assert_eq!(app.save_prompt.num_choices(), 3);
    let mut app = app;
    app.running = true;
    app.exit();
    assert!(!app.running);
    let _ = (Recipe::new(), Step::new(), Ingredient::new(), HashMap::<u128, Recipe>::new());
}

#[test]
fn repeating_keys_change_nothing() {
    let (mut app, mut st) = fresh();
    let ev = KeyEvent { code: KeyCode::Char('q'), modifiers: KeyModifiers::none(), kind: KeyEventKind::Repeat };
    handle_key_events(&mut app, &mut st, ev);
    assert!(app.running);
    assert_eq!(app.current_screen, CurrentScreen::RecipeBrowser);
}

#[test]
fn a_plain_c_is_typed_into_the_name() {
    let (mut app, mut st) = fresh();
    ch(&mut app, &mut st, 'n');
    ch(&mut app, &mut st, 'e');
    ch(&mut app, &mut st, 'c');
    ch(&mut app, &mut st, 'a');
    assert!(app.running);
    assert_eq!(app.edit_recipe.as_ref().unwrap().name, "ca");
}
