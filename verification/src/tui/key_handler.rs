use vstd::prelude::*;

use super::app::{App, CurrentScreen, EditingState, State};
use super::keybinds::{EditingKeybinds, Keybinds};
use super::keys::{KeyCode, KeyEvent, KeyEventKind, KeyModifiers};
use super::ranged::RangedWrapping;
use crate::datatypes::equipment::{self, Equipment, EquipmentFields};
use crate::datatypes::ingredient::{self, Ingredient, IngredientFields};
use crate::datatypes::recipe::{self, Recipe, RecipeFields};
use crate::datatypes::step::{self, Step, StepFields};
use crate::text::{pop_char, push_char};

verus! {

broadcast use vstd::std_specs::hash::group_hash_axioms;

/// What a key does, given the screen and where the user stands in it.
#[derive(Clone, Copy, Debug, PartialEq, Eq, Structural)]
pub enum KeyAction {
    /// quit the app from the recipe browser
    Quit,
    /// start creating a new recipe
    NewRecipe,
    /// move down the recipe list
    ListDown,
    /// move up the recipe list
    ListUp,
    /// go back from the recipe viewer to the browser
    LeaveViewer,
    /// leave the edited field, the edited item or the editor
    Exit,
    /// select the previous field
    FieldUp,
    /// select the next field
    FieldDown,
    /// select the previous item
    ItemUp,
    /// select the next item
    ItemDown,
    /// switch to the next kind of item
    SwitchForward,
    /// switch to the previous kind of item
    SwitchReverse,
    /// start editing the selected field
    StartEdit,
    /// add a step to the recipe
    NewStep,
    /// add an ingredient to the step
    NewIngredient,
    /// add equipment to the step
    NewEquipment,
    /// move the cursor left in the edited field
    CursorLeft,
    /// move the cursor right in the edited field
    CursorRight,
    /// delete the character before the cursor
    BackDelete,
    /// delete the character after the cursor
    FrontDelete,
    /// type a character into the edited field
    TypeChar(char),
    /// confirm
    Confirm,
    /// select the previous choice of the save prompt
    PromptPrevious,
    /// select the next choice of the save prompt
    PromptNext,
    /// answer the save prompt with the selected choice
    PromptConfirm,
    /// nothing happens
    Nothing,
}

// ---------------------------------------------------------------------
// Which action a key stands for.
// ---------------------------------------------------------------------

/// The action of a key in the recipe browser.
pub open spec fn browser_action(kb: Keybinds, c: KeyCode, m: KeyModifiers) -> KeyAction {
    if kb.browsing.quit.spec_matches(c, m) {
        KeyAction::Quit
    } else if c == kb.browsing.new.key && m == kb.browsing.quit.modifiers {
        KeyAction::NewRecipe
    } else if kb.browsing.recipe_scroll.spec_named("recipe_scroll_down"@, c, m) {
        KeyAction::ListDown
    } else if kb.browsing.recipe_scroll.spec_named("recipe_scroll_up"@, c, m) {
        KeyAction::ListUp
    } else {
        KeyAction::Nothing
    }
}

/// The action of a key in the recipe viewer.
pub open spec fn viewer_action(kb: Keybinds, c: KeyCode, m: KeyModifiers) -> KeyAction {
    if kb.viewing.exit.spec_matches(c, m) {
        KeyAction::LeaveViewer
    } else {
        KeyAction::Nothing
    }
}

/// The action of a key that no earlier rule of the editor took: typing,
/// deleting or confirming.
pub open spec fn typing_action(kb: EditingKeybinds, c: KeyCode, m: KeyModifiers) -> KeyAction {
    match c {
        KeyCode::Char(ch) => KeyAction::TypeChar(ch),
        _ => if kb.back_delete.spec_matches(c, m) {
            KeyAction::BackDelete
        } else if kb.front_delete.spec_matches(c, m) {
            KeyAction::FrontDelete
        } else if kb.confirm.spec_matches(c, m) {
            KeyAction::Confirm
        } else {
            KeyAction::Nothing
        },
    }
}

/// The action of a key while editing the recipe itself; `editing` tells
/// whether a field is being edited.
pub open spec fn recipe_editor_action(kb: EditingKeybinds, c: KeyCode, m: KeyModifiers, editing: bool) -> KeyAction {
    if kb.exit.spec_matches(c, m) {
        KeyAction::Exit
    } else if kb.field_scroll.spec_named("field_scroll_up"@, c, m) {
        KeyAction::FieldUp
    } else if kb.field_scroll.spec_named("field_scroll_down"@, c, m) {
        KeyAction::FieldDown
    } else if kb.item_switch.spec_named("item_switch_forward"@, c, m) {
        KeyAction::SwitchForward
    } else if kb.item_switch.spec_named("item_switch_reverse"@, c, m) {
        KeyAction::SwitchReverse
    } else if kb.edit.spec_any(c, m) && !editing {
        KeyAction::StartEdit
    } else if kb.new_step.spec_matches(c, m) && !editing {
        KeyAction::NewStep
    } else if kb.move_cursor.spec_named("move_cursor_left"@, c, m) && editing {
        KeyAction::CursorLeft
    } else if kb.move_cursor.spec_named("move_cursor_right"@, c, m) && editing {
        KeyAction::CursorRight
    } else if kb.back_delete.spec_matches(c, m) && editing {
        KeyAction::BackDelete
    } else if kb.front_delete.spec_matches(c, m) && editing {
        KeyAction::FrontDelete
    } else {
        match c {
            KeyCode::Char(ch) => KeyAction::TypeChar(ch),
            _ => if kb.confirm.spec_matches(c, m) {
                KeyAction::Confirm
            } else {
                KeyAction::Nothing
            },
        }
    }
}

/// The action of a key while editing a step, an ingredient or equipment;
/// `editing` tells whether a field is being edited, and `adds` whether the
/// keys that add ingredients and equipment count (they do in a step).
pub open spec fn item_editor_action(kb: EditingKeybinds, c: KeyCode, m: KeyModifiers, editing: bool, adds: bool) -> KeyAction {
    if kb.exit.spec_matches(c, m) {
        KeyAction::Exit
    } else if kb.field_scroll.spec_named("field_scroll_up"@, c, m) {
        KeyAction::FieldUp
    } else if kb.field_scroll.spec_named("field_scroll_down"@, c, m) {
        KeyAction::FieldDown
    } else if kb.item_scroll.spec_named("item_scroll_up"@, c, m) {
        KeyAction::ItemUp
    } else if kb.item_scroll.spec_named("item_scroll_down"@, c, m) {
        KeyAction::ItemDown
    } else if kb.item_switch.spec_named("item_switch_forward"@, c, m) {
        KeyAction::SwitchForward
    } else if kb.item_switch.spec_named("item_switch_reverse"@, c, m) {
        KeyAction::SwitchReverse
    } else if kb.edit.spec_any(c, m) && !editing {
        KeyAction::StartEdit
    } else if adds && kb.new_ingredient.spec_matches(c, m) && !editing {
        KeyAction::NewIngredient
    } else if adds && kb.new_equipment.spec_matches(c, m) && !editing {
        KeyAction::NewEquipment
    } else {
        typing_action(kb, c, m)
    }
}

/// The action of a key in the save prompt.
pub open spec fn prompt_action(kb: EditingKeybinds, c: KeyCode, m: KeyModifiers) -> KeyAction {
    if kb.prompt_scroll.spec_named("prompt_scroll_left"@, c, m) {
        KeyAction::PromptPrevious
    } else if kb.prompt_scroll.spec_named("prompt_scroll_right"@, c, m) {
        KeyAction::PromptNext
    } else if kb.confirm.spec_matches(c, m) {
        KeyAction::PromptConfirm
    } else {
        KeyAction::Nothing
    }
}

/// The action of a pressed key, given the screen and where the user stands.
pub open spec fn spec_key_action(app: App, st: State, ev: KeyEvent) -> KeyAction {
    let kb = app.keybinds;
    let c = ev.code;
    let m = ev.modifiers;
    match app.current_screen {
        CurrentScreen::RecipeBrowser => browser_action(kb, c, m),
        CurrentScreen::RecipeViewer => viewer_action(kb, c, m),
        _ => match st.editing_state {
            EditingState::Recipe => recipe_editor_action(kb.editing, c, m, st.recipe_state.editing_selected_field is Some),
            EditingState::Step(_) => item_editor_action(kb.editing, c, m, st.step_state.editing_selected_field is Some, true),
            EditingState::Ingredient(_, _) => item_editor_action(
                kb.editing,
                c,
                m,
                st.ingredient_state.editing_selected_field is Some,
                false,
            ),
            EditingState::Equipment(_, _) => item_editor_action(
                kb.editing,
                c,
                m,
                st.equipment_state.editing_selected_field is Some,
                false,
            ),
            EditingState::SavePrompt => prompt_action(kb.editing, c, m),
        },
    }
}

// ---------------------------------------------------------------------
// What an action does.
// ---------------------------------------------------------------------

/// An edit of a text: a character typed at its end, or its last character
/// deleted.
#[derive(Clone, Copy, Debug, PartialEq, Eq, Structural)]
pub enum TextOp {
    /// append the character
    Push(char),
    /// delete the last character, if any
    Pop,
}

/// The text after the edit.
pub open spec fn edit_text(s: Seq<char>, op: TextOp) -> Seq<char> {
    match op {
        TextOp::Push(c) => s.push(c),
        TextOp::Pop => if s.len() > 0 {
            s.drop_last()
        } else {
            s
        },
    }
}

/// The text of an optional field, empty when there is none.
pub open spec fn opt_text(o: Option<String>) -> Seq<char> {
    match o {
        Some(s) => s@,
        None => Seq::empty(),
    }
}

/// `r1` is `r0` with the field `f` edited; an optional field that is
/// missing is edited as an empty text.
pub open spec fn recipe_field_edited(r0: Recipe, r1: Recipe, f: RecipeFields, op: TextOp) -> bool {
    match f {
        RecipeFields::Name => r1 == (Recipe { name: r1.name, ..r0 }) && r1.name@ == edit_text(r0.name@, op),
        RecipeFields::Description => r1 == (Recipe { description: r1.description, ..r0 })
            && r1.description.deep_view() == Some(edit_text(opt_text(r0.description), op)),
        RecipeFields::Comments => r1 == (Recipe { comments: r1.comments, ..r0 })
            && r1.comments.deep_view() == Some(edit_text(opt_text(r0.comments), op)),
        RecipeFields::Source => r1 == (Recipe { source: r1.source, ..r0 }) && r1.source@ == edit_text(r0.source@, op),
        RecipeFields::Author => r1 == (Recipe { author: r1.author, ..r0 }) && r1.author@ == edit_text(r0.author@, op),
        RecipeFields::AmountMade => false,
    }
}

/// `r1` is `r0` with only its step at `i` changed.
pub open spec fn only_step_changed(r0: Recipe, r1: Recipe, i: int) -> bool {
    &&& r1 == (Recipe { steps: r1.steps, ..r0 })
    &&& 0 <= i < r0.steps@.len()
    &&& r1.steps@ == r0.steps@.update(i, r1.steps@[i])
}

/// `t1` is `t0` with its instructions edited.
pub open spec fn instructions_edited(t0: Step, t1: Step, op: TextOp) -> bool {
    t1 == (Step { instructions: t1.instructions, ..t0 }) && t1.instructions@ == edit_text(t0.instructions@, op)
}

/// `t1` is `t0` with only its ingredient at `k` changed.
pub open spec fn only_ingredient_changed(t0: Step, t1: Step, k: int) -> bool {
    &&& t1 == (Step { ingredients: t1.ingredients, ..t0 })
    &&& 0 <= k < t0.ingredients@.len()
    &&& t1.ingredients@ == t0.ingredients@.update(k, t1.ingredients@[k])
}

/// `t1` is `t0` with only its equipment at `k` changed.
pub open spec fn only_equipment_changed(t0: Step, t1: Step, k: int) -> bool {
    &&& t1 == (Step { equipment: t1.equipment, ..t0 })
    &&& 0 <= k < t0.equipment@.len()
    &&& t1.equipment@ == t0.equipment@.update(k, t1.equipment@[k])
}

/// `g1` is `g0` with the field `f` edited; a missing description stays
/// missing.
pub open spec fn ingredient_field_edited(g0: Ingredient, g1: Ingredient, f: IngredientFields, op: TextOp) -> bool {
    match f {
        IngredientFields::Name => g1 == (Ingredient { name: g1.name, ..g0 }) && g1.name@ == edit_text(g0.name@, op),
        IngredientFields::Description => match g0.description {
            Some(d) => g1 == (Ingredient { description: g1.description, ..g0 }) && g1.description.deep_view() == Some(
                edit_text(d@, op),
            ),
            None => g1 == g0,
        },
    }
}

/// `e1` is `e0` with the field `f` edited; a missing description stays
/// missing, and whether it is owned is not a text.
pub open spec fn equipment_field_edited(e0: Equipment, e1: Equipment, f: EquipmentFields, op: TextOp) -> bool {
    match f {
        EquipmentFields::Name => e1 == (Equipment { name: e1.name, ..e0 }) && e1.name@ == edit_text(e0.name@, op),
        EquipmentFields::Description => match e0.description {
            Some(d) => e1 == (Equipment { description: e1.description, ..e0 }) && e1.description.deep_view() == Some(
                edit_text(d@, op),
            ),
            None => e1 == e0,
        },
        EquipmentFields::IsOwned => e1 == e0,
    }
}

/// The edited recipe of `a1` is that of `a0` changed as `p` says, and
/// nothing else changed.
pub open spec fn recipe_changed(a0: App, a1: App, p: spec_fn(Recipe, Recipe) -> bool) -> bool {
    &&& a0.edit_recipe is Some
    &&& a1.edit_recipe is Some
    &&& a1 == (App { edit_recipe: a1.edit_recipe, ..a0 })
    &&& p(a0.edit_recipe.unwrap(), a1.edit_recipe.unwrap())
}

/// Stepping `x` up by one, back to zero past the largest `usize`.
pub open spec fn wrapping_succ(x: usize) -> usize {
    if x == usize::MAX {
        0
    } else {
        (x + 1) as usize
    }
}

/// Stepping `x` down by one, to the largest `usize` below zero.
pub open spec fn wrapping_pred(x: usize) -> usize {
    if x == 0 {
        usize::MAX
    } else {
        (x - 1) as usize
    }
}

/// `x + 1`, or the largest `usize` if that does not fit.
pub open spec fn saturating_succ(x: usize) -> usize {
    if x == usize::MAX {
        x
    } else {
        (x + 1) as usize
    }
}

/// `x - 1`, or zero below zero.
pub open spec fn saturating_pred(x: usize) -> usize {
    if x == 0 {
        0
    } else {
        (x - 1) as usize
    }
}

/// Nothing changed.
pub open spec fn unchanged(a0: App, s0: State, a1: App, s1: State) -> bool {
    a1 == a0 && s1 == s0
}

/// The editor of the recipe selects the first field.
pub open spec fn recipe_reset(s0: State) -> State {
    State {
        editing_state: EditingState::Recipe,
        recipe_state: recipe::State {
            selected_field: RangedWrapping { value: 0, min: 0, max: recipe::NUM_FIELDS },
            ..s0.recipe_state
        },
        ..s0
    }
}

/// What an action does while editing the recipe itself.
pub open spec fn recipe_effect(a0: App, s0: State, act: KeyAction, a1: App, s1: State) -> bool {
    let rs = s0.recipe_state;
    let field = rs.editing_selected_field;
    match act {
        KeyAction::Exit => if a0.edit_recipe is None {
            unchanged(a0, s0, a1, s1)
        } else if field is Some {
            a1 == a0 && s1 == (State {
                recipe_state: recipe::State { editing_selected_field: None, editing_field_cursor_position: None, ..rs },
                ..s0
            })
        } else if a0.edit_recipe.unwrap().is_blank() {
            a1 == (App { current_screen: CurrentScreen::RecipeBrowser, ..a0 }) && s1 == s0
        } else {
            a1 == a0 && s1 == (State { editing_state: EditingState::SavePrompt, ..s0 })
        },
        KeyAction::FieldUp => a1 == a0 && if field is None {
            s1 == (State { recipe_state: recipe::State { selected_field: rs.selected_field.spec_previous(), ..rs }, ..s0 })
        } else {
            s1 == s0
        },
        KeyAction::FieldDown => a1 == a0 && if field is None {
            s1 == (State { recipe_state: recipe::State { selected_field: rs.selected_field.spec_next(), ..rs }, ..s0 })
        } else {
            s1 == s0
        },
        KeyAction::SwitchForward | KeyAction::SwitchReverse => a1 == a0 && if field is None && a0.edit_recipe is Some
            && a0.edit_recipe.unwrap().steps@.len() > 0 {
            s1 == (State {
                editing_state: EditingState::Step(0),
                step_state: step::State {
                    selected_field: RangedWrapping { value: 0, min: 0, max: step::NUM_FIELDS },
                    ..s0.step_state
                },
                ..s0
            })
        } else {
            s1 == s0
        },
        KeyAction::StartEdit => a1 == a0 && s1 == (State {
            recipe_state: recipe::State {
                editing_selected_field: RecipeFields::spec_from_index(rs.selected_field.value),
                ..rs
            },
            ..s0
        }),
        KeyAction::NewStep => s1 == s0 && recipe_changed(
            a0,
            a1,
            |r0: Recipe, r1: Recipe|
                r1 == (Recipe { steps: r1.steps, ..r0 }) && r1.steps@.len() == r0.steps@.len() + 1
                    && r1.steps@.drop_last() =~= r0.steps@ && r1.steps@.last().is_blank(),
        ),
        KeyAction::CursorLeft => a1 == a0 && match rs.editing_field_cursor_position {
            Some(p) => s1 == (State {
                recipe_state: recipe::State { editing_field_cursor_position: Some((p - 1) as u16), ..rs },
                ..s0
            }),
            None => s1 == s0,
        },
        KeyAction::CursorRight => a1 == a0 && match rs.editing_field_cursor_position {
            Some(p) => s1 == (State {
                recipe_state: recipe::State { editing_field_cursor_position: Some((p + 1) as u16), ..rs },
                ..s0
            }),
            None => s1 == s0,
        },
        KeyAction::BackDelete => s1 == s0 && recipe_changed(
            a0,
            a1,
            |r0: Recipe, r1: Recipe| recipe_field_edited(r0, r1, field.unwrap(), TextOp::Pop),
        ),
        KeyAction::TypeChar(c) => s1 == s0 && if a0.edit_recipe is Some && field is Some {
            recipe_changed(a0, a1, |r0: Recipe, r1: Recipe| recipe_field_edited(r0, r1, field.unwrap(), TextOp::Push(c)))
        } else {
            a1 == a0
        },
        _ => unchanged(a0, s0, a1, s1),
    }
}

/// When an action is defined while editing the recipe itself: the editor
/// has no handling of amounts, deleting forwards or confirming, and needs
/// the edited recipe and a field in range.
pub open spec fn recipe_defined(a0: App, s0: State, act: KeyAction) -> bool {
    let rs = s0.recipe_state;
    let field = rs.editing_selected_field;
    match act {
        KeyAction::StartEdit => rs.selected_field.value < recipe::NUM_FIELDS,
        KeyAction::NewStep => a0.edit_recipe is Some,
        KeyAction::CursorLeft => rs.editing_field_cursor_position != Some(0u16),
        KeyAction::CursorRight => rs.editing_field_cursor_position != Some(u16::MAX),
        KeyAction::BackDelete => a0.edit_recipe is Some && field is Some && field != Some(RecipeFields::AmountMade),
        KeyAction::TypeChar(_) => !(a0.edit_recipe is Some && field == Some(RecipeFields::AmountMade)),
        KeyAction::FrontDelete | KeyAction::Confirm => false,
        _ => true,
    }
}

/// What an action does while editing the step at `i`.
pub open spec fn step_effect(a0: App, s0: State, i: usize, act: KeyAction, a1: App, s1: State) -> bool {
    let ss = s0.step_state;
    let field = ss.editing_selected_field;
    let dd = ss.dropdown_state;
    match act {
        KeyAction::Exit => a1 == a0 && match field {
            Some(StepFields::StepType) => if dd.expanded {
                s1 == (State {
                    step_state: step::State {
                        dropdown_state: super::dropdown::DropdownState { expanded: false, ..dd },
                        ..ss
                    },
                    ..s0
                })
            } else {
                s1 == (State { step_state: step::State { editing_selected_field: None, ..ss }, ..s0 })
            },
            Some(_) => s1 == (State { step_state: step::State { editing_selected_field: None, ..ss }, ..s0 }),
            None => s1 == (State { editing_state: EditingState::Recipe, ..s0 }),
        },
        KeyAction::FieldUp => a1 == a0 && if field is None {
            s1 == (State { step_state: step::State { selected_field: ss.selected_field.spec_previous(), ..ss }, ..s0 })
        } else if dd.expanded {
            s1 == (State {
                step_state: step::State {
                    dropdown_state: super::dropdown::DropdownState {
                        selected_entry: dd.selected_entry.spec_previous(),
                        ..dd
                    },
                    ..ss
                },
                ..s0
            })
        } else {
            s1 == s0
        },
        KeyAction::FieldDown => a1 == a0 && if field is None {
            s1 == (State { step_state: step::State { selected_field: ss.selected_field.spec_next(), ..ss }, ..s0 })
        } else if dd.expanded {
            s1 == (State {
                step_state: step::State {
                    dropdown_state: super::dropdown::DropdownState { selected_entry: dd.selected_entry.spec_next(), ..dd },
                    ..ss
                },
                ..s0
            })
        } else {
            s1 == s0
        },
        KeyAction::ItemUp | KeyAction::ItemDown => a1 == a0 && if field is None {
            s1 == (State {
                editing_state: EditingState::Step(
                    if act == KeyAction::ItemUp {
                        (saturating_pred(i) % step::NUM_FIELDS) as usize
                    } else {
                        (saturating_succ(i) % step::NUM_FIELDS) as usize
                    },
                ),
                step_state: step::State {
                    selected_field: RangedWrapping { value: 0, min: 0, max: step::NUM_FIELDS },
                    ..ss
                },
                ..s0
            })
        } else {
            s1 == s0
        },
        KeyAction::SwitchForward | KeyAction::SwitchReverse => a1 == a0 && if field is None && a0.edit_recipe is Some {
            let r = a0.edit_recipe.unwrap();
            if r.steps@.len() > 0 && r.steps@[i as int].ingredients@.len() > 0 {
                s1 == (State {
                    editing_state: EditingState::Ingredient(i, 0),
                    ingredient_state: ingredient::State {
                        selected_field: RangedWrapping { value: 0, min: 0, max: ingredient::NUM_FIELDS },
                        ..s0.ingredient_state
                    },
                    ..s0
                })
            } else if r.steps@.len() > 0 && r.steps@[i as int].equipment@.len() > 0 {
                s1 == (State {
                    editing_state: EditingState::Equipment(i, 0),
                    equipment_state: equipment::State {
                        selected_field: RangedWrapping { value: 0, min: 0, max: equipment::NUM_FIELDS },
                        ..s0.equipment_state
                    },
                    ..s0
                })
            } else {
                s1 == recipe_reset(s0)
            }
        } else {
            s1 == s0
        },
        KeyAction::StartEdit => a1 == a0 && s1 == (State {
            step_state: step::State { editing_selected_field: StepFields::spec_from_index(ss.selected_field.value), ..ss },
            ..s0
        }),
        KeyAction::NewIngredient => s1 == s0 && recipe_changed(
            a0,
            a1,
            |r0: Recipe, r1: Recipe|
                only_step_changed(r0, r1, i as int) && {
                    let t0 = r0.steps@[i as int];
                    let t1 = r1.steps@[i as int];
                    &&& t1 == (Step { ingredients: t1.ingredients, ..t0 })
                    &&& t1.ingredients@.len() == t0.ingredients@.len() + 1
                    &&& t1.ingredients@.drop_last() =~= t0.ingredients@
                    &&& t1.ingredients@.last().is_blank()
                },
        ),
        KeyAction::NewEquipment => s1 == s0 && recipe_changed(
            a0,
            a1,
            |r0: Recipe, r1: Recipe|
                only_step_changed(r0, r1, i as int) && {
                    let t0 = r0.steps@[i as int];
                    let t1 = r1.steps@[i as int];
                    &&& t1 == (Step { equipment: t1.equipment, ..t0 })
                    &&& t1.equipment@.len() == t0.equipment@.len() + 1
                    &&& t1.equipment@.drop_last() =~= t0.equipment@
                    &&& t1.equipment@.last().is_blank()
                },
        ),
        KeyAction::TypeChar(c) => s1 == s0 && if a0.edit_recipe is Some && field == Some(StepFields::Instructions) {
            recipe_changed(
                a0,
                a1,
                |r0: Recipe, r1: Recipe|
                    only_step_changed(r0, r1, i as int) && instructions_edited(
                        r0.steps@[i as int],
                        r1.steps@[i as int],
                        TextOp::Push(c),
                    ),
            )
        } else {
            a1 == a0
        },
        KeyAction::BackDelete => s1 == s0 && if field == Some(StepFields::Instructions) {
            recipe_changed(
                a0,
                a1,
                |r0: Recipe, r1: Recipe|
                    only_step_changed(r0, r1, i as int) && instructions_edited(
                        r0.steps@[i as int],
                        r1.steps@[i as int],
                        TextOp::Pop,
                    ),
            )
        } else {
            a1 == a0
        },
        KeyAction::Confirm => a1 == a0 && if field == Some(StepFields::StepType) {
            s1 == (State {
                step_state: step::State {
                    dropdown_state: super::dropdown::DropdownState { expanded: true, ..dd },
                    ..ss
                },
                ..s0
            })
        } else {
            s1 == s0
        },
        _ => unchanged(a0, s0, a1, s1),
    }
}

/// When an action is defined while editing the step at `i`: the step must
/// be in the edited recipe where the action reads it.
pub open spec fn step_defined(a0: App, s0: State, i: usize, act: KeyAction) -> bool {
    let ss = s0.step_state;
    let field = ss.editing_selected_field;
    let in_range = a0.edit_recipe is Some && i < a0.edit_recipe.unwrap().steps@.len();
    match act {
        KeyAction::SwitchForward | KeyAction::SwitchReverse => !(field is None && a0.edit_recipe is Some
            && a0.edit_recipe.unwrap().steps@.len() > 0 && i >= a0.edit_recipe.unwrap().steps@.len()),
        KeyAction::StartEdit => ss.selected_field.value < step::NUM_FIELDS,
        KeyAction::NewIngredient | KeyAction::NewEquipment => in_range,
        KeyAction::TypeChar(_) => !(a0.edit_recipe is Some && field == Some(StepFields::Instructions)) || in_range,
        KeyAction::BackDelete => field != Some(StepFields::Instructions) || in_range,
        _ => true,
    }
}

/// What an action does while editing the ingredient at `k` of the step at
/// `i`.
pub open spec fn ingredient_effect(a0: App, s0: State, i: usize, k: usize, act: KeyAction, a1: App, s1: State) -> bool {
    let gs = s0.ingredient_state;
    let field = gs.editing_selected_field;
    match act {
        KeyAction::Exit => a1 == a0 && if field is Some {
            s1 == (State { ingredient_state: ingredient::State { editing_selected_field: None, ..gs }, ..s0 })
        } else {
            s1 == (State { editing_state: EditingState::Recipe, ..s0 })
        },
        KeyAction::FieldUp => a1 == a0 && if field is None {
            s1 == (State {
                ingredient_state: ingredient::State { selected_field: gs.selected_field.spec_previous(), ..gs },
                ..s0
            })
        } else {
            s1 == s0
        },
        KeyAction::FieldDown => a1 == a0 && if field is None {
            s1 == (State { ingredient_state: ingredient::State { selected_field: gs.selected_field.spec_next(), ..gs }, ..s0 })
        } else {
            s1 == s0
        },
        KeyAction::ItemUp | KeyAction::ItemDown => a1 == a0 && if field is None {
            s1 == (State {
                editing_state: EditingState::Ingredient(
                    i,
                    if act == KeyAction::ItemUp {
                        (saturating_pred(k) % ingredient::NUM_FIELDS) as usize
                    } else {
                        (saturating_succ(k) % ingredient::NUM_FIELDS) as usize
                    },
                ),
                ingredient_state: ingredient::State {
                    selected_field: RangedWrapping { value: 0, min: 0, max: ingredient::NUM_FIELDS },
                    ..gs
                },
                ..s0
            })
        } else {
            s1 == s0
        },
        KeyAction::SwitchForward | KeyAction::SwitchReverse => a1 == a0 && if field is None && a0.edit_recipe is Some {
            let r = a0.edit_recipe.unwrap();
            if r.steps@.len() > 0 && r.steps@[i as int].equipment@.len() > 0 {
                s1 == (State {
                    editing_state: EditingState::Equipment(i, 0),
                    equipment_state: equipment::State {
                        selected_field: RangedWrapping { value: 0, min: 0, max: equipment::NUM_FIELDS },
                        ..s0.equipment_state
                    },
                    ..s0
                })
            } else {
                s1 == recipe_reset(s0)
            }
        } else {
            s1 == s0
        },
        KeyAction::StartEdit => a1 == a0 && s1 == (State {
            ingredient_state: ingredient::State {
                editing_selected_field: IngredientFields::spec_from_index(gs.selected_field.value),
                ..gs
            },
            ..s0
        }),
        KeyAction::TypeChar(c) => s1 == s0 && if a0.edit_recipe is Some && field is Some {
            recipe_changed(
                a0,
                a1,
                |r0: Recipe, r1: Recipe|
                    only_step_changed(r0, r1, i as int) && only_ingredient_changed(
                        r0.steps@[i as int],
                        r1.steps@[i as int],
                        k as int,
                    ) && ingredient_field_edited(
                        r0.steps@[i as int].ingredients@[k as int],
                        r1.steps@[i as int].ingredients@[k as int],
                        field.unwrap(),
                        TextOp::Push(c),
                    ),
            )
        } else {
            a1 == a0
        },
        KeyAction::BackDelete => s1 == s0 && if field is Some {
            recipe_changed(
                a0,
                a1,
                |r0: Recipe, r1: Recipe|
                    only_step_changed(r0, r1, i as int) && only_ingredient_changed(
                        r0.steps@[i as int],
                        r1.steps@[i as int],
                        k as int,
                    ) && ingredient_field_edited(
                        r0.steps@[i as int].ingredients@[k as int],
                        r1.steps@[i as int].ingredients@[k as int],
                        field.unwrap(),
                        TextOp::Pop,
                    ),
            )
        } else {
            a1 == a0
        },
        _ => unchanged(a0, s0, a1, s1),
    }
}

/// The ingredient at `k` of the step at `i` is in the edited recipe.
pub open spec fn ingredient_in_range(a0: App, i: usize, k: usize) -> bool {
    &&& a0.edit_recipe is Some
    &&& i < a0.edit_recipe.unwrap().steps@.len()
    &&& k < a0.edit_recipe.unwrap().steps@[i as int].ingredients@.len()
}

/// When an action is defined while editing an ingredient: deleting forwards
/// and confirming are unimplemented, and the ingredient must be in the
/// edited recipe where the action reads it.
pub open spec fn ingredient_defined(a0: App, s0: State, i: usize, k: usize, act: KeyAction) -> bool {
    let gs = s0.ingredient_state;
    let field = gs.editing_selected_field;
    match act {
        KeyAction::SwitchForward | KeyAction::SwitchReverse => !(field is None && a0.edit_recipe is Some
            && a0.edit_recipe.unwrap().steps@.len() > 0 && i >= a0.edit_recipe.unwrap().steps@.len()),
        KeyAction::StartEdit => gs.selected_field.value < ingredient::NUM_FIELDS,
        KeyAction::TypeChar(_) => !(a0.edit_recipe is Some && field is Some) || ingredient_in_range(a0, i, k),
        KeyAction::BackDelete => field is None || ingredient_in_range(a0, i, k),
        KeyAction::FrontDelete | KeyAction::Confirm => false,
        _ => true,
    }
}

/// What an action does while editing the equipment at `k` of the step at
/// `i`.
pub open spec fn equipment_effect(a0: App, s0: State, i: usize, k: usize, act: KeyAction, a1: App, s1: State) -> bool {
    let es = s0.equipment_state;
    let field = es.editing_selected_field;
    match act {
        KeyAction::Exit => a1 == a0 && if field is Some {
            s1 == (State { equipment_state: equipment::State { editing_selected_field: None, ..es }, ..s0 })
        } else {
            s1 == (State { editing_state: EditingState::Recipe, ..s0 })
        },
        KeyAction::FieldUp => a1 == a0 && if field is None {
            s1 == (State { equipment_state: equipment::State { selected_field: es.selected_field.spec_previous(), ..es }, ..s0 })
        } else {
            s1 == s0
        },
        KeyAction::FieldDown => a1 == a0 && if field is None {
            s1 == (State { equipment_state: equipment::State { selected_field: es.selected_field.spec_next(), ..es }, ..s0 })
        } else {
            s1 == s0
        },
        KeyAction::ItemUp | KeyAction::ItemDown => a1 == a0 && if field is None {
            s1 == (State {
                editing_state: EditingState::Equipment(
                    i,
                    if act == KeyAction::ItemUp {
                        saturating_pred(k) & 3usize
                    } else {
                        (saturating_succ(k) % equipment::NUM_FIELDS) as usize
                    },
                ),
                equipment_state: equipment::State {
                    selected_field: RangedWrapping { value: 0, min: 0, max: equipment::NUM_FIELDS },
                    ..es
                },
                ..s0
            })
        } else {
            s1 == s0
        },
        KeyAction::SwitchForward | KeyAction::SwitchReverse => a1 == a0 && if field is None {
            s1 == recipe_reset(s0)
        } else {
            s1 == s0
        },
        KeyAction::StartEdit => a1 == a0 && s1 == (State {
            equipment_state: equipment::State {
                editing_selected_field: EquipmentFields::spec_from_index(es.selected_field.value),
                ..es
            },
            ..s0
        }),
        KeyAction::TypeChar(c) => s1 == s0 && if a0.edit_recipe is Some && (field == Some(EquipmentFields::Name)
            || field == Some(EquipmentFields::Description)) {
            recipe_changed(
                a0,
                a1,
                |r0: Recipe, r1: Recipe|
                    only_step_changed(r0, r1, i as int) && only_equipment_changed(
                        r0.steps@[i as int],
                        r1.steps@[i as int],
                        k as int,
                    ) && equipment_field_edited(
                        r0.steps@[i as int].equipment@[k as int],
                        r1.steps@[i as int].equipment@[k as int],
                        field.unwrap(),
                        TextOp::Push(c),
                    ),
            )
        } else {
            a1 == a0
        },
        KeyAction::BackDelete => s1 == s0 && if field == Some(EquipmentFields::Name) || field == Some(
            EquipmentFields::Description,
        ) {
            recipe_changed(
                a0,
                a1,
                |r0: Recipe, r1: Recipe|
                    only_step_changed(r0, r1, i as int) && only_equipment_changed(
                        r0.steps@[i as int],
                        r1.steps@[i as int],
                        k as int,
                    ) && equipment_field_edited(
                        r0.steps@[i as int].equipment@[k as int],
                        r1.steps@[i as int].equipment@[k as int],
                        field.unwrap(),
                        TextOp::Pop,
                    ),
            )
        } else {
            a1 == a0
        },
        _ => unchanged(a0, s0, a1, s1),
    }
}

/// The equipment at `k` of the step at `i` is in the edited recipe.
pub open spec fn equipment_in_range(a0: App, i: usize, k: usize) -> bool {
    &&& a0.edit_recipe is Some
    &&& i < a0.edit_recipe.unwrap().steps@.len()
    &&& k < a0.edit_recipe.unwrap().steps@[i as int].equipment@.len()
}

/// When an action is defined while editing equipment: deleting forwards and
/// confirming are unimplemented, and the equipment must be in the edited
/// recipe where the action reads it.
pub open spec fn equipment_defined(a0: App, s0: State, i: usize, k: usize, act: KeyAction) -> bool {
    let es = s0.equipment_state;
    let field = es.editing_selected_field;
    let text_field = field == Some(EquipmentFields::Name) || field == Some(EquipmentFields::Description);
    match act {
        KeyAction::StartEdit => es.selected_field.value < equipment::NUM_FIELDS,
        KeyAction::TypeChar(_) => !(a0.edit_recipe is Some && text_field) || equipment_in_range(a0, i, k),
        KeyAction::BackDelete => !text_field || equipment_in_range(a0, i, k),
        KeyAction::FrontDelete | KeyAction::Confirm => false,
        _ => true,
    }
}

/// What the save prompt does with its answer: the first choice saves the
/// edited recipe under its ID and the second drops it, and both return to
/// the browser; the third cancels the prompt and goes back to editing the
/// recipe, on the same screen.
pub open spec fn prompt_confirm_effect(a0: App, s0: State, a1: App, s1: State) -> bool {
    let v = s0.save_prompt_state.spec_selected().value;
    &&& v != 2 ==> a1.current_screen == CurrentScreen::RecipeBrowser
    &&& if v == 0 {
        s1 == s0 && match a0.edit_recipe {
            Some(r) => a1 == (App {
                recipes: a1.recipes,
                edit_recipe: None,
                current_screen: CurrentScreen::RecipeBrowser,
                ..a0
            }) && a1.recipes@ == a0.recipes@.insert(r.id, r),
            None => a1 == (App { current_screen: CurrentScreen::RecipeBrowser, ..a0 }),
        }
    } else if v == 1 {
        s1 == s0 && a1 == (App { edit_recipe: None, current_screen: CurrentScreen::RecipeBrowser, ..a0 })
    } else if v == 2 {
        s1 == (State { editing_state: EditingState::Recipe, ..s0 }) && a1 == a0
    } else {
        s1 == s0 && a1 == (App { current_screen: CurrentScreen::RecipeBrowser, ..a0 })
    }
}

/// What an action does.
pub open spec fn action_effect(a0: App, s0: State, act: KeyAction, a1: App, s1: State) -> bool {
    match act {
        KeyAction::Nothing => unchanged(a0, s0, a1, s1),
        KeyAction::Quit => a1 == (App { running: false, ..a0 }) && s1 == s0,
        KeyAction::NewRecipe => s1 == (State { editing_state: EditingState::Recipe, ..s0 }) && a1 == (App {
            edit_recipe: a1.edit_recipe,
            current_screen: CurrentScreen::RecipeCreator,
            ..a0
        }) && a1.edit_recipe is Some && a1.edit_recipe.unwrap().is_blank(),
        KeyAction::ListDown => a1 == a0 && s1 == (State {
            recipe_list_selected: match s0.recipe_list_selected {
                Some(x) => Some((wrapping_succ(x) % s0.recipe_list_len) as usize),
                None => None,
            },
            ..s0
        }),
        KeyAction::ListUp => a1 == a0 && s1 == (State {
            recipe_list_selected: match s0.recipe_list_selected {
                Some(x) => Some((wrapping_pred(x) % s0.recipe_list_len) as usize),
                None => None,
            },
            ..s0
        }),
        KeyAction::LeaveViewer => a1 == (App { current_screen: CurrentScreen::RecipeBrowser, ..a0 }) && s1 == s0,
        KeyAction::PromptPrevious => a1 == a0 && s1 == (State { save_prompt_state: s1.save_prompt_state, ..s0 })
            && s1.save_prompt_state.spec_selected() == s0.save_prompt_state.spec_selected().spec_previous(),
        KeyAction::PromptNext => a1 == a0 && s1 == (State { save_prompt_state: s1.save_prompt_state, ..s0 })
            && s1.save_prompt_state.spec_selected() == s0.save_prompt_state.spec_selected().spec_next(),
        KeyAction::PromptConfirm => prompt_confirm_effect(a0, s0, a1, s1),
        _ => match s0.editing_state {
            EditingState::Recipe => recipe_effect(a0, s0, act, a1, s1),
            EditingState::Step(i) => step_effect(a0, s0, i, act, a1, s1),
            EditingState::Ingredient(i, k) => ingredient_effect(a0, s0, i, k, act, a1, s1),
            EditingState::Equipment(i, k) => equipment_effect(a0, s0, i, k, act, a1, s1),
            EditingState::SavePrompt => unchanged(a0, s0, a1, s1),
        },
    }
}

/// When an action is defined.
pub open spec fn action_defined(a0: App, s0: State, act: KeyAction) -> bool {
    match act {
        KeyAction::ListDown | KeyAction::ListUp => s0.recipe_list_selected is Some ==> s0.recipe_list_len > 0,
        KeyAction::Nothing | KeyAction::Quit | KeyAction::NewRecipe | KeyAction::LeaveViewer
        | KeyAction::PromptPrevious | KeyAction::PromptNext | KeyAction::PromptConfirm => true,
        _ => match s0.editing_state {
            EditingState::Recipe => recipe_defined(a0, s0, act),
            EditingState::Step(i) => step_defined(a0, s0, i, act),
            EditingState::Ingredient(i, k) => ingredient_defined(a0, s0, i, k, act),
            EditingState::Equipment(i, k) => equipment_defined(a0, s0, i, k, act),
            EditingState::SavePrompt => true,
        },
    }
}

/// The key handler handles `ev` in this state: the keybinds it looks up by
/// name are there, and the action of the key is defined.
pub open spec fn handles(a0: App, s0: State, ev: KeyEvent) -> bool {
    &&& a0.keybinds.complete()
    &&& s0.wf()
    &&& ev.kind == KeyEventKind::Press ==> action_defined(a0, s0, spec_key_action(a0, s0, ev))
}

/// What a key event does: only a pressed key is handled, so a released or
/// repeating key does nothing; a pressed core exit key stops the app, and
/// the action of the key takes effect.
pub open spec fn key_effect(a0: App, s0: State, ev: KeyEvent, a1: App, s1: State) -> bool {
    if ev.kind != KeyEventKind::Press {
        unchanged(a0, s0, a1, s1)
    } else {
        let stopped = if a0.keybinds.core.exit.spec_any(ev.code, ev.modifiers) {
            App { running: false, ..a0 }
        } else {
            a0
        };
        action_effect(stopped, s0, spec_key_action(a0, s0, ev), a1, s1)
    }
}

// ---------------------------------------------------------------------
// The handler.
// ---------------------------------------------------------------------

/// `key_action` is the action of a pressed key, given the screen and where
/// the user stands.
pub fn key_action(app: &App, st: &State, ev: &KeyEvent) -> (a: KeyAction)
    ensures
        a == spec_key_action(*app, *st, *ev),
{
    let kb = &app.keybinds;
    let c = ev.code;
    let m = ev.modifiers;
    match app.current_screen {
        CurrentScreen::RecipeBrowser => {
            if kb.browsing.quit.matches(c, m) {
                KeyAction::Quit
            } else if c == kb.browsing.new.key && m == kb.browsing.quit.modifiers {
                KeyAction::NewRecipe
            } else if kb.browsing.recipe_scroll.named("recipe_scroll_down", c, m) {
                KeyAction::ListDown
            } else if kb.browsing.recipe_scroll.named("recipe_scroll_up", c, m) {
                KeyAction::ListUp
            } else {
                KeyAction::Nothing
            }
        },
        CurrentScreen::RecipeViewer => {
            if kb.viewing.exit.matches(c, m) {
                KeyAction::LeaveViewer
            } else {
                KeyAction::Nothing
            }
        },
        _ => match st.editing_state {
            EditingState::Recipe => recipe_editor_key(&kb.editing, c, m, st.recipe_state.editing_selected_field.is_some()),
            EditingState::Step(_) => item_editor_key(&kb.editing, c, m, st.step_state.editing_selected_field.is_some(), true),
            EditingState::Ingredient(_, _) => item_editor_key(
                &kb.editing,
                c,
                m,
                st.ingredient_state.editing_selected_field.is_some(),
                false,
            ),
            EditingState::Equipment(_, _) => item_editor_key(
                &kb.editing,
                c,
                m,
                st.equipment_state.editing_selected_field.is_some(),
                false,
            ),
            EditingState::SavePrompt => {
                let kb = &kb.editing;
                if kb.prompt_scroll.named("prompt_scroll_left", c, m) {
                    KeyAction::PromptPrevious
                } else if kb.prompt_scroll.named("prompt_scroll_right", c, m) {
                    KeyAction::PromptNext
                } else if kb.confirm.matches(c, m) {
                    KeyAction::PromptConfirm
                } else {
                    KeyAction::Nothing
                }
            },
        },
    }
}

/// The action of a key that no earlier rule of the editor took.
fn typing_key(kb: &EditingKeybinds, c: KeyCode, m: KeyModifiers) -> (a: KeyAction)
    ensures
        a == typing_action(*kb, c, m),
{
    match c {
        KeyCode::Char(ch) => KeyAction::TypeChar(ch),
        _ => {
            if kb.back_delete.matches(c, m) {
                KeyAction::BackDelete
            } else if kb.front_delete.matches(c, m) {
                KeyAction::FrontDelete
            } else if kb.confirm.matches(c, m) {
                KeyAction::Confirm
            } else {
                KeyAction::Nothing
            }
        },
    }
}

/// The action of a key while editing the recipe itself.
fn recipe_editor_key(kb: &EditingKeybinds, c: KeyCode, m: KeyModifiers, editing: bool) -> (a: KeyAction)
    ensures
        a == recipe_editor_action(*kb, c, m, editing),
{
    if kb.exit.matches(c, m) {
        KeyAction::Exit
    } else if kb.field_scroll.named("field_scroll_up", c, m) {
        KeyAction::FieldUp
    } else if kb.field_scroll.named("field_scroll_down", c, m) {
        KeyAction::FieldDown
    } else if kb.item_switch.named("item_switch_forward", c, m) {
        KeyAction::SwitchForward
    } else if kb.item_switch.named("item_switch_reverse", c, m) {
        KeyAction::SwitchReverse
    } else if kb.edit.any(c, m) && !editing {
        KeyAction::StartEdit
    } else if kb.new_step.matches(c, m) && !editing {
        KeyAction::NewStep
    } else if kb.move_cursor.named("move_cursor_left", c, m) && editing {
        KeyAction::CursorLeft
    } else if kb.move_cursor.named("move_cursor_right", c, m) && editing {
        KeyAction::CursorRight
    } else if kb.back_delete.matches(c, m) && editing {
        KeyAction::BackDelete
    } else if kb.front_delete.matches(c, m) && editing {
        KeyAction::FrontDelete
    } else {
        match c {
            KeyCode::Char(ch) => KeyAction::TypeChar(ch),
            _ => {
                if kb.confirm.matches(c, m) {
                    KeyAction::Confirm
                } else {
                    KeyAction::Nothing
                }
            },
        }
    }
}

/// The action of a key while editing a step, an ingredient or equipment.
fn item_editor_key(kb: &EditingKeybinds, c: KeyCode, m: KeyModifiers, editing: bool, adds: bool) -> (a: KeyAction)
    ensures
        a == item_editor_action(*kb, c, m, editing, adds),
{
    if kb.exit.matches(c, m) {
        KeyAction::Exit
    } else if kb.field_scroll.named("field_scroll_up", c, m) {
        KeyAction::FieldUp
    } else if kb.field_scroll.named("field_scroll_down", c, m) {
        KeyAction::FieldDown
    } else if kb.item_scroll.named("item_scroll_up", c, m) {
        KeyAction::ItemUp
    } else if kb.item_scroll.named("item_scroll_down", c, m) {
        KeyAction::ItemDown
    } else if kb.item_switch.named("item_switch_forward", c, m) {
        KeyAction::SwitchForward
    } else if kb.item_switch.named("item_switch_reverse", c, m) {
        KeyAction::SwitchReverse
    } else if kb.edit.any(c, m) && !editing {
        KeyAction::StartEdit
    } else if adds && kb.new_ingredient.matches(c, m) && !editing {
        KeyAction::NewIngredient
    } else if adds && kb.new_equipment.matches(c, m) && !editing {
        KeyAction::NewEquipment
    } else {
        typing_key(kb, c, m)
    }
}

/// Applies the edit to the text.
fn apply_op(s: &mut String, op: TextOp)
    ensures
        final(s)@ == edit_text(old(s)@, op),
{
    match op {
        TextOp::Push(c) => push_char(s, c),
        TextOp::Pop => {
            let _ = pop_char(s);
        },
    }
}

/// Applies the edit to an optional text, which is created empty when
/// missing.
fn apply_op_or_insert(s: &mut Option<String>, op: TextOp)
    ensures
        final(s).deep_view() == Some(edit_text(opt_text(*old(s)), op)),
{
    if s.is_none() {
        *s = Some(String::new());
    }
    match s {
        Some(t) => apply_op(t, op),
        None => {},
    }
}

/// Applies the edit to an optional text, which stays missing when it is.
fn apply_op_if_some(s: &mut Option<String>, op: TextOp)
    ensures
        match *old(s) {
            Some(d) => final(s).deep_view() == Some(edit_text(d@, op)),
            None => *final(s) == *old(s),
        },
{
    match s {
        Some(t) => apply_op(t, op),
        None => {},
    }
}

/// Applies the edit to the field `f` of the recipe.
fn edit_recipe_field(r: &mut Recipe, f: RecipeFields, op: TextOp)
    requires
        f != RecipeFields::AmountMade,
    ensures
        recipe_field_edited(*old(r), *final(r), f, op),
{
    match f {
        RecipeFields::Name => apply_op(&mut r.name, op),
        RecipeFields::Description => apply_op_or_insert(&mut r.description, op),
        RecipeFields::Comments => apply_op_or_insert(&mut r.comments, op),
        RecipeFields::Source => apply_op(&mut r.source, op),
        RecipeFields::Author => apply_op(&mut r.author, op),
        RecipeFields::AmountMade => {},
    }
}

/// Applies the edit to the field `f` of the ingredient at `k` of the step
/// at `i`.
fn edit_ingredient_field(r: &mut Recipe, i: usize, k: usize, f: IngredientFields, op: TextOp)
    requires
        i < old(r).steps@.len(),
        k < old(r).steps@[i as int].ingredients@.len(),
    ensures
        only_step_changed(*old(r), *final(r), i as int),
        only_ingredient_changed(old(r).steps@[i as int], final(r).steps@[i as int], k as int),
        ingredient_field_edited(
            old(r).steps@[i as int].ingredients@[k as int],
            final(r).steps@[i as int].ingredients@[k as int],
            f,
            op,
        ),
{
    match f {
        IngredientFields::Name => apply_op(&mut r.steps[i].ingredients[k].name, op),
        IngredientFields::Description => apply_op_if_some(&mut r.steps[i].ingredients[k].description, op),
    }
}

/// Applies the edit to the field `f` of the equipment at `k` of the step
/// at `i`.
fn edit_equipment_field(r: &mut Recipe, i: usize, k: usize, f: EquipmentFields, op: TextOp)
    requires
        i < old(r).steps@.len(),
        k < old(r).steps@[i as int].equipment@.len(),
    ensures
        only_step_changed(*old(r), *final(r), i as int),
        only_equipment_changed(old(r).steps@[i as int], final(r).steps@[i as int], k as int),
        equipment_field_edited(
            old(r).steps@[i as int].equipment@[k as int],
            final(r).steps@[i as int].equipment@[k as int],
            f,
            op,
        ),
{
    match f {
        EquipmentFields::Name => apply_op(&mut r.steps[i].equipment[k].name, op),
        EquipmentFields::Description => apply_op_if_some(&mut r.steps[i].equipment[k].description, op),
        EquipmentFields::IsOwned => {
            assert(r.steps@ =~= r.steps@.update(i as int, r.steps@[i as int]));
            assert(r.steps@[i as int].equipment@ =~= r.steps@[i as int].equipment@.update(
                k as int,
                r.steps@[i as int].equipment@[k as int],
            ));
        },
    }
}

/// Applies an action while editing the recipe itself.
fn apply_recipe_action(app: &mut App, st: &mut State, act: KeyAction)
    requires
        recipe_defined(*old(app), *old(st), act),
        old(st).wf(),
    ensures
        recipe_effect(*old(app), *old(st), act, *final(app), *final(st)),
        final(st).wf(),
{
    match act {
        KeyAction::Exit => {
            if app.edit_recipe.is_some() {
                if st.recipe_state.editing_selected_field.is_some() {
                    st.recipe_state.editing_selected_field = None;
                    st.recipe_state.editing_field_cursor_position = None;
                } else {
                    let blank = match &app.edit_recipe {
                        Some(r) => r.is_new(),
                        None => false,
                    };
                    if blank {
                        app.current_screen = CurrentScreen::RecipeBrowser;
                    } else {
                        st.editing_state = EditingState::SavePrompt;
                    }
                }
            }
        },
        KeyAction::FieldUp => {
            if st.recipe_state.editing_selected_field.is_none() {
                st.recipe_state.selected_field.decrement();
            }
        },
        KeyAction::FieldDown => {
            if st.recipe_state.editing_selected_field.is_none() {
                st.recipe_state.selected_field.increment();
            }
        },
        KeyAction::SwitchForward | KeyAction::SwitchReverse => {
            if st.recipe_state.editing_selected_field.is_none() {
                let has_steps = match &app.edit_recipe {
                    Some(r) => r.steps.len() > 0,
                    None => false,
                };
                if has_steps {
                    st.editing_state = EditingState::Step(0);
                    st.step_state.selected_field = RangedWrapping { value: 0, min: 0, max: step::NUM_FIELDS };
                }
            }
        },
        KeyAction::StartEdit => {
            st.recipe_state.editing_selected_field = RecipeFields::from_index(st.recipe_state.selected_field.value);
        },
        KeyAction::NewStep => {
            match &mut app.edit_recipe {
                Some(r) => r.steps.push(Step::new()),
                None => {},
            }
        },
        KeyAction::CursorLeft => {
            match &mut st.recipe_state.editing_field_cursor_position {
                Some(p) => {
                    *p = *p - 1;
                },
                None => {},
            }
        },
        KeyAction::CursorRight => {
            match &mut st.recipe_state.editing_field_cursor_position {
                Some(p) => {
                    *p = *p + 1;
                },
                None => {},
            }
        },
        KeyAction::BackDelete => {
            let field = st.recipe_state.editing_selected_field;
            match &mut app.edit_recipe {
                Some(r) => match field {
                    Some(f) => edit_recipe_field(r, f, TextOp::Pop),
                    None => {},
                },
                None => {},
            }
        },
        KeyAction::TypeChar(c) => {
            let field = st.recipe_state.editing_selected_field;
            match &mut app.edit_recipe {
                Some(r) => match field {
                    Some(f) => edit_recipe_field(r, f, TextOp::Push(c)),
                    None => {},
                },
                None => {},
            }
        },
        _ => {},
    }
}

/// The position one before `i` (not below zero), modulo `n`.
fn saturating_pred_mod(i: usize, n: usize) -> (j: usize)
    requires
        n > 0,
    ensures
        j == saturating_pred(i) % n,
{
    let p = if i == 0 {
        0
    } else {
        i - 1
    };
    p % n
}

/// The position one after `i` (not past the largest `usize`), modulo `n`.
fn saturating_succ_mod(i: usize, n: usize) -> (j: usize)
    requires
        n > 0,
    ensures
        j == saturating_succ(i) % n,
{
    let p = if i == usize::MAX {
        i
    } else {
        i + 1
    };
    p % n
}

/// Applies an action while editing the step at `i`.
fn apply_step_action(app: &mut App, st: &mut State, i: usize, act: KeyAction)
    requires
        old(st).editing_state == EditingState::Step(i),
        step_defined(*old(app), *old(st), i, act),
        old(st).wf(),
    ensures
        step_effect(*old(app), *old(st), i, act, *final(app), *final(st)),
        final(st).wf(),
{
    match act {
        KeyAction::Exit => {
            match st.step_state.editing_selected_field {
                Some(StepFields::StepType) => {
                    if st.step_state.dropdown_state.expanded {
                        st.step_state.dropdown_state.expanded = false;
                    } else {
                        st.step_state.editing_selected_field = None;
                    }
                },
                Some(_) => {
                    st.step_state.editing_selected_field = None;
                },
                None => {
                    st.editing_state = EditingState::Recipe;
                },
            }
        },
        KeyAction::FieldUp => {
            if st.step_state.editing_selected_field.is_none() {
                st.step_state.selected_field.decrement();
            } else if st.step_state.dropdown_state.expanded {
                st.step_state.dropdown_state.selected_entry.decrement();
            }
        },
        KeyAction::FieldDown => {
            if st.step_state.editing_selected_field.is_none() {
                st.step_state.selected_field.increment();
            } else if st.step_state.dropdown_state.expanded {
                st.step_state.dropdown_state.selected_entry.increment();
            }
        },
        KeyAction::ItemUp => {
            if st.step_state.editing_selected_field.is_none() {
                st.step_state.selected_field = RangedWrapping { value: 0, min: 0, max: step::NUM_FIELDS };
                st.editing_state = EditingState::Step(saturating_pred_mod(i, step::NUM_FIELDS));
            }
        },
        KeyAction::ItemDown => {
            if st.step_state.editing_selected_field.is_none() {
                st.step_state.selected_field = RangedWrapping { value: 0, min: 0, max: step::NUM_FIELDS };
                let mut selected = saturating_succ_mod(i, step::NUM_FIELDS);
                if selected > step::NUM_FIELDS {
                    selected = step::NUM_FIELDS;
                }
                st.editing_state = EditingState::Step(selected);
            }
        },
        KeyAction::SwitchForward | KeyAction::SwitchReverse => {
            if st.step_state.editing_selected_field.is_none() {
                let target: u8 = match &app.edit_recipe {
                    Some(r) => {
                        if r.steps.len() > 0 && r.steps[i].ingredients.len() > 0 {
                            1
                        } else if r.steps.len() > 0 && r.steps[i].equipment.len() > 0 {
                            2
                        } else {
                            3
                        }
                    },
                    None => 0,
                };
                if target == 1 {
                    st.editing_state = EditingState::Ingredient(i, 0);
                    st.ingredient_state.selected_field = RangedWrapping { value: 0, min: 0, max: ingredient::NUM_FIELDS };
                } else if target == 2 {
                    st.editing_state = EditingState::Equipment(i, 0);
                    st.equipment_state.selected_field = RangedWrapping { value: 0, min: 0, max: equipment::NUM_FIELDS };
                } else if target == 3 {
                    st.editing_state = EditingState::Recipe;
                    st.recipe_state.selected_field = RangedWrapping { value: 0, min: 0, max: recipe::NUM_FIELDS };
                }
            }
        },
        KeyAction::StartEdit => {
            st.step_state.editing_selected_field = StepFields::from_index(st.step_state.selected_field.value);
        },
        KeyAction::NewIngredient => {
            match &mut app.edit_recipe {
                Some(r) => r.steps[i].ingredients.push(Ingredient::new()),
                None => {},
            }
        },
        KeyAction::NewEquipment => {
            match &mut app.edit_recipe {
                Some(r) => r.steps[i].equipment.push(Equipment::new()),
                None => {},
            }
        },
        KeyAction::TypeChar(c) => {
            if matches!(st.step_state.editing_selected_field, Some(StepFields::Instructions)) {
                match &mut app.edit_recipe {
                    Some(r) => apply_op(&mut r.steps[i].instructions, TextOp::Push(c)),
                    None => {},
                }
            }
        },
        KeyAction::BackDelete => {
            if matches!(st.step_state.editing_selected_field, Some(StepFields::Instructions)) {
                match &mut app.edit_recipe {
                    Some(r) => apply_op(&mut r.steps[i].instructions, TextOp::Pop),
                    None => {},
                }
            }
        },
        KeyAction::Confirm => {
            if matches!(st.step_state.editing_selected_field, Some(StepFields::StepType)) {
                st.step_state.dropdown_state.expanded = true;
            }
        },
        _ => {},
    }
}

/// Applies an action while editing the ingredient at `k` of the step at
/// `i`.
fn apply_ingredient_action(app: &mut App, st: &mut State, i: usize, k: usize, act: KeyAction)
    requires
        old(st).editing_state == EditingState::Ingredient(i, k),
        ingredient_defined(*old(app), *old(st), i, k, act),
        old(st).wf(),
    ensures
        ingredient_effect(*old(app), *old(st), i, k, act, *final(app), *final(st)),
        final(st).wf(),
{
    match act {
        KeyAction::Exit => {
            if st.ingredient_state.editing_selected_field.is_some() {
                st.ingredient_state.editing_selected_field = None;
            } else {
                st.editing_state = EditingState::Recipe;
            }
        },
        KeyAction::FieldUp => {
            if st.ingredient_state.editing_selected_field.is_none() {
                st.ingredient_state.selected_field.decrement();
            }
        },
        KeyAction::FieldDown => {
            if st.ingredient_state.editing_selected_field.is_none() {
                st.ingredient_state.selected_field.increment();
            }
        },
        KeyAction::ItemUp => {
            if st.ingredient_state.editing_selected_field.is_none() {
                st.ingredient_state.selected_field = RangedWrapping { value: 0, min: 0, max: ingredient::NUM_FIELDS };
                st.editing_state = EditingState::Ingredient(i, saturating_pred_mod(k, ingredient::NUM_FIELDS));
            }
        },
        KeyAction::ItemDown => {
            if st.ingredient_state.editing_selected_field.is_none() {
                st.ingredient_state.selected_field = RangedWrapping { value: 0, min: 0, max: ingredient::NUM_FIELDS };
                let mut selected = saturating_succ_mod(k, ingredient::NUM_FIELDS);
                if selected > ingredient::NUM_FIELDS {
                    selected = ingredient::NUM_FIELDS;
                }
                st.editing_state = EditingState::Ingredient(i, selected);
            }
        },
        KeyAction::SwitchForward | KeyAction::SwitchReverse => {
            if st.ingredient_state.editing_selected_field.is_none() {
                let target: u8 = match &app.edit_recipe {
                    Some(r) => {
                        if r.steps.len() > 0 && r.steps[i].equipment.len() > 0 {
                            1
                        } else {
                            2
                        }
                    },
                    None => 0,
                };
                if target == 1 {
                    st.editing_state = EditingState::Equipment(i, 0);
                    st.equipment_state.selected_field = RangedWrapping { value: 0, min: 0, max: equipment::NUM_FIELDS };
                } else if target == 2 {
                    st.editing_state = EditingState::Recipe;
                    st.recipe_state.selected_field = RangedWrapping { value: 0, min: 0, max: recipe::NUM_FIELDS };
                }
            }
        },
        KeyAction::StartEdit => {
            st.ingredient_state.editing_selected_field = IngredientFields::from_index(
                st.ingredient_state.selected_field.value,
            );
        },
        KeyAction::TypeChar(c) => {
            let field = st.ingredient_state.editing_selected_field;
            match &mut app.edit_recipe {
                Some(r) => match field {
                    Some(f) => edit_ingredient_field(r, i, k, f, TextOp::Push(c)),
                    None => {},
                },
                None => {},
            }
        },
        KeyAction::BackDelete => {
            let field = st.ingredient_state.editing_selected_field;
            match &mut app.edit_recipe {
                Some(r) => match field {
                    Some(f) => edit_ingredient_field(r, i, k, f, TextOp::Pop),
                    None => {},
                },
                None => {},
            }
        },
        _ => {},
    }
}

/// Applies an action while editing the equipment at `k` of the step at
/// `i`.
fn apply_equipment_action(app: &mut App, st: &mut State, i: usize, k: usize, act: KeyAction)
    requires
        old(st).editing_state == EditingState::Equipment(i, k),
        equipment_defined(*old(app), *old(st), i, k, act),
        old(st).wf(),
    ensures
        equipment_effect(*old(app), *old(st), i, k, act, *final(app), *final(st)),
        final(st).wf(),
{
    match act {
        KeyAction::Exit => {
            if st.equipment_state.editing_selected_field.is_some() {
                st.equipment_state.editing_selected_field = None;
            } else {
                st.editing_state = EditingState::Recipe;
            }
        },
        KeyAction::FieldUp => {
            if st.equipment_state.editing_selected_field.is_none() {
                st.equipment_state.selected_field.decrement();
            }
        },
        KeyAction::FieldDown => {
            if st.equipment_state.editing_selected_field.is_none() {
                st.equipment_state.selected_field.increment();
            }
        },
        KeyAction::ItemUp => {
            if st.equipment_state.editing_selected_field.is_none() {
                st.equipment_state.selected_field = RangedWrapping { value: 0, min: 0, max: equipment::NUM_FIELDS };
                let p = if k == 0 {
                    0
                } else {
                    k - 1
                };
                st.editing_state = EditingState::Equipment(i, p & 3);
            }
        },
        KeyAction::ItemDown => {
            if st.equipment_state.editing_selected_field.is_none() {
                st.equipment_state.selected_field = RangedWrapping { value: 0, min: 0, max: equipment::NUM_FIELDS };
                let mut selected = saturating_succ_mod(k, equipment::NUM_FIELDS);
                if selected > equipment::NUM_FIELDS {
                    selected = equipment::NUM_FIELDS;
                }
                st.editing_state = EditingState::Equipment(i, selected);
            }
        },
        KeyAction::SwitchForward | KeyAction::SwitchReverse => {
            if st.equipment_state.editing_selected_field.is_none() {
                st.editing_state = EditingState::Recipe;
                st.recipe_state.selected_field = RangedWrapping { value: 0, min: 0, max: recipe::NUM_FIELDS };
            }
        },
        KeyAction::StartEdit => {
            st.equipment_state.editing_selected_field = EquipmentFields::from_index(
                st.equipment_state.selected_field.value,
            );
        },
        KeyAction::TypeChar(c) => {
            let field = st.equipment_state.editing_selected_field;
            match &mut app.edit_recipe {
                Some(r) => match field {
                    Some(EquipmentFields::Name) => edit_equipment_field(r, i, k, EquipmentFields::Name, TextOp::Push(c)),
                    Some(EquipmentFields::Description) => edit_equipment_field(
                        r,
                        i,
                        k,
                        EquipmentFields::Description,
                        TextOp::Push(c),
                    ),
                    _ => {},
                },
                None => {},
            }
        },
        KeyAction::BackDelete => {
            let field = st.equipment_state.editing_selected_field;
            match &mut app.edit_recipe {
                Some(r) => match field {
                    Some(EquipmentFields::Name) => edit_equipment_field(r, i, k, EquipmentFields::Name, TextOp::Pop),
                    Some(EquipmentFields::Description) => edit_equipment_field(
                        r,
                        i,
                        k,
                        EquipmentFields::Description,
                        TextOp::Pop,
                    ),
                    _ => {},
                },
                None => {},
            }
        },
        _ => {},
    }
}

/// Answers the save prompt with the selected choice.
fn apply_prompt_confirm(app: &mut App, st: &mut State)
    requires
        old(st).wf(),
    ensures
        prompt_confirm_effect(*old(app), *old(st), *final(app), *final(st)),
        final(st).wf(),
{
    let v = st.save_prompt_state.value();
    if v == 0 {
        let mut taken: Option<Recipe> = None;
        std::mem::swap(&mut taken, &mut app.edit_recipe);
        match taken {
            Some(r) => {
                app.recipes.insert(r.id, r);
            },
            None => {},
        }
    } else if v == 1 {
        app.edit_recipe = None;
    }
    if v == 2 {
        st.editing_state = EditingState::Recipe;
    } else {
        app.current_screen = CurrentScreen::RecipeBrowser;
    }
}

/// Applies an action.
fn apply_action(app: &mut App, st: &mut State, act: KeyAction)
    requires
        action_defined(*old(app), *old(st), act),
        old(st).wf(),
    ensures
        action_effect(*old(app), *old(st), act, *final(app), *final(st)),
        final(st).wf(),
{
    match act {
        KeyAction::Nothing => {},
        KeyAction::Quit => app.exit(),
        KeyAction::NewRecipe => {
            app.edit_recipe = Some(Recipe::new());
            st.editing_state = EditingState::Recipe;
            app.current_screen = CurrentScreen::RecipeCreator;
        },
        KeyAction::ListDown => {
            match st.recipe_list_selected {
                Some(x) => {
                    let y = if x == usize::MAX {
                        0
                    } else {
                        x + 1
                    };
                    st.recipe_list_selected = Some(y % st.recipe_list_len);
                },
                None => {},
            }
        },
        KeyAction::ListUp => {
            match st.recipe_list_selected {
                Some(x) => {
                    let y = if x == 0 {
                        usize::MAX
                    } else {
                        x - 1
                    };
                    st.recipe_list_selected = Some(y % st.recipe_list_len);
                },
                None => {},
            }
        },
        KeyAction::LeaveViewer => {
            app.current_screen = CurrentScreen::RecipeBrowser;
        },
        KeyAction::PromptPrevious => st.save_prompt_state.select_previous(),
        KeyAction::PromptNext => st.save_prompt_state.select_next(),
        KeyAction::PromptConfirm => apply_prompt_confirm(app, st),
        _ => {
            match st.editing_state {
                EditingState::Recipe => apply_recipe_action(app, st, act),
                EditingState::Step(i) => apply_step_action(app, st, i, act),
                EditingState::Ingredient(i, k) => apply_ingredient_action(app, st, i, k, act),
                EditingState::Equipment(i, k) => apply_equipment_action(app, st, i, k, act),
                EditingState::SavePrompt => {},
            }
        },
    }
}

/// `handle_key_events` handles a pressed key; a released or repeating key
/// does nothing. A core exit key stops the app, and the key then does what it
/// does on the current screen, where the user stands.
pub fn handle_key_events(app: &mut App, st: &mut State, ev: KeyEvent)
    requires
        handles(*old(app), *old(st), ev),
    ensures
        key_effect(*old(app), *old(st), ev, *final(app), *final(st)),
        final(st).wf(),
        final(app).keybinds == old(app).keybinds,
{
    if ev.kind != KeyEventKind::Press {
        return ;
    }
    let action = key_action(app, st, &ev);
    if app.keybinds.core.exit.any(ev.code, ev.modifiers) {
        app.exit();
    }
    apply_action(app, st, action);
}

/// `can_handle` decides whether the key handler handles `ev` in this state;
/// where it does not, the terminal interface stops with an error.
pub fn can_handle(app: &App, st: &State, ev: &KeyEvent) -> (b: bool)
    requires
        app.keybinds.complete(),
        st.wf(),
    ensures
        b == handles(*app, *st, *ev),
{
    if ev.kind != KeyEventKind::Press {
        return true;
    }
    let act = key_action(app, st, ev);
    match act {
        KeyAction::ListDown | KeyAction::ListUp => st.recipe_list_selected.is_none() || st.recipe_list_len > 0,
        KeyAction::Nothing | KeyAction::Quit | KeyAction::NewRecipe | KeyAction::LeaveViewer | KeyAction::PromptPrevious
        | KeyAction::PromptNext | KeyAction::PromptConfirm => true,
        _ => match st.editing_state {
            EditingState::Recipe => recipe_action_defined(app, st, act),
            EditingState::Step(i) => step_action_defined(app, st, i, act),
            EditingState::Ingredient(i, k) => ingredient_action_defined(app, st, i, k, act),
            EditingState::Equipment(i, k) => equipment_action_defined(app, st, i, k, act),
            EditingState::SavePrompt => true,
        },
    }
}

/// Decides `recipe_defined`.
fn recipe_action_defined(app: &App, st: &State, act: KeyAction) -> (b: bool)
    ensures
        b == recipe_defined(*app, *st, act),
{
    let field = st.recipe_state.editing_selected_field;
    match act {
        KeyAction::StartEdit => st.recipe_state.selected_field.value < recipe::NUM_FIELDS,
        KeyAction::NewStep => app.edit_recipe.is_some(),
        KeyAction::CursorLeft => match st.recipe_state.editing_field_cursor_position {
            Some(p) => p != 0,
            None => true,
        },
        KeyAction::CursorRight => match st.recipe_state.editing_field_cursor_position {
            Some(p) => p != u16::MAX,
            None => true,
        },
        KeyAction::BackDelete => app.edit_recipe.is_some() && field.is_some() && !matches!(
            field,
            Some(RecipeFields::AmountMade)
        ),
        KeyAction::TypeChar(_) => !(app.edit_recipe.is_some() && matches!(field, Some(RecipeFields::AmountMade))),
        KeyAction::FrontDelete | KeyAction::Confirm => false,
        _ => true,
    }
}

/// The step at `i` is in the edited recipe.
fn step_in_range(app: &App, i: usize) -> (b: bool)
    ensures
        b == (app.edit_recipe is Some && i < app.edit_recipe.unwrap().steps@.len()),
{
    match &app.edit_recipe {
        Some(r) => i < r.steps.len(),
        None => false,
    }
}

/// The edited recipe has steps, but none at `i`.
fn step_missing(app: &App, i: usize) -> (b: bool)
    ensures
        b == (app.edit_recipe is Some && app.edit_recipe.unwrap().steps@.len() > 0 && i
            >= app.edit_recipe.unwrap().steps@.len()),
{
    match &app.edit_recipe {
        Some(r) => r.steps.len() > 0 && i >= r.steps.len(),
        None => false,
    }
}

/// Decides `step_defined`.
fn step_action_defined(app: &App, st: &State, i: usize, act: KeyAction) -> (b: bool)
    ensures
        b == step_defined(*app, *st, i, act),
{
    let field = st.step_state.editing_selected_field;
    let instructions = matches!(field, Some(StepFields::Instructions));
    match act {
        KeyAction::SwitchForward | KeyAction::SwitchReverse => !(field.is_none() && step_missing(app, i)),
        KeyAction::StartEdit => st.step_state.selected_field.value < step::NUM_FIELDS,
        KeyAction::NewIngredient | KeyAction::NewEquipment => step_in_range(app, i),
        KeyAction::TypeChar(_) => !(app.edit_recipe.is_some() && instructions) || step_in_range(app, i),
        KeyAction::BackDelete => !instructions || step_in_range(app, i),
        _ => true,
    }
}

/// Decides `ingredient_in_range`.
fn ingredient_exists(app: &App, i: usize, k: usize) -> (b: bool)
    ensures
        b == ingredient_in_range(*app, i, k),
{
    match &app.edit_recipe {
        Some(r) => i < r.steps.len() && k < r.steps[i].ingredients.len(),
        None => false,
    }
}

/// Decides `equipment_in_range`.
fn equipment_exists(app: &App, i: usize, k: usize) -> (b: bool)
    ensures
        b == equipment_in_range(*app, i, k),
{
    match &app.edit_recipe {
        Some(r) => i < r.steps.len() && k < r.steps[i].equipment.len(),
        None => false,
    }
}

/// Decides `ingredient_defined`.
fn ingredient_action_defined(app: &App, st: &State, i: usize, k: usize, act: KeyAction) -> (b: bool)
    ensures
        b == ingredient_defined(*app, *st, i, k, act),
{
    let field = st.ingredient_state.editing_selected_field;
    match act {
        KeyAction::SwitchForward | KeyAction::SwitchReverse => !(field.is_none() && step_missing(app, i)),
        KeyAction::StartEdit => st.ingredient_state.selected_field.value < ingredient::NUM_FIELDS,
        KeyAction::TypeChar(_) => !(app.edit_recipe.is_some() && field.is_some()) || ingredient_exists(app, i, k),
        KeyAction::BackDelete => field.is_none() || ingredient_exists(app, i, k),
        KeyAction::FrontDelete | KeyAction::Confirm => false,
        _ => true,
    }
}

/// Decides `equipment_defined`.
fn equipment_action_defined(app: &App, st: &State, i: usize, k: usize, act: KeyAction) -> (b: bool)
    ensures
        b == equipment_defined(*app, *st, i, k, act),
{
    let field = st.equipment_state.editing_selected_field;
    let text_field = matches!(field, Some(EquipmentFields::Name)) || matches!(field, Some(EquipmentFields::Description));
    match act {
        KeyAction::StartEdit => st.equipment_state.selected_field.value < equipment::NUM_FIELDS,
        KeyAction::TypeChar(_) => !(app.edit_recipe.is_some() && text_field) || equipment_exists(app, i, k),
        KeyAction::BackDelete => !text_field || equipment_exists(app, i, k),
        KeyAction::FrontDelete | KeyAction::Confirm => false,
        _ => true,
    }
}

// ---------------------------------------------------------------------
// Laws.
// ---------------------------------------------------------------------

/// No action changes whether the app runs, but quitting, which stops it.
proof fn lemma_action_keeps_running(a0: App, s0: State, act: KeyAction, a1: App, s1: State)
    requires
        action_effect(a0, s0, act, a1, s1),
    ensures
        act != KeyAction::Quit ==> a1.running == a0.running,
        act == KeyAction::Quit ==> !a1.running,
        a1.keybinds == a0.keybinds,
        act != KeyAction::PromptConfirm ==> a1.recipes == a0.recipes,
{
    match act {
        KeyAction::Nothing | KeyAction::Quit | KeyAction::NewRecipe | KeyAction::ListDown | KeyAction::ListUp
        | KeyAction::LeaveViewer | KeyAction::PromptPrevious | KeyAction::PromptNext | KeyAction::PromptConfirm => {},
        _ => match s0.editing_state {
            EditingState::Recipe => {},
            EditingState::Step(i) => {},
            EditingState::Ingredient(i, k) => {},
            EditingState::Equipment(i, k) => {},
            EditingState::SavePrompt => {},
        },
    }
}

/// No key starts a stopped app, and no key changes the keybinds.
pub proof fn lemma_keys_never_start_app(a0: App, s0: State, ev: KeyEvent, a1: App, s1: State)
    requires
        key_effect(a0, s0, ev, a1, s1),
    ensures
        a1.running ==> a0.running,
        a1.keybinds == a0.keybinds,
{
    if ev.kind == KeyEventKind::Press {
        let stopped = if a0.keybinds.core.exit.spec_any(ev.code, ev.modifiers) {
            App { running: false, ..a0 }
        } else {
            a0
        };
        lemma_action_keeps_running(stopped, s0, spec_key_action(a0, s0, ev), a1, s1);
    }
}

/// A pressed core exit key stops the app, whatever the screen.
pub proof fn lemma_core_exit_stops_app(a0: App, s0: State, ev: KeyEvent, a1: App, s1: State)
    requires
        key_effect(a0, s0, ev, a1, s1),
        ev.kind == KeyEventKind::Press,
        a0.keybinds.core.exit.spec_any(ev.code, ev.modifiers),
    ensures
        !a1.running,
{
    lemma_action_keeps_running(App { running: false, ..a0 }, s0, spec_key_action(a0, s0, ev), a1, s1);
}

/// Ctrl+C force-quits without saving: with the default keybinds, whatever
/// the screen and wherever the user stands, it stops the app and leaves the
/// stored recipes as they were.
pub proof fn lemma_control_c_quits_without_saving(a0: App, s0: State, ev: KeyEvent, a1: App, s1: State)
    requires
        key_effect(a0, s0, ev, a1, s1),
        a0.keybinds.core.is_default(),
        a0.keybinds.editing.is_default(),
        ev.kind == KeyEventKind::Press,
        ev.code == KeyCode::Char('c'),
        ev.modifiers.bits == 2,
    ensures
        !a1.running,
        a1.recipes == a0.recipes,
{
    assert(a0.keybinds.core.exit.keybinds@[0].1.spec_matches(ev.code, ev.modifiers));
    let act = spec_key_action(a0, s0, ev);
    assert(!a0.keybinds.editing.confirm.spec_matches(ev.code, ev.modifiers));
    assert(act != KeyAction::PromptConfirm);
    lemma_action_keeps_running(App { running: false, ..a0 }, s0, act, a1, s1);
}

/// Only the save prompt's first answer (Yes) stores anything: any other
/// answer leaves the stored recipes as they were, and the second (No)
/// discards the edited recipe and returns to the browser.
pub proof fn lemma_only_yes_saves(a0: App, s0: State, a1: App, s1: State)
    requires
        prompt_confirm_effect(a0, s0, a1, s1),
    ensures
        s0.save_prompt_state.spec_selected().value != 0 ==> a1.recipes == a0.recipes,
        s0.save_prompt_state.spec_selected().value == 1 ==> a1.edit_recipe is None
            && a1.current_screen == CurrentScreen::RecipeBrowser,
        s0.save_prompt_state.spec_selected().value == 0 ==> match a0.edit_recipe {
            Some(r) => a1.recipes@ == a0.recipes@.insert(r.id, r) && a1.edit_recipe is None,
            None => a1.recipes == a0.recipes,
        },
{
}

/// No key changes the stored recipes except confirming Yes on the save
/// prompt, which stores the edited recipe under its ID.
pub proof fn lemma_only_saving_changes_recipes(a0: App, s0: State, ev: KeyEvent, a1: App, s1: State)
    requires
        key_effect(a0, s0, ev, a1, s1),
    ensures
        a1.recipes == a0.recipes || (s0.save_prompt_state.spec_selected().value == 0 && (a0.edit_recipe matches Some(
            r,
        ) && a1.recipes@ == a0.recipes@.insert(r.id, r))),
{
    if ev.kind == KeyEventKind::Press {
        let stopped = if a0.keybinds.core.exit.spec_any(ev.code, ev.modifiers) {
            App { running: false, ..a0 }
        } else {
            a0
        };
        let act = spec_key_action(a0, s0, ev);
        lemma_action_keeps_running(stopped, s0, act, a1, s1);
        if act == KeyAction::PromptConfirm {
            lemma_only_yes_saves(stopped, s0, a1, s1);
        }
    }
}

/// The quit key of the browser stops the app.
pub proof fn lemma_quit_stops_app(a0: App, s0: State, ev: KeyEvent, a1: App, s1: State)
    requires
        key_effect(a0, s0, ev, a1, s1),
        ev.kind == KeyEventKind::Press,
        a0.current_screen == CurrentScreen::RecipeBrowser,
        a0.keybinds.browsing.quit.spec_matches(ev.code, ev.modifiers),
    ensures
        !a1.running,
        s1 == s0,
{
    let stopped = if a0.keybinds.core.exit.spec_any(ev.code, ev.modifiers) {
        App { running: false, ..a0 }
    } else {
        a0
    };
    lemma_action_keeps_running(stopped, s0, spec_key_action(a0, s0, ev), a1, s1);
}

/// Deleting the last character undoes typing it.
pub proof fn lemma_delete_undoes_typing(s: Seq<char>, c: char)
    ensures
        edit_text(edit_text(s, TextOp::Push(c)), TextOp::Pop) == s,
{
    assert(s.push(c).drop_last() =~= s);
}

/// Typing a character into a field of the recipe and deleting it again
/// gives back the recipe, when the field is not an optional one that was
/// missing (typing creates it).
pub proof fn lemma_delete_undoes_typing_in_recipe(r0: Recipe, r1: Recipe, r2: Recipe, f: RecipeFields, c: char)
    requires
        recipe_field_edited(r0, r1, f, TextOp::Push(c)),
        recipe_field_edited(r1, r2, f, TextOp::Pop),
        f == RecipeFields::Description ==> r0.description is Some,
        f == RecipeFields::Comments ==> r0.comments is Some,
    ensures
        r2.view() == r0.view(),
{
    match f {
        RecipeFields::Name => lemma_delete_undoes_typing(r0.name@, c),
        RecipeFields::Description => lemma_delete_undoes_typing(opt_text(r0.description), c),
        RecipeFields::Comments => lemma_delete_undoes_typing(opt_text(r0.comments), c),
        RecipeFields::Source => lemma_delete_undoes_typing(r0.source@, c),
        RecipeFields::Author => lemma_delete_undoes_typing(r0.author@, c),
        RecipeFields::AmountMade => {},
    }
}

} // verus!
