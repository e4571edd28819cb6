use std::collections::HashMap;

use cookbook_core::datatypes::recipe::{Recipe, RecipeFields};
use cookbook_core::tui::app::{App, CurrentScreen, EditingState, State};
use cookbook_core::tui::choice_popup::{self, ChoicePopup};
use cookbook_core::tui::dropdown::{Dropdown, DropdownState};
use cookbook_core::tui::keybinds::Keybinds;
use cookbook_core::tui::screen::{screen_plan, MainView, TextRole};
use cookbook_core::tui::widget_layout::{
    is_option, layout_constraints, parse_constraint_type, plan_widget, to_ascii_titlecase, ConstraintKind, FieldAttrs,
    PlanError,
};
use cookbook_core::tui::style::AppStyle;
use ratatui::style::Style;

fn plain_style() -> AppStyle {
    let s = Style::default();
    AppStyle {
        normal_text: s,
        missing_text: s,
        title_block: s,
        browse_title_text: s,
        view_title_text: s,
        create_title_text: s,
        edit_title_text: s,
        recipe_list_entries: s,
        tag_list_entries: s,
        keyboard_shortcut_text: s,
        status_block: s,
        browsing_status: s,
        viewing_status: s,
        creating_status: s,
        editing_status: s,
        save_block: s,
        yes_text: s,
        no_text: s,
        cancel_text: s,
        selected_text: s,
    }
}

fn popup() -> ChoicePopup {
    ChoicePopup::new()
        .title("Save Recipe?")
        .append_choice("Yes", Style::default())
        .append_choice("No", Style::default())
        .append_choice("Cancel", Style::default())
}

#[test]
fn choice_popup_state_wraps_around_the_choices() {
    let p = popup();
    assert_eq!(p.num_choices(), 3);
    let mut s = choice_popup::State::new(&p);
    assert_eq!(s.value(), 0);
    s.select_previous();
    assert_eq!(s.value(), 2);
    s.select_next();
    assert_eq!(s.value(), 0);
    s.select_next();
    s.select_next();
    s.select_next();
    assert_eq!(s.value(), 0);
}

#[test]
fn dropdown_keeps_entries_in_order() {
    let mut d = Dropdown::new();
    assert!(d.is_empty());
    d.add_entry("Wait".to_string());
    d.add_entry("Cook".to_string());
    d.add_entries(vec!["Prep".to_string(), "Other".to_string(), "Cook".to_string()]);
    assert_eq!(d.len(), 5);
    let entries: Vec<&str> = (0..d.len()).map(|i| d.entry(i).as_str()).collect();
    assert_eq!(entries, vec!["Cook", "Cook", "Other", "Prep", "Wait"]);
    let st = DropdownState::default();
    assert!(!st.expanded);
    assert_eq!(st.selected_entry.value, 0);
}

#[test]
fn titlecase_changes_only_an_ascii_first_letter() {
    assert_eq!(to_ascii_titlecase("amount_made"), "Amount_made");
    assert_eq!(to_ascii_titlecase("Name"), "Name");
    assert_eq!(to_ascii_titlecase(""), "");
    assert_eq!(to_ascii_titlecase("éclair"), "éclair");
    assert_eq!(to_ascii_titlecase("1st"), "1st");
}

#[test]
fn option_types_are_recognised_by_a_path_segment() {
    assert!(is_option(&vec!["Option".to_string()], false));
    assert!(is_option(&vec!["std".to_string(), "option".to_string(), "Option".to_string()], false));
    assert!(!is_option(&vec!["String".to_string()], false));
    assert!(!is_option(&vec!["Option".to_string()], true));
}

#[test]
fn constraint_types() {
    assert_eq!(parse_constraint_type("Min"), Ok(ConstraintKind::Min));
    assert_eq!(parse_constraint_type("length"), Ok(ConstraintKind::Length));
    assert_eq!(parse_constraint_type("fill"), Ok(ConstraintKind::Fill));
    assert_eq!(parse_constraint_type("Ratio"), Err(PlanError::RatioUnsupported));
    assert_eq!(parse_constraint_type("LENGTH"), Err(PlanError::UnknownConstraintType));
}

fn field(name: &str, order: Option<usize>, ty: Option<&str>, value: Option<u16>) -> FieldAttrs {
    FieldAttrs {
        name: name.to_string(),
        is_option: false,
        skip: false,
        display_order: order,
        constraint_type: ty.map(|t| t.to_string()),
        constraint_value: value,
        display_widget: None,
        left_field: false,
        right_field: false,
        field_title: None,
    }
}

fn skipped(name: &str) -> FieldAttrs {
    FieldAttrs { skip: true, ..field(name, None, None, None) }
}

/// The attributes of the fields of a step.
fn step_fields() -> Vec<FieldAttrs> {
    vec![
        skipped("id"),
        field("time_needed", Some(0), Some("Length"), Some(3)),
        skipped("time_needed_unit"),
        field("temperature", Some(1), Some("Length"), Some(3)),
        skipped("temperature_unit"),
        field("instructions", Some(2), Some("Min"), Some(7)),
        FieldAttrs { left_field: true, field_title: Some("Number Of".to_string()), ..field("ingredients", None, None, None) },
        FieldAttrs { right_field: true, ..field("equipment", None, None, None) },
        FieldAttrs { display_widget: Some("Dropdown".to_string()), ..field("step_type", Some(3), Some("Length"), Some(3)) },
    ]
}

#[test]
fn plan_of_a_step_widget() {
    let plan = plan_widget(&step_fields()).unwrap();
    assert_eq!(plan.total_height, 3 + 3 + 7 + 3 + 5);
    let titles: Vec<&str> = plan.fields.iter().map(|f| f.title.as_str()).collect();
    assert_eq!(titles, vec!["Time_needed", "Temperature", "Instructions", "Step_type"]);
    assert_eq!(plan.fields[3].widget, "Dropdown");
    assert_eq!(plan.fields[0].widget, "Paragraph");
    assert_eq!(plan.left_field.as_deref(), Some("ingredients"));
    assert_eq!(plan.right_field.as_deref(), Some("equipment"));
    let constraints = layout_constraints(&plan, 40);
    assert_eq!(
        constraints,
        vec![
            (ConstraintKind::Length, 3),
            (ConstraintKind::Length, 3),
            (ConstraintKind::Min, 7),
            (ConstraintKind::Length, 3),
            (ConstraintKind::Length, 3)
        ]
    );
}

#[test]
fn plan_orders_by_display_order_and_later_fields_replace_earlier_ones() {
    let fields = vec![
        field("b", Some(1), Some("Length"), Some(3)),
        field("a", Some(0), Some("Min"), Some(7)),
        field("c", Some(1), Some("Max"), Some(2)),
    ];
    let plan = plan_widget(&fields).unwrap();
    let names: Vec<&str> = plan.fields.iter().map(|f| f.name.as_str()).collect();
    assert_eq!(names, vec!["a", "c"]);
    // the replaced field still counts in the height
    assert_eq!(plan.total_height, 3 + 7 + 2 + 5);
}

#[test]
fn plan_errors() {
    assert_eq!(plan_widget(&vec![field("a", None, Some("Min"), Some(1))]).unwrap_err(), PlanError::MissingDisplayOrder);
    assert_eq!(plan_widget(&vec![field("a", Some(0), None, Some(1))]).unwrap_err(), PlanError::MissingConstraintType);
    assert_eq!(plan_widget(&vec![field("a", Some(0), Some("Min"), None)]).unwrap_err(), PlanError::MissingConstraintValue);
    assert_eq!(plan_widget(&vec![field("a", Some(0), Some("Ratio"), Some(1))]).unwrap_err(), PlanError::RatioUnsupported);
    let left = |n: &str| FieldAttrs { left_field: true, field_title: Some("T".to_string()), ..field(n, None, None, None) };
    assert_eq!(plan_widget(&vec![left("a"), left("b")]).unwrap_err(), PlanError::DuplicateLeftField);
    // a bottom field needs a title that is not empty
    let untitled = FieldAttrs { left_field: true, ..field("steps", None, None, None) };
    assert_eq!(plan_widget(&vec![untitled]).unwrap_err(), PlanError::MissingFieldTitle);
    let empty = FieldAttrs { right_field: true, field_title: Some(String::new()), ..field("steps", None, None, None) };
    assert_eq!(plan_widget(&vec![empty]).unwrap_err(), PlanError::EmptyFieldTitle);
    let ok = plan_widget(&vec![]).unwrap();
    assert_eq!(ok.total_height, 5);
    assert!(ok.fields.is_empty());
}

fn app_with(screen: CurrentScreen) -> (App, State) {
    let mut app = App::new(Keybinds::default(), plain_style());
    app.current_screen = screen;
    let st = State::new(&popup());
    (app, st)
}

#[test]
fn browser_screen_plan() {
    let (mut app, mut st) = app_with(CurrentScreen::RecipeBrowser);
    let plan = screen_plan(&app, &mut st);
    assert_eq!(plan.recipe_list.len(), 1);
    assert_eq!(plan.recipe_list[0].text, "No Recipes");
    assert_eq!(plan.recipe_list[0].role, TextRole::Missing);
    assert_eq!(st.recipe_list_len, 1);
    let tags = plan.tag_list.unwrap();
    assert_eq!(tags[0].text, "No Tags");
    assert_eq!(plan.title.unwrap().text, "Cookbook");
    assert_eq!(plan.status.text, "Browsing");
    let line: Vec<&str> = plan.keybind_line.iter().map(|t| t.text.as_str()).collect();
    assert_eq!(line, vec!["q: quit", " | ", "n: new", " | ", "\u{2195}: scroll to select recipe"]);
    assert_eq!(plan.keybind_area_height, 5);
    assert_eq!(plan.main, MainView::Clear);

    let mut r = Recipe::new();
    r.id = 1;
    r.name = "Bread".to_string();
    app.recipes.insert(1, r);
    app.tags = vec!["baking".to_string(), "easy".to_string()];
    let plan = screen_plan(&app, &mut st);
    assert_eq!(plan.recipe_list[0].text, "Bread");
    assert_eq!(plan.recipe_list[0].role, TextRole::RecipeEntry);
    assert_eq!(st.tag_list_len, 2);
    assert_eq!(plan.main, MainView::Preview);
}

#[test]
fn editor_screen_plan() {
    let (mut app, mut st) = app_with(CurrentScreen::RecipeCreator);
    let plan = screen_plan(&app, &mut st);
    assert!(plan.title.is_none());
    assert_eq!(plan.main, MainView::Blank);
    app.edit_recipe = Some(Recipe::new());
    let plan = screen_plan(&app, &mut st);
    assert_eq!(plan.title.unwrap().text, "New Recipe");
    assert_eq!(plan.status.text, "Creating");
    assert_eq!(plan.keybind_line.len(), 13);
    assert_eq!(plan.keybind_line[12].text, "s: Insert new Step");
    assert!(plan.tag_list.is_none());
    assert_eq!(plan.main, MainView::RecipeEditor);
    st.editing_state = EditingState::SavePrompt;
    let plan = screen_plan(&app, &mut st);
    assert_eq!(plan.keybind_line.len(), 1);
    assert_eq!(plan.keybind_line[0].text, "Save Recipe?");
    st.editing_state = EditingState::Recipe;
    st.recipe_state.editing_selected_field = Some(RecipeFields::Comments);
    st.recipe_state.editing_field_cursor_position = Some(4);
    let plan = screen_plan(&app, &mut st);
    assert_eq!(plan.cursor, Some((5, 11)));
    app.current_screen = CurrentScreen::RecipeEditor;
    app.edit_recipe.as_mut().unwrap().name = String::new();
    let plan = screen_plan(&app, &mut st);
    assert_eq!(plan.status.text, "Editing");
    assert_eq!(plan.title.unwrap().role, TextRole::EditTitle);
    let _ = HashMap::<u128, Recipe>::new();
}

#[test]
fn choice_popup_state_starts_at_the_default_choice() {
    let p = popup().set_default_choice(2);
    let s = choice_popup::State::new(&p);
    assert_eq!(s.value(), 2);
}

#[test]
fn plans_taller_than_a_u16_are_refused() {
    let fields = vec![field("a", Some(0), Some("Length"), Some(40000)), field("b", Some(1), Some("Length"), Some(25600))];
    assert_eq!(plan_widget(&fields).unwrap_err(), PlanError::TooTall);
    let fits = vec![field("a", Some(0), Some("Length"), Some(40000)), field("b", Some(1), Some("Length"), Some(25530))];
    assert_eq!(plan_widget(&fits).unwrap().total_height, 65535);
    // skipped fields count for nothing, whatever their value
    let mut big = field("c", None, Some("Length"), Some(u16::MAX));
    big.skip = true;
    assert_eq!(plan_widget(&vec![big, field("a", Some(0), Some("Length"), Some(3))]).unwrap().total_height, 8);
    // an unknown constraint type is refused whatever the values
    assert_eq!(
        plan_widget(&vec![field("a", Some(0), Some("Ratio"), Some(u16::MAX)), field("b", Some(1), Some("Length"), Some(u16::MAX))]).unwrap_err(),
        PlanError::RatioUnsupported
    );
}

#[test]
fn constraint_spelling_does_not_change_the_plan() {
    let lower = plan_widget(&vec![field("a", Some(0), Some("min"), Some(2)), field("b", Some(1), Some("fill"), Some(1))]).unwrap();
    let upper = plan_widget(&vec![field("a", Some(0), Some("Min"), Some(2)), field("b", Some(1), Some("Fill"), Some(1))]).unwrap();
    assert_eq!(lower.total_height, upper.total_height);
    assert_eq!(lower.fields.len(), upper.fields.len());
    for (l, u) in lower.fields.iter().zip(upper.fields.iter()) {
        assert_eq!(l.constraint, u.constraint);
        assert_eq!(l.constraint_value, u.constraint_value);
    }
}
