use std::collections::HashMap;

use cookbook_core::datatypes::equipment::Equipment;
use cookbook_core::datatypes::ingredient::{Ingredient, UnitType};
use cookbook_core::datatypes::recipe::{AmountMade, Recipe};
use cookbook_core::datatypes::step::{Step, StepType};
use cookbook_core::rational::Rational;

fn r(n: i64, d: i64) -> Rational {
    Rational::new(n, d).unwrap()
}

fn ingredient(id: u128, name: &str, q: UnitType) -> Ingredient {
    Ingredient { id, name: name.to_string(), description: None, unit_quantity: q }
}

fn equipment(id: u128, name: &str, owned: bool) -> Equipment {
    Equipment { id, name: name.to_string(), description: None, is_owned: owned }
}

fn step(t: StepType, secs: Option<Rational>) -> Step {
    let mut s = Step::new();
    s.step_type = t;
    s.time_needed = secs;
    s
}

#[test]
fn rational_new_normalises_the_sign() {
    let q = Rational::new(3, -4).unwrap();
    assert_eq!((q.numer, q.denom), (-3, 4));
    assert!(Rational::new(1, 0).is_none());
    assert!(Rational::new(1, i64::MIN).is_none());
    assert!(r(1, 2).same_value(&r(2, 4)));
    assert!(!r(1, 2).same_value(&r(2, 3)));
    assert!(Rational::zero().is_zero());
    assert!(Rational::from_integer(0).is_zero());
}

#[test]
fn rational_checked_add() {
    let s = r(1, 2).checked_add(&r(1, 3)).unwrap();
    assert!(s.same_value(&r(5, 6)));
    assert!(r(i64::MAX, 1).checked_add(&r(1, 1)).is_none());
}

#[test]
fn total_time_sums_step_times() {
    let mut recipe = Recipe::new();
    assert!(recipe.total_time().unwrap().is_zero());
    recipe.steps.push(step(StepType::Prep, Some(r(60, 1))));
    recipe.steps.push(step(StepType::Cook, None));
    recipe.steps.push(step(StepType::Cook, Some(r(90, 1))));
    assert!(recipe.total_time().unwrap().same_value(&r(150, 1)));
}

#[test]
fn step_time_totals_by_type() {
    let mut recipe = Recipe::new();
    recipe.steps.push(step(StepType::Prep, Some(r(60, 1))));
    recipe.steps.push(step(StepType::Cook, None));
    recipe.steps.push(step(StepType::Prep, Some(r(30, 1))));
    let t = recipe.step_time_totals().unwrap();
    assert!(t.get(StepType::Prep).unwrap().unwrap().same_value(&r(90, 1)));
    assert!(t.get(StepType::Cook).unwrap().is_none());
    assert!(t.get(StepType::Wait).is_none());
    assert!(t.get(StepType::Other).is_none());
}

#[test]
fn ingredient_list_merges_the_same_item() {
    let mut recipe = Recipe::new();
    let mut a = Step::new();
    a.ingredients.push(ingredient(1, "flour", UnitType::Mass { value: r(1, 2), unit: "kg".to_string() }));
    a.ingredients.push(ingredient(2, "egg", UnitType::Quantity(r(2, 1))));
    let mut b = Step::new();
    b.ingredients.push(ingredient(1, "flour", UnitType::Mass { value: r(1, 4), unit: "kg".to_string() }));
    recipe.steps.push(a);
    recipe.steps.push(b);
    assert!(recipe.quantities_are_compatible());
    let list = recipe.ingredient_list().unwrap();
    assert_eq!(list.len(), 2);
    let flour = list.iter().find(|i| i.name == "flour").unwrap();
    match &flour.unit_quantity {
        UnitType::Mass { value, unit } => {
            assert!(value.same_value(&r(3, 4)));
            assert_eq!(unit, "kg");
        },
        _ => panic!("flour is a mass"),
    }
}

#[test]
fn incompatible_quantities_are_detected() {
    let mut recipe = Recipe::new();
    let mut a = Step::new();
    a.ingredients.push(ingredient(1, "milk", UnitType::Volume { value: r(1, 1000), unit: "L".to_string() }));
    a.ingredients.push(ingredient(1, "milk", UnitType::Volume { value: r(1, 1000), unit: "mL".to_string() }));
    recipe.steps.push(a);
    assert!(!recipe.quantities_are_compatible());
}

#[test]
fn equipment_list_keeps_first_uses_once() {
    let mut recipe = Recipe::new();
    let mut a = Step::new();
    a.equipment.push(equipment(1, "bowl", true));
    a.equipment.push(equipment(2, "oven", false));
    let mut b = Step::new();
    b.equipment.push(equipment(1, "bowl", true));
    recipe.steps.push(a);
    recipe.steps.push(b);
    let names: Vec<String> = recipe.equipment_list().iter().map(|e| e.name.clone()).collect();
    assert_eq!(names, vec!["bowl".to_string(), "oven".to_string()]);
    assert!(!recipe.all_equipment_owned());
    recipe.steps[0].equipment[1].is_owned = true;
    assert!(recipe.all_equipment_owned());
}

#[test]
fn compile_tag_list_is_sorted_without_repeats() {
    let mut recipes = HashMap::new();
    let mut a = Recipe::new();
    a.id = 1;
    a.tags = vec!["dinner".to_string(), "easy".to_string()];
    let mut b = Recipe::new();
    b.id = 2;
    b.tags = vec!["baking".to_string(), "easy".to_string()];
    recipes.insert(1, a);
    recipes.insert(2, b);
    assert_eq!(Recipe::compile_tag_list(&recipes), vec!["baking", "dinner", "easy"]);
    assert!(Recipe::compile_tag_list(&HashMap::new()).is_empty());
}

#[test]
fn amount_made_text_and_step_names() {
    let a = AmountMade { quantity: 24, units: "cookies".to_string() };
    assert_eq!(a.to_text(), "Makes: 24 cookies");
    assert_eq!(AmountMade::new().to_text(), "Makes: 0 ");
    assert_eq!(StepType::Prep.name(), "Prep");
    assert_eq!(StepType::Wait.to_string(), "Wait");
    assert_eq!(StepType::default(), StepType::Other);
}

#[test]
fn new_recipe_is_blank() {
    let recipe = Recipe::new();
    assert!(recipe.is_new());
    let mut named = Recipe::new();
    named.name = "x".to_string();
    assert!(!named.is_new());
    let copy = named.duplicate();
    assert_eq!(copy.name, "x");
}

#[test]
fn missing_id_is_filled_and_present_id_kept() {
    let mut r = Recipe::new();
    r.name = "Bread".to_string();
    r.ensure_id(42);
    assert_eq!(r.id, 42);
    assert_eq!(r.name, "Bread");
    r.ensure_id(7);
    assert_eq!(r.id, 42);
}

#[test]
fn file_stem_writes_spaces_as_underscores() {
    let mut r = Recipe::new();
    r.name = "Grandma's apple pie ".to_string();
    assert_eq!(r.file_stem(), "Grandma's_apple_pie_");
    r.name = "plain".to_string();
    assert_eq!(r.file_stem(), "plain");
}

#[test]
fn sums_are_reduced_to_lowest_terms() {
    let s = r(1, 4).checked_add(&r(1, 4)).unwrap();
    assert_eq!((s.numer, s.denom), (1, 2));
    let s = r(2, 4).checked_add(&r(3, 6)).unwrap();
    assert_eq!((s.numer, s.denom), (1, 1));
    let s = r(-1, 3).checked_add(&r(1, 3)).unwrap();
    assert_eq!((s.numer, s.denom), (0, 1));
}

#[test]
fn overflowing_totals_are_refused() {
    let mut recipe = Recipe::new();
    let mut a = Step::new();
    a.time_needed = Some(r(i64::MAX, 1));
    let mut b = Step::new();
    b.time_needed = Some(r(1, 1));
    recipe.steps = vec![a, b];
    assert!(recipe.total_time().is_none());
    assert!(recipe.step_time_totals().is_none());
}

#[test]
fn overflowing_ingredient_totals_are_refused() {
    let mut recipe = Recipe::new();
    let mut flour = Ingredient::new();
    flour.name = "flour".to_string();
    flour.unit_quantity = UnitType::Quantity(r(i64::MAX, 1));
    let mut more = Ingredient::new();
    more.name = "flour".to_string();
    more.unit_quantity = UnitType::Quantity(r(1, 1));
    let mut a = Step::new();
    a.ingredients = vec![flour];
    let mut b = Step::new();
    b.ingredients = vec![more];
    recipe.steps = vec![a, b];
    assert!(recipe.quantities_are_compatible());
    assert!(recipe.ingredient_list().is_none());
}

#[test]
fn ingredients_with_one_id_are_one_entry() {
    let mut recipe = Recipe::new();
    let mut a = Step::new();
    a.ingredients.push(ingredient(5, "flour", UnitType::Quantity(r(1, 1))));
    let mut b = Step::new();
    b.ingredients.push(ingredient(5, "plain flour", UnitType::Quantity(r(2, 1))));
    recipe.steps.push(a);
    recipe.steps.push(b);
    let list = recipe.ingredient_list().unwrap();
    assert_eq!(list.len(), 1);
    assert_eq!(list[0].id, 5);
    assert_eq!(list[0].name, "flour");
    match &list[0].unit_quantity {
        UnitType::Quantity(q) => assert!(q.same_value(&r(3, 1))),
        _ => panic!("a count"),
    }
}

#[test]
fn whole_numbers_add_up_exactly() {
    let s = r(2, 1).checked_add(&r(3, 1)).unwrap();
    assert_eq!((s.numer, s.denom), (5, 1));
    let s = r(-7, 1).checked_add(&r(7, 1)).unwrap();
    assert_eq!((s.numer, s.denom), (0, 1));
    assert!(r(i64::MIN, 1).checked_add(&r(-1, 1)).is_none());
}
