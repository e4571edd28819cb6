use cookbook_core::datatypes::equipment::Equipment;
use cookbook_core::datatypes::ingredient::{Ingredient, UnitType};
use cookbook_core::datatypes::recipe::Recipe;
use cookbook_core::datatypes::step::{Step, StepType};
use cookbook_core::rational::Rational;
use cookbook_core::viewer::{recipe_viewer_body, StepTexts};

fn times() -> Vec<String> {
    vec!["1".to_string(), "2".to_string(), "3".to_string(), "4".to_string(), "10".to_string()]
}

#[test]
fn blank_recipe_page() {
    let body = recipe_viewer_body(&Recipe::new(), &vec![], &vec![], &vec![], &times());
    assert_eq!(
        body,
        "<h1>New Recipe</h1>\n<p></p>\n<p></p>\n<p>Source: </p>\n<p>Author: </p>\n<p>Makes: 0 </p>\n<p>Prep: 1 Cook: 2 Wait: 3 Other: 4 Total: 10</p>\n<h2>Ingredients</h2>\n<strong>No Ingredients in Recipe</strong>\n<h2>Equipment</h2>\n<strong>No Special Equipment needed for Recipe</strong>\n<h2>Steps</h2>\n<strong>No Steps in Recipe</strong>\n"
    );
}

#[test]
fn recipe_page_with_a_step() {
    let mut recipe = Recipe::new();
    recipe.name = "Tea & cake".to_string();
    let mut step = Step::new();
    step.step_type = StepType::Cook;
    step.time_needed = Some(Rational::new(60, 1).unwrap());
    step.instructions = "Boil <water>".to_string();
    step.ingredients.push(Ingredient { id: 1, name: "water".to_string(), description: None, unit_quantity: UnitType::Quantity(Rational::new(1, 1).unwrap()) });
    step.equipment.push(Equipment { id: 2, name: "kettle".to_string(), description: None, is_owned: true });
    recipe.steps.push(step);
    let texts = vec![StepTexts { time: Some("1 min".to_string()), temperature: None, quantities: vec!["1".to_string()] }];
    let totals = recipe.ingredient_list().unwrap();
    let body = recipe_viewer_body(&recipe, &texts, &totals, &vec!["1".to_string()], &times());
    assert!(body.starts_with("<h1>Tea &amp; cake</h1>\n"));
    assert!(body.contains("<h2>Ingredients</h2>\n<ul>\n<li>water: 1</li></ul>\n"));
    assert!(body.contains("<h2>Equipment</h2>\n<ul>\n<li>kettle. Owned: true</li>\n</ul>\n"));
    assert!(body.ends_with(
        "<h2>Steps</h2>\n<ol>\n<li>\n<section>\n<h3>Cook</h3>\n<p>Takes: 1 min</p>\n<ul><li>water: 1</li></ul><ul><li>kettle</li></ul><p>Boil &lt;water&gt;</p></section></li></ol>\n"
    ));
}
