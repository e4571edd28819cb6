use std::collections::HashMap;

use cookbook_core::datatypes::recipe::{Recipe, StepTimeTotals};
use cookbook_core::datatypes::step::StepType;
use cookbook_core::rational::Rational;
use cookbook_core::store::{RecipeStore, StoreError, StoreRequest, StoreResponse};
use cookbook_core::web::{
    apply_recipe_form, browser_entries, parse_post_form_data, parse_u64, recipe_list_size, route, step_option_label,
    tag_list_size, total_or_zero, FormData, FormError, HttpMethod, Route,
};

fn named(id: u128, name: &str) -> Recipe {
    let mut r = Recipe::new();
    r.id = id;
    r.name = name.to_string();
    r
}

fn store() -> RecipeStore {
    let mut m = HashMap::new();
    m.insert(1, named(1, "Bread"));
    m.insert(2, named(2, "Soup"));
    RecipeStore::new(m)
}

fn recipe_of(r: Result<StoreResponse, StoreError>) -> Recipe {
    match r {
        Ok(StoreResponse::Recipe(r)) => r,
        other => panic!("expected a recipe, got {:?}", other),
    }
}

#[test]
fn read_only_requests() {
    let mut s = store();
    assert_eq!(recipe_of(s.handle(StoreRequest::RecipeReadOnly(2))).name, "Soup");
    assert!(matches!(s.handle(StoreRequest::RecipeReadOnly(9)), Err(StoreError::RecipeNotFound(9))));
    match s.handle(StoreRequest::AllRecipes) {
        Ok(StoreResponse::AllRecipes(m)) => assert_eq!(m.len(), 2),
        other => panic!("unexpected {:?}", other),
    }
}

#[test]
fn a_locked_recipe_is_refused_to_a_second_editor() {
    let mut s = store();
    assert_eq!(recipe_of(s.handle(StoreRequest::RecipeReadWrite(1))).name, "Bread");
    assert!(s.is_locked(1));
    assert!(matches!(s.handle(StoreRequest::RecipeReadWrite(1)), Ok(StoreResponse::EditingError(1))));
}

#[test]
fn an_edit_is_read_back_and_finishing_releases_the_lock() {
    let mut s = store();
    let _ = s.handle(StoreRequest::RecipeReadWrite(1));
    let edited = named(1, "Rye Bread");
    assert_eq!(recipe_of(s.handle(StoreRequest::EditedRecipe(edited, true))).name, "Rye Bread");
    assert!(s.is_locked(1));
    assert_eq!(recipe_of(s.handle(StoreRequest::UpdateRecipeRequest(1))).name, "Rye Bread");
    let _ = s.handle(StoreRequest::EditedRecipe(named(1, "Rye"), false));
    assert!(!s.is_locked(1));
    assert_eq!(recipe_of(s.handle(StoreRequest::RecipeReadOnly(1))).name, "Rye");
}

#[test]
fn refused_requests_change_nothing() {
    let mut s = store();
    assert!(matches!(
        s.handle(StoreRequest::EditedRecipe(named(2, "Stew"), false)),
        Err(StoreError::RecipeNotLocked(2))
    ));
    assert_eq!(recipe_of(s.handle(StoreRequest::RecipeReadOnly(2))).name, "Soup");
    assert!(matches!(s.handle(StoreRequest::UpdateRecipeRequest(2)), Err(StoreError::RecipeNotLocked(2))));
    assert!(matches!(s.handle(StoreRequest::NewRecipe(named(2, "Stew"))), Err(StoreError::RecipeAlreadyExists(2))));
    assert_eq!(recipe_of(s.handle(StoreRequest::RecipeReadOnly(2))).name, "Soup");
}

#[test]
fn a_new_recipe_can_be_read() {
    let mut s = store();
    assert_eq!(recipe_of(s.handle(StoreRequest::NewRecipe(named(3, "Pie")))).name, "Pie");
    assert_eq!(recipe_of(s.handle(StoreRequest::RecipeReadOnly(3))).name, "Pie");
    assert_eq!(s.recipes().len(), 3);
}

#[test]
fn form_data_is_decoded() {
    let form = parse_post_form_data(Some("application/x-www-form-urlencoded"), b"a=1&b=x%20y&a=2&c=a+b").unwrap();
    assert_eq!(form.get("a").unwrap(), "2");
    assert_eq!(form.get("b").unwrap(), "x y");
    assert_eq!(form.get("c").unwrap(), "a b");
    assert!(form.get("d").is_none());
    assert!(form.contains_key("b"));
    assert_eq!(form.pairs.len(), 4);
}

#[test]
fn form_data_errors() {
    assert_eq!(parse_post_form_data(Some("multipart/form-data"), b"").unwrap_err(), FormError::MultipartUnsupported);
    assert_eq!(parse_post_form_data(Some("text/plain"), b"a=1").unwrap_err(), FormError::NoFormData);
    assert_eq!(parse_post_form_data(None, b"a=1").unwrap_err(), FormError::NoFormData);
}

#[test]
fn numbers_are_read_as_u64_from_str_reads_them() {
    assert_eq!(parse_u64("24"), Some(24));
    assert_eq!(parse_u64("+7"), Some(7));
    assert_eq!(parse_u64("18446744073709551615"), Some(u64::MAX));
    assert_eq!(parse_u64("18446744073709551616"), None);
    assert_eq!(parse_u64(""), None);
    assert_eq!(parse_u64("+"), None);
    assert_eq!(parse_u64("-1"), None);
    assert_eq!(parse_u64("1.5"), None);
}

fn form(pairs: &[(&str, &str)]) -> FormData {
    FormData { pairs: pairs.iter().map(|(a, b)| (a.to_string(), b.to_string())).collect() }
}

#[test]
fn the_recipe_form_updates_the_recipe() {
    let mut r = named(5, "Old");
    let f = form(&[
        ("name", "New"),
        ("description", "d"),
        ("comments", ""),
        ("source", "s"),
        ("author", "a"),
        ("amount_made", "12"),
        ("amount_made_units", "rolls"),
    ]);
    assert_eq!(apply_recipe_form(&mut r, &f), Ok(()));
    assert_eq!(r.name, "New");
    assert_eq!(r.description.as_deref(), Some("d"));
    assert_eq!(r.comments.as_deref(), Some(""));
    assert_eq!(r.amount_made.quantity, 12);
    assert_eq!(r.amount_made.units, "rolls");
    assert_eq!(r.id, 5);
}

#[test]
fn the_recipe_form_is_refused_whole() {
    let mut r = named(5, "Old");
    let missing = form(&[("name", "New")]);
    assert_eq!(apply_recipe_form(&mut r, &missing), Err(FormError::MissingField));
    assert_eq!(r.name, "Old");
    let bad = form(&[
        ("name", "New"),
        ("description", "d"),
        ("comments", ""),
        ("source", "s"),
        ("author", "a"),
        ("amount_made", "twelve"),
        ("amount_made_units", "rolls"),
    ]);
    assert_eq!(apply_recipe_form(&mut r, &bad), Err(FormError::BadNumber));
    assert_eq!(r.name, "Old");
}

#[test]
fn routes() {
    assert_eq!(route(HttpMethod::Get, "/"), Route::Root);
    assert_eq!(route(HttpMethod::Get, "/favicon.ico"), Route::Favicon);
    assert_eq!(route(HttpMethod::Get, "/browse"), Route::PostOnly);
    assert_eq!(route(HttpMethod::Get, "/nowhere"), Route::NotFound);
    assert_eq!(route(HttpMethod::Post, "/browse"), Route::Browse);
    assert_eq!(route(HttpMethod::Post, "/save-new-recipe"), Route::SaveNewRecipe);
    assert_eq!(route(HttpMethod::Post, "/nowhere"), Route::BadRequest);
    assert_eq!(route(HttpMethod::Other, "/"), Route::MethodNotAllowed);
}

#[test]
fn list_sizes() {
    assert_eq!(tag_list_size(0, 25), 2);
    assert_eq!(tag_list_size(10, 25), 10);
    assert_eq!(tag_list_size(30, 25), 25);
    assert_eq!(recipe_list_size(1, 25), 2);
    assert_eq!(recipe_list_size(10, 25), 10);
    assert_eq!(recipe_list_size(40, 25), 25);
}

#[test]
fn browser_entries_are_sorted_by_name_and_skip_the_nil_id() {
    let mut m = HashMap::new();
    m.insert(3, named(3, "Soup"));
    m.insert(1, named(1, "Bread"));
    m.insert(0, named(0, "Draft"));
    m.insert(2, named(2, "Apple Pie"));
    let v = browser_entries(&m);
    let names: Vec<&str> = v.iter().map(|e| e.1.as_str()).collect();
    assert_eq!(names, vec!["Apple Pie", "Bread", "Soup"]);
    assert_eq!(v[0].0, 2);
}

#[test]
fn step_labels_and_totals() {
    assert_eq!(step_option_label(3, StepType::Cook), "3: Cook");
    let totals = StepTimeTotals { prep: Some(Some(Rational::from_integer(5))), cook: Some(None), wait: None, other: None };
    assert_eq!(total_or_zero(&totals, StepType::Prep).numer, 5);
    let z = total_or_zero(&totals, StepType::Cook);
    assert_eq!((z.numer, z.denom), (0, 1));
    let z = total_or_zero(&totals, StepType::Wait);
    assert_eq!((z.numer, z.denom), (0, 1));
}

#[test]
fn written_numbers_parse_back() {
    for n in [0u64, 7, 10, 99, 100, 4096, 1234567890, u64::MAX] {
        let text = cookbook_core::text::u64_to_string(n);
        assert_eq!(parse_u64(&text), Some(n));
    }
}

#[test]
fn form_uuid_fields() {
    let form = FormData {
        pairs: vec![
            ("recipe_id".to_string(), "67e55044-10b1-426f-9247-bb680e5fe0c8".to_string()),
            ("name".to_string(), "Bread".to_string()),
        ],
    };
    assert_eq!(form.get_uuid("recipe_id"), Some(0x67e5504410b1426f9247bb680e5fe0c8));
    assert_eq!(form.get_uuid("name"), None);
    assert_eq!(form.get_uuid("missing"), None);
}

#[test]
fn browser_option_lists() {
    let empty: HashMap<u128, Recipe> = HashMap::new();
    assert_eq!(cookbook_core::web::recipe_options(&empty), vec![("-1".to_string(), "No Recipes Loaded".to_string())]);
    let mut m = HashMap::new();
    m.insert(0x67e5504410b1426f9247bb680e5fe0c8, named(0x67e5504410b1426f9247bb680e5fe0c8, "Stew"));
    m.insert(2, named(2, "Bread"));
    m.insert(0, named(0, "Draft"));
    assert_eq!(
        cookbook_core::web::recipe_options(&m),
        vec![
            ("00000000-0000-0000-0000-000000000002".to_string(), "Bread".to_string()),
            ("67e55044-10b1-426f-9247-bb680e5fe0c8".to_string(), "Stew".to_string()),
        ]
    );
    assert_eq!(cookbook_core::web::tag_options(&vec![]), vec![("-1".to_string(), "No Tags Loaded".to_string())]);
    assert_eq!(
        cookbook_core::web::tag_options(&vec!["a".to_string(), "b".to_string()]),
        vec![("0".to_string(), "a".to_string()), ("1".to_string(), "b".to_string())]
    );
}

#[test]
fn form_bodies_must_be_utf8() {
    assert_eq!(
        parse_post_form_data(Some("application/x-www-form-urlencoded"), &[0x61, 0x3d, 0xff]).unwrap_err(),
        FormError::InvalidUtf8
    );
    assert!(parse_post_form_data(Some("application/x-www-form-urlencoded"), "a=é".as_bytes()).is_ok());
}
