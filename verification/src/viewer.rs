use vstd::prelude::*;

use crate::datatypes::equipment::{Equipment, EquipmentView};
use crate::datatypes::ingredient::Ingredient;
use crate::datatypes::recipe::{all_equipment, dedup_equipment, Recipe};
use crate::datatypes::step::{equipment_views, Step};
use crate::text::{decimal, join_str};
use crate::web::{html_escape, html_escaped};

verus! {

/// The texts of a step that the viewer shows but that are written in
/// display units elsewhere: its time and its temperature, when it has them,
/// and the quantity of each of its ingredients.
pub struct StepTexts {
    /// the time the step takes
    pub time: Option<String>,
    /// the temperature of the step
    pub temperature: Option<String>,
    /// the quantity of each ingredient of the step, in order
    pub quantities: Vec<String>,
}

/// The texts fit the step: a time and a temperature exactly where the step
/// has them, and a quantity for each of its ingredients.
pub open spec fn texts_fit(s: Step, t: StepTexts) -> bool {
    &&& (t.time is Some <==> s.time_needed is Some)
    &&& (t.temperature is Some <==> s.temperature is Some)
    &&& t.quantities@.len() == s.ingredients@.len()
}

/// A truth value as it is written.
pub open spec fn bool_text(b: bool) -> Seq<char> {
    if b {
        "true"@
    } else {
        "false"@
    }
}

/// An optional text, empty when missing.
pub open spec fn text_or_empty(o: Option<Seq<char>>) -> Seq<char> {
    match o {
        Some(t) => t,
        None => Seq::empty(),
    }
}

/// The first `n` ingredients as list items, each its name and quantity.
pub open spec fn ingredient_items(ings: Seq<Ingredient>, texts: Seq<String>, n: int) -> Seq<char>
    decreases n,
{
    if n <= 0 {
        Seq::empty()
    } else {
        ingredient_items(ings, texts, n - 1) + "<li>"@ + html_escaped(ings[n - 1].name@) + ": "@ + texts[n - 1]@
            + "</li>"@
    }
}

/// One ingredient as a list item: its name, then its quantity.
pub open spec fn ingredient_item(ing: Ingredient, text: String) -> Seq<char> {
    "<li>"@ + html_escaped(ing.name@) + ": "@ + text@ + "</li>"@
}

/// An ingredient list is its items one after another: the first `n` items
/// are the first `k`, then the items of the ingredients from `k` to `n`,
/// each listed with its own quantity text.
pub proof fn lemma_ingredient_items_split(ings: Seq<Ingredient>, texts: Seq<String>, k: int, n: int)
    requires
        0 <= k <= n <= ings.len(),
        n <= texts.len(),
    ensures
        ingredient_items(ings, texts, n) == ingredient_items(ings, texts, k) + ingredient_items(
            ings.subrange(k, n),
            texts.subrange(k, n),
            n - k,
        ),
    decreases n - k,
{
    if n > k {
        lemma_ingredient_items_split(ings, texts, k, n - 1);
        let a = ings.subrange(k, n);
        let b = texts.subrange(k, n);
        assert(ings.subrange(k, n - 1) =~= a.subrange(0, n - 1 - k));
        assert(texts.subrange(k, n - 1) =~= b.subrange(0, n - 1 - k));
        lemma_ingredient_items_prefix(a, b, n - 1 - k, ings.subrange(k, n - 1), texts.subrange(k, n - 1));
        assert(a[n - 1 - k] == ings[n - 1]);
        assert(b[n - 1 - k] == texts[n - 1]);
    } else {
        assert(ingredient_items(ings.subrange(k, n), texts.subrange(k, n), 0) == Seq::<char>::empty());
        assert(ingredient_items(ings, texts, k) + Seq::<char>::empty() =~= ingredient_items(ings, texts, k));
    }
}

/// The first `m` items depend only on the first `m` ingredients and texts.
proof fn lemma_ingredient_items_prefix(
    ings: Seq<Ingredient>,
    texts: Seq<String>,
    m: int,
    ings2: Seq<Ingredient>,
    texts2: Seq<String>,
)
    requires
        0 <= m,
        m <= ings.len(),
        m <= texts.len(),
        m <= ings2.len(),
        m <= texts2.len(),
        forall|i: int| 0 <= i < m ==> ings[i] == ings2[i] && texts[i] == texts2[i],
    ensures
        ingredient_items(ings, texts, m) == ingredient_items(ings2, texts2, m),
    decreases m,
{
    if m > 0 {
        lemma_ingredient_items_prefix(ings, texts, m - 1, ings2, texts2);
    }
}

/// The `k`-th item of an ingredient list lists the `k`-th ingredient with
/// its own quantity text: the first `k + 1` items are the first `k`, then
/// that ingredient's item.
pub proof fn lemma_ingredient_item_has_its_own_quantity(ings: Seq<Ingredient>, texts: Seq<String>, k: int)
    requires
        0 <= k < ings.len(),
        k < texts.len(),
    ensures
        ingredient_items(ings, texts, k + 1) == ingredient_items(ings, texts, k) + ingredient_item(ings[k], texts[k]),
{
}

/// The first `n` pieces of equipment as list items, each its name.
pub open spec fn equipment_items(eq: Seq<Equipment>, n: int) -> Seq<char>
    decreases n,
{
    if n <= 0 {
        Seq::empty()
    } else {
        equipment_items(eq, n - 1) + "<li>"@ + html_escaped(eq[n - 1].name@) + "</li>"@
    }
}

/// The first `n` pieces of equipment as list items, each its name and
/// whether it is owned.
pub open spec fn owned_items(eq: Seq<EquipmentView>, n: int) -> Seq<char>
    decreases n,
{
    if n <= 0 {
        Seq::empty()
    } else {
        owned_items(eq, n - 1) + "<li>"@ + html_escaped(eq[n - 1].1) + ". Owned: "@ + bool_text(eq[n - 1].3)
            + "</li>\n"@
    }
}

/// A list of equipment is its items one after another: the first `n` items
/// are the first `k`, then the items of those from `k` to `n`.
pub proof fn lemma_equipment_items_split(xs: Seq<Equipment>, k: int, n: int)
    requires
        0 <= k <= n <= xs.len(),
    ensures
        equipment_items(xs, n) == equipment_items(xs, k) + equipment_items(xs.subrange(k, n), n - k),
    decreases n - k,
{
    if n > k {
        lemma_equipment_items_split(xs, k, n - 1);
        let a = xs.subrange(k, n);
        lemma_equipment_items_prefix(a, xs.subrange(k, n - 1), n - 1 - k);
        assert(a[n - 1 - k] == xs[n - 1]);
    } else {
        assert(equipment_items(xs, k) + Seq::<char>::empty() =~= equipment_items(xs, k));
    }
}

proof fn lemma_equipment_items_prefix(xs: Seq<Equipment>, ys: Seq<Equipment>, m: int)
    requires
        0 <= m <= xs.len(),
        m <= ys.len(),
        forall|i: int| 0 <= i < m ==> xs[i] == ys[i],
    ensures
        equipment_items(xs, m) == equipment_items(ys, m),
    decreases m,
{
    if m > 0 {
        lemma_equipment_items_prefix(xs, ys, m - 1);
    }
}

/// A list of owned equipment is its items one after another: the first `n` items
/// are the first `k`, then the items of those from `k` to `n`.
pub proof fn lemma_owned_items_split(xs: Seq<EquipmentView>, k: int, n: int)
    requires
        0 <= k <= n <= xs.len(),
    ensures
        owned_items(xs, n) == owned_items(xs, k) + owned_items(xs.subrange(k, n), n - k),
    decreases n - k,
{
    if n > k {
        lemma_owned_items_split(xs, k, n - 1);
        let a = xs.subrange(k, n);
        lemma_owned_items_prefix(a, xs.subrange(k, n - 1), n - 1 - k);
        assert(a[n - 1 - k] == xs[n - 1]);
    } else {
        assert(owned_items(xs, k) + Seq::<char>::empty() =~= owned_items(xs, k));
    }
}

proof fn lemma_owned_items_prefix(xs: Seq<EquipmentView>, ys: Seq<EquipmentView>, m: int)
    requires
        0 <= m <= xs.len(),
        m <= ys.len(),
        forall|i: int| 0 <= i < m ==> xs[i] == ys[i],
    ensures
        owned_items(xs, m) == owned_items(ys, m),
    decreases m,
{
    if m > 0 {
        lemma_owned_items_prefix(xs, ys, m - 1);
    }
}

/// The time of a step, when it has one.
pub open spec fn time_part(t: StepTexts) -> Seq<char> {
    match t.time {
        Some(x) => "<p>Takes: "@ + x@ + "</p>\n"@,
        None => Seq::empty(),
    }
}

/// The temperature of a step, when it has one.
pub open spec fn temperature_part(t: StepTexts) -> Seq<char> {
    match t.temperature {
        Some(x) => "<p>Cook at: "@ + x@ + "</p>\n"@,
        None => Seq::empty(),
    }
}

/// The ingredients of a step, when it has any.
pub open spec fn step_ingredients_part(s: Step, t: StepTexts) -> Seq<char> {
    if s.ingredients@.len() == 0 {
        Seq::empty()
    } else {
        "<ul>"@ + ingredient_items(s.ingredients@, t.quantities@, s.ingredients@.len() as int) + "</ul>"@
    }
}

/// The equipment of a step, when it has any.
pub open spec fn step_equipment_part(s: Step) -> Seq<char> {
    if s.equipment@.len() == 0 {
        Seq::empty()
    } else {
        "<ul>"@ + equipment_items(s.equipment@, s.equipment@.len() as int) + "</ul>"@
    }
}

/// One step as a list item: its type, time, temperature, ingredients,
/// equipment and instructions.
pub open spec fn step_item(s: Step, t: StepTexts) -> Seq<char> {
    "<li>\n<section>\n<h3>"@ + s.step_type.spec_name() + "</h3>\n"@ + time_part(t) + temperature_part(t)
        + step_ingredients_part(s, t) + step_equipment_part(s) + "<p>"@ + html_escaped(s.instructions@)
        + "</p></section></li>"@
}

/// The first `n` steps as list items.
pub open spec fn step_items(steps: Seq<Step>, texts: Seq<StepTexts>, n: int) -> Seq<char>
    decreases n,
{
    if n <= 0 {
        Seq::empty()
    } else {
        step_items(steps, texts, n - 1) + step_item(steps[n - 1], texts[n - 1])
    }
}

/// A list of steps is its items one after another: the first `n` items
/// are the first `k`, then the items of the steps from `k` to `n`, each
/// with its own texts.
pub proof fn lemma_step_items_split(steps: Seq<Step>, texts: Seq<StepTexts>, k: int, n: int)
    requires
        0 <= k <= n <= steps.len(),
        n <= texts.len(),
    ensures
        step_items(steps, texts, n) == step_items(steps, texts, k) + step_items(
            steps.subrange(k, n),
            texts.subrange(k, n),
            n - k,
        ),
    decreases n - k,
{
    if n > k {
        lemma_step_items_split(steps, texts, k, n - 1);
        let a = steps.subrange(k, n);
        let b = texts.subrange(k, n);
        lemma_step_items_prefix(a, b, n - 1 - k, steps.subrange(k, n - 1), texts.subrange(k, n - 1));
        assert(a[n - 1 - k] == steps[n - 1]);
        assert(b[n - 1 - k] == texts[n - 1]);
    } else {
        assert(step_items(steps, texts, k) + Seq::<char>::empty() =~= step_items(steps, texts, k));
    }
}

proof fn lemma_step_items_prefix(
    steps: Seq<Step>,
    texts: Seq<StepTexts>,
    m: int,
    steps2: Seq<Step>,
    texts2: Seq<StepTexts>,
)
    requires
        0 <= m,
        m <= steps.len(),
        m <= texts.len(),
        m <= steps2.len(),
        m <= texts2.len(),
        forall|i: int| 0 <= i < m ==> steps[i] == steps2[i] && texts[i] == texts2[i],
    ensures
        step_items(steps, texts, m) == step_items(steps2, texts2, m),
    decreases m,
{
    if m > 0 {
        lemma_step_items_prefix(steps, texts, m - 1, steps2, texts2);
    }
}

/// The list of steps, or a note that there are none.
pub open spec fn step_list(steps: Seq<Step>, texts: Seq<StepTexts>) -> Seq<char> {
    if steps.len() == 0 {
        "<strong>No Steps in Recipe</strong>\n"@
    } else {
        "<ol>\n"@ + step_items(steps, texts, steps.len() as int) + "</ol>\n"@
    }
}

/// The list of the recipe's ingredients, or a note that there are none.
pub open spec fn ingredient_list_part(totals: Seq<Ingredient>, texts: Seq<String>) -> Seq<char> {
    if totals.len() == 0 {
        "<strong>No Ingredients in Recipe</strong>\n"@
    } else {
        "<ul>\n"@ + ingredient_items(totals, texts, totals.len() as int) + "</ul>\n"@
    }
}

/// The list of the recipe's equipment, or a note that none is needed.
pub open spec fn equipment_list_part(eq: Seq<EquipmentView>) -> Seq<char> {
    if eq.len() == 0 {
        "<strong>No Special Equipment needed for Recipe</strong>\n"@
    } else {
        "<ul>\n"@ + owned_items(eq, eq.len() as int) + "</ul>\n"@
    }
}

/// The title of the page: "New Recipe" for a recipe that is still blank,
/// otherwise its name.
pub open spec fn viewer_title(r: Recipe) -> Seq<char> {
    if r.is_blank() {
        "New Recipe"@
    } else {
        r.name@
    }
}

/// The body of the recipe viewer page: the title, description, comments,
/// source, author, amount made, the times by step type and in total, the
/// ingredient list, the equipment list and the steps. `times` holds the
/// prep, cook, wait, other and total times as they are shown.
pub open spec fn viewer_body(
    r: Recipe,
    step_texts: Seq<StepTexts>,
    totals: Seq<Ingredient>,
    total_texts: Seq<String>,
    times: Seq<String>,
) -> Seq<char> {
    "<h1>"@ + html_escaped(viewer_title(r)) + "</h1>\n<p>"@ + html_escaped(text_or_empty(r.description.deep_view()))
        + "</p>\n<p>"@ + html_escaped(text_or_empty(r.comments.deep_view())) + "</p>\n<p>Source: "@
        + html_escaped(r.source@) + "</p>\n<p>Author: "@ + html_escaped(r.author@) + "</p>\n<p>"@
        + html_escaped("Makes: "@ + decimal(r.amount_made.quantity as nat) + " "@ + r.amount_made.units@)
        + "</p>\n<p>Prep: "@ + times[0]@ + " Cook: "@ + times[1]@ + " Wait: "@ + times[2]@ + " Other: "@
        + times[3]@ + " Total: "@ + times[4]@ + "</p>\n<h2>Ingredients</h2>\n"@ + ingredient_list_part(
        totals,
        total_texts,
    ) + "<h2>Equipment</h2>\n"@ + equipment_list_part(
        dedup_equipment(equipment_views(all_equipment(r.steps@))),
    ) + "<h2>Steps</h2>\n"@ + step_list(r.steps@, step_texts)
}

/// Appends `t` to `s`.
fn append(s: &mut String, t: &str)
    ensures
        final(s)@ == old(s)@ + t@,
{
    *s = join_str(s, t);
}

/// The ingredients as list items.
fn ingredient_items_html(ings: &Vec<Ingredient>, texts: &Vec<String>) -> (r: String)
    requires
        texts@.len() == ings@.len(),
    ensures
        r@ == ingredient_items(ings@, texts@, ings@.len() as int),
{
    let mut r = String::new();
    let mut i: usize = 0;
    while i < ings.len()
        invariant
            i <= ings.len(),
            texts@.len() == ings@.len(),
            r@ == ingredient_items(ings@, texts@, i as int),
        decreases ings.len() - i,
    {
        append(&mut r, "<li>");
        let name = html_escape(ings[i].name.as_str());
        append(&mut r, name.as_str());
        append(&mut r, ": ");
        append(&mut r, texts[i].as_str());
        append(&mut r, "</li>");
        i += 1;
    }
    r
}

/// The pieces of equipment as list items.
fn equipment_items_html(eq: &Vec<Equipment>) -> (r: String)
    ensures
        r@ == equipment_items(eq@, eq@.len() as int),
{
    let mut r = String::new();
    let mut i: usize = 0;
    while i < eq.len()
        invariant
            i <= eq.len(),
            r@ == equipment_items(eq@, i as int),
        decreases eq.len() - i,
    {
        append(&mut r, "<li>");
        let name = html_escape(eq[i].name.as_str());
        append(&mut r, name.as_str());
        append(&mut r, "</li>");
        i += 1;
    }
    r
}

/// The time of a step, when it has one.
fn time_part_html(t: &StepTexts) -> (r: String)
    ensures
        r@ == time_part(*t),
{
    match &t.time {
        Some(x) => {
            let mut r = String::from_str("<p>Takes: ");
            append(&mut r, x.as_str());
            append(&mut r, "</p>\n");
            r
        },
        None => String::new(),
    }
}

/// The temperature of a step, when it has one.
fn temperature_part_html(t: &StepTexts) -> (r: String)
    ensures
        r@ == temperature_part(*t),
{
    match &t.temperature {
        Some(x) => {
            let mut r = String::from_str("<p>Cook at: ");
            append(&mut r, x.as_str());
            append(&mut r, "</p>\n");
            r
        },
        None => String::new(),
    }
}

/// The ingredients of a step, when it has any.
fn step_ingredients_html(s: &Step, t: &StepTexts) -> (r: String)
    requires
        texts_fit(*s, *t),
    ensures
        r@ == step_ingredients_part(*s, *t),
{
    if s.ingredients.len() == 0 {
        return String::new();
    }
    let mut r = String::from_str("<ul>");
    let items = ingredient_items_html(&s.ingredients, &t.quantities);
    append(&mut r, items.as_str());
    append(&mut r, "</ul>");
    r
}

/// The equipment of a step, when it has any.
fn step_equipment_html(s: &Step) -> (r: String)
    ensures
        r@ == step_equipment_part(*s),
{
    if s.equipment.len() == 0 {
        return String::new();
    }
    let mut r = String::from_str("<ul>");
    let items = equipment_items_html(&s.equipment);
    append(&mut r, items.as_str());
    append(&mut r, "</ul>");
    r
}

/// One step as a list item.
fn step_item_html(s: &Step, t: &StepTexts) -> (r: String)
    requires
        texts_fit(*s, *t),
    ensures
        r@ == step_item(*s, *t),
{
    let mut r = String::from_str("<li>\n<section>\n<h3>");
    append(&mut r, s.step_type.name());
    append(&mut r, "</h3>\n");
    let part = time_part_html(t);
    append(&mut r, part.as_str());
    let part = temperature_part_html(t);
    append(&mut r, part.as_str());
    let part = step_ingredients_html(s, t);
    append(&mut r, part.as_str());
    let part = step_equipment_html(s);
    append(&mut r, part.as_str());
    append(&mut r, "<p>");
    let instructions = html_escape(s.instructions.as_str());
    append(&mut r, instructions.as_str());
    append(&mut r, "</p></section></li>");
    r
}

/// The list of steps, or a note that there are none.
fn step_list_html(steps: &Vec<Step>, texts: &Vec<StepTexts>) -> (r: String)
    requires
        texts@.len() == steps@.len(),
        forall|i: int| 0 <= i < steps@.len() ==> texts_fit(#[trigger] steps@[i], texts@[i]),
    ensures
        r@ == step_list(steps@, texts@),
{
    if steps.len() == 0 {
        return String::from_str("<strong>No Steps in Recipe</strong>\n");
    }
    let mut items = String::new();
    let mut i: usize = 0;
    while i < steps.len()
        invariant
            i <= steps.len(),
            texts@.len() == steps@.len(),
            forall|k: int| 0 <= k < steps@.len() ==> texts_fit(#[trigger] steps@[k], texts@[k]),
            items@ == step_items(steps@, texts@, i as int),
        decreases steps.len() - i,
    {
        let item = step_item_html(&steps[i], &texts[i]);
        append(&mut items, item.as_str());
        i += 1;
    }
    let mut r = String::from_str("<ol>\n");
    append(&mut r, items.as_str());
    append(&mut r, "</ol>\n");
    r
}

/// The owned pieces of equipment as list items.
fn owned_items_html(eq: &Vec<Equipment>) -> (r: String)
    ensures
        r@ == owned_items(equipment_views(eq@), eq@.len() as int),
{
    let ghost v = equipment_views(eq@);
    let mut r = String::new();
    let mut i: usize = 0;
    while i < eq.len()
        invariant
            i <= eq.len(),
            v == equipment_views(eq@),
            r@ == owned_items(v, i as int),
        decreases eq.len() - i,
    {
        assert(v[i as int] == eq@[i as int].view());
        append(&mut r, "<li>");
        let name = html_escape(eq[i].name.as_str());
        append(&mut r, name.as_str());
        append(&mut r, ". Owned: ");
        if eq[i].is_owned {
            append(&mut r, "true");
        } else {
            append(&mut r, "false");
        }
        append(&mut r, "</li>\n");
        i += 1;
    }
    r
}

/// The list of the recipe's ingredients, or a note that there are none.
fn ingredient_list_html(totals: &Vec<Ingredient>, texts: &Vec<String>) -> (r: String)
    requires
        texts@.len() == totals@.len(),
    ensures
        r@ == ingredient_list_part(totals@, texts@),
{
    if totals.len() == 0 {
        return String::from_str("<strong>No Ingredients in Recipe</strong>\n");
    }
    let mut r = String::from_str("<ul>\n");
    let items = ingredient_items_html(totals, texts);
    append(&mut r, items.as_str());
    append(&mut r, "</ul>\n");
    r
}

/// The list of the recipe's equipment, or a note that none is needed.
fn equipment_list_html(eq: &Vec<Equipment>) -> (r: String)
    ensures
        r@ == equipment_list_part(equipment_views(eq@)),
{
    if eq.len() == 0 {
        return String::from_str("<strong>No Special Equipment needed for Recipe</strong>\n");
    }
    let mut r = String::from_str("<ul>\n");
    let items = owned_items_html(eq);
    append(&mut r, items.as_str());
    append(&mut r, "</ul>\n");
    r
}

/// `recipe_viewer_body` writes the body of the page that shows a recipe:
/// its title ("New Recipe" while it is blank), description, comments,
/// source, author and amount made, the times by step type and in total,
/// the list of its ingredients (or that there are none), the list of its
/// equipment, each once (or that none is needed), and its steps (or that
/// there are none), each with its type, time, temperature, ingredients,
/// equipment and instructions. The recipe's texts are escaped for HTML.
/// The quantities and times come written in display units: `step_texts`
/// for the steps, `totals` with `total_texts` for the ingredient list, and
/// `times` for the prep, cook, wait, other and total times.
pub fn recipe_viewer_body(
    recipe: &Recipe,
    step_texts: &Vec<StepTexts>,
    totals: &Vec<Ingredient>,
    total_texts: &Vec<String>,
    times: &Vec<String>,
) -> (s: String)
    requires
        step_texts@.len() == recipe.steps@.len(),
        forall|i: int| 0 <= i < recipe.steps@.len() ==> texts_fit(#[trigger] recipe.steps@[i], step_texts@[i]),
        total_texts@.len() == totals@.len(),
        times@.len() == 5,
    ensures
        s@ == viewer_body(*recipe, step_texts@, totals@, total_texts@, times@),
{
    let mut s = String::from_str("<h1>");
    let title = if recipe.is_new() {
        html_escape("New Recipe")
    } else {
        html_escape(recipe.name.as_str())
    };
    append(&mut s, title.as_str());
    append(&mut s, "</h1>\n<p>");
    let description = match &recipe.description {
        Some(d) => html_escape(d.as_str()),
        None => html_escape(String::new().as_str()),
    };
    append(&mut s, description.as_str());
    append(&mut s, "</p>\n<p>");
    let comments = match &recipe.comments {
        Some(c) => html_escape(c.as_str()),
        None => html_escape(String::new().as_str()),
    };
    append(&mut s, comments.as_str());
    append(&mut s, "</p>\n<p>Source: ");
    let source = html_escape(recipe.source.as_str());
    append(&mut s, source.as_str());
    append(&mut s, "</p>\n<p>Author: ");
    let author = html_escape(recipe.author.as_str());
    append(&mut s, author.as_str());
    append(&mut s, "</p>\n<p>");
    let amount = html_escape(recipe.amount_made.to_text().as_str());
    append(&mut s, amount.as_str());
    append(&mut s, "</p>\n<p>Prep: ");
    append(&mut s, times[0].as_str());
    append(&mut s, " Cook: ");
    append(&mut s, times[1].as_str());
    append(&mut s, " Wait: ");
    append(&mut s, times[2].as_str());
    append(&mut s, " Other: ");
    append(&mut s, times[3].as_str());
    append(&mut s, " Total: ");
    append(&mut s, times[4].as_str());
    append(&mut s, "</p>\n<h2>Ingredients</h2>\n");
    let part = ingredient_list_html(totals, total_texts);
    append(&mut s, part.as_str());
    append(&mut s, "<h2>Equipment</h2>\n");
    let equipment = recipe.equipment_list();
    let part = equipment_list_html(&equipment);
    append(&mut s, part.as_str());
    append(&mut s, "<h2>Steps</h2>\n");
    let steps = step_list_html(&recipe.steps, step_texts);
    append(&mut s, steps.as_str());
    s
}

} // verus!
