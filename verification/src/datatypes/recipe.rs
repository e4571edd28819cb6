use std::collections::HashMap;

use vstd::prelude::*;
use vstd::std_specs::hash::*;
use vstd::std_specs::iter::IteratorSpec;

use super::equipment::{clone_opt_string, Equipment, EquipmentView};
use super::ingredient::{Ingredient, UnitType};
use super::step::{equipment_views, Step, StepType, StepView};
use crate::rational::{
    frac_add, frac_eq, frac_zero, lemma_frac_add_zero, lemma_frac_sum_step, lemma_frac_zero_add, opt_pair,
    pair_of, ratio_sum, Frac, Rational,
};
use crate::text::{join_str, decimal, insert_sorted_unique, strictly_sorted, u64_to_string, views};

use crate::tui::ranged::RangedWrapping;
verus! {

broadcast use group_hash_axioms;

/// [`AmountMade`] represents the total finished quantity that the recipe
/// makes, like 24 cookies, 24 servings, 6 portions.
#[derive(Clone, Debug)]
pub struct AmountMade {
    /// amount made
    pub quantity: u64,
    /// units for amount made; not interpreted, only displayed
    pub units: String,
}

impl AmountMade {
    /// `new` returns zero of no unit: the default value.
    pub fn new() -> (a: AmountMade)
        ensures
            a.quantity == 0,
            a.units@ == Seq::<char>::empty(),
    {
        AmountMade { quantity: 0, units: String::new() }
    }

    /// `to_text` renders the amount as `Makes: <quantity> <units>`.
    pub fn to_text(&self) -> (s: String)
        ensures
            s@ == "Makes: "@ + decimal(self.quantity as nat) + " "@ + self.units@,
    {
        let s = String::from_str("Makes: ");
        let s = join_str(&s, u64_to_string(self.quantity).as_str());
        let s = join_str(&s, " ");
        join_str(&s, self.units.as_str())
    }
}

/// `Recipe` represents one recipe from start to finish.
#[derive(Clone, Debug)]
pub struct Recipe {
    /// database ID (the 128 bits of a UUID; zero is the nil UUID)
    pub id: u128,
    /// short name of recipe
    pub name: String,
    /// optional description
    pub description: Option<String>,
    /// recipe comments
    pub comments: Option<String>,
    /// recipe source
    pub source: String,
    /// recipe author
    pub author: String,
    /// amount made
    pub amount_made: AmountMade,
    /// list of steps in recipe
    pub steps: Vec<Step>,
    /// list of tags on recipe
    pub tags: Vec<String>,
    /// if the recipe has unsaved changes or not
    pub saved: bool,
}

/// The time of a step, zero when it has none.
pub open spec fn step_time(s: Step) -> Frac {
    match s.time_needed {
        Some(t) => t.value(),
        None => frac_zero(),
    }
}

/// The sum of the times of `steps`, taken in order.
pub open spec fn total_time_of(steps: Seq<Step>) -> Frac
    decreases steps.len(),
{
    if steps.len() == 0 {
        frac_zero()
    } else {
        frac_add(total_time_of(steps.drop_last()), step_time(steps.last()))
    }
}

/// The total of the step times as `total_time` adds them up, in order,
/// from `0/1`, with the sums of `Rational::checked_add`: `None` once an
/// addition overflows.
pub open spec fn time_sum(steps: Seq<Step>) -> Option<(i64, i64)>
    decreases steps.len(),
{
    if steps.len() == 0 {
        Some((0, 1))
    } else {
        match time_sum(steps.drop_last()) {
            None => None,
            Some(acc) => match steps.last().time_needed {
                None => Some(acc),
                Some(t) => ratio_sum(acc, pair_of(t)),
            },
        }
    }
}

/// Once the running total overflows it stays `None`.
proof fn lemma_time_sum_none(steps: Seq<Step>, i: int)
    requires
        0 <= i <= steps.len(),
        time_sum(steps.take(i)) is None,
    ensures
        time_sum(steps) is None,
    decreases steps.len() - i,
{
    if i < steps.len() {
        assert(steps.take(i + 1).drop_last() =~= steps.take(i));
        lemma_time_sum_none(steps, i + 1);
    } else {
        assert(steps.take(i) =~= steps);
    }
}

/// The time of a step, if it has one.
pub open spec fn opt_time(s: Step) -> Option<Frac> {
    match s.time_needed {
        Some(t) => Some(t.value()),
        None => None,
    }
}

/// Adding two optional times: absent times count for nothing, and the sum
/// of two absent times is absent.
pub open spec fn opt_frac_add(a: Option<Frac>, b: Option<Frac>) -> Option<Frac> {
    match a {
        Some(x) => match b {
            Some(y) => Some(frac_add(x, y)),
            None => Some(x),
        },
        None => b,
    }
}

/// The total time of the steps of type `t`: `None` when no step has that
/// type, `Some(None)` when such steps exist but none has a time, and
/// `Some(Some(sum))` otherwise.
pub open spec fn type_total(steps: Seq<Step>, t: StepType) -> Option<Option<Frac>>
    decreases steps.len(),
{
    if steps.len() == 0 {
        None
    } else {
        let prev = type_total(steps.drop_last(), t);
        let last = steps.last();
        if last.step_type != t {
            prev
        } else {
            match prev {
                None => Some(opt_time(last)),
                Some(p) => Some(opt_frac_add(p, opt_time(last))),
            }
        }
    }
}

/// A total of `step_time_totals` by numerators and denominators.
pub open spec fn total_pairs(x: Option<Option<Rational>>) -> Option<Option<(i64, i64)>> {
    match x {
        Some(y) => Some(opt_pair(y)),
        None => None,
    }
}

/// The total of the steps of type `t` as `step_time_totals` adds them up,
/// in order, with the sums of `Rational::checked_add`: `None` once an
/// addition overflows, otherwise `Some` of the total by numerator and
/// denominator (itself absent when no step has type `t`, and holding no
/// time when none of them has one).
pub open spec fn type_sum(steps: Seq<Step>, t: StepType) -> Option<Option<Option<(i64, i64)>>>
    decreases steps.len(),
{
    if steps.len() == 0 {
        Some(None)
    } else {
        let last = steps.last();
        match type_sum(steps.drop_last(), t) {
            None => None,
            Some(prev) => if last.step_type != t {
                Some(prev)
            } else {
                match prev {
                    Some(Some(x)) => match last.time_needed {
                        None => Some(Some(Some(x))),
                        Some(y) => match ratio_sum(x, pair_of(y)) {
                            None => None,
                            Some(z) => Some(Some(Some(z))),
                        },
                    },
                    _ => Some(Some(opt_pair(last.time_needed))),
                }
            },
        }
    }
}

/// Once the total of a step type overflows it stays `None`.
proof fn lemma_type_sum_none(steps: Seq<Step>, i: int, t: StepType)
    requires
        0 <= i <= steps.len(),
        type_sum(steps.take(i), t) is None,
    ensures
        type_sum(steps, t) is None,
    decreases steps.len() - i,
{
    if i < steps.len() {
        assert(steps.take(i + 1).drop_last() =~= steps.take(i));
        lemma_type_sum_none(steps, i + 1, t);
    } else {
        assert(steps.take(i) =~= steps);
    }
}

/// An optional time held in fractions agrees with a mathematical one.
pub open spec fn opt_time_matches(r: Option<Rational>, s: Option<Frac>) -> bool {
    match r {
        Some(x) => s matches Some(y) && x.wf() && frac_eq(x.value(), y),
        None => s is None,
    }
}

/// A total held in fractions agrees with a mathematical one.
pub open spec fn total_matches(r: Option<Option<Rational>>, s: Option<Option<Frac>>) -> bool {
    match r {
        Some(x) => s matches Some(y) && opt_time_matches(x, y),
        None => s is None,
    }
}

/// The ingredients of all steps, step after step.
pub open spec fn all_ingredients(steps: Seq<Step>) -> Seq<Ingredient>
    decreases steps.len(),
{
    if steps.len() == 0 {
        Seq::empty()
    } else {
        all_ingredients(steps.drop_last()) + steps.last().ingredients@
    }
}

/// The equipment of all steps, step after step.
pub open spec fn all_equipment(steps: Seq<Step>) -> Seq<Equipment>
    decreases steps.len(),
{
    if steps.len() == 0 {
        Seq::empty()
    } else {
        all_equipment(steps.drop_last()) + steps.last().equipment@
    }
}

/// The sum of the amounts of the ingredients with the database ID `k`.
pub open spec fn key_total(ings: Seq<Ingredient>, k: u128) -> Frac
    decreases ings.len(),
{
    if ings.len() == 0 {
        frac_zero()
    } else if ings.last().item() == k {
        frac_add(key_total(ings.drop_last(), k), ings.last().unit_quantity.amount())
    } else {
        key_total(ings.drop_last(), k)
    }
}

/// The total of the quantities of the ingredients with the database ID `k`, as
/// `ingredient_list` adds them up, in order, with the sums of
/// `Rational::checked_add`, by numerator and denominator: `None` when no
/// ingredient is `k`, `Some(None)` once an addition overflows.
pub open spec fn key_sum(ings: Seq<Ingredient>, k: u128) -> Option<Option<(i64, i64)>>
    decreases ings.len(),
{
    if ings.len() == 0 {
        None
    } else {
        let prev = key_sum(ings.drop_last(), k);
        let last = ings.last();
        if last.item() != k {
            prev
        } else {
            match prev {
                None => Some(Some(last.unit_quantity.amount_pair())),
                Some(None) => Some(None),
                Some(Some(x)) => Some(ratio_sum(x, last.unit_quantity.amount_pair())),
            }
        }
    }
}

/// Each entry of `out` holds the total that `key_sum` gives its item in
/// `ings`, and no item's total has overflowed.
#[verifier::opaque]
pub open spec fn sums_match(out: Seq<Ingredient>, ings: Seq<Ingredient>) -> bool {
    &&& forall|i: int| 0 <= i < out.len() ==> key_sum(ings, (#[trigger] out[i]).item()) == Some(
        Some(out[i].unit_quantity.amount_pair()),
    )
    &&& forall|k: u128| #[trigger] key_sum(ings, k) != Some(None::<(i64, i64)>)
}

/// An item that does not occur has no total.
proof fn lemma_key_sum_absent(ings: Seq<Ingredient>, k: u128)
    requires
        forall|j: int| 0 <= j < ings.len() ==> (#[trigger] ings[j]).item() != k,
    ensures
        key_sum(ings, k) is None,
    decreases ings.len(),
{
    if ings.len() > 0 {
        lemma_key_sum_absent(ings.drop_last(), k);
    }
}

/// Once the total of an item overflows it stays overflowed.
proof fn lemma_key_sum_failed(ings: Seq<Ingredient>, n: int, k: u128)
    requires
        0 <= n <= ings.len(),
        key_sum(ings.take(n), k) == Some(None::<(i64, i64)>),
    ensures
        key_sum(ings, k) == Some(None::<(i64, i64)>),
    decreases ings.len() - n,
{
    if n < ings.len() {
        assert(ings.take(n + 1).drop_last() =~= ings.take(n));
        lemma_key_sum_failed(ings, n + 1, k);
    } else {
        assert(ings.take(n) =~= ings);
    }
}

/// Ingredients that are the same item have quantities that can be added.
pub open spec fn quantities_compatible(ings: Seq<Ingredient>) -> bool {
    forall|i: int, j: int|
        0 <= i < ings.len() && 0 <= j < ings.len() && #[trigger] ings[i].item() == #[trigger] ings[j].item()
            ==> ings[i].unit_quantity.compatible(ings[j].unit_quantity)
}

/// `out` is the list of distinct items (database IDs) of `ings`, each once,
/// with the name and description of one of its occurrences and the sum of
/// its quantities.
pub open spec fn is_ingredient_total(out: Seq<Ingredient>, ings: Seq<Ingredient>) -> bool {
    &&& forall|i: int, j: int| 0 <= i < j < out.len() ==> #[trigger] out[i].item() != #[trigger] out[j].item()
    &&& forall|j: int| 0 <= j < ings.len() ==> exists|i: int| 0 <= i < out.len() && #[trigger] out[i].item() == #[trigger] ings[j].item()
    &&& forall|i: int| 0 <= i < out.len() ==> exists|j: int| 0 <= j < ings.len()
        && #[trigger] out[i].item() == #[trigger] ings[j].item()
        && out[i].key() == ings[j].key()
        && out[i].unit_quantity.kind() == ings[j].unit_quantity.kind()
    &&& forall|i: int| 0 <= i < out.len() ==> (#[trigger] out[i]).unit_quantity.wf() && frac_eq(
        out[i].unit_quantity.amount(),
        key_total(ings, out[i].item()),
    )
}

/// The equipment views of `s` with repeats removed, first occurrences kept.
pub open spec fn dedup_equipment(s: Seq<EquipmentView>) -> Seq<EquipmentView>
    decreases s.len(),
{
    if s.len() == 0 {
        Seq::empty()
    } else {
        let d = dedup_equipment(s.drop_last());
        if d.contains(s.last()) {
            d
        } else {
            d.push(s.last())
        }
    }
}

/// The tags carried by the recipes of `m`.
pub open spec fn tags_of(m: Map<u128, Recipe>) -> Set<Seq<char>> {
    Set::new(
        |t: Seq<char>|
            exists|r: Recipe| #[trigger] m.values().contains(r) && views(r.tags@).contains(t),
    )
}

/// The tags carried by the recipes of `s`.
pub open spec fn tags_of_seq(s: Seq<Recipe>) -> Set<Seq<char>> {
    Set::new(
        |t: Seq<char>|
            exists|i: int| 0 <= i < s.len() && views((#[trigger] s[i]).tags@).contains(t),
    )
}

/// The totals of time by step type, as `step_time_totals` returns them:
/// for each type, `None` when no step has it, otherwise the optional sum
/// of the times of its steps.
#[derive(Clone, Debug)]
pub struct StepTimeTotals {
    /// total of prep steps
    pub prep: Option<Option<Rational>>,
    /// total of cook steps
    pub cook: Option<Option<Rational>>,
    /// total of waiting steps
    pub wait: Option<Option<Rational>>,
    /// total of other steps
    pub other: Option<Option<Rational>>,
}

impl StepTimeTotals {
    /// The total of step type `t`.
    pub open spec fn spec_get(self, t: StepType) -> Option<Option<Rational>> {
        match t {
            StepType::Prep => self.prep,
            StepType::Cook => self.cook,
            StepType::Wait => self.wait,
            StepType::Other => self.other,
        }
    }

    /// `get` returns the total of step type `t`.
    pub fn get(&self, t: StepType) -> (r: Option<Option<Rational>>)
        ensures
            r == self.spec_get(t),
    {
        match t {
            StepType::Prep => self.prep,
            StepType::Cook => self.cook,
            StepType::Wait => self.wait,
            StepType::Other => self.other,
        }
    }

    fn set(&mut self, t: StepType, v: Option<Option<Rational>>)
        ensures
            final(self).spec_get(t) == v,
            forall|u: StepType| u != t ==> final(self).spec_get(u) == old(self).spec_get(u),
    {
        match t {
            StepType::Prep => self.prep = v,
            StepType::Cook => self.cook = v,
            StepType::Wait => self.wait = v,
            StepType::Other => self.other = v,
        }
    }
}

proof fn lemma_all_ingredients_take(steps: Seq<Step>, s: int)
    requires
        0 <= s < steps.len(),
    ensures
        all_ingredients(steps.take(s + 1)) == all_ingredients(steps.take(s)) + steps[s].ingredients@,
{
    assert(steps.take(s + 1).drop_last() =~= steps.take(s));
}

proof fn lemma_all_equipment_take(steps: Seq<Step>, s: int)
    requires
        0 <= s < steps.len(),
    ensures
        all_equipment(steps.take(s + 1)) == all_equipment(steps.take(s)) + steps[s].equipment@,
{
    assert(steps.take(s + 1).drop_last() =~= steps.take(s));
}

proof fn lemma_all_ingredients_prefix(steps: Seq<Step>, s: int)
    requires
        0 <= s <= steps.len(),
    ensures
        all_ingredients(steps.take(s)).len() <= all_ingredients(steps).len(),
        all_ingredients(steps.take(s)) == all_ingredients(steps).take(
            all_ingredients(steps.take(s)).len() as int,
        ),
    decreases steps.len() - s,
{
    if s == steps.len() {
        assert(steps.take(s) =~= steps);
        assert(all_ingredients(steps).take(all_ingredients(steps).len() as int) =~= all_ingredients(steps));
    } else {
        lemma_all_ingredients_prefix(steps, s + 1);
        lemma_all_ingredients_take(steps, s);
        let a = all_ingredients(steps.take(s));
        let b = all_ingredients(steps.take(s + 1));
        let c = all_ingredients(steps);
        assert(a =~= b.take(a.len() as int));
        assert(a =~= c.take(a.len() as int));
    }
}

/// Adds `ing` to the totals `out` of the ingredients `seen`: into the entry
/// of the same item, or as a new entry. Returns `false` when the sum
/// overflows.
#[verifier::spinoff_prover]
#[verifier::rlimit(50)]
fn merge_into(out: &mut Vec<Ingredient>, ing: &Ingredient, Ghost(seen): Ghost<Seq<Ingredient>>) -> (ok: bool)
    requires
        is_ingredient_total(old(out)@, seen),
        ing.unit_quantity.wf(),
        forall|j: int|
            0 <= j < seen.len() && (#[trigger] seen[j]).item() == ing.item()
                ==> seen[j].unit_quantity.compatible(ing.unit_quantity),
        sums_match(old(out)@, seen),
    ensures
        ok ==> is_ingredient_total(final(out)@, seen.push(*ing)),
        ok ==> sums_match(final(out)@, seen.push(*ing)),
        !ok <==> key_sum(seen.push(*ing), ing.item()) == Some(None::<(i64, i64)>),
{
    assert(seen.push(*ing).drop_last() =~= seen);
    let mut p: usize = 0;
    loop
        invariant
            p <= out.len(),
            out@ == old(out)@,
            forall|x: int| 0 <= x < p ==> (#[trigger] out@[x]).item() != ing.item(),
        ensures
            p <= out.len(),
            out@ == old(out)@,
            forall|x: int| 0 <= x < p ==> (#[trigger] out@[x]).item() != ing.item(),
            p < out.len() ==> out@[p as int].item() == ing.item(),
        decreases out.len() - p,
    {
        if p >= out.len() {
            break;
        }
        if out[p].same_item(ing) {
            break;
        }
        p += 1;
    }
    let ghost old_out = out@;
    if p < out.len() {
        proof {
            let j = choose|j: int|
                0 <= j < seen.len() && #[trigger] old_out[p as int].item() == #[trigger] seen[j].item()
                    && old_out[p as int].unit_quantity.kind() == seen[j].unit_quantity.kind();
            assert(seen[j].unit_quantity.compatible(ing.unit_quantity));
        }
        let sum = match out[p].unit_quantity.checked_add(&ing.unit_quantity) {
            Some(q) => q,
            None => {
                proof {
                    lemma_sums_at(old_out, seen, p as int);
                }
                return false;
            },
        };
        let merged = Ingredient {
            id: out[p].id,
            name: out[p].name.clone(),
            description: clone_opt_string(&out[p].description),
            unit_quantity: sum,
        };
        out.set(p, merged);
        proof {
            lemma_merge_update(old_out, out@, seen, *ing, p as int);
            lemma_sums_update(old_out, out@, seen, *ing, p as int);
        }
        true
    } else {
        let dup = ing.duplicate();
        proof {
            lemma_merge_new(old_out, seen, *ing, dup);
        }
        out.push(dup);
        proof {
            lemma_sums_new(old_out, out@, seen, *ing);
        }
        true
    }
}

proof fn lemma_sums_at(out: Seq<Ingredient>, seen: Seq<Ingredient>, p: int)
    requires
        sums_match(out, seen),
        0 <= p < out.len(),
    ensures
        key_sum(seen, out[p].item()) == Some(Some(out[p].unit_quantity.amount_pair())),
{
    reveal(sums_match);
}

proof fn lemma_sums_update(
    old_out: Seq<Ingredient>,
    nout: Seq<Ingredient>,
    seen: Seq<Ingredient>,
    ing: Ingredient,
    p: int,
)
    requires
        sums_match(old_out, seen),
        0 <= p < old_out.len(),
        nout.len() == old_out.len(),
        forall|i: int| 0 <= i < nout.len() && i != p ==> nout[i] == old_out[i],
        forall|i: int, j: int| 0 <= i < j < old_out.len() ==> #[trigger] old_out[i].item() != #[trigger] old_out[j].item(),
        old_out[p].item() == ing.item(),
        nout[p].item() == ing.item(),
        ratio_sum(old_out[p].unit_quantity.amount_pair(), ing.unit_quantity.amount_pair()) == Some(
            nout[p].unit_quantity.amount_pair(),
        ),
    ensures
        sums_match(nout, seen.push(ing)),
        key_sum(seen.push(ing), ing.item()) != Some(None::<(i64, i64)>),
{
    reveal(sums_match);
    let all = seen.push(ing);
    assert(all.drop_last() =~= seen);
    let k = ing.item();
    assert(key_sum(seen, old_out[p].item()) == Some(Some(old_out[p].unit_quantity.amount_pair())));
    assert forall|i: int| 0 <= i < nout.len() implies key_sum(all, (#[trigger] nout[i]).item()) == Some(
        Some(nout[i].unit_quantity.amount_pair()),
    ) by {
        if i != p {
            assert(nout[i] == old_out[i]);
            assert(key_sum(seen, old_out[i].item()) == Some(Some(old_out[i].unit_quantity.amount_pair())));
            if i < p {
                assert(old_out[i].item() != old_out[p].item());
            } else {
                assert(old_out[p].item() != old_out[i].item());
            }
        }
    }
    assert forall|k2: u128| #[trigger] key_sum(all, k2) != Some(None::<(i64, i64)>) by {
        assert(key_sum(seen, k2) != Some(None::<(i64, i64)>));
    }
}

proof fn lemma_sums_new(old_out: Seq<Ingredient>, nout: Seq<Ingredient>, seen: Seq<Ingredient>, ing: Ingredient)
    requires
        sums_match(old_out, seen),
        is_ingredient_total(old_out, seen),
        forall|x: int| 0 <= x < old_out.len() ==> (#[trigger] old_out[x]).item() != ing.item(),
        nout.len() == old_out.len() + 1,
        forall|i: int| 0 <= i < old_out.len() ==> nout[i] == old_out[i],
        nout.last().item() == ing.item(),
        nout.last().unit_quantity.amount_pair() == ing.unit_quantity.amount_pair(),
    ensures
        sums_match(nout, seen.push(ing)),
        key_sum(seen.push(ing), ing.item()) != Some(None::<(i64, i64)>),
{
    reveal(sums_match);
    let all = seen.push(ing);
    assert(all.drop_last() =~= seen);
    let k = ing.item();
    assert forall|j: int| 0 <= j < seen.len() implies (#[trigger] seen[j]).item() != k by {
        if seen[j].item() == k {
            let i = choose|i: int| 0 <= i < old_out.len() && #[trigger] old_out[i].item() == #[trigger] seen[j].item();
            assert(old_out[i].item() != k);
        }
    }
    lemma_key_sum_absent(seen, k);
    assert forall|i: int| 0 <= i < nout.len() implies key_sum(all, (#[trigger] nout[i]).item()) == Some(
        Some(nout[i].unit_quantity.amount_pair()),
    ) by {
        if i < old_out.len() {
            assert(nout[i] == old_out[i]);
            assert(key_sum(seen, old_out[i].item()) == Some(Some(old_out[i].unit_quantity.amount_pair())));
        }
    }
    assert forall|k2: u128| #[trigger] key_sum(all, k2) != Some(None::<(i64, i64)>) by {
        assert(key_sum(seen, k2) != Some(None::<(i64, i64)>));
    }
}

#[verifier::spinoff_prover]
proof fn lemma_merge_update(
    old_out: Seq<Ingredient>,
    nout: Seq<Ingredient>,
    seen: Seq<Ingredient>,
    ing: Ingredient,
    p: int,
)
    requires
        is_ingredient_total(old_out, seen),
        0 <= p < old_out.len(),
        nout.len() == old_out.len(),
        forall|i: int| 0 <= i < nout.len() && i != p ==> nout[i] == old_out[i],
        old_out[p].item() == ing.item(),
        nout[p].item() == ing.item(),
        nout[p].key() == old_out[p].key(),
        nout[p].unit_quantity.kind() == old_out[p].unit_quantity.kind(),
        nout[p].unit_quantity.wf(),
        ing.unit_quantity.wf(),
        frac_eq(
            nout[p].unit_quantity.amount(),
            frac_add(old_out[p].unit_quantity.amount(), ing.unit_quantity.amount()),
        ),
    ensures
        is_ingredient_total(nout, seen.push(ing)),
{
    lemma_merge_update_covers(old_out, nout, seen, ing, p);
    lemma_merge_update_amounts(old_out, nout, seen, ing, p);
    assert forall|a: int, b: int| 0 <= a < b < nout.len() implies #[trigger] nout[a].item()
        != #[trigger] nout[b].item() by {
        assert(old_out[a].item() != old_out[b].item());
    }
}

proof fn lemma_merge_update_covers(
    old_out: Seq<Ingredient>,
    nout: Seq<Ingredient>,
    seen: Seq<Ingredient>,
    ing: Ingredient,
    p: int,
)
    requires
        is_ingredient_total(old_out, seen),
        0 <= p < old_out.len(),
        nout.len() == old_out.len(),
        forall|i: int| 0 <= i < nout.len() && i != p ==> nout[i] == old_out[i],
        old_out[p].item() == ing.item(),
        nout[p].item() == ing.item(),
        nout[p].key() == old_out[p].key(),
        nout[p].unit_quantity.kind() == old_out[p].unit_quantity.kind(),
        nout[p].unit_quantity.wf(),
        ing.unit_quantity.wf(),
        frac_eq(
            nout[p].unit_quantity.amount(),
            frac_add(old_out[p].unit_quantity.amount(), ing.unit_quantity.amount()),
        ),
    ensures
        forall|j: int| 0 <= j < seen.push(ing).len() ==> exists|i: int|
            0 <= i < nout.len() && #[trigger] nout[i].item() == #[trigger] seen.push(ing)[j].item(),
        forall|i: int| 0 <= i < nout.len() ==> exists|j: int| 0 <= j < seen.push(ing).len()
            && #[trigger] nout[i].item() == #[trigger] seen.push(ing)[j].item()
            && nout[i].key() == seen.push(ing)[j].key()
            && nout[i].unit_quantity.kind() == seen.push(ing)[j].unit_quantity.kind(),
{
    let after = seen.push(ing);
    assert forall|j: int| 0 <= j < after.len() implies exists|i: int|
        0 <= i < nout.len() && #[trigger] nout[i].item() == #[trigger] after[j].item() by {
        if j < seen.len() {
            let i = choose|i: int|
                0 <= i < old_out.len() && #[trigger] old_out[i].item() == #[trigger] seen[j].item();
            assert(nout[i].item() == after[j].item());
        } else {
            assert(nout[p].item() == after[j].item());
        }
    }
    assert forall|i: int| 0 <= i < nout.len() implies exists|j: int|
        0 <= j < after.len() && #[trigger] nout[i].item() == #[trigger] after[j].item()
            && nout[i].key() == after[j].key()
            && nout[i].unit_quantity.kind() == after[j].unit_quantity.kind() by {
        let j = choose|j: int|
            0 <= j < seen.len() && #[trigger] old_out[i].item() == #[trigger] seen[j].item()
                && old_out[i].key() == seen[j].key()
                && old_out[i].unit_quantity.kind() == seen[j].unit_quantity.kind();
        assert(after[j] == seen[j]);
        assert(nout[i].item() == after[j].item());
    }
}

proof fn lemma_merge_update_amounts(
    old_out: Seq<Ingredient>,
    nout: Seq<Ingredient>,
    seen: Seq<Ingredient>,
    ing: Ingredient,
    p: int,
)
    requires
        is_ingredient_total(old_out, seen),
        0 <= p < old_out.len(),
        nout.len() == old_out.len(),
        forall|i: int| 0 <= i < nout.len() && i != p ==> nout[i] == old_out[i],
        old_out[p].item() == ing.item(),
        nout[p].item() == ing.item(),
        nout[p].key() == old_out[p].key(),
        nout[p].unit_quantity.kind() == old_out[p].unit_quantity.kind(),
        nout[p].unit_quantity.wf(),
        ing.unit_quantity.wf(),
        frac_eq(
            nout[p].unit_quantity.amount(),
            frac_add(old_out[p].unit_quantity.amount(), ing.unit_quantity.amount()),
        ),
    ensures
        forall|i: int| 0 <= i < nout.len() ==> (#[trigger] nout[i]).unit_quantity.wf() && frac_eq(
            nout[i].unit_quantity.amount(),
            key_total(seen.push(ing), nout[i].item()),
        ),
{
    let after = seen.push(ing);
    let k = ing.item();
    assert(after.drop_last() =~= seen);
    assert forall|i: int| 0 <= i < nout.len() implies (#[trigger] nout[i]).unit_quantity.wf()
        && frac_eq(nout[i].unit_quantity.amount(), key_total(after, nout[i].item())) by {
        if i == p {
            lemma_frac_sum_step(
                nout[i].unit_quantity.amount(),
                old_out[i].unit_quantity.amount(),
                key_total(seen, k),
                ing.unit_quantity.amount(),
            );
        } else {
            assert(old_out[i].item() != old_out[p].item());
        }
    }
}

#[verifier::spinoff_prover]
proof fn lemma_merge_new(old_out: Seq<Ingredient>, seen: Seq<Ingredient>, ing: Ingredient, dup: Ingredient)
    requires
        is_ingredient_total(old_out, seen),
        forall|x: int| 0 <= x < old_out.len() ==> (#[trigger] old_out[x]).item() != ing.item(),
        ing.unit_quantity.wf(),
        dup.item() == ing.item(),
        dup.key() == ing.key(),
        dup.unit_quantity.amount() == ing.unit_quantity.amount(),
        dup.unit_quantity.kind() == ing.unit_quantity.kind(),
        dup.unit_quantity.wf(),
    ensures
        is_ingredient_total(old_out.push(dup), seen.push(ing)),
{
    let after = seen.push(ing);
    let nout = old_out.push(dup);
    let n = old_out.len() as int;
    assert(after.drop_last() =~= seen);
    assert forall|j: int| 0 <= j < seen.len() implies (#[trigger] seen[j]).item() != ing.item() by {
        let i = choose|i: int|
            0 <= i < old_out.len() && #[trigger] old_out[i].item() == #[trigger] seen[j].item();
        assert(old_out[i].item() != ing.item());
    }
    lemma_key_total_absent(seen, ing.item());
    lemma_frac_zero_add(ing.unit_quantity.amount());
    assert forall|j: int| 0 <= j < after.len() implies exists|i: int|
        0 <= i < nout.len() && #[trigger] nout[i].item() == #[trigger] after[j].item() by {
        if j < seen.len() {
            let i = choose|i: int|
                0 <= i < old_out.len() && #[trigger] old_out[i].item() == #[trigger] seen[j].item();
            assert(nout[i].item() == after[j].item());
        } else {
            assert(nout[n].item() == after[j].item());
        }
    }
    assert forall|i: int| 0 <= i < nout.len() implies exists|j: int|
        0 <= j < after.len() && #[trigger] nout[i].item() == #[trigger] after[j].item()
            && nout[i].key() == after[j].key()
            && nout[i].unit_quantity.kind() == after[j].unit_quantity.kind() by {
        if i < n {
            let j = choose|j: int|
                0 <= j < seen.len() && #[trigger] old_out[i].item() == #[trigger] seen[j].item()
                    && old_out[i].key() == seen[j].key()
                    && old_out[i].unit_quantity.kind() == seen[j].unit_quantity.kind();
            assert(after[j] == seen[j]);
            assert(nout[i].item() == after[j].item());
        } else {
            assert(nout[i].item() == after[seen.len() as int].item());
        }
    }
    assert forall|i: int| 0 <= i < nout.len() implies (#[trigger] nout[i]).unit_quantity.wf()
        && frac_eq(nout[i].unit_quantity.amount(), key_total(after, nout[i].item())) by {
        if i < n {
            assert(old_out[i].item() != ing.item());
            assert(nout[i] == old_out[i]);
        }
    }
    assert forall|a: int, b: int| 0 <= a < b < nout.len() implies #[trigger] nout[a].item()
        != #[trigger] nout[b].item() by {
        if b < n {
            assert(old_out[a].item() != old_out[b].item());
        } else {
            assert(nout[a] == old_out[a]);
        }
    }
}

proof fn lemma_all_equipment_prefix(steps: Seq<Step>, s: int)
    requires
        0 <= s <= steps.len(),
    ensures
        all_equipment(steps.take(s)).len() <= all_equipment(steps).len(),
        all_equipment(steps.take(s)) == all_equipment(steps).take(all_equipment(steps.take(s)).len() as int),
    decreases steps.len() - s,
{
    if s == steps.len() {
        assert(steps.take(s) =~= steps);
        assert(all_equipment(steps).take(all_equipment(steps).len() as int) =~= all_equipment(steps));
    } else {
        lemma_all_equipment_prefix(steps, s + 1);
        lemma_all_equipment_take(steps, s);
        let a = all_equipment(steps.take(s));
        let b = all_equipment(steps.take(s + 1));
        let c = all_equipment(steps);
        assert(a =~= b.take(a.len() as int));
        assert(a =~= c.take(a.len() as int));
    }
}

proof fn lemma_key_total_absent(ings: Seq<Ingredient>, k: u128)
    requires
        forall|j: int| 0 <= j < ings.len() ==> (#[trigger] ings[j]).item() != k,
    ensures
        key_total(ings, k) == frac_zero(),
    decreases ings.len(),
{
    if ings.len() > 0 {
        lemma_key_total_absent(ings.drop_last(), k);
    }
}

proof fn lemma_type_total_take(steps: Seq<Step>, i: int, t: StepType)
    requires
        0 <= i < steps.len(),
    ensures
        type_total(steps.take(i + 1), t) == ({
            let prev = type_total(steps.take(i), t);
            if steps[i].step_type != t {
                prev
            } else {
                match prev {
                    None => Some(opt_time(steps[i])),
                    Some(p) => Some(opt_frac_add(p, opt_time(steps[i]))),
                }
            }
        }),
{
    assert(steps.take(i + 1).drop_last() =~= steps.take(i));
}

/// The contents of a recipe.
pub struct RecipeView {
    /// database ID
    pub id: u128,
    /// name
    pub name: Seq<char>,
    /// description
    pub description: Option<Seq<char>>,
    /// comments
    pub comments: Option<Seq<char>>,
    /// source
    pub source: Seq<char>,
    /// author
    pub author: Seq<char>,
    /// amount made and its units
    pub amount_made: (u64, Seq<char>),
    /// steps
    pub steps: Seq<StepView>,
    /// tags
    pub tags: Seq<Seq<char>>,
    /// saved flag
    pub saved: bool,
}

/// The views of a list of steps.
pub open spec fn step_views(s: Seq<Step>) -> Seq<StepView> {
    s.map_values(|st: Step| st.view())
}

impl Recipe {
    /// The contents of the recipe.
    pub open spec fn view(self) -> RecipeView {
        RecipeView {
            id: self.id,
            name: self.name@,
            description: self.description.deep_view(),
            comments: self.comments.deep_view(),
            source: self.source@,
            author: self.author@,
            amount_made: (self.amount_made.quantity, self.amount_made.units@),
            steps: step_views(self.steps@),
            tags: views(self.tags@),
            saved: self.saved,
        }
    }

    /// `duplicate` returns a copy of the recipe.
    pub fn duplicate(&self) -> (r: Recipe)
        ensures
            r.view() == self.view(),
            r.wf() == self.wf(),
    {
        let mut steps: Vec<Step> = Vec::new();
        let mut i: usize = 0;
        while i < self.steps.len()
            invariant
                i <= self.steps.len(),
                steps@.len() == i,
                forall|j: int| 0 <= j < i ==> (#[trigger] steps@[j]).view() == self.steps@[j].view()
                    && steps@[j].wf() == self.steps@[j].wf(),
            decreases self.steps.len() - i,
        {
            steps.push(self.steps[i].duplicate());
            i += 1;
        }
        let mut tags: Vec<String> = Vec::new();
        let mut k: usize = 0;
        while k < self.tags.len()
            invariant
                k <= self.tags.len(),
                tags@.len() == k,
                forall|j: int| 0 <= j < k ==> (#[trigger] tags@[j])@ == self.tags@[j]@,
            decreases self.tags.len() - k,
        {
            tags.push(self.tags[k].clone());
            k += 1;
        }
        let r = Recipe {
            id: self.id,
            name: self.name.clone(),
            description: clone_opt_string(&self.description),
            comments: clone_opt_string(&self.comments),
            source: self.source.clone(),
            author: self.author.clone(),
            amount_made: AmountMade {
                quantity: self.amount_made.quantity,
                units: self.amount_made.units.clone(),
            },
            steps,
            tags,
            saved: self.saved,
        };
        assert(step_views(r.steps@) =~= step_views(self.steps@));
        assert(views(r.tags@) =~= views(self.tags@));
        assert(r.wf() == self.wf()) by {
            if self.wf() {
                assert forall|j: int| 0 <= j < r.steps@.len() implies (#[trigger] r.steps@[j]).wf() by {
                    assert(self.steps@[j].wf());
                }
            }
            if r.wf() {
                assert forall|j: int| 0 <= j < self.steps@.len() implies (#[trigger] self.steps@[j]).wf() by {
                    assert(r.steps@[j].wf());
                }
            }
        }
        r
    }

    /// Every fraction in the recipe has a positive denominator.
    pub open spec fn wf(self) -> bool {
        forall|i: int| 0 <= i < self.steps@.len() ==> (#[trigger] self.steps@[i]).wf()
    }

    /// The recipe is the one `new` returns.
    pub open spec fn is_blank(self) -> bool {
        &&& self.id == 0
        &&& self.name@.len() == 0
        &&& self.description is None
        &&& self.comments is None
        &&& self.source@.len() == 0
        &&& self.author@.len() == 0
        &&& self.amount_made.quantity == 0
        &&& self.amount_made.units@.len() == 0
        &&& self.steps@.len() == 0
        &&& self.tags@.len() == 0
        &&& !self.saved
    }

    /// `new` creates a new, empty [`Recipe`] with the nil ID.
    pub fn new() -> (r: Recipe)
        ensures
            r.is_blank(),
            r.wf(),
    {
        Recipe {
            id: 0,
            name: String::new(),
            description: None,
            comments: None,
            source: String::new(),
            author: String::new(),
            amount_made: AmountMade::new(),
            steps: Vec::new(),
            tags: Vec::new(),
            saved: false,
        }
    }

    /// `ensure_id` gives a recipe read without an ID (the nil ID) the fresh
    /// ID `fresh`; a recipe that has an ID keeps it, and nothing else changes.
    pub fn ensure_id(&mut self, fresh: u128)
        ensures
            final(self).view() == (RecipeView {
                id: if old(self).id == 0 { fresh } else { old(self).id },
                ..old(self).view()
            }),
            final(self).wf() == old(self).wf(),
    {
        if self.id == 0 {
            self.id = fresh;
        }
    }

    /// `file_stem` is the name of the recipe's file without its extension:
    /// the recipe's name with every space written as an underscore.
    pub fn file_stem(&self) -> (r: String)
        ensures
            r@ == self.name@.map_values(|c: char| if c == ' ' { '_' } else { c }),
    {
        let chars = crate::text::chars_of(self.name.as_str());
        let mut r = String::new();
        let mut i: usize = 0;
        while i < chars.len()
            invariant
                i <= chars.len(),
                chars@ == self.name@,
                r@ == chars@.take(i as int).map_values(|c: char| if c == ' ' { '_' } else { c }),
            decreases chars.len() - i,
        {
            let c = chars[i];
            if c == ' ' {
                crate::text::push_char(&mut r, '_');
            } else {
                crate::text::push_char(&mut r, c);
            }
            assert(chars@.take(i as int + 1) =~= chars@.take(i as int).push(c));
            i += 1;
        }
        assert(chars@.take(i as int) =~= chars@);
        r
    }

    /// `is_new` decides whether the recipe equals a freshly created one.
    pub fn is_new(&self) -> (b: bool)
        ensures
            b == self.is_blank(),
    {
        self.id == 0 && self.name.as_str().is_empty() && self.description.is_none()
            && self.comments.is_none() && self.source.as_str().is_empty()
            && self.author.as_str().is_empty() && self.amount_made.quantity == 0
            && self.amount_made.units.as_str().is_empty() && self.steps.len() == 0
            && self.tags.len() == 0 && !self.saved
    }

    /// `total_time` returns the total time required for the recipe, in
    /// seconds: the sum of the times of its steps, steps without a time
    /// counting for nothing. It returns `None` when the sum does not fit
    /// in `i64` fractions.
    pub fn total_time(&self) -> (r: Option<Rational>)
        requires
            self.wf(),
        ensures
            opt_pair(r) == time_sum(self.steps@),
            r matches Some(t) ==> t.wf() && frac_eq(t.value(), total_time_of(self.steps@)),
    {
        let mut acc = Rational::zero();
        let mut i: usize = 0;
        assert(self.steps@.take(0) =~= Seq::<Step>::empty());
        while i < self.steps.len()
            invariant
                i <= self.steps.len(),
                self.wf(),
                acc.wf(),
                time_sum(self.steps@.take(i as int)) == Some(pair_of(acc)),
                frac_eq(acc.value(), total_time_of(self.steps@.take(i as int))),
            decreases self.steps.len() - i,
        {
            let ghost before = acc;
            assert(self.steps@.take(i as int + 1).drop_last() =~= self.steps@.take(i as int));
            assert(self.steps@[i as int].wf());
            match self.steps[i].time_needed {
                Some(t) => {
                    match acc.checked_add(&t) {
                        Some(s) => {
                            proof {
                                lemma_frac_sum_step(
                                    s.value(),
                                    before.value(),
                                    total_time_of(self.steps@.take(i as int)),
                                    t.value(),
                                );
                            }
                            acc = s;
                        },
                        None => {
                            proof {
                                lemma_time_sum_none(self.steps@, i as int + 1);
                            }
                            return None;
                        },
                    }
                },
                None => {
                    proof {
                        lemma_frac_add_zero(total_time_of(self.steps@.take(i as int)));
                    }
                },
            }
            i += 1;
        }
        assert(self.steps@.take(self.steps.len() as int) =~= self.steps@);
        Some(acc)
    }

    /// The ingredients of all steps, step after step, as copies that agree
    /// in identity and kind of quantity.
    fn flat_ingredients(&self) -> (v: Vec<Ingredient>)
        ensures
            v@.len() == all_ingredients(self.steps@).len(),
            forall|i: int|
                0 <= i < v@.len() ==> (#[trigger] v@[i]).item() == all_ingredients(self.steps@)[i].item()
                    && v@[i].unit_quantity.kind() == all_ingredients(self.steps@)[i].unit_quantity.kind(),
    {
        let mut v: Vec<Ingredient> = Vec::new();
        let mut s: usize = 0;
        assert(self.steps@.take(0) =~= Seq::<Step>::empty());
        while s < self.steps.len()
            invariant
                s <= self.steps.len(),
                v@.len() == all_ingredients(self.steps@.take(s as int)).len(),
                forall|i: int|
                    0 <= i < v@.len() ==> (#[trigger] v@[i]).item() == all_ingredients(self.steps@.take(s as int))[i].item()
                        && v@[i].unit_quantity.kind() == all_ingredients(self.steps@.take(s as int))[i].unit_quantity.kind(),
            decreases self.steps.len() - s,
        {
            let ghost before = all_ingredients(self.steps@.take(s as int));
            let ghost ings = self.steps@[s as int].ingredients@;
            assert(self.steps@.take(s as int + 1).drop_last() =~= self.steps@.take(s as int));
            assert(all_ingredients(self.steps@.take(s as int + 1)) == before + ings);
            let mut k: usize = 0;
            while k < self.steps[s].ingredients.len()
                invariant
                    s < self.steps.len(),
                    ings == self.steps@[s as int].ingredients@,
                    k <= ings.len(),
                    v@.len() == before.len() + k,
                    forall|i: int|
                        0 <= i < v@.len() ==> (#[trigger] v@[i]).item() == (before + ings)[i].item()
                            && v@[i].unit_quantity.kind() == (before + ings)[i].unit_quantity.kind(),
                decreases ings.len() - k,
            {
                v.push(self.steps[s].ingredients[k].duplicate());
                k += 1;
            }
            s += 1;
        }
        assert(self.steps@.take(s as int) =~= self.steps@);
        v
    }

    /// `quantities_are_compatible` decides whether the ingredients that are
    /// the same item have quantities of the same kind and unit, which
    /// `ingredient_list` needs.
    pub fn quantities_are_compatible(&self) -> (b: bool)
        ensures
            b == quantities_compatible(all_ingredients(self.steps@)),
    {
        let ghost all = all_ingredients(self.steps@);
        let v = self.flat_ingredients();
        let mut i: usize = 0;
        while i < v.len()
            invariant
                i <= v.len(),
                v@.len() == all.len(),
                all == all_ingredients(self.steps@),
                forall|x: int| 0 <= x < v@.len() ==> (#[trigger] v@[x]).item() == all[x].item()
                    && v@[x].unit_quantity.kind() == all[x].unit_quantity.kind(),
                forall|a: int, b: int|
                    0 <= a < i && 0 <= b < all.len() && #[trigger] all[a].item() == #[trigger] all[b].item()
                        ==> all[a].unit_quantity.compatible(all[b].unit_quantity),
            decreases v.len() - i,
        {
            let mut j: usize = 0;
            while j < v.len()
                invariant
                    i < v.len(),
                    j <= v.len(),
                    v@.len() == all.len(),
                    all == all_ingredients(self.steps@),
                    forall|x: int| 0 <= x < v@.len() ==> (#[trigger] v@[x]).item() == all[x].item()
                        && v@[x].unit_quantity.kind() == all[x].unit_quantity.kind(),
                    forall|a: int, b: int|
                        0 <= a < i && 0 <= b < all.len() && #[trigger] all[a].item() == #[trigger] all[b].item()
                            ==> all[a].unit_quantity.compatible(all[b].unit_quantity),
                    forall|b: int|
                        0 <= b < j && all[i as int].item() == #[trigger] all[b].item() ==> all[i as int].unit_quantity.compatible(
                            all[b].unit_quantity,
                        ),
                decreases v.len() - j,
            {
                assert(v@[i as int].item() == all[i as int].item() && v@[j as int].item() == all[j as int].item());
                if v[i].same_item(&v[j]) && !v[i].unit_quantity.same_kind(&v[j].unit_quantity) {
                    assert(all[i as int].item() == all[j as int].item());
                    assert(!all[i as int].unit_quantity.compatible(all[j as int].unit_quantity));
                    return false;
                }
                j += 1;
            }
            i += 1;
        }
        true
    }

    /// `step_time_totals` provides the time required for each type of step:
    /// for each step type that occurs, the sum of the times of its steps
    /// (absent when none of them has a time). It returns `None` when a sum
    /// does not fit in `i64` fractions.
    pub fn step_time_totals(&self) -> (r: Option<StepTimeTotals>)
        requires
            self.wf(),
        ensures
            r is None <==> exists|t: StepType| #[trigger] type_sum(self.steps@, t) is None,
            r matches Some(tt) ==> forall|t: StepType|
                #[trigger] type_sum(self.steps@, t) == Some(total_pairs(tt.spec_get(t))),
            r matches Some(tt) ==> forall|t: StepType|
                total_matches(#[trigger] tt.spec_get(t), type_total(self.steps@, t)),
    {
        let mut totals = StepTimeTotals { prep: None, cook: None, wait: None, other: None };
        let mut i: usize = 0;
        assert(self.steps@.take(0) =~= Seq::<Step>::empty());
        while i < self.steps.len()
            invariant
                i <= self.steps.len(),
                self.wf(),
                forall|t: StepType|
                    total_matches(#[trigger] totals.spec_get(t), type_total(self.steps@.take(i as int), t)),
                forall|t: StepType|
                    #[trigger] type_sum(self.steps@.take(i as int), t) == Some(total_pairs(totals.spec_get(t))),
            decreases self.steps.len() - i,
        {
            assert(self.steps@.take(i as int + 1).drop_last() =~= self.steps@.take(i as int));
            let step = &self.steps[i];
            assert(self.steps@[i as int].wf());
            let t = step.step_type;
            let cur = totals.get(t);
            proof {
                lemma_type_total_take(self.steps@, i as int, t);
                assert(self.steps@.take(i as int + 1).last() == self.steps@[i as int]);
                assert(type_sum(self.steps@.take(i as int), t) == Some(total_pairs(cur)));
            }
            let new_total = match cur {
                None => Some(step.time_needed),
                Some(None) => Some(step.time_needed),
                Some(Some(x)) => match step.time_needed {
                    None => Some(Some(x)),
                    Some(y) => match x.checked_add(&y) {
                        Some(s) => {
                            proof {
                                let p = type_total(self.steps@.take(i as int), t);
                                lemma_frac_sum_step(
                                    s.value(),
                                    x.value(),
                                    p.unwrap().unwrap(),
                                    y.value(),
                                );
                            }
                            Some(Some(s))
                        },
                        None => {
                            proof {
                                lemma_type_sum_none(self.steps@, i as int + 1, t);
                            }
                            return None;
                        },
                    },
                },
            };
            assert(total_matches(new_total, type_total(self.steps@.take(i as int + 1), t)));
            assert(type_sum(self.steps@.take(i as int + 1), t) == Some(total_pairs(new_total)));
            totals.set(t, new_total);
            proof {
                assert forall|u: StepType|
                    total_matches(#[trigger] totals.spec_get(u), type_total(self.steps@.take(i as int + 1), u))
                by {
                    if u != t {
                        lemma_type_total_take(self.steps@, i as int, u);
                    }
                }
                assert forall|u: StepType|
                    #[trigger] type_sum(self.steps@.take(i as int + 1), u) == Some(total_pairs(totals.spec_get(u)))
                by {
                    if u != t {
                        assert(type_sum(self.steps@.take(i as int), u) == Some(total_pairs(totals.spec_get(u))));
                    }
                }
            }
            i += 1;
        }
        assert(self.steps@.take(self.steps.len() as int) =~= self.steps@);
        assert forall|t: StepType| !(#[trigger] type_sum(self.steps@, t) is None) by {
            assert(type_sum(self.steps@, t) == Some(total_pairs(totals.spec_get(t))));
        }
        Some(totals)
    }

    /// `ingredient_list` returns the total amount of ingredients required to
    /// make the recipe: every distinct ingredient of every step once, with
    /// the sum of the quantities the steps use of it. Ingredients are the
    /// same when they have the same database ID; their quantities must then
    /// be of the same kind and unit. It returns `None`
    /// when a sum does not fit in `i64` fractions.
    pub fn ingredient_list(&self) -> (r: Option<Vec<Ingredient>>)
        requires
            self.wf(),
            quantities_compatible(all_ingredients(self.steps@)),
        ensures
            r is None <==> exists|k: u128| #[trigger] key_sum(all_ingredients(self.steps@), k) == Some(
                None::<(i64, i64)>,
            ),
            r matches Some(out) ==> is_ingredient_total(out@, all_ingredients(self.steps@)),
            r matches Some(out) ==> forall|i: int| 0 <= i < out@.len() ==> key_sum(
                all_ingredients(self.steps@),
                (#[trigger] out@[i]).item(),
            ) == Some(Some(out@[i].unit_quantity.amount_pair())),
    {
        let ghost all = all_ingredients(self.steps@);
        let mut out: Vec<Ingredient> = Vec::new();
        let mut s: usize = 0;
        proof {
            assert(all_ingredients(self.steps@.take(0)) =~= Seq::<Ingredient>::empty());
            lemma_all_ingredients_prefix(self.steps@, 0);
            reveal(sums_match);
        }
        while s < self.steps.len()
            invariant
                s <= self.steps.len(),
                self.wf(),
                quantities_compatible(all),
                all == all_ingredients(self.steps@),
                all_ingredients(self.steps@.take(s as int)).len() <= all.len(),
                all_ingredients(self.steps@.take(s as int)) == all.take(
                    all_ingredients(self.steps@.take(s as int)).len() as int,
                ),
                is_ingredient_total(out@, all_ingredients(self.steps@.take(s as int))),
                sums_match(out@, all_ingredients(self.steps@.take(s as int))),
            decreases self.steps.len() - s,
        {
            let step = &self.steps[s];
            assert(self.steps@[s as int].wf());
            let ghost base = all_ingredients(self.steps@.take(s as int));
            proof {
                lemma_all_ingredients_take(self.steps@, s as int);
                lemma_all_ingredients_prefix(self.steps@, s as int + 1);
            }
            let mut k: usize = 0;
            while k < step.ingredients.len()
                invariant
                    k <= step.ingredients.len(),
                    step.wf(),
                    quantities_compatible(all),
                    base + step.ingredients@ == all_ingredients(self.steps@.take(s as int + 1)),
                    all_ingredients(self.steps@.take(s as int + 1)) == all.take(
                        all_ingredients(self.steps@.take(s as int + 1)).len() as int,
                    ),
                    all_ingredients(self.steps@.take(s as int + 1)).len() <= all.len(),
                    is_ingredient_total(out@, base + step.ingredients@.take(k as int)),
                    sums_match(out@, base + step.ingredients@.take(k as int)),
                    base.len() + step.ingredients.len() <= all.len(),
                    all == all_ingredients(self.steps@),
                decreases step.ingredients.len() - k,
            {
                let ghost seen = base + step.ingredients@.take(k as int);
                let ing = &step.ingredients[k];
                assert(step.ingredients@[k as int].unit_quantity.wf());
                assert(seen.push(*ing) =~= base + step.ingredients@.take(k as int + 1));
                proof {
                    // `ing` sits in `all` at this position
                    let pos = base.len() + k;
                    assert(all_ingredients(self.steps@.take(s as int + 1))[pos as int] == *ing);
                    assert(all[pos as int] == *ing);
                    assert forall|j: int| 0 <= j < seen.len() implies #[trigger] all[j] == seen[j] by {
                        assert(all_ingredients(self.steps@.take(s as int + 1))[j] == seen[j]);
                    }
                }
                proof {
                    let pos = base.len() + k;
                    assert forall|j: int|
                        0 <= j < seen.len() && (#[trigger] seen[j]).item() == ing.item() implies seen[j].unit_quantity.compatible(
                        ing.unit_quantity,
                    ) by {
                        assert(all[j] == seen[j]);
                        assert(all[pos as int].item() == all[j].item());
                    }
                }
                if !merge_into(&mut out, ing, Ghost(seen)) {
                    proof {
                        let n = base.len() + k + 1;
                        assert(seen.push(*ing) =~= all.take(n)) by {
                            assert forall|j: int| 0 <= j < n implies #[trigger] all.take(n)[j] == seen.push(*ing)[j] by {
                                assert(all_ingredients(self.steps@.take(s as int + 1))[j] == (base + step.ingredients@)[j]);
                            }
                        }
                        lemma_key_sum_failed(all, n, ing.item());
                    }
                    return None;
                }
                k += 1;
            }
            assert(step.ingredients@.take(step.ingredients.len() as int) =~= step.ingredients@);
            s += 1;
        }
        assert(self.steps@.take(self.steps.len() as int) =~= self.steps@);
        proof {
            reveal(sums_match);
        }
        Some(out)
    }

    /// `equipment_list` returns the overall list of equipment needed to make
    /// the recipe: each distinct piece of equipment of the steps once, in
    /// the order of first use.
    pub fn equipment_list(&self) -> (out: Vec<Equipment>)
        ensures
            equipment_views(out@) == dedup_equipment(equipment_views(all_equipment(self.steps@))),
    {
        let mut out: Vec<Equipment> = Vec::new();
        let mut s: usize = 0;
        assert(equipment_views(out@) =~= dedup_equipment(
            equipment_views(all_equipment(self.steps@.take(0))),
        ));
        while s < self.steps.len()
            invariant
                s <= self.steps.len(),
                equipment_views(out@) == dedup_equipment(
                    equipment_views(all_equipment(self.steps@.take(s as int))),
                ),
            decreases self.steps.len() - s,
        {
            let step = &self.steps[s];
            let ghost base = all_equipment(self.steps@.take(s as int));
            proof {
                lemma_all_equipment_take(self.steps@, s as int);
            }
            let mut k: usize = 0;
            while k < step.equipment.len()
                invariant
                    k <= step.equipment.len(),
                    base + step.equipment@ == all_equipment(self.steps@.take(s as int + 1)),
                    equipment_views(out@) == dedup_equipment(
                        equipment_views(base + step.equipment@.take(k as int)),
                    ),
                decreases step.equipment.len() - k,
            {
                let e = &step.equipment[k];
                let ghost seen = base + step.equipment@.take(k as int);
                assert(seen.push(*e) =~= base + step.equipment@.take(k as int + 1));
                assert(equipment_views(seen.push(*e)).drop_last() =~= equipment_views(seen));
                let mut found = false;
                let mut j: usize = 0;
                while j < out.len()
                    invariant
                        j <= out.len(),
                        found == (exists|x: int| 0 <= x < j && (#[trigger] out@[x]).view() == e.view()),
                    decreases out.len() - j,
                {
                    if out[j].same_as(e) {
                        found = true;
                    }
                    j += 1;
                }
                proof {
                    let v = equipment_views(out@);
                    if found {
                        let x = choose|x: int| 0 <= x < out@.len() && (#[trigger] out@[x]).view() == e.view();
                        assert(v[x] == e.view());
                    } else {
                        if v.contains(e.view()) {
                            let x = choose|x: int| 0 <= x < v.len() && v[x] == e.view();
                            assert(out@[x].view() == e.view());
                        }
                    }
                }
                if !found {
                    let ghost before = equipment_views(out@);
                    out.push(e.duplicate());
                    assert(equipment_views(out@) =~= before.push(e.view()));
                }
                k += 1;
            }
            assert(step.equipment@.take(step.equipment.len() as int) =~= step.equipment@);
            s += 1;
        }
        assert(self.steps@.take(self.steps.len() as int) =~= self.steps@);
        out
    }

    /// `all_equipment_owned` decides whether every piece of equipment used
    /// by the recipe's steps is owned.
    pub fn all_equipment_owned(&self) -> (b: bool)
        ensures
            b == (forall|j: int|
                0 <= j < all_equipment(self.steps@).len() ==> (#[trigger] all_equipment(
                    self.steps@,
                )[j]).is_owned),
    {
        let mut s: usize = 0;
        while s < self.steps.len()
            invariant
                s <= self.steps.len(),
                forall|j: int|
                    0 <= j < all_equipment(self.steps@.take(s as int)).len() ==> (#[trigger] all_equipment(
                        self.steps@.take(s as int),
                    )[j]).is_owned,
            decreases self.steps.len() - s,
        {
            let step = &self.steps[s];
            proof {
                lemma_all_equipment_take(self.steps@, s as int);
            }
            let mut k: usize = 0;
            while k < step.equipment.len()
                invariant
                    k <= step.equipment.len(),
                    s < self.steps.len(),
                    *step == self.steps@[s as int],
                    all_equipment(self.steps@.take(s as int + 1)) == all_equipment(self.steps@.take(s as int))
                        + step.equipment@,
                    forall|j: int| 0 <= j < k ==> (#[trigger] step.equipment@[j]).is_owned,
                decreases step.equipment.len() - k,
            {
                if !step.equipment[k].is_owned {
                    proof {
                        let pre = all_equipment(self.steps@.take(s as int));
                        let pos = pre.len() + k;
                        lemma_all_equipment_prefix(self.steps@, s as int + 1);
                        assert(all_equipment(self.steps@.take(s as int + 1))[pos] == step.equipment@[k as int]);
                        assert(all_equipment(self.steps@)[pos] == step.equipment@[k as int]);
                    }
                    return false;
                }
                k += 1;
            }
            assert forall|j: int|
                0 <= j < all_equipment(self.steps@.take(s as int + 1)).len() implies (#[trigger] all_equipment(
                self.steps@.take(s as int + 1),
            )[j]).is_owned by {
                let pre = all_equipment(self.steps@.take(s as int));
                if j >= pre.len() {
                    assert(all_equipment(self.steps@.take(s as int + 1))[j] == step.equipment@[j - pre.len()]);
                } else {
                    assert(all_equipment(self.steps@.take(s as int + 1))[j] == pre[j]);
                }
            }
            s += 1;
        }
        assert(self.steps@.take(self.steps.len() as int) =~= self.steps@);
        true
    }

    /// `compile_tag_list` collects the tags of all `recipes` and returns
    /// them sorted and without repeats.
    pub fn compile_tag_list(recipes: &HashMap<u128, Recipe>) -> (tags: Vec<String>)
        ensures
            strictly_sorted(views(tags@)),
            views(tags@).to_set() == tags_of(recipes@),
    {
        let mut tags: Vec<String> = Vec::new();
        let ghost rs = recipes.values().remaining().unref();
        assert(views(tags@).to_set() =~= tags_of_seq(rs.take(0)));
        for r in it: recipes.values()
            invariant
                rs == it.seq().unref(),
                strictly_sorted(views(tags@)),
                views(tags@).to_set() == tags_of_seq(rs.take(it.index())),
        {
            let ghost before = tags_of_seq(rs.take(it.index()));
            let mut k: usize = 0;
            while k < r.tags.len()
                invariant
                    k <= r.tags.len(),
                    strictly_sorted(views(tags@)),
                    views(tags@).to_set() == before.union(views(r.tags@.take(k as int)).to_set()),
                decreases r.tags.len() - k,
            {
                insert_sorted_unique(&mut tags, r.tags[k].clone());
                assert(views(r.tags@.take(k as int + 1)) =~= views(r.tags@.take(k as int)).push(
                    r.tags@[k as int]@,
                ));
                proof {
                    views(r.tags@.take(k as int)).lemma_push_to_set_commute(r.tags@[k as int]@);
                }
                assert(views(tags@).to_set() =~= before.union(views(r.tags@.take(k as int + 1)).to_set()));
                k += 1;
            }
            assert(r.tags@.take(r.tags@.len() as int) =~= r.tags@);
            proof {
                let i = it.index();
                assert(rs[i] == *r);
                assert(tags_of_seq(rs.take(i + 1)) =~= before.union(views(r.tags@).to_set())) by {
                    assert forall|t: Seq<char>| tags_of_seq(rs.take(i + 1)).contains(t) implies before.union(
                        views(r.tags@).to_set(),
                    ).contains(t) by {
                        let x = choose|x: int|
                            0 <= x < rs.take(i + 1).len() && views((#[trigger] rs.take(i + 1)[x]).tags@).contains(t);
                        if x < i {
                            assert(rs.take(i)[x] == rs.take(i + 1)[x]);
                        }
                    }
                    assert forall|t: Seq<char>| before.union(views(r.tags@).to_set()).contains(t) implies tags_of_seq(
                        rs.take(i + 1),
                    ).contains(t) by {
                        if before.contains(t) {
                            let x = choose|x: int|
                                0 <= x < rs.take(i).len() && views((#[trigger] rs.take(i)[x]).tags@).contains(t);
                            assert(rs.take(i + 1)[x] == rs.take(i)[x]);
                        } else {
                            assert(rs.take(i + 1)[i] == *r);
                        }
                    }
                }
            }
        }
        proof {
            assert(rs.take(rs.len() as int) =~= rs);
            assert(rs.to_set() == recipes@.values());
            assert forall|t: Seq<char>| tags_of_seq(rs).contains(t) <==> tags_of(recipes@).contains(t) by {
                if tags_of_seq(rs).contains(t) {
                    let x = choose|x: int| 0 <= x < rs.len() && views((#[trigger] rs[x]).tags@).contains(t);
                    assert(rs.to_set().contains(rs[x]));
                }
                if tags_of(recipes@).contains(t) {
                    let r = choose|r: Recipe| #[trigger] recipes@.values().contains(r) && views(r.tags@).contains(t);
                    assert(rs.to_set().contains(r));
                    let x = choose|x: int| 0 <= x < rs.len() && rs[x] == r;
                    assert(views(rs[x].tags@).contains(t));
                }
            }
            assert(tags_of_seq(rs) =~= tags_of(recipes@));
        }
        tags
    }
}

/// The number of fields of a recipe that the editor lets the user select.
pub const NUM_FIELDS: usize = 6;

/// `RecipeFields` are the fields of a recipe that the editor shows, in order.
#[derive(Clone, Copy, Debug, PartialEq, Eq, Structural)]
pub enum RecipeFields {
    /// name
    Name,
    /// description
    Description,
    /// comments
    Comments,
    /// source
    Source,
    /// author
    Author,
    /// amount made
    AmountMade,
}

impl RecipeFields {
    /// The field at position `i` of the editor, if there is one.
    pub open spec fn spec_from_index(i: usize) -> Option<RecipeFields> {
        if i == 0 {
            Some(RecipeFields::Name)
        } else if i == 1 {
            Some(RecipeFields::Description)
        } else if i == 2 {
            Some(RecipeFields::Comments)
        } else if i == 3 {
            Some(RecipeFields::Source)
        } else if i == 4 {
            Some(RecipeFields::Author)
        } else if i == 5 {
            Some(RecipeFields::AmountMade)
        } else {
            None
        }
    }

    /// `from_index` returns the field at position `i` of the editor, or
    /// `None` past the last field.
    pub fn from_index(i: usize) -> (r: Option<RecipeFields>)
        ensures
            r == Self::spec_from_index(i),
            r is Some <==> i < NUM_FIELDS,
    {
        if i == 0 {
            Some(RecipeFields::Name)
        } else if i == 1 {
            Some(RecipeFields::Description)
        } else if i == 2 {
            Some(RecipeFields::Comments)
        } else if i == 3 {
            Some(RecipeFields::Source)
        } else if i == 4 {
            Some(RecipeFields::Author)
        } else if i == 5 {
            Some(RecipeFields::AmountMade)
        } else {
            None
        }
    }
}

/// `State` is the state of the editor widget of a recipe.
#[derive(Debug)]
pub struct State {
    /// which field is selected
    pub selected_field: RangedWrapping,
    /// which field is being edited, if any
    pub editing_selected_field: Option<RecipeFields>,
    /// where the cursor stands in the edited field, if shown
    pub editing_field_cursor_position: Option<u16>,
}

impl Default for State {
    /// No field is edited and the first is selected, within
    /// `0..=NUM_FIELDS`.
    fn default() -> (s: State)
        ensures
            s.selected_field == (RangedWrapping { value: 0, min: 0, max: NUM_FIELDS }),
            s.editing_selected_field is None,
            s.editing_field_cursor_position is None,
    {
        State {
            selected_field: RangedWrapping { value: 0, min: 0, max: NUM_FIELDS },
            editing_selected_field: None,
            editing_field_cursor_position: None,
        }
    }
}


} // verus!
