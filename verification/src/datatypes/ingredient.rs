use vstd::prelude::*;

use super::equipment::{clone_opt_string, opt_string_eq};
use crate::rational::{frac_add, frac_eq, pair_of, ratio_sum, Frac, Rational};

use crate::tui::ranged::RangedWrapping;
verus! {

/// `UnitType` holds the quantity of an ingredient: a count, a mass, or a
/// volume. Masses are held in kilograms and volumes in cubic meters, each
/// together with the abbreviation of the unit it was written in.
#[derive(Clone, Debug)]
pub enum UnitType {
    /// a count or physical quantity: 30 chocolate chips, 5 bananas
    Quantity(Rational),
    /// a mass, in kilograms, and the unit it is shown in
    Mass { value: Rational, unit: String },
    /// a volume, in cubic meters, and the unit it is shown in
    Volume { value: Rational, unit: String },
}

impl UnitType {
    /// The amount, as a fraction of the base unit.
    pub open spec fn amount(self) -> Frac {
        match self {
            UnitType::Quantity(q) => q.value(),
            UnitType::Mass { value, .. } => value.value(),
            UnitType::Volume { value, .. } => value.value(),
        }
    }

    /// The amount, by the numerator and denominator it is held in.
    pub open spec fn amount_pair(self) -> (i64, i64) {
        match self {
            UnitType::Quantity(q) => pair_of(q),
            UnitType::Mass { value, .. } => pair_of(value),
            UnitType::Volume { value, .. } => pair_of(value),
        }
    }

    /// The kind of quantity (0 count, 1 mass, 2 volume) and its display unit.
    pub open spec fn kind(self) -> (int, Seq<char>) {
        match self {
            UnitType::Quantity(_) => (0, Seq::empty()),
            UnitType::Mass { unit, .. } => (1, unit@),
            UnitType::Volume { unit, .. } => (2, unit@),
        }
    }

    /// The amount has a positive denominator.
    pub open spec fn wf(self) -> bool {
        match self {
            UnitType::Quantity(q) => q.wf(),
            UnitType::Mass { value, .. } => value.wf(),
            UnitType::Volume { value, .. } => value.wf(),
        }
    }

    /// Two quantities can be added: same kind and same display unit.
    pub open spec fn compatible(self, other: UnitType) -> bool {
        self.kind() == other.kind()
    }

    /// `same_kind` decides whether two quantities can be added: same kind
    /// and same display unit.
    pub fn same_kind(&self, other: &UnitType) -> (b: bool)
        ensures
            b == self.compatible(*other),
    {
        match (self, other) {
            (UnitType::Quantity(_), UnitType::Quantity(_)) => true,
            (UnitType::Mass { unit: a, .. }, UnitType::Mass { unit: b, .. }) => crate::text::str_eq(a.as_str(), b.as_str()),
            (UnitType::Volume { unit: a, .. }, UnitType::Volume { unit: b, .. }) => crate::text::str_eq(
                a.as_str(),
                b.as_str(),
            ),
            _ => false,
        }
    }

    /// `default` is the count zero.
    pub fn default_quantity() -> (u: UnitType)
        ensures
            u.wf(),
            u.kind() == (0int, Seq::<char>::empty()),
            u.amount() == (0int, 1int),
    {
        UnitType::Quantity(Rational::zero())
    }

    /// `amount_rational` returns the amount.
    pub fn amount_rational(&self) -> (r: Rational)
        ensures
            r.value() == self.amount(),
    {
        match self {
            UnitType::Quantity(q) => *q,
            UnitType::Mass { value, .. } => *value,
            UnitType::Volume { value, .. } => *value,
        }
    }

    /// `duplicate` returns a copy of the quantity.
    pub fn duplicate(&self) -> (u: UnitType)
        ensures
            u.amount() == self.amount(),
            u.kind() == self.kind(),
            u.wf() == self.wf(),
    {
        match self {
            UnitType::Quantity(q) => UnitType::Quantity(*q),
            UnitType::Mass { value, unit } => UnitType::Mass { value: *value, unit: unit.clone() },
            UnitType::Volume { value, unit } => UnitType::Volume {
                value: *value,
                unit: unit.clone(),
            },
        }
    }

    /// `checked_add` adds two quantities of the same kind and display unit.
    /// The sum keeps that kind and unit. It returns `None` when the sum
    /// does not fit in `i64` fractions.
    pub fn checked_add(&self, other: &UnitType) -> (r: Option<UnitType>)
        requires
            self.wf(),
            other.wf(),
            self.compatible(*other),
        ensures
            r is None <==> ratio_sum(self.amount_pair(), other.amount_pair()) is None,
            r matches Some(s) ==> ratio_sum(self.amount_pair(), other.amount_pair()) == Some(s.amount_pair()),
            r matches Some(s) ==> s.wf() && s.kind() == self.kind() && frac_eq(
                s.amount(),
                frac_add(self.amount(), other.amount()),
            ),
    {
        match (self, other) {
            (UnitType::Quantity(l), UnitType::Quantity(r)) => match l.checked_add(r) {
                Some(v) => Some(UnitType::Quantity(v)),
                None => None,
            },
            (UnitType::Mass { value: l, unit: lu }, UnitType::Mass { value: r, .. }) => match l.checked_add(r) {
                Some(v) => Some(UnitType::Mass { value: v, unit: lu.clone() }),
                None => None,
            },
            (UnitType::Volume { value: l, unit: lu }, UnitType::Volume { value: r, .. }) => match l.checked_add(r) {
                Some(v) => Some(UnitType::Volume { value: v, unit: lu.clone() }),
                None => None,
            },
            _ => {
                assert(false);
                None
            },
        }
    }
}

/// `Ingredient` is a unique item together with the quantity of it that a
/// step uses.
#[derive(Clone, Debug)]
pub struct Ingredient {
    /// database ID (the 128 bits of a UUID; zero is the nil UUID)
    pub id: u128,
    /// ingredient short name
    pub name: String,
    /// optional description
    pub description: Option<String>,
    /// unit and quantity of ingredient
    pub unit_quantity: UnitType,
}

/// What identifies an ingredient regardless of its quantity.
pub type IngredientKey = (u128, Seq<char>, Option<Seq<char>>);

/// The contents of an ingredient: its identity, the amount and the kind of
/// its quantity.
pub type IngredientView = (IngredientKey, Frac, (int, Seq<char>));

impl Ingredient {
    /// The contents of the ingredient.
    pub open spec fn view(self) -> IngredientView {
        (self.key(), self.unit_quantity.amount(), self.unit_quantity.kind())
    }

    /// The identity of the ingredient: every field but the quantity.
    pub open spec fn key(self) -> IngredientKey {
        (self.id, self.name@, self.description.deep_view())
    }

    /// The ingredient is the one `new` returns.
    pub open spec fn is_blank(self) -> bool {
        &&& self.key() == (0u128, Seq::<char>::empty(), None::<Seq<char>>)
        &&& self.unit_quantity.wf()
        &&& self.unit_quantity.kind() == (0int, Seq::<char>::empty())
        &&& self.unit_quantity.amount() == (0int, 1int)
    }

    /// `new` returns an ingredient with the nil ID, empty name, no
    /// description and a count of zero: the default value.
    pub fn new() -> (i: Ingredient)
        ensures
            i.is_blank(),
            i.key() == (0u128, Seq::<char>::empty(), None::<Seq<char>>),
            i.unit_quantity.wf(),
            i.unit_quantity.kind() == (0int, Seq::<char>::empty()),
            i.unit_quantity.amount() == (0int, 1int),
    {
        Ingredient {
            id: 0,
            name: String::new(),
            description: None,
            unit_quantity: UnitType::default_quantity(),
        }
    }

    /// `duplicate` returns a copy of the ingredient.
    pub fn duplicate(&self) -> (i: Ingredient)
        ensures
            i.key() == self.key(),
            i.unit_quantity.amount() == self.unit_quantity.amount(),
            i.unit_quantity.kind() == self.unit_quantity.kind(),
            i.unit_quantity.wf() == self.unit_quantity.wf(),
    {
        Ingredient {
            id: self.id,
            name: self.name.clone(),
            description: clone_opt_string(&self.description),
            unit_quantity: self.unit_quantity.duplicate(),
        }
    }

    /// The item the ingredient is: its database ID. Ingredients with one ID
    /// are one item, and their quantities add up.
    pub open spec fn item(self) -> u128 {
        self.id
    }

    /// `same_item` decides whether two ingredients are the same item, that
    /// is, have the same database ID.
    pub fn same_item(&self, other: &Ingredient) -> (b: bool)
        ensures
            b == (self.item() == other.item()),
    {
        self.id == other.id
    }
}

/// The number of fields of an ingredient that the editor lets the user select.
pub const NUM_FIELDS: usize = 2;

/// `IngredientFields` are the fields of an ingredient that the editor shows, in order.
#[derive(Clone, Copy, Debug, PartialEq, Eq, Structural)]
pub enum IngredientFields {
    /// name
    Name,
    /// description
    Description,
}

impl IngredientFields {
    /// The field at position `i` of the editor, if there is one.
    pub open spec fn spec_from_index(i: usize) -> Option<IngredientFields> {
        if i == 0 {
            Some(IngredientFields::Name)
        } else if i == 1 {
            Some(IngredientFields::Description)
        } else {
            None
        }
    }

    /// `from_index` returns the field at position `i` of the editor, or
    /// `None` past the last field.
    pub fn from_index(i: usize) -> (r: Option<IngredientFields>)
        ensures
            r == Self::spec_from_index(i),
            r is Some <==> i < NUM_FIELDS,
    {
        if i == 0 {
            Some(IngredientFields::Name)
        } else if i == 1 {
            Some(IngredientFields::Description)
        } else {
            None
        }
    }
}

/// `State` is the state of the editor widget of an ingredient.
#[derive(Debug)]
pub struct State {
    /// which field is selected
    pub selected_field: RangedWrapping,
    /// which field is being edited, if any
    pub editing_selected_field: Option<IngredientFields>,
}

impl Default for State {
    /// No field is edited and the first is selected, within
    /// `0..=NUM_FIELDS`.
    fn default() -> (s: State)
        ensures
            s.selected_field == (RangedWrapping { value: 0, min: 0, max: NUM_FIELDS }),
            s.editing_selected_field is None,
    {
        State {
            selected_field: RangedWrapping { value: 0, min: 0, max: NUM_FIELDS },
            editing_selected_field: None,
        }
    }
}


} // verus!
