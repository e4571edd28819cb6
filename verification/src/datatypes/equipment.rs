use vstd::prelude::*;

use crate::tui::ranged::RangedWrapping;
verus! {

/// `Equipment` represents any implement you might use to prepare a recipe,
/// from a stove, to a microwave, to a stand mixer, to a potato peeler.
#[derive(Clone, Debug)]
pub struct Equipment {
    /// database unique ID (the 128 bits of a UUID; zero is the nil UUID)
    pub id: u128,
    /// short name of item
    pub name: String,
    /// longer description of item
    pub description: Option<String>,
    /// if the item is owned
    pub is_owned: bool,
}

/// What two pieces of equipment are compared by: every field.
pub type EquipmentView = (u128, Seq<char>, Option<Seq<char>>, bool);

impl Equipment {
    /// The contents of the equipment.
    pub open spec fn view(self) -> EquipmentView {
        (self.id, self.name@, self.description.deep_view(), self.is_owned)
    }

    /// The equipment is the one `new` returns.
    pub open spec fn is_blank(self) -> bool {
        self.view() == (0u128, Seq::<char>::empty(), None::<Seq<char>>, false)
    }

    /// `new` returns equipment with the nil ID, empty name, no description,
    /// not owned: the default value.
    pub fn new() -> (e: Equipment)
        ensures
            e.is_blank(),
            e.view() == (0u128, Seq::<char>::empty(), None::<Seq<char>>, false),
    {
        Equipment { id: 0, name: String::new(), description: None, is_owned: false }
    }

    /// `duplicate` returns a copy of the equipment.
    pub fn duplicate(&self) -> (e: Equipment)
        ensures
            e.view() == self.view(),
    {
        Equipment {
            id: self.id,
            name: self.name.clone(),
            description: clone_opt_string(&self.description),
            is_owned: self.is_owned,
        }
    }

    /// `same_as` decides whether two pieces of equipment are equal in every
    /// field.
    pub fn same_as(&self, other: &Equipment) -> (b: bool)
        ensures
            b == (self.view() == other.view()),
    {
        self.id == other.id && self.name == other.name && opt_string_eq(
            &self.description,
            &other.description,
        ) && self.is_owned == other.is_owned
    }
}

/// A copy of an optional string.
pub fn clone_opt_string(s: &Option<String>) -> (r: Option<String>)
    ensures
        r.deep_view() == s.deep_view(),
{
    match s {
        Some(x) => Some(x.clone()),
        None => None,
    }
}

/// Decides whether two optional strings are equal.
pub fn opt_string_eq(a: &Option<String>, b: &Option<String>) -> (r: bool)
    ensures
        r == (a.deep_view() == b.deep_view()),
{
    match a {
        Some(x) => match b {
            Some(y) => {
                let r = x.eq(y);
                assert(r ==> x@ == y@);
                r
            },
            None => false,
        },
        None => b.is_none(),
    }
}

/// The number of fields of a piece of equipment that the editor lets the user select.
pub const NUM_FIELDS: usize = 3;

/// `EquipmentFields` are the fields of a piece of equipment that the editor shows, in order.
#[derive(Clone, Copy, Debug, PartialEq, Eq, Structural)]
pub enum EquipmentFields {
    /// name
    Name,
    /// description
    Description,
    /// whether it is owned
    IsOwned,
}

impl EquipmentFields {
    /// The field at position `i` of the editor, if there is one.
    pub open spec fn spec_from_index(i: usize) -> Option<EquipmentFields> {
        if i == 0 {
            Some(EquipmentFields::Name)
        } else if i == 1 {
            Some(EquipmentFields::Description)
        } else if i == 2 {
            Some(EquipmentFields::IsOwned)
        } else {
            None
        }
    }

    /// `from_index` returns the field at position `i` of the editor, or
    /// `None` past the last field.
    pub fn from_index(i: usize) -> (r: Option<EquipmentFields>)
        ensures
            r == Self::spec_from_index(i),
            r is Some <==> i < NUM_FIELDS,
    {
        if i == 0 {
            Some(EquipmentFields::Name)
        } else if i == 1 {
            Some(EquipmentFields::Description)
        } else if i == 2 {
            Some(EquipmentFields::IsOwned)
        } else {
            None
        }
    }
}

/// `State` is the state of the editor widget of a piece of equipment.
#[derive(Debug)]
pub struct State {
    /// which field is selected
    pub selected_field: RangedWrapping,
    /// which field is being edited, if any
    pub editing_selected_field: Option<EquipmentFields>,
}

impl Default for State {
    /// No field is edited and the first is selected, within
    /// `0..=NUM_FIELDS`.
    fn default() -> (s: State)
        ensures
            s.selected_field == (RangedWrapping { value: 0, min: 0, max: NUM_FIELDS }),
            s.editing_selected_field is None,
    {
        State {
            selected_field: RangedWrapping { value: 0, min: 0, max: NUM_FIELDS },
            editing_selected_field: None,
        }
    }
}


} // verus!
