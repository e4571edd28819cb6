use vstd::prelude::*;

use super::equipment::{clone_opt_string, Equipment, EquipmentView};
use super::ingredient::{Ingredient, IngredientView};
use crate::rational::Rational;

use crate::tui::ranged::RangedWrapping;
use crate::tui::dropdown::DropdownState;
verus! {

/// `StepType` represents what type of step each step is in a recipe. It is
/// used to bucket times for the recipe's total duration.
#[derive(Clone, Copy, Debug, PartialEq, Eq, Structural, Hash)]
pub enum StepType {
    /// prep steps
    Prep,
    /// cook steps
    Cook,
    /// waiting steps
    Wait,
    /// other steps
    Other,
}

impl Default for StepType {
    /// The default step type is `Other`.
    fn default() -> (t: StepType)
        ensures
            t == StepType::Other,
    {
        StepType::Other
    }
}

impl StepType {
    /// The name a step type is displayed under.
    pub open spec fn spec_name(self) -> Seq<char> {
        match self {
            StepType::Prep => "Prep"@,
            StepType::Cook => "Cook"@,
            StepType::Wait => "Wait"@,
            StepType::Other => "Other"@,
        }
    }

    /// `name` returns the display name of the step type.
    pub fn name(&self) -> (r: &'static str)
        ensures
            r@ == self.spec_name(),
    {
        match self {
            StepType::Prep => "Prep",
            StepType::Cook => "Cook",
            StepType::Wait => "Wait",
            StepType::Other => "Other",
        }
    }

    /// `to_string` returns the display name of the step type as a `String`.
    pub fn to_string(&self) -> (r: String)
        ensures
            r@ == self.spec_name(),
    {
        String::from_str(self.name())
    }
}

/// `Step` represents a discrete step within a recipe.
#[derive(Clone, Debug)]
pub struct Step {
    /// database ID
    pub id: Option<u128>,
    /// time needed to perform this step, in seconds
    pub time_needed: Option<Rational>,
    /// abbreviation of the unit the time is shown in
    pub time_needed_unit: Option<String>,
    /// cook temperature, in kelvin (a temperature interval)
    pub temperature: Option<Rational>,
    /// abbreviation of the unit the temperature is shown in
    pub temperature_unit: Option<String>,
    /// instructions for step
    pub instructions: String,
    /// ingredients used in this step
    pub ingredients: Vec<Ingredient>,
    /// equipment used in this step
    pub equipment: Vec<Equipment>,
    /// step type
    pub step_type: StepType,
}

/// An optional fraction has a positive denominator when present.
pub open spec fn opt_wf(r: Option<Rational>) -> bool {
    match r {
        Some(x) => x.wf(),
        None => true,
    }
}

/// The contents of a step.
pub struct StepView {
    /// database ID
    pub id: Option<u128>,
    /// time needed, in seconds
    pub time_needed: Option<Rational>,
    /// display unit of the time
    pub time_needed_unit: Option<Seq<char>>,
    /// temperature, in kelvin
    pub temperature: Option<Rational>,
    /// display unit of the temperature
    pub temperature_unit: Option<Seq<char>>,
    /// instructions
    pub instructions: Seq<char>,
    /// ingredients
    pub ingredients: Seq<IngredientView>,
    /// equipment
    pub equipment: Seq<EquipmentView>,
    /// step type
    pub step_type: StepType,
}

/// The views of a list of ingredients.
pub open spec fn ingredient_views(s: Seq<Ingredient>) -> Seq<IngredientView> {
    s.map_values(|i: Ingredient| i.view())
}

/// The views of a list of equipment.
pub open spec fn equipment_views(s: Seq<Equipment>) -> Seq<EquipmentView> {
    s.map_values(|e: Equipment| e.view())
}

impl Step {
    /// The contents of the step.
    pub open spec fn view(self) -> StepView {
        StepView {
            id: self.id,
            time_needed: self.time_needed,
            time_needed_unit: self.time_needed_unit.deep_view(),
            temperature: self.temperature,
            temperature_unit: self.temperature_unit.deep_view(),
            instructions: self.instructions@,
            ingredients: ingredient_views(self.ingredients@),
            equipment: equipment_views(self.equipment@),
            step_type: self.step_type,
        }
    }

    /// `duplicate` returns a copy of the step.
    pub fn duplicate(&self) -> (s: Step)
        ensures
            s.view() == self.view(),
            s.wf() == self.wf(),
    {
        let mut ingredients: Vec<Ingredient> = Vec::new();
        let mut i: usize = 0;
        while i < self.ingredients.len()
            invariant
                i <= self.ingredients.len(),
                ingredients@.len() == i,
                forall|j: int| 0 <= j < i ==> (#[trigger] ingredients@[j]).view() == self.ingredients@[j].view()
                    && ingredients@[j].unit_quantity.wf() == self.ingredients@[j].unit_quantity.wf(),
            decreases self.ingredients.len() - i,
        {
            ingredients.push(self.ingredients[i].duplicate());
            i += 1;
        }
        let mut equipment: Vec<Equipment> = Vec::new();
        let mut k: usize = 0;
        while k < self.equipment.len()
            invariant
                k <= self.equipment.len(),
                equipment@.len() == k,
                forall|j: int| 0 <= j < k ==> (#[trigger] equipment@[j]).view() == self.equipment@[j].view(),
            decreases self.equipment.len() - k,
        {
            equipment.push(self.equipment[k].duplicate());
            k += 1;
        }
        let s = Step {
            id: self.id,
            time_needed: self.time_needed,
            time_needed_unit: clone_opt_string(&self.time_needed_unit),
            temperature: self.temperature,
            temperature_unit: clone_opt_string(&self.temperature_unit),
            instructions: self.instructions.clone(),
            ingredients,
            equipment,
            step_type: self.step_type,
        };
        assert(ingredient_views(s.ingredients@) =~= ingredient_views(self.ingredients@));
        assert(equipment_views(s.equipment@) =~= equipment_views(self.equipment@));
        assert(s.wf() == self.wf()) by {
            if self.wf() {
                assert forall|j: int| 0 <= j < s.ingredients@.len() implies (#[trigger] s.ingredients@[j]).unit_quantity.wf() by {
                    assert(self.ingredients@[j].unit_quantity.wf());
                }
            }
            if s.wf() {
                assert forall|j: int| 0 <= j < self.ingredients@.len() implies (#[trigger] self.ingredients@[j]).unit_quantity.wf() by {
                    assert(s.ingredients@[j].unit_quantity.wf());
                }
            }
        }
        s
    }

    /// Every fraction in the step has a positive denominator.
    pub open spec fn wf(self) -> bool {
        &&& opt_wf(self.time_needed)
        &&& opt_wf(self.temperature)
        &&& forall|i: int|
            0 <= i < self.ingredients@.len() ==> (#[trigger] self.ingredients@[i]).unit_quantity.wf()
    }

    /// The step is the one `new` returns.
    pub open spec fn is_blank(self) -> bool {
        &&& self.wf()
        &&& self.id is None
        &&& self.time_needed is None
        &&& self.time_needed_unit is None
        &&& self.temperature is None
        &&& self.temperature_unit is None
        &&& self.instructions@ == Seq::<char>::empty()
        &&& self.ingredients@.len() == 0
        &&& self.equipment@.len() == 0
        &&& self.step_type == StepType::Other
    }

    /// `new` returns an empty step of type `Other`: the default value.
    pub fn new() -> (s: Step)
        ensures
            s.is_blank(),
            s.wf(),
            s.id is None,
            s.time_needed is None,
            s.time_needed_unit is None,
            s.temperature is None,
            s.temperature_unit is None,
            s.instructions@ == Seq::<char>::empty(),
            s.ingredients@.len() == 0,
            s.equipment@.len() == 0,
            s.step_type == StepType::Other,
    {
        Step {
            id: None,
            time_needed: None,
            time_needed_unit: None,
            temperature: None,
            temperature_unit: None,
            instructions: String::new(),
            ingredients: Vec::new(),
            equipment: Vec::new(),
            step_type: StepType::Other,
        }
    }
}

/// The number of fields of a step that the editor lets the user select.
pub const NUM_FIELDS: usize = 4;

/// `StepFields` are the fields of a step that the editor shows, in order.
#[derive(Clone, Copy, Debug, PartialEq, Eq, Structural)]
pub enum StepFields {
    /// time needed
    TimeNeeded,
    /// temperature
    Temperature,
    /// instructions
    Instructions,
    /// step type
    StepType,
}

impl StepFields {
    /// The field at position `i` of the editor, if there is one.
    pub open spec fn spec_from_index(i: usize) -> Option<StepFields> {
        if i == 0 {
            Some(StepFields::TimeNeeded)
        } else if i == 1 {
            Some(StepFields::Temperature)
        } else if i == 2 {
            Some(StepFields::Instructions)
        } else if i == 3 {
            Some(StepFields::StepType)
        } else {
            None
        }
    }

    /// `from_index` returns the field at position `i` of the editor, or
    /// `None` past the last field.
    pub fn from_index(i: usize) -> (r: Option<StepFields>)
        ensures
            r == Self::spec_from_index(i),
            r is Some <==> i < NUM_FIELDS,
    {
        if i == 0 {
            Some(StepFields::TimeNeeded)
        } else if i == 1 {
            Some(StepFields::Temperature)
        } else if i == 2 {
            Some(StepFields::Instructions)
        } else if i == 3 {
            Some(StepFields::StepType)
        } else {
            None
        }
    }
}

/// `State` is the state of the editor widget of a step.
#[derive(Debug)]
pub struct State {
    /// which field is selected
    pub selected_field: RangedWrapping,
    /// which field is being edited, if any
    pub editing_selected_field: Option<StepFields>,
    /// state of the step type dropdown
    pub dropdown_state: DropdownState,
}

impl Default for State {
    /// No field is edited and the first is selected, within
    /// `0..=NUM_FIELDS`.
    fn default() -> (s: State)
        ensures
            s.selected_field == (RangedWrapping { value: 0, min: 0, max: NUM_FIELDS }),
            s.editing_selected_field is None,
            s.dropdown_state.is_default(),
    {
        State {
            selected_field: RangedWrapping { value: 0, min: 0, max: NUM_FIELDS },
            editing_selected_field: None,
            dropdown_state: DropdownState::default(),
        }
    }
}


} // verus!
