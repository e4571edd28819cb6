use vstd::prelude::*;

use super::keys::{KeyCode, KeyModifiers};
use crate::text::join_str;

verus! {

/// `KeybindDefinition` binds one key, with its modifiers, to an action of
/// the terminal interface.
#[derive(Debug)]
pub struct KeybindDefinition {
    /// the key
    pub key: KeyCode,
    /// the modifiers that must be held with the key
    pub modifiers: KeyModifiers,
    /// what the key does, for the user
    pub instructional_text: String,
    /// the symbols that stand for the key on screen
    pub display_text: String,
}

/// The definition binds `key` with `modifiers` and carries the two texts.
pub open spec fn def_is(
    d: KeybindDefinition,
    key: KeyCode,
    modifiers: u8,
    instructional_text: Seq<char>,
    display_text: Seq<char>,
) -> bool {
    &&& d.key == key
    &&& d.modifiers.bits == modifiers
    &&& d.instructional_text@ == instructional_text
    &&& d.display_text@ == display_text
}

/// The text of a keybind or group on screen: the display text alone, or
/// `<display text>: <instructions>`.
pub open spec fn keybind_text(display_text: Seq<char>, instructional_text: Seq<char>, alternate: bool) -> Seq<char> {
    if alternate {
        display_text
    } else {
        display_text + ": "@ + instructional_text
    }
}

/// `definition` builds a keybind definition.
pub fn definition(key: KeyCode, modifiers: KeyModifiers, instructional_text: &str, display_text: &str) -> (d: KeybindDefinition)
    ensures
        d.key == key,
        d.modifiers == modifiers,
        d.instructional_text@ == instructional_text@,
        d.display_text@ == display_text@,
{
    KeybindDefinition {
        key,
        modifiers,
        instructional_text: String::from_str(instructional_text),
        display_text: String::from_str(display_text),
    }
}

impl KeybindDefinition {
    /// The key and modifiers of `code` and `modifiers` are this binding's.
    pub open spec fn spec_matches(self, code: KeyCode, modifiers: KeyModifiers) -> bool {
        self.key == code && self.modifiers == modifiers
    }

    /// `matches` decides whether a key with its modifiers is this binding.
    pub fn matches(&self, code: KeyCode, modifiers: KeyModifiers) -> (b: bool)
        ensures
            b == self.spec_matches(code, modifiers),
    {
        self.key == code && self.modifiers == modifiers
    }

    /// `to_text` is the text of the binding on screen: with `alternate`,
    /// only its display text, otherwise `<display text>: <instructions>`.
    pub fn to_text(&self, alternate: bool) -> (s: String)
        ensures
            s@ == keybind_text(self.display_text@, self.instructional_text@, alternate),
    {
        if alternate {
            self.display_text.clone()
        } else {
            let s = join_str(&self.display_text, ": ");
            join_str(&s, self.instructional_text.as_str())
        }
    }
}

/// `KeybindGroup` gathers named keybinds that share one text on screen.
#[derive(Debug)]
pub struct KeybindGroup {
    /// what the keys of the group do, for the user
    pub instructional_text: String,
    /// the symbols that stand for the group on screen
    pub display_text: String,
    /// the keybinds of the group, by name
    pub keybinds: Vec<(String, KeybindDefinition)>,
}

/// The first keybind named `name` among `entries`.
pub open spec fn group_lookup(entries: Seq<(String, KeybindDefinition)>, name: Seq<char>) -> Option<KeybindDefinition>
    decreases entries.len(),
{
    if entries.len() == 0 {
        None
    } else if entries[0].0@ == name {
        Some(entries[0].1)
    } else {
        group_lookup(entries.drop_first(), name)
    }
}

impl KeybindGroup {
    /// The keybind named `name`, if the group has one.
    pub open spec fn spec_get(self, name: Seq<char>) -> Option<KeybindDefinition> {
        group_lookup(self.keybinds@, name)
    }

    /// The keybind named `name` binds `code` with `modifiers`.
    pub open spec fn spec_named(self, name: Seq<char>, code: KeyCode, modifiers: KeyModifiers) -> bool {
        match self.spec_get(name) {
            Some(d) => d.spec_matches(code, modifiers),
            None => false,
        }
    }

    /// Some keybind of the group binds `code` with `modifiers`.
    pub open spec fn spec_any(self, code: KeyCode, modifiers: KeyModifiers) -> bool {
        exists|i: int| 0 <= i < self.keybinds@.len() && (#[trigger] self.keybinds@[i]).1.spec_matches(code, modifiers)
    }

    /// `get` returns the keybind named `name`: the first, if several are.
    pub fn get(&self, name: &str) -> (r: Option<&KeybindDefinition>)
        ensures
            match r {
                Some(d) => self.spec_get(name@) == Some(*d),
                None => self.spec_get(name@) is None,
            },
    {
        let mut i: usize = 0;
        assert(self.keybinds@.skip(0) =~= self.keybinds@);
        while i < self.keybinds.len()
            invariant
                i <= self.keybinds.len(),
                self.spec_get(name@) == group_lookup(self.keybinds@.skip(i as int), name@),
            decreases self.keybinds.len() - i,
        {
            assert(self.keybinds@.skip(i as int).drop_first() =~= self.keybinds@.skip(i as int + 1));
            if crate::text::str_eq(self.keybinds[i].0.as_str(), name) {
                return Some(&self.keybinds[i].1);
            }
            i += 1;
        }
        None
    }

    /// `named` decides whether the keybind named `name` binds `code` with
    /// `modifiers`; false when the group has no such keybind.
    pub fn named(&self, name: &str, code: KeyCode, modifiers: KeyModifiers) -> (b: bool)
        ensures
            b == self.spec_named(name@, code, modifiers),
    {
        match self.get(name) {
            Some(d) => d.matches(code, modifiers),
            None => false,
        }
    }

    /// `any` decides whether some keybind of the group binds `code` with
    /// `modifiers`.
    pub fn any(&self, code: KeyCode, modifiers: KeyModifiers) -> (b: bool)
        ensures
            b == self.spec_any(code, modifiers),
    {
        let mut i: usize = 0;
        while i < self.keybinds.len()
            invariant
                i <= self.keybinds.len(),
                forall|j: int| 0 <= j < i ==> !(#[trigger] self.keybinds@[j]).1.spec_matches(code, modifiers),
            decreases self.keybinds.len() - i,
        {
            if self.keybinds[i].1.matches(code, modifiers) {
                return true;
            }
            i += 1;
        }
        false
    }

    /// `to_text` is the text of the group on screen: with `alternate`,
    /// only its display text, otherwise `<display text>: <instructions>`.
    pub fn to_text(&self, alternate: bool) -> (s: String)
        ensures
            s@ == keybind_text(self.display_text@, self.instructional_text@, alternate),
    {
        if alternate {
            self.display_text.clone()
        } else {
            let s = join_str(&self.display_text, ": ");
            join_str(&s, self.instructional_text.as_str())
        }
    }
}

/// `BrowsingKeybinds` are the keys of the recipe browser.
#[derive(Debug)]
pub struct BrowsingKeybinds {
    /// quit the app
    pub quit: KeybindDefinition,
    /// create a new recipe
    pub new: KeybindDefinition,
    /// scroll through the recipe list
    pub recipe_scroll: KeybindGroup,
}

impl BrowsingKeybinds {
    /// The keys that `default` binds.
    pub open spec fn is_default(self) -> bool {
        &&& def_is(self.quit, KeyCode::Char('q'), 0u8, "quit"@, "q"@)
        &&& def_is(self.new, KeyCode::Char('n'), 0u8, "new"@, "n"@)
        &&& self.recipe_scroll.instructional_text@ == "scroll to select recipe"@
        &&& self.recipe_scroll.display_text@ == "\u{2195}"@
        &&& self.recipe_scroll.keybinds@.len() == 2
        &&& self.recipe_scroll.keybinds@[0].0@ == "recipe_scroll_down"@
        &&& def_is(self.recipe_scroll.keybinds@[0].1, KeyCode::Down, 0u8, "scroll down in recipe list"@, "\u{2193}"@)
        &&& self.recipe_scroll.keybinds@[1].0@ == "recipe_scroll_up"@
        &&& def_is(self.recipe_scroll.keybinds@[1].1, KeyCode::Up, 0u8, "scroll up in recipe list"@, "\u{2191}"@)
    }
}

impl Default for BrowsingKeybinds {
    /// The keys of the recipe browser.
    fn default() -> (r: BrowsingKeybinds)
        ensures
            r.is_default(),
    {
        let mut recipe_scroll: Vec<(String, KeybindDefinition)> = Vec::new();
        recipe_scroll.push((String::from_str("recipe_scroll_down"), definition(KeyCode::Down, KeyModifiers::none(), "scroll down in recipe list", "\u{2193}")));
        recipe_scroll.push((String::from_str("recipe_scroll_up"), definition(KeyCode::Up, KeyModifiers::none(), "scroll up in recipe list", "\u{2191}")));
        BrowsingKeybinds {
            quit: definition(KeyCode::Char('q'), KeyModifiers::none(), "quit", "q"),
            new: definition(KeyCode::Char('n'), KeyModifiers::none(), "new", "n"),
            recipe_scroll: KeybindGroup {
                instructional_text: String::from_str("scroll to select recipe"),
                display_text: String::from_str("\u{2195}"),
                keybinds: recipe_scroll,
            },
        }
    }
}
/// `EditingKeybinds` are the keys of the recipe creator and editor.
#[derive(Debug)]
pub struct EditingKeybinds {
    /// start editing the selected field
    pub edit: KeybindGroup,
    /// leave the current screen or field
    pub exit: KeybindDefinition,
    /// scroll between the options of a prompt
    pub prompt_scroll: KeybindGroup,
    /// switch between the fields of a recipe, step, ingredient or equipment
    pub field_scroll: KeybindGroup,
    /// scroll through steps, ingredients or equipment
    pub item_scroll: KeybindGroup,
    /// switch between editing the recipe, a step, an ingredient or equipment
    pub item_switch: KeybindGroup,
    /// insert a new step into the recipe
    pub new_step: KeybindDefinition,
    /// insert a new ingredient into the step
    pub new_ingredient: KeybindDefinition,
    /// insert new equipment into the step
    pub new_equipment: KeybindDefinition,
    /// delete the character behind the cursor
    pub back_delete: KeybindDefinition,
    /// delete the character in front of the cursor
    pub front_delete: KeybindDefinition,
    /// move the cursor while editing a field
    pub move_cursor: KeybindGroup,
    /// confirm a choice
    pub confirm: KeybindDefinition,
}

impl EditingKeybinds {
    /// The keys that `default` binds.
    pub open spec fn is_default(self) -> bool {
        &&& self.edit.instructional_text@ == "Edit selected field"@
        &&& self.edit.display_text@ == "e || i"@
        &&& self.edit.keybinds@.len() == 2
        &&& self.edit.keybinds@[0].0@ == "edit"@
        &&& def_is(self.edit.keybinds@[0].1, KeyCode::Char('e'), 0u8, "Edit selected field"@, "e"@)
        &&& self.edit.keybinds@[1].0@ == "edit_alt"@
        &&& def_is(self.edit.keybinds@[1].1, KeyCode::Char('i'), 0u8, "Edit selected fielde"@, "i"@)
        &&& def_is(self.exit, KeyCode::Esc, 0u8, "Finish editing recipe"@, "ESC"@)
        &&& self.prompt_scroll.instructional_text@ == "Scroll prompt options"@
        &&& self.prompt_scroll.display_text@ == "\u{2190} || \u{2192}"@
        &&& self.prompt_scroll.keybinds@.len() == 2
        &&& self.prompt_scroll.keybinds@[0].0@ == "prompt_scroll_left"@
        &&& def_is(self.prompt_scroll.keybinds@[0].1, KeyCode::Left, 0u8, "Scroll Prompt Option Left"@, "\u{2190}"@)
        &&& self.prompt_scroll.keybinds@[1].0@ == "prompt_scroll_right"@
        &&& def_is(self.prompt_scroll.keybinds@[1].1, KeyCode::Right, 0u8, "Scroll Prompt Option Right"@, "\u{2192}"@)
        &&& self.field_scroll.instructional_text@ == "cycle between fields"@
        &&& self.field_scroll.display_text@ == "\u{2195}"@
        &&& self.field_scroll.keybinds@.len() == 2
        &&& self.field_scroll.keybinds@[0].0@ == "field_scroll_down"@
        &&& def_is(self.field_scroll.keybinds@[0].1, KeyCode::Down, 0u8, "scroll to next field"@, "\u{2193}"@)
        &&& self.field_scroll.keybinds@[1].0@ == "field_scroll_up"@
        &&& def_is(self.field_scroll.keybinds@[1].1, KeyCode::Up, 0u8, "scroll to previous field"@, "\u{2191}"@)
        &&& self.item_scroll.instructional_text@ == "cycle between items"@
        &&& self.item_scroll.display_text@ == "\u{21E7}+\u{2195}"@
        &&& self.item_scroll.keybinds@.len() == 2
        &&& self.item_scroll.keybinds@[0].0@ == "item_scroll_down"@
        &&& def_is(self.item_scroll.keybinds@[0].1, KeyCode::Down, 1u8, "scroll to next item"@, "\u{21E7} + \u{2193}"@)
        &&& self.item_scroll.keybinds@[1].0@ == "item_scroll_up"@
        &&& def_is(self.item_scroll.keybinds@[1].1, KeyCode::Up, 1u8, "scroll to previous item"@, "\u{21E7} + \u{2191}"@)
        &&& self.item_switch.instructional_text@ == "switch between item types"@
        &&& self.item_switch.display_text@ == "(\u{21E7}) + \u{2B7E}"@
        &&& self.item_switch.keybinds@.len() == 2
        &&& self.item_switch.keybinds@[0].0@ == "item_switch_forward"@
        &&& def_is(self.item_switch.keybinds@[0].1, KeyCode::Tab, 0u8, "switch to next item type"@, "\u{2B7E}"@)
        &&& self.item_switch.keybinds@[1].0@ == "item_switch_reverse"@
        &&& def_is(self.item_switch.keybinds@[1].1, KeyCode::Tab, 1u8, "switch to previous item type"@, "\u{21E7}+\u{2B7E}"@)
        &&& def_is(self.new_step, KeyCode::Char('s'), 0u8, "Insert new Step"@, "s"@)
        &&& def_is(self.new_ingredient, KeyCode::Char('g'), 0u8, "Insert new inGredient"@, "g"@)
        &&& def_is(self.new_equipment, KeyCode::Char('q'), 0u8, "Insert new eQuipment"@, "q"@)
        &&& def_is(self.back_delete, KeyCode::Backspace, 0u8, "Delete text behind cursor"@, "\u{232B}"@)
        &&& def_is(self.front_delete, KeyCode::Delete, 0u8, "Delete text in front of cursor"@, "\u{2326}"@)
        &&& self.move_cursor.instructional_text@ == "Move cursor while editing"@
        &&& self.move_cursor.display_text@ == "\u{2194}"@
        &&& self.move_cursor.keybinds@.len() == 2
        &&& self.move_cursor.keybinds@[0].0@ == "move_cursor_left"@
        &&& def_is(self.move_cursor.keybinds@[0].1, KeyCode::Left, 0u8, "Move cursor left while editing"@, "\u{2190}"@)
        &&& self.move_cursor.keybinds@[1].0@ == "move_cursor_right"@
        &&& def_is(self.move_cursor.keybinds@[1].1, KeyCode::Right, 0u8, "Move cursor right while editing"@, "\u{2192}"@)
        &&& def_is(self.confirm, KeyCode::Enter, 0u8, "Confirm selection or insert newline"@, "\u{21B5}"@)
    }
}

impl Default for EditingKeybinds {
    /// The keys of the recipe creator and editor.
    fn default() -> (r: EditingKeybinds)
        ensures
            r.is_default(),
    {
        let mut edit: Vec<(String, KeybindDefinition)> = Vec::new();
        edit.push((String::from_str("edit"), definition(KeyCode::Char('e'), KeyModifiers::none(), "Edit selected field", "e")));
        edit.push((String::from_str("edit_alt"), definition(KeyCode::Char('i'), KeyModifiers::none(), "Edit selected fielde", "i")));
        let mut prompt_scroll: Vec<(String, KeybindDefinition)> = Vec::new();
        prompt_scroll.push((String::from_str("prompt_scroll_left"), definition(KeyCode::Left, KeyModifiers::none(), "Scroll Prompt Option Left", "\u{2190}")));
        prompt_scroll.push((String::from_str("prompt_scroll_right"), definition(KeyCode::Right, KeyModifiers::none(), "Scroll Prompt Option Right", "\u{2192}")));
        let mut field_scroll: Vec<(String, KeybindDefinition)> = Vec::new();
        field_scroll.push((String::from_str("field_scroll_down"), definition(KeyCode::Down, KeyModifiers::none(), "scroll to next field", "\u{2193}")));
        field_scroll.push((String::from_str("field_scroll_up"), definition(KeyCode::Up, KeyModifiers::none(), "scroll to previous field", "\u{2191}")));
        let mut item_scroll: Vec<(String, KeybindDefinition)> = Vec::new();
        item_scroll.push((String::from_str("item_scroll_down"), definition(KeyCode::Down, KeyModifiers::shift(), "scroll to next item", "\u{21E7} + \u{2193}")));
        item_scroll.push((String::from_str("item_scroll_up"), definition(KeyCode::Up, KeyModifiers::shift(), "scroll to previous item", "\u{21E7} + \u{2191}")));
        let mut item_switch: Vec<(String, KeybindDefinition)> = Vec::new();
        item_switch.push((String::from_str("item_switch_forward"), definition(KeyCode::Tab, KeyModifiers::none(), "switch to next item type", "\u{2B7E}")));
        item_switch.push((String::from_str("item_switch_reverse"), definition(KeyCode::Tab, KeyModifiers::shift(), "switch to previous item type", "\u{21E7}+\u{2B7E}")));
        let mut move_cursor: Vec<(String, KeybindDefinition)> = Vec::new();
        move_cursor.push((String::from_str("move_cursor_left"), definition(KeyCode::Left, KeyModifiers::none(), "Move cursor left while editing", "\u{2190}")));
        move_cursor.push((String::from_str("move_cursor_right"), definition(KeyCode::Right, KeyModifiers::none(), "Move cursor right while editing", "\u{2192}")));
        EditingKeybinds {
            edit: KeybindGroup {
                instructional_text: String::from_str("Edit selected field"),
                display_text: String::from_str("e || i"),
                keybinds: edit,
            },
            exit: definition(KeyCode::Esc, KeyModifiers::none(), "Finish editing recipe", "ESC"),
            prompt_scroll: KeybindGroup {
                instructional_text: String::from_str("Scroll prompt options"),
                display_text: String::from_str("\u{2190} || \u{2192}"),
                keybinds: prompt_scroll,
            },
            field_scroll: KeybindGroup {
                instructional_text: String::from_str("cycle between fields"),
                display_text: String::from_str("\u{2195}"),
                keybinds: field_scroll,
            },
            item_scroll: KeybindGroup {
                instructional_text: String::from_str("cycle between items"),
                display_text: String::from_str("\u{21E7}+\u{2195}"),
                keybinds: item_scroll,
            },
            item_switch: KeybindGroup {
                instructional_text: String::from_str("switch between item types"),
                display_text: String::from_str("(\u{21E7}) + \u{2B7E}"),
                keybinds: item_switch,
            },
            new_step: definition(KeyCode::Char('s'), KeyModifiers::none(), "Insert new Step", "s"),
            new_ingredient: definition(KeyCode::Char('g'), KeyModifiers::none(), "Insert new inGredient", "g"),
            new_equipment: definition(KeyCode::Char('q'), KeyModifiers::none(), "Insert new eQuipment", "q"),
            back_delete: definition(KeyCode::Backspace, KeyModifiers::none(), "Delete text behind cursor", "\u{232B}"),
            front_delete: definition(KeyCode::Delete, KeyModifiers::none(), "Delete text in front of cursor", "\u{2326}"),
            move_cursor: KeybindGroup {
                instructional_text: String::from_str("Move cursor while editing"),
                display_text: String::from_str("\u{2194}"),
                keybinds: move_cursor,
            },
            confirm: definition(KeyCode::Enter, KeyModifiers::none(), "Confirm selection or insert newline", "\u{21B5}"),
        }
    }
}
/// `ViewingKeybinds` are the keys of the recipe viewer.
#[derive(Debug)]
pub struct ViewingKeybinds {
    /// leave the current screen or field
    pub exit: KeybindDefinition,
}

impl ViewingKeybinds {
    /// The keys that `default` binds.
    pub open spec fn is_default(self) -> bool {
        &&& def_is(self.exit, KeyCode::Esc, 0u8, "Return to Browsing"@, "ESC"@)
    }
}

impl Default for ViewingKeybinds {
    /// The keys of the recipe viewer.
    fn default() -> (r: ViewingKeybinds)
        ensures
            r.is_default(),
    {
        ViewingKeybinds {
            exit: definition(KeyCode::Esc, KeyModifiers::none(), "Return to Browsing", "ESC"),
        }
    }
}
/// `FieldEditingKeybinds` are the keys used while a field is edited.
#[derive(Debug)]
pub struct FieldEditingKeybinds {
    /// leave the current screen or field
    pub exit: KeybindDefinition,
}

impl FieldEditingKeybinds {
    /// The keys that `default` binds.
    pub open spec fn is_default(self) -> bool {
        &&& def_is(self.exit, KeyCode::Esc, 0u8, "Finish editing recipe"@, "ESC"@)
    }
}

impl Default for FieldEditingKeybinds {
    /// The keys used while a field is edited.
    fn default() -> (r: FieldEditingKeybinds)
        ensures
            r.is_default(),
    {
        FieldEditingKeybinds {
            exit: definition(KeyCode::Esc, KeyModifiers::none(), "Finish editing recipe", "ESC"),
        }
    }
}
/// `CoreKeybinds` are the keys available on every screen.
#[derive(Debug)]
pub struct CoreKeybinds {
    /// leave the current screen or field
    pub exit: KeybindGroup,
}

impl CoreKeybinds {
    /// The keys that `default` binds.
    pub open spec fn is_default(self) -> bool {
        &&& self.exit.instructional_text@ == "force quit app without saving"@
        &&& self.exit.display_text@ == "^c"@
        &&& self.exit.keybinds@.len() == 2
        &&& self.exit.keybinds@[0].0@ == "^c"@
        &&& def_is(self.exit.keybinds@[0].1, KeyCode::Char('c'), 2u8, "force quit app without saving"@, "^c"@)
        &&& self.exit.keybinds@[1].0@ == "^C"@
        &&& def_is(self.exit.keybinds@[1].1, KeyCode::Char('c'), 3u8, "force quit app without saving"@, "^c"@)
    }
}

impl Default for CoreKeybinds {
    /// The keys available on every screen.
    fn default() -> (r: CoreKeybinds)
        ensures
            r.is_default(),
    {
        let mut exit: Vec<(String, KeybindDefinition)> = Vec::new();
        exit.push((String::from_str("^c"), definition(KeyCode::Char('c'), KeyModifiers::control(), "force quit app without saving", "^c")));
        exit.push((String::from_str("^C"), definition(KeyCode::Char('c'), KeyModifiers::control().union(KeyModifiers::shift()), "force quit app without saving", "^c")));
        assert(2u8 | 1u8 == 3u8) by (bit_vector);
        CoreKeybinds {
            exit: KeybindGroup {
                instructional_text: String::from_str("force quit app without saving"),
                display_text: String::from_str("^c"),
                keybinds: exit,
            },
        }
    }
}
/// `Keybinds` holds every keybind of the terminal interface.
#[derive(Debug)]
pub struct Keybinds {
    /// keys of the recipe browser
    pub browsing: BrowsingKeybinds,
    /// keys of the recipe creator and editor
    pub editing: EditingKeybinds,
    /// keys of the recipe viewer
    pub viewing: ViewingKeybinds,
    /// keys used while a field is edited
    pub field_editing: FieldEditingKeybinds,
    /// keys available everywhere
    pub core: CoreKeybinds,
}

impl Keybinds {
    /// The keys that `default` binds.
    pub open spec fn is_default(self) -> bool {
        &&& self.browsing.is_default()
        &&& self.editing.is_default()
        &&& self.viewing.is_default()
        &&& self.field_editing.is_default()
        &&& self.core.is_default()
    }

    /// Every named keybind that the key handler looks up is there.
    pub open spec fn complete(self) -> bool {
        &&& self.browsing.recipe_scroll.spec_get("recipe_scroll_down"@) is Some
        &&& self.browsing.recipe_scroll.spec_get("recipe_scroll_up"@) is Some
        &&& self.editing.field_scroll.spec_get("field_scroll_up"@) is Some
        &&& self.editing.field_scroll.spec_get("field_scroll_down"@) is Some
        &&& self.editing.item_scroll.spec_get("item_scroll_up"@) is Some
        &&& self.editing.item_scroll.spec_get("item_scroll_down"@) is Some
        &&& self.editing.item_switch.spec_get("item_switch_forward"@) is Some
        &&& self.editing.item_switch.spec_get("item_switch_reverse"@) is Some
        &&& self.editing.move_cursor.spec_get("move_cursor_left"@) is Some
        &&& self.editing.move_cursor.spec_get("move_cursor_right"@) is Some
        &&& self.editing.prompt_scroll.spec_get("prompt_scroll_left"@) is Some
        &&& self.editing.prompt_scroll.spec_get("prompt_scroll_right"@) is Some
    }

    /// `is_complete` decides whether every named keybind that the key
    /// handler looks up is there.
    pub fn is_complete(&self) -> (b: bool)
        ensures
            b == self.complete(),
    {
        self.browsing.recipe_scroll.get("recipe_scroll_down").is_some()
            && self.browsing.recipe_scroll.get("recipe_scroll_up").is_some()
            && self.editing.field_scroll.get("field_scroll_up").is_some()
            && self.editing.field_scroll.get("field_scroll_down").is_some()
            && self.editing.item_scroll.get("item_scroll_up").is_some()
            && self.editing.item_scroll.get("item_scroll_down").is_some()
            && self.editing.item_switch.get("item_switch_forward").is_some()
            && self.editing.item_switch.get("item_switch_reverse").is_some()
            && self.editing.move_cursor.get("move_cursor_left").is_some()
            && self.editing.move_cursor.get("move_cursor_right").is_some()
            && self.editing.prompt_scroll.get("prompt_scroll_left").is_some()
            && self.editing.prompt_scroll.get("prompt_scroll_right").is_some()
    }
}

impl Default for Keybinds {
    /// The default keys of every screen.
    fn default() -> (r: Keybinds)
        ensures
            r.is_default(),
            r.complete(),
    {
        let r = Keybinds {
            browsing: BrowsingKeybinds::default(),
            editing: EditingKeybinds::default(),
            viewing: ViewingKeybinds::default(),
            field_editing: FieldEditingKeybinds::default(),
            core: CoreKeybinds::default(),
        };
        proof {
            lemma_default_complete(r);
        }
        r
    }
}

/// With the default keybinds only Ctrl+C and Ctrl+Shift+C force the app to
/// quit: a key pressed without Ctrl never does.
pub proof fn lemma_default_exit_needs_control(core: CoreKeybinds, code: KeyCode, modifiers: KeyModifiers)
    requires
        core.is_default(),
        core.exit.spec_any(code, modifiers),
    ensures
        code == KeyCode::Char('c'),
        modifiers.bits == 2 || modifiers.bits == 3,
{
    let i = choose|i: int| 0 <= i < core.exit.keybinds@.len() && (#[trigger] core.exit.keybinds@[i]).1.spec_matches(code, modifiers);
    assert(i == 0 || i == 1);
}

/// The default keybinds have every named keybind that the key handler
/// looks up.
pub proof fn lemma_default_complete(k: Keybinds)
    requires
        k.is_default(),
    ensures
        k.complete(),
{
    reveal_strlit("recipe_scroll_down");
    reveal_strlit("recipe_scroll_up");
    reveal_strlit("field_scroll_down");
    reveal_strlit("field_scroll_up");
    reveal_strlit("item_scroll_down");
    reveal_strlit("item_scroll_up");
    reveal_strlit("item_switch_forward");
    reveal_strlit("item_switch_reverse");
    reveal_strlit("move_cursor_left");
    reveal_strlit("move_cursor_right");
    reveal_strlit("prompt_scroll_left");
    reveal_strlit("prompt_scroll_right");
    assert("recipe_scroll_down"@[14] != "recipe_scroll_up"@[14]);
    assert("field_scroll_down"@[13] != "field_scroll_up"@[13]);
    assert("item_scroll_down"@[12] != "item_scroll_up"@[12]);
    assert("item_switch_forward"@[12] != "item_switch_reverse"@[12]);
    assert("move_cursor_left"@[12] != "move_cursor_right"@[12]);
    assert("prompt_scroll_left"@[14] != "prompt_scroll_right"@[14]);
    lemma_named_first_two(k.browsing.recipe_scroll.keybinds@, "recipe_scroll_down"@, "recipe_scroll_up"@);
    lemma_named_first_two(k.editing.field_scroll.keybinds@, "field_scroll_down"@, "field_scroll_up"@);
    lemma_named_first_two(k.editing.item_scroll.keybinds@, "item_scroll_down"@, "item_scroll_up"@);
    lemma_named_first_two(k.editing.item_switch.keybinds@, "item_switch_forward"@, "item_switch_reverse"@);
    lemma_named_first_two(k.editing.move_cursor.keybinds@, "move_cursor_left"@, "move_cursor_right"@);
    lemma_named_first_two(k.editing.prompt_scroll.keybinds@, "prompt_scroll_left"@, "prompt_scroll_right"@);
}

/// In a list of two keybinds with different names, each is found by its
/// name.
proof fn lemma_named_first_two(entries: Seq<(String, KeybindDefinition)>, a: Seq<char>, b: Seq<char>)
    requires
        entries.len() == 2,
        entries[0].0@ == a,
        entries[1].0@ == b,
        a != b,
    ensures
        group_lookup(entries, a) == Some(entries[0].1),
        group_lookup(entries, b) == Some(entries[1].1),
{
    reveal_with_fuel(group_lookup, 3);
    assert(entries.drop_first()[0] == entries[1]);
}

} // verus!
