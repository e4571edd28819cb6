use vstd::prelude::*;

verus! {

/// `AppStyle` holds every style of the terminal interface: of text, blocks,
/// list entries, the status line and the save prompt.
#[derive(Clone, Copy, Debug)]
pub struct AppStyle {
    /// ordinary text
    pub normal_text: ratatui::style::Style,
    /// a value that is missing
    pub missing_text: ratatui::style::Style,
    /// the block of the title
    pub title_block: ratatui::style::Style,
    /// the title while browsing
    pub browse_title_text: ratatui::style::Style,
    /// the title while viewing
    pub view_title_text: ratatui::style::Style,
    /// the title while creating a recipe
    pub create_title_text: ratatui::style::Style,
    /// the title while editing a recipe
    pub edit_title_text: ratatui::style::Style,
    /// the entries of the recipe list
    pub recipe_list_entries: ratatui::style::Style,
    /// the entries of the tag list
    pub tag_list_entries: ratatui::style::Style,
    /// the keyboard shortcuts
    pub keyboard_shortcut_text: ratatui::style::Style,
    /// the block of the status line
    pub status_block: ratatui::style::Style,
    /// the status while browsing
    pub browsing_status: ratatui::style::Style,
    /// the status while viewing
    pub viewing_status: ratatui::style::Style,
    /// the status while creating a recipe
    pub creating_status: ratatui::style::Style,
    /// the status while editing a recipe
    pub editing_status: ratatui::style::Style,
    /// the block of the save prompt
    pub save_block: ratatui::style::Style,
    /// the "Yes" choice of the save prompt
    pub yes_text: ratatui::style::Style,
    /// the "No" choice of the save prompt
    pub no_text: ratatui::style::Style,
    /// the "Cancel" choice of the save prompt
    pub cancel_text: ratatui::style::Style,
    /// the style added to a selected choice
    pub selected_text: ratatui::style::Style,
}

} // verus!
