use ratatui::style::Style;
use vstd::prelude::*;

use super::ranged::RangedWrapping;
use super::render_types::default_style;

verus! {

/// `ChoicePopup` is a centered popup box with several choices, one of
/// them selected.
#[derive(Debug)]
pub struct ChoicePopup {
    /// title of the popup
    title: String,
    /// text shown above the choices, if any
    description: Option<String>,
    /// the choices and their styles, in order
    choices: Vec<(String, Style)>,
    /// position of the default choice
    default_choice: usize,
    /// how much of the width of the screen area the popup takes, in percent
    percent_x: u16,
    /// how much of the height of the screen area the popup takes, in percent
    percent_y: u16,
    /// style of the outer block
    block_style: Style,
    /// style added to the selected choice
    selected_style: Style,
    /// style of the description
    description_style: Style,
}

impl ChoicePopup {
    /// The title.
    pub closed spec fn spec_title(&self) -> Seq<char> {
        self.title@
    }

    /// The description, if any.
    pub closed spec fn spec_description(&self) -> Option<Seq<char>> {
        self.description.deep_view()
    }

    /// The texts of the choices, in order.
    pub closed spec fn choice_texts(&self) -> Seq<Seq<char>> {
        self.choices@.map_values(|c: (String, Style)| c.0@)
    }

    /// The position of the default choice.
    pub closed spec fn spec_default_choice(&self) -> usize {
        self.default_choice
    }

    /// The width and height of the popup, in percent of the screen area.
    pub closed spec fn spec_percent(&self) -> (u16, u16) {
        (self.percent_x, self.percent_y)
    }

    /// The style of the outer block.
    pub closed spec fn spec_block_style(&self) -> Style {
        self.block_style
    }

    /// The style added to the selected choice.
    pub closed spec fn spec_selected_style(&self) -> Style {
        self.selected_style
    }

    /// The style of the description.
    pub closed spec fn spec_description_style(&self) -> Style {
        self.description_style
    }

    /// The styles of the choices, in order.
    pub closed spec fn choice_styles(&self) -> Seq<Style> {
        self.choices@.map_values(|c: (String, Style)| c.1)
    }

    /// The styles: of the block, of the selected choice, of the description
    /// and of each choice.
    pub open spec fn styles(&self) -> (Style, Style, Style, Seq<Style>) {
        (self.spec_block_style(), self.spec_selected_style(), self.spec_description_style(), self.choice_styles())
    }

    /// The title, the description, the choices, the default choice and the
    /// size: everything but the styles.
    pub open spec fn contents(&self) -> (Seq<char>, Option<Seq<char>>, Seq<Seq<char>>, usize, (u16, u16)) {
        (self.spec_title(), self.spec_description(), self.choice_texts(), self.spec_default_choice(), self.spec_percent())
    }

    /// `new` is a popup with no title, description or choice, and a size of
    /// zero: the default value. Its three styles are one and the same, the
    /// default style of `ratatui`.
    pub fn new() -> (p: ChoicePopup)
        ensures
            p.contents() == (Seq::<char>::empty(), None::<Seq<char>>, Seq::<Seq<char>>::empty(), 0usize, (0u16, 0u16)),
            p.spec_selected_style() == p.spec_block_style(),
            p.spec_description_style() == p.spec_block_style(),
            p.choice_styles() == Seq::<Style>::empty(),
    {
        let style = default_style();
        let p = ChoicePopup {
            title: String::new(),
            description: None,
            choices: Vec::new(),
            default_choice: 0,
            percent_x: 0,
            percent_y: 0,
            block_style: style,
            selected_style: style,
            description_style: style,
        };
        assert(p.choice_texts() =~= Seq::<Seq<char>>::empty());
        assert(p.choice_styles() =~= Seq::<Style>::empty());
        p
    }

    /// `title` sets the title of the popup.
    pub fn title(self, title: &str) -> (p: ChoicePopup)
        ensures
            p.contents() == (title@, self.contents().1, self.contents().2, self.contents().3, self.contents().4),
            p.styles() == self.styles(),
    {
        ChoicePopup { title: String::from_str(title), ..self }
    }

    /// `description` sets the text shown above the choices.
    pub fn description(self, description: &str) -> (p: ChoicePopup)
        ensures
            p.contents() == (self.contents().0, Some(description@), self.contents().2, self.contents().3, self.contents().4),
            p.styles() == self.styles(),
    {
        ChoicePopup { description: Some(String::from_str(description)), ..self }
    }

    /// `percent_x` sets the width of the popup, in percent of the screen
    /// area.
    pub fn percent_x(self, percent_x: u16) -> (p: ChoicePopup)
        ensures
            p.contents() == (self.contents().0, self.contents().1, self.contents().2, self.contents().3, (percent_x, self.contents().4.1)),
            p.styles() == self.styles(),
    {
        ChoicePopup { percent_x, ..self }
    }

    /// `percent_y` sets the height of the popup, in percent of the screen
    /// area.
    pub fn percent_y(self, percent_y: u16) -> (p: ChoicePopup)
        ensures
            p.contents() == (self.contents().0, self.contents().1, self.contents().2, self.contents().3, (self.contents().4.0, percent_y)),
            p.styles() == self.styles(),
    {
        ChoicePopup { percent_y, ..self }
    }

    /// `block_style` sets the style of the outer block.
    pub fn block_style(self, block_style: Style) -> (p: ChoicePopup)
        ensures
            p.contents() == self.contents(),
            p.spec_block_style() == block_style,
            p.spec_selected_style() == self.spec_selected_style(),
            p.spec_description_style() == self.spec_description_style(),
            p.choice_styles() == self.choice_styles(),
    {
        ChoicePopup { block_style, ..self }
    }

    /// `selected_style` sets the style added to the selected choice.
    pub fn selected_style(self, selected_style: Style) -> (p: ChoicePopup)
        ensures
            p.contents() == self.contents(),
            p.spec_selected_style() == selected_style,
            p.spec_block_style() == self.spec_block_style(),
            p.spec_description_style() == self.spec_description_style(),
            p.choice_styles() == self.choice_styles(),
    {
        ChoicePopup { selected_style, ..self }
    }

    /// `description_style` sets the style of the description.
    pub fn description_style(self, description_style: Style) -> (p: ChoicePopup)
        ensures
            p.contents() == self.contents(),
            p.spec_description_style() == description_style,
            p.spec_block_style() == self.spec_block_style(),
            p.spec_selected_style() == self.spec_selected_style(),
            p.choice_styles() == self.choice_styles(),
    {
        ChoicePopup { description_style, ..self }
    }

    /// `choices` replaces the list of choices.
    pub fn choices(self, choices: Vec<(String, Style)>) -> (p: ChoicePopup)
        ensures
            p.contents() == (
                self.contents().0,
                self.contents().1,
                choices@.map_values(|c: (String, Style)| c.0@),
                self.contents().3,
                self.contents().4,
            ),
            p.choice_styles() == choices@.map_values(|c: (String, Style)| c.1),
            p.spec_block_style() == self.spec_block_style(),
            p.spec_selected_style() == self.spec_selected_style(),
            p.spec_description_style() == self.spec_description_style(),
    {
        ChoicePopup { choices, ..self }
    }

    /// `append_choice` adds a choice after the others.
    pub fn append_choice(self, choice: &str, style: Style) -> (p: ChoicePopup)
        ensures
            p.contents() == (
                self.contents().0,
                self.contents().1,
                self.contents().2.push(choice@),
                self.contents().3,
                self.contents().4,
            ),
            p.choice_styles() == self.choice_styles().push(style),
            p.spec_block_style() == self.spec_block_style(),
            p.spec_selected_style() == self.spec_selected_style(),
            p.spec_description_style() == self.spec_description_style(),
    {
        let ghost old_texts = self.choice_texts();
        let ghost old_styles = self.choice_styles();
        let mut choices = self.choices;
        choices.push((String::from_str(choice), style));
        let p = ChoicePopup { choices, ..self };
        assert(p.choice_texts() =~= old_texts.push(choice@));
        assert(p.choice_styles() =~= old_styles.push(style));
        p
    }

    /// `set_default_choice` sets the position of the default choice.
    pub fn set_default_choice(self, choice_idx: usize) -> (p: ChoicePopup)
        ensures
            p.contents() == (self.contents().0, self.contents().1, self.contents().2, choice_idx, self.contents().4),
            p.styles() == self.styles(),
    {
        ChoicePopup { default_choice: choice_idx, ..self }
    }

    /// `num_choices` is the number of choices.
    pub fn num_choices(&self) -> (n: usize)
        ensures
            n == self.choice_texts().len(),
    {
        self.choices.len()
    }
}

/// `State` is the state of a popup: which choice is selected.
#[derive(Debug)]
pub struct State {
    /// the position of the selected choice, within the choices
    selected_choice: RangedWrapping,
}

impl State {
    /// The position of the selected choice and the last position.
    pub closed spec fn spec_selected(&self) -> RangedWrapping {
        self.selected_choice
    }

    /// The selection lies within the choices.
    pub open spec fn wf(&self) -> bool {
        &&& self.spec_selected().wf()
        &&& self.spec_selected().min == 0
    }

    /// `new` selects the default choice of `widget`; the selection ranges
    /// over all its choices.
    pub fn new(widget: &ChoicePopup) -> (s: State)
        requires
            widget.spec_default_choice() < widget.choice_texts().len(),
        ensures
            s.wf(),
            s.spec_selected() == (RangedWrapping {
                value: widget.spec_default_choice(),
                min: 0,
                max: (widget.choice_texts().len() - 1) as usize,
            }),
    {
        State { selected_choice: RangedWrapping { value: widget.default_choice, min: 0, max: widget.num_choices() - 1 } }
    }

    /// `select_next` selects the next choice, or the first after the last.
    pub fn select_next(&mut self)
        requires
            old(self).wf(),
        ensures
            final(self).wf(),
            final(self).spec_selected() == old(self).spec_selected().spec_next(),
    {
        self.selected_choice.increment();
    }

    /// `select_previous` selects the previous choice, or the last before the
    /// first.
    pub fn select_previous(&mut self)
        requires
            old(self).wf(),
        ensures
            final(self).wf(),
            final(self).spec_selected() == old(self).spec_selected().spec_previous(),
    {
        self.selected_choice.decrement();
    }

    /// `value` is the position of the selected choice.
    pub fn value(&self) -> (v: usize)
        ensures
            v == self.spec_selected().value,
    {
        self.selected_choice.value
    }
}

} // verus!
