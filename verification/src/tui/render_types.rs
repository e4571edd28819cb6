use vstd::prelude::*;

verus! {

/// The style of a piece of the terminal screen, from `ratatui`. The logic
/// here only carries it to the widgets that draw with it.
#[verifier::external_type_specification]
#[verifier::external_body]
pub struct ExStyle(ratatui::style::Style);

/// The border block of a widget, from `ratatui`. The logic here only
/// carries it to the widget that draws it.
#[verifier::external_type_specification]
#[verifier::external_body]
pub struct ExBlock<'a>(ratatui::widgets::Block<'a>);

/// The style that changes nothing, from `<ratatui::style::Style as
/// Default>::default`; nothing is stated of it.
#[verifier::external_body]
pub(crate) fn default_style() -> ratatui::style::Style {
    ratatui::style::Style::default()
}

} // verus!
