use vstd::prelude::*;

use crate::theme::Color;
use ratatui::style::Style;

verus! {

#[verifier::external_type_specification]
#[verifier::external_body]
pub struct ExStyle(Style);

/// Emphasis that a style adds to the text it paints.
#[derive(Debug, Clone, Copy, PartialEq, Eq, Structural)]
pub enum TextModifier {
    Bold,
}

/// The ratatui style `Style::from(fg)`: foreground `fg`, nothing else set.
pub uninterp spec fn fg_style(fg: Color) -> Style;

/// The ratatui style `Style::from((fg, modifier))`: foreground `fg` with `modifier` added.
pub uninterp spec fn fg_modifier_style(fg: Color, modifier: TextModifier) -> Style;

/// Calls ratatui's `From<Color> for Style`, which the source writes as
/// `Style::new().fg(color)`; the result is named `fg_style(fg)`, a function of `fg` alone.
#[verifier::external_body]
pub(crate) fn style_from_fg(fg: Color) -> (style: Style)
    ensures
        style == fg_style(fg),
{
    let Color::Rgb(r, g, b) = fg;
    Style::from(ratatui::style::Color::Rgb(r, g, b))
}

/// Calls ratatui's `From<(Color, Modifier)> for Style`, which the source writes as
/// `Style::new().fg(fg).add_modifier(modifier)`; the result is named
/// `fg_modifier_style(fg, modifier)`, a function of its arguments alone.
#[verifier::external_body]
pub(crate) fn style_from_fg_modifier(fg: Color, modifier: TextModifier) -> (style: Style)
    ensures
        style == fg_modifier_style(fg, modifier),
{
    let Color::Rgb(r, g, b) = fg;
    let m = match modifier {
        TextModifier::Bold => ratatui::style::Modifier::BOLD,
    };
    Style::from((ratatui::style::Color::Rgb(r, g, b), m))
}

} // verus!
