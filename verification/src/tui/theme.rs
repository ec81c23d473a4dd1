//! The colours of the login screen.

use vstd::prelude::*;
use crate::state::config::BaseColor;

verus! {

/// A colour of the palette: a base colour in its dark or its light shade.
#[derive(Clone, Copy, Debug, PartialEq, Eq, Structural)]
pub enum Color {
    Dark(BaseColor),
    Light(BaseColor),
}

/// The colours of a view and whether it has a shadow; borders are always simple lines.
#[derive(Clone, Copy, Debug, PartialEq, Eq, Structural)]
pub struct Theme {
    pub shadow: bool,
    pub background: Color,
    pub shadow_color: Color,
    pub view: Color,
    pub primary: Color,
    pub secondary: Color,
    pub tertiary: Color,
    pub title_primary: Color,
    pub title_secondary: Color,
    pub highlight: Color,
    pub highlight_inactive: Color,
    pub highlight_text: Color,
}

/// The theme of the screen: white on black, titles in yellow, no shadows.
pub open spec fn base_theme() -> Theme {
    Theme {
        shadow: false,
        background: Color::Dark(BaseColor::Black),
        shadow_color: Color::Dark(BaseColor::Black),
        view: Color::Dark(BaseColor::Black),
        primary: Color::Dark(BaseColor::White),
        secondary: Color::Dark(BaseColor::White),
        tertiary: Color::Light(BaseColor::White),
        title_primary: Color::Dark(BaseColor::Yellow),
        title_secondary: Color::Dark(BaseColor::Yellow),
        highlight: Color::Dark(BaseColor::White),
        highlight_inactive: Color::Dark(BaseColor::White),
        highlight_text: Color::Dark(BaseColor::Black),
    }
}

/// `theme` with another primary colour.
pub open spec fn with_primary(theme: Theme, primary: Color) -> Theme {
    Theme { primary, ..theme }
}

/// The theme of the screen.
pub fn get_base_theme() -> (theme: Theme)
    ensures
        theme == base_theme(),
{
    Theme {
        shadow: false,
        background: Color::Dark(BaseColor::Black),
        shadow_color: Color::Dark(BaseColor::Black),
        view: Color::Dark(BaseColor::Black),
        primary: Color::Dark(BaseColor::White),
        secondary: Color::Dark(BaseColor::White),
        tertiary: Color::Light(BaseColor::White),
        title_primary: Color::Dark(BaseColor::Yellow),
        title_secondary: Color::Dark(BaseColor::Yellow),
        highlight: Color::Dark(BaseColor::White),
        highlight_inactive: Color::Dark(BaseColor::White),
        highlight_text: Color::Dark(BaseColor::Black),
    }
}

/// The theme of the labels and of the terminal's name: the base theme with cyan text.
pub fn get_accent_message_theme() -> (theme: Theme)
    ensures
        theme == with_primary(base_theme(), Color::Dark(BaseColor::Cyan)),
{
    let mut theme = get_base_theme();
    theme.primary = Color::Dark(BaseColor::Cyan);
    theme
}

/// The theme of the input fields: the base theme with text and background
/// exchanged, so that a field stands out as a light bar.
pub fn get_edit_view_theme() -> (theme: Theme)
    ensures
        theme == (Theme {
            secondary: base_theme().background,
            background: base_theme().secondary,
            view: base_theme().primary,
            ..base_theme()
        }),
{
    let base = get_base_theme();
    let mut theme = base;
    theme.secondary = base.background;
    theme.background = base.secondary;
    theme.view = base.primary;
    theme
}

/// The theme of the host's name: the base theme with text in the title colour.
pub fn get_hostname_art_theme() -> (theme: Theme)
    ensures
        theme == with_primary(base_theme(), base_theme().title_primary),
{
    let base = get_base_theme();
    let mut theme = base;
    theme.primary = base.title_primary;
    theme
}

/// The theme of error messages: the base theme with red text.
pub fn get_error_message_theme() -> (theme: Theme)
    ensures
        theme == with_primary(base_theme(), Color::Dark(BaseColor::Red)),
{
    let mut theme = get_base_theme();
    theme.primary = Color::Dark(BaseColor::Red);
    theme
}

} // verus!
