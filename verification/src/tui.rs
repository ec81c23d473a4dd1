//! What the login screen shows, as far as it is computed: sizes, paddings,
//! labels and the values that the screen starts with.

pub mod background;
pub mod content_box;
pub mod theme;

pub use background::{draw_background_ascii_art, ArtPlacement};
pub use content_box::{
    draw_button, draw_content_box, draw_input_field, hostname_art, set_default_values,
    ContentBox, ContentLayout, DefaultValues,
};
pub use theme::{
    get_accent_message_theme, get_base_theme, get_edit_view_theme, get_error_message_theme,
    get_hostname_art_theme, Color, Theme,
};
