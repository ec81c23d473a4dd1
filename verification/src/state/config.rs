//! The values of the configuration that need more than reading.

use vstd::prelude::*;
use vstd::string::*;
use crate::text::same_text;

verus! {

/// The eight base colours of a terminal.
#[derive(Clone, Copy, Debug, PartialEq, Eq, Structural)]
pub enum BaseColor {
    Black,
    Red,
    Green,
    Yellow,
    Blue,
    Magenta,
    Cyan,
    White,
}

/// The colour that a name of the configuration stands for.
pub open spec fn base_color_named(name: Seq<char>) -> Option<BaseColor> {
    if name == "Black"@ {
        Some(BaseColor::Black)
    } else if name == "Red"@ {
        Some(BaseColor::Red)
    } else if name == "Green"@ {
        Some(BaseColor::Green)
    } else if name == "Yellow"@ {
        Some(BaseColor::Yellow)
    } else if name == "Blue"@ {
        Some(BaseColor::Blue)
    } else if name == "Magenta"@ {
        Some(BaseColor::Magenta)
    } else if name == "Cyan"@ {
        Some(BaseColor::Cyan)
    } else if name == "White"@ {
        Some(BaseColor::White)
    } else {
        None
    }
}

/// Reads the name of a base colour; the names are spelt with a capital and
/// nothing else is accepted.
pub fn parse_base_color(name: &str) -> (color: Option<BaseColor>)
    ensures
        color == base_color_named(name@),
{
    if same_text(name, "Black") {
        Some(BaseColor::Black)
    } else if same_text(name, "Red") {
        Some(BaseColor::Red)
    } else if same_text(name, "Green") {
        Some(BaseColor::Green)
    } else if same_text(name, "Yellow") {
        Some(BaseColor::Yellow)
    } else if same_text(name, "Blue") {
        Some(BaseColor::Blue)
    } else if same_text(name, "Magenta") {
        Some(BaseColor::Magenta)
    } else if same_text(name, "Cyan") {
        Some(BaseColor::Cyan)
    } else if same_text(name, "White") {
        Some(BaseColor::White)
    } else {
        None
    }
}

/// The colour of the background art where the configuration names none.
pub fn default_base_color() -> (color: BaseColor)
    ensures
        color == BaseColor::White,
{
    BaseColor::White
}

/// The directory of the cache where the configuration names none.
pub fn default_cache_dir() -> (directory: String)
    ensures
        directory@ == "/var/cache/tuilog"@,
{
    String::from_str("/var/cache/tuilog")
}

/// Whether a path starts at the root.
pub open spec fn is_absolute(path: Seq<char>) -> bool {
    path.len() > 0 && path[0] == '/'
}

/// `path` seen from `base`: itself where it starts at the root or the base is
/// empty, else the base, a slash unless the base ends in one, and the path.
pub open spec fn resolved(base: Seq<char>, path: Seq<char>) -> Seq<char> {
    if is_absolute(path) || base.len() == 0 {
        path
    } else if base.last() == '/' {
        base + path
    } else {
        base + "/"@ + path
    }
}

/// Resolves a path of the configuration against the configuration's directory.
pub fn resolve_path(base: &str, path: &str) -> (full: String)
    ensures
        full@ == resolved(base@, path@),
{
    let base_length = base.unicode_len();
    if base_length == 0 {
        return String::from_str(path);
    }
    if path.unicode_len() > 0 && path.get_char(0) == '/' {
        return String::from_str(path);
    }
    if base.get_char(base_length - 1) == '/' {
        String::from_str(base).concat(path)
    } else {
        String::from_str(base).concat("/").concat(path)
    }
}

/// The title of the login screen: the configured one, or the host's name.
pub fn title_or_hostname(title: Option<String>, hostname: String) -> (shown: String)
    ensures
        shown == match title {
            Some(text) => text,
            None => hostname,
        },
{
    match title {
        Some(text) => text,
        None => hostname,
    }
}

} // verus!
