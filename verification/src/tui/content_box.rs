//! The box in the middle of the login screen: the host's name as art, the
//! session selector, the two input fields and the buttons.

use vstd::prelude::*;
use vstd::string::*;
use crate::session::catalog::Session;
use crate::state::cache::DefaultOptions;
use crate::text::join;
use crate::utils::{largest, line_widths, longest_line_length, longest_width, widths_view};

verus! {

/// The width of an input field, in columns.
pub const INPUT_LENGTH: usize = 24;

/// The width of an input field with its label and brackets.
pub const INPUT_COMBINED_LENGTH: usize = 36;

/// The width of the row of buttons.
pub const BUTTONS_LENGTH: usize = 36;

/// The columns that the selector's arrows take beside the longest name.
pub const SELECTOR_DECORATION: usize = 4;

/// What `text_to_ascii_art::to_art` makes of a text in a font, with the given
/// numbers of spaces before, between and after the letters: the art, or
/// nothing where the text holds a character that the font lacks.
pub uninterp spec fn ascii_art(
    input: Seq<char>,
    font: Seq<char>,
    leading: nat,
    gap: nat,
    trailing: nat,
) -> Option<Seq<char>>;

/// Calls `text_to_ascii_art::to_art`. The contract only names what it
/// returns; the numbers of spaces are kept small, since the call allocates
/// that many.
#[verifier::external_body]
fn to_art(input: &str, font: &str, leading: usize, gap: usize, trailing: usize) -> (art: Option<String>)
    requires
        leading <= 1024,
        gap <= 1024,
        trailing <= 1024,
    ensures
        match art {
            Some(text) => ascii_art(input@, font@, leading as nat, gap as nat, trailing as nat)
                == Some(text@),
            None => ascii_art(input@, font@, leading as nat, gap as nat, trailing as nat) is None,
        },
{
    text_to_ascii_art::to_art(input.to_string(), font, leading, gap, trailing).ok()
}

/// The art of a title where there is one, the title itself where there is none.
pub open spec fn art_or_title(art: Option<Seq<char>>, title: Seq<char>) -> Seq<char> {
    match art {
        Some(text) => text,
        None => title,
    }
}

/// Chooses what is shown for the host: the art, or the title where no art
/// could be made of it.
pub fn shown_title(art: Option<String>, title: &str) -> (shown: String)
    ensures
        shown@ == art_or_title(
            match art {
                Some(text) => Some(text@),
                None => None,
            },
            title@,
        ),
{
    match art {
        Some(text) => text,
        None => String::from_str(title),
    }
}

/// The title in the standard font, letters one space apart, or the title as
/// it stands where it holds a character that the font lacks.
pub fn hostname_art(title: &str) -> (shown: String)
    ensures
        shown@ == art_or_title(ascii_art(title@, "standard"@, 0, 1, 0), title@),
{
    shown_title(to_art(title, "standard", 0, 1, 0), title)
}

/// The paddings of the content box.
#[derive(Clone, Copy, Debug, PartialEq, Eq, Structural)]
pub struct ContentLayout {
    /// The width of the box's content.
    pub max_width: usize,
    /// The space to the left of each input field.
    pub input_left_padding: usize,
    /// The space to the left of the session selector.
    pub session_select_left_padding: usize,
    /// The space to the right of the session selector.
    pub session_select_right_padding: usize,
    /// The space to the left of the row of buttons.
    pub buttons_left_padding: usize,
}

/// The width of the box's content: that of the art, and at least that of an
/// input field with its label.
pub open spec fn content_width(art_width: nat) -> nat {
    if art_width > INPUT_COMBINED_LENGTH {
        art_width
    } else {
        INPUT_COMBINED_LENGTH as nat
    }
}

/// The paddings that centre the fields, the selector and the buttons in a box
/// as wide as the art, where the selector fits into it.
pub open spec fn layout_of(art_width: nat, longest_name: nat) -> Option<ContentLayout> {
    let width = content_width(art_width);
    let selector = longest_name + SELECTOR_DECORATION;
    if selector > width || width > usize::MAX {
        None
    } else {
        let left = (width - selector) / 2;
        Some(
            ContentLayout {
                max_width: width as usize,
                input_left_padding: ((width - INPUT_COMBINED_LENGTH) / 2) as usize,
                session_select_left_padding: left as usize,
                session_select_right_padding: (width - left - selector) as usize,
                buttons_left_padding: ((width - BUTTONS_LENGTH) / 2 + 1) as usize,
            },
        )
    }
}

/// Computes the paddings of the content box from the width of the art and the
/// length of the longest session name. There are none where the selector is
/// wider than the box.
pub fn content_layout(art_width: usize, longest_name: usize) -> (layout: Option<ContentLayout>)
    ensures
        layout == layout_of(art_width as nat, longest_name as nat),
{
    let width = if art_width > INPUT_COMBINED_LENGTH {
        art_width
    } else {
        INPUT_COMBINED_LENGTH
    };
    if longest_name > width - SELECTOR_DECORATION {
        return None;
    }
    let selector = longest_name + SELECTOR_DECORATION;
    let left = (width - selector) / 2;
    Some(
        ContentLayout {
            max_width: width,
            input_left_padding: (width - INPUT_COMBINED_LENGTH) / 2,
            session_select_left_padding: left,
            session_select_right_padding: width - left - selector,
            buttons_left_padding: (width - BUTTONS_LENGTH) / 2 + 1,
        },
    )
}

/// The length of a text in bytes, as `str::len` gives it.
pub open spec fn byte_length(text: Seq<char>) -> nat {
    (vstd::utf8::encode_utf8(text).len() as usize) as nat
}

/// The lengths of the names of the sessions, in bytes.
pub open spec fn name_lengths(sessions: Seq<Session>) -> Seq<nat> {
    Seq::new(sessions.len(), |i: int| byte_length(sessions[i].name@))
}

/// The content box: what it shows for the host and how it is laid out.
#[derive(Clone, Debug, PartialEq, Eq)]
pub struct ContentBox {
    /// The host's name as art, or as it stands.
    pub hostname_art: String,
    /// The paddings.
    pub layout: ContentLayout,
}

/// Lays the content box out for a title and the sessions on offer: the box is
/// as wide as the widest line of the title's art, the selector as wide as the
/// longest session name. There is no box where the selector does not fit.
pub fn draw_content_box(title: &str, sessions: &Vec<Session>) -> (content: Option<ContentBox>)
    ensures
        match layout_of(
            largest(line_widths(art_or_title(ascii_art(title@, "standard"@, 0, 1, 0), title@))),
            largest(name_lengths(sessions@)),
        ) {
            Some(layout) => content matches Some(made) && made.layout == layout
                && made.hostname_art@ == art_or_title(
                ascii_art(title@, "standard"@, 0, 1, 0),
                title@,
            ),
            None => content is None,
        },
{
    let hostname_art = hostname_art(title);
    let art_width = longest_line_length(hostname_art.as_str());
    let mut lengths: Vec<usize> = Vec::new();
    let mut index: usize = 0;
    while index < sessions.len()
        invariant
            0 <= index <= sessions.len(),
            lengths@.len() == index,
            forall|i: int|
                0 <= i < index ==> lengths@[i] == byte_length((#[trigger] sessions@[i]).name@),
        decreases sessions.len() - index,
    {
        lengths.push(sessions[index].name.as_str().len());
        index += 1;
    }
    assert(widths_view(lengths@) =~= name_lengths(sessions@));
    let longest_name = longest_width(&lengths);
    match content_layout(art_width, longest_name) {
        Some(layout) => Some(ContentBox { hostname_art, layout }),
        None => None,
    }
}

/// The text in front of an input field: its label, a colon and the opening bracket.
pub fn draw_input_field(label: &str) -> (opening: String)
    ensures
        opening@ == label@ + ": ["@,
{
    join(label, ": [")
}

/// The text of a button: its label in brackets.
pub fn draw_button(label: &str) -> (text: String)
    ensures
        text@ == "["@ + label@ + "]"@,
{
    join("[", label).concat("]")
}

/// The values that the login screen starts with.
#[derive(Clone, Debug, PartialEq, Eq)]
pub struct DefaultValues {
    /// The username to fill in, if one is known.
    pub username: Option<String>,
    /// Whether the password field has the focus; the username field has it otherwise.
    pub focus_password: bool,
    /// The place of the session to select, if the stored one is on offer.
    pub session: Option<usize>,
}

/// Whether `place` is the first place in `sessions` of a session named `name`.
pub open spec fn first_named(sessions: Seq<Session>, name: Seq<char>, place: int) -> bool {
    &&& 0 <= place < sessions.len()
    &&& sessions[place].name@ == name
    &&& forall|i: int| 0 <= i < place ==> (#[trigger] sessions[i]).name@ != name
}

/// Finds the first session named `name`.
pub fn session_position(sessions: &Vec<Session>, name: &String) -> (place: Option<usize>)
    ensures
        match place {
            Some(found) => first_named(sessions@, name@, found as int),
            None => forall|i: int| 0 <= i < sessions@.len() ==> (#[trigger] sessions@[i]).name@ != name@,
        },
{
    let mut index: usize = 0;
    while index < sessions.len()
        invariant
            0 <= index <= sessions.len(),
            forall|i: int| 0 <= i < index ==> (#[trigger] sessions@[i]).name@ != name@,
        decreases sessions.len() - index,
    {
        if sessions[index].name.eq(name) {
            return Some(index);
        }
        index += 1;
    }
    None
}

/// Works out what the login screen starts with from the stored defaults: a
/// stored username is filled in and the focus goes to the password; a stored
/// session is selected where the catalog still offers one of that name.
pub fn set_default_values(options: &DefaultOptions, sessions: &Vec<Session>) -> (values: DefaultValues)
    ensures
        values.username == options.username,
        values.focus_password == options.username is Some,
        match options.session_name {
            Some(name) => match values.session {
                Some(found) => first_named(sessions@, name@, found as int),
                None => forall|i: int|
                    0 <= i < sessions@.len() ==> (#[trigger] sessions@[i]).name@ != name@,
            },
            None => values.session is None,
        },
{
    let username = match &options.username {
        Some(name) => Some(name.clone()),
        None => None,
    };
    let session = match &options.session_name {
        Some(name) => session_position(sessions, name),
        None => None,
    };
    DefaultValues { focus_password: username.is_some(), username, session }
}

} // verus!
