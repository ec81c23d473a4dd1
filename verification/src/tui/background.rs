//! Where the background art goes on the screen.

use vstd::prelude::*;
use vstd::string::*;
use crate::error::TUILogError;
use crate::text::texts_view;
use crate::utils::{largest, longest_width, split_lines, text_lines, widths_view};

verus! {

/// The background art, line by line, with the place of its first character.
#[derive(Clone, Debug, PartialEq, Eq)]
pub struct ArtPlacement {
    /// The lines of the art, from the top.
    pub lines: Vec<String>,
    /// The column of the first character of each line.
    pub start_x: usize,
    /// The row of the first line; line `i` goes to row `start_y + i`.
    pub start_y: usize,
}

/// The numbers of characters of the lines.
pub open spec fn line_lengths(lines: Seq<Seq<char>>) -> Seq<nat> {
    lines.map_values(|line: Seq<char>| line.len())
}

/// The offset that centres `size` within `room`: half of what is left, and 0
/// where nothing is left.
pub open spec fn centred(room: nat, size: nat) -> nat {
    if size >= room {
        0
    } else {
        ((room - size) / 2) as nat
    }
}

/// Places the background art in the middle of a screen of the given size. The
/// art is as wide as its longest line, counted in characters, and as high as it
/// has lines; art that is larger than the screen starts at the screen's edge.
/// Art that could not be read is reported as `BackgroundArtFailed`.
pub fn draw_background_ascii_art(art: Option<&str>, screen_width: usize, screen_height: usize) -> (placed:
    Result<ArtPlacement, TUILogError>)
    ensures
        art is None ==> placed == Err::<ArtPlacement, TUILogError>(
            TUILogError::BackgroundArtFailed,
        ),
        art matches Some(text) ==> placed matches Ok(placement) && texts_view(placement.lines@)
            == text_lines(text@) && placement.start_x == centred(
            screen_width as nat,
            largest(line_lengths(text_lines(text@))),
        ) && placement.start_y == centred(screen_height as nat, text_lines(text@).len()),
{
    let text = match art {
        Some(text) => text,
        None => { return Err(TUILogError::BackgroundArtFailed); },
    };
    let lines = split_lines(text);
    let mut lengths: Vec<usize> = Vec::new();
    let mut index: usize = 0;
    while index < lines.len()
        invariant
            0 <= index <= lines.len(),
            lengths@.len() == index,
            forall|i: int| 0 <= i < index ==> lengths@[i] == (#[trigger] lines@[i])@.len(),
        decreases lines.len() - index,
    {
        lengths.push(lines[index].as_str().unicode_len());
        index += 1;
    }
    assert(widths_view(lengths@) =~= line_lengths(text_lines(text@)));
    let art_width = longest_width(&lengths);
    let art_height = lines.len();
    let start_x = if art_width >= screen_width {
        0
    } else {
        (screen_width - art_width) / 2
    };
    let start_y = if art_height >= screen_height {
        0
    } else {
        (screen_height - art_height) / 2
    };
    Ok(ArtPlacement { lines, start_x, start_y })
}

} // verus!
