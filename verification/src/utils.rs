//! Lines and their widths, and the name of the terminal behind standard input.

use vstd::prelude::*;
use vstd::string::*;
use crate::text::texts_view;

verus! {

/// What `unicode_width::UnicodeWidthStr::width` returns for a text: the
/// number of terminal columns that it takes.
pub uninterp spec fn display_width(text: Seq<char>) -> nat;

/// What `std::path::Path::file_name` returns for a path given as text: its
/// final component, where it has one.
pub uninterp spec fn path_file_name(path: Seq<char>) -> Option<Seq<char>>;

/// Calls `unicode_width::UnicodeWidthStr::width` on a text. The contract only
/// names what it returns.
#[verifier::external_body]
fn text_width(text: &str) -> (width: usize)
    ensures
        width == display_width(text@),
{
    unicode_width::UnicodeWidthStr::width(text)
}

/// Calls `std::path::Path::file_name` on a path given as text and hands the
/// component back as text. The contract only names what it returns.
#[verifier::external_body]
fn file_name(path: &str) -> (name: Option<String>)
    ensures
        match name {
            Some(text) => path_file_name(path@) == Some(text@),
            None => path_file_name(path@) is None,
        },
{
    match std::path::Path::new(path).file_name() {
        Some(name) => Some(name.to_string_lossy().into_owned()),
        None => None,
    }
}

/// The position of the first line feed of `text`, or its length where it has none.
pub open spec fn first_newline(text: Seq<char>) -> int
    decreases text.len(),
{
    if text.len() == 0 || text[0] == '\n' {
        0
    } else {
        1 + first_newline(text.drop_first())
    }
}

/// A line without the carriage return that stood before its line feed.
pub open spec fn without_return(line: Seq<char>) -> Seq<char> {
    if line.len() > 0 && line.last() == '\r' {
        line.drop_last()
    } else {
        line
    }
}

/// The lines of a text: what stands between its line feeds, each without a
/// carriage return before the line feed. A text that ends in a line feed has
/// no empty line after it; what follows the last line feed is a line as it stands.
pub open spec fn text_lines(text: Seq<char>) -> Seq<Seq<char>>
    decreases text.len(),
{
    if text.len() == 0 {
        Seq::empty()
    } else {
        let at = first_newline(text);
        if at < 0 || at >= text.len() {
            seq![text]
        } else {
            seq![without_return(text.subrange(0, at))] + text_lines(
                text.subrange(at + 1, text.len() as int),
            )
        }
    }
}

/// The first line feed is where the text before it has none.
proof fn lemma_first_newline(text: Seq<char>, at: int)
    requires
        0 <= at <= text.len(),
        forall|i: int| 0 <= i < at ==> text[i] != '\n',
        at < text.len() ==> text[at] == '\n',
    ensures
        first_newline(text) == at,
    decreases at,
{
    if at > 0 {
        let rest = text.drop_first();
        assert forall|i: int| 0 <= i < at - 1 implies rest[i] != '\n' by {
            assert(rest[i] == text[i + 1]);
        }
        lemma_first_newline(rest, at - 1);
    }
}

/// Splits a text into its lines.
pub fn split_lines(text: &str) -> (lines: Vec<String>)
    ensures
        texts_view(lines@) == text_lines(text@),
{
    let length = text.unicode_len();
    let mut lines: Vec<String> = Vec::new();
    let mut start: usize = 0;
    let mut index: usize = 0;
    assert(text@.subrange(0, length as int) =~= text@);
    while index < length
        invariant
            length == text@.len(),
            0 <= start <= index <= length,
            forall|i: int| start <= i < index ==> text@[i] != '\n',
            texts_view(lines@) + text_lines(text@.subrange(start as int, length as int))
                == text_lines(text@),
        decreases length - index,
    {
        let character = text.get_char(index);
        if character == '\n' {
            let end = if index > start && text.get_char(index - 1) == '\r' {
                index - 1
            } else {
                index
            };
            let line = String::from_str(text.substring_char(start, end));
            proof {
                let rest = text@.subrange(start as int, length as int);
                assert forall|i: int| 0 <= i < index - start implies rest[i] != '\n' by {
                    assert(rest[i] == text@[start + i]);
                }
                lemma_first_newline(rest, index - start);
                let whole = rest.subrange(0, index - start);
                assert(whole =~= text@.subrange(start as int, index as int));
                assert(line@ =~= without_return(whole));
                assert(rest.subrange(index - start + 1, rest.len() as int) =~= text@.subrange(
                    index + 1,
                    length as int,
                ));
                assert(texts_view(lines@.push(line)) =~= texts_view(lines@) + seq![line@]);
                assert(texts_view(lines@.push(line)) + text_lines(
                    text@.subrange(index + 1, length as int),
                ) =~= texts_view(lines@) + text_lines(rest));
            }
            lines.push(line);
            start = index + 1;
        }
        index += 1;
    }
    if start < length {
        let line = String::from_str(text.substring_char(start, length));
        proof {
            let rest = text@.subrange(start as int, length as int);
            assert forall|i: int| 0 <= i < length - start implies rest[i] != '\n' by {
                assert(rest[i] == text@[start + i]);
            }
            lemma_first_newline(rest, length - start);
            assert(texts_view(lines@.push(line)) =~= texts_view(lines@) + seq![line@]);
        }
        lines.push(line);
    } else {
        assert(texts_view(lines@) + Seq::<Seq<char>>::empty() =~= texts_view(lines@));
    }
    lines
}

/// The largest of `widths`, or 0 where there is none.
pub open spec fn largest(widths: Seq<nat>) -> nat
    decreases widths.len(),
{
    if widths.len() == 0 {
        0
    } else if widths.last() > largest(widths.drop_last()) {
        widths.last()
    } else {
        largest(widths.drop_last())
    }
}

/// The widths as numbers without bound.
pub open spec fn widths_view(widths: Seq<usize>) -> Seq<nat> {
    Seq::new(widths.len(), |i: int| widths[i] as nat)
}

/// Finds the largest of `widths`, or 0 where there is none.
pub fn longest_width(widths: &Vec<usize>) -> (longest: usize)
    ensures
        longest == largest(widths_view(widths@)),
{
    let mut longest: usize = 0;
    let mut index: usize = 0;
    assert(widths_view(widths@).take(0) =~= Seq::empty());
    while index < widths.len()
        invariant
            0 <= index <= widths.len(),
            longest == largest(widths_view(widths@).take(index as int)),
        decreases widths.len() - index,
    {
        proof {
            let longer = widths_view(widths@).take(index + 1);
            assert(longer.drop_last() =~= widths_view(widths@).take(index as int));
            assert(longer.last() == widths@[index as int] as nat);
        }
        if widths[index] > longest {
            longest = widths[index];
        }
        index += 1;
    }
    assert(widths_view(widths@).take(widths.len() as int) =~= widths_view(widths@));
    longest
}

/// The display widths of the lines of a text.
pub open spec fn line_widths(text: Seq<char>) -> Seq<nat> {
    text_lines(text).map_values(|line: Seq<char>| display_width(line))
}

/// The display width of the widest line of `input`; 0 for a text without lines.
pub fn longest_line_length(input: &str) -> (longest: usize)
    ensures
        longest == largest(line_widths(input@)),
{
    let lines = split_lines(input);
    let mut widths: Vec<usize> = Vec::new();
    let mut index: usize = 0;
    while index < lines.len()
        invariant
            0 <= index <= lines.len(),
            widths@.len() == index,
            forall|i: int| 0 <= i < index ==> widths@[i] == display_width(#[trigger] lines@[i]@),
        decreases lines.len() - index,
    {
        widths.push(text_width(lines[index].as_str()));
        index += 1;
    }
    assert(widths_view(widths@) =~= line_widths(input@));
    longest_width(&widths)
}

/// Whether a name has the form of a virtual terminal: `tty` followed by
/// decimal digits, or by nothing.
pub open spec fn is_tty_name(name: Seq<char>) -> bool {
    &&& name.len() >= 3
    &&& name.subrange(0, 3) == "tty"@
    &&& forall|i: int| 3 <= i < name.len() ==> '0' <= #[trigger] name[i] <= '9'
}

/// Tells whether `s` has the form `tty` and a number.
pub fn is_tty(s: &str) -> (found: bool)
    ensures
        found == is_tty_name(s@),
{
    proof {
        reveal_strlit("tty");
    }
    let length = s.unicode_len();
    if length < 3 {
        return false;
    }
    if s.get_char(0) != 't' || s.get_char(1) != 't' || s.get_char(2) != 'y' {
        assert(s@.subrange(0, 3)[0] == s@[0]);
        assert(s@.subrange(0, 3)[1] == s@[1]);
        assert(s@.subrange(0, 3)[2] == s@[2]);
        return false;
    }
    assert(s@.subrange(0, 3) =~= "tty"@);
    let mut index: usize = 3;
    while index < length
        invariant
            length == s@.len(),
            3 <= index <= length,
            forall|i: int| 3 <= i < index ==> '0' <= #[trigger] s@[i] <= '9',
        decreases length - index,
    {
        let character = s.get_char(index);
        if character < '0' || character > '9' {
            return false;
        }
        index += 1;
    }
    true
}

/// The terminal that a file name stands for: the name itself where it has the
/// form of a virtual terminal, none otherwise or where there is no name.
pub open spec fn tty_of(name: Option<Seq<char>>) -> Option<Seq<char>> {
    match name {
        Some(text) if is_tty_name(text) => Some(text),
        _ => None,
    }
}

/// Keeps a file name where it has the form of a virtual terminal.
pub fn tty_from_name(name: Option<String>) -> (tty: Option<String>)
    ensures
        match tty {
            Some(text) => tty_of(
                match name {
                    Some(given) => Some(given@),
                    None => None,
                },
            ) == Some(text@),
            None => tty_of(
                match name {
                    Some(given) => Some(given@),
                    None => None,
                },
            ) is None,
        },
{
    match name {
        Some(text) => if is_tty(text.as_str()) {
            Some(text)
        } else {
            None
        },
        None => None,
    }
}

/// The virtual terminal that standard input is attached to, from the path
/// that standard input links to: the final component of the path where it
/// has the form `tty` and a number.
pub fn get_current_tty(path: &str) -> (tty: Option<String>)
    ensures
        match tty {
            Some(text) => tty_of(path_file_name(path@)) == Some(text@),
            None => tty_of(path_file_name(path@)) is None,
        },
{
    tty_from_name(file_name(path))
}

} // verus!
