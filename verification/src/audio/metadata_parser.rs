//! Tidying the parts of a file name that stand for a title or an artist.

use crate::trusted::{
    alphabetic_char, contains_text, has_text, is_alphabetic, is_numeric, is_whitespace,
    numeric_char, replace_text, replaced_text, stripped, trim_separators, trim_text,
    whitespace_char,
};
use vstd::prelude::*;
use vstd::string::*;

verus! {

/// Whether a character separates the parts of a file name: a hyphen, an
/// underscore or whitespace.
pub open spec fn separator_char(c: char) -> bool {
    c == '-' || c == '_' || whitespace_char(c)
}

/// Whether a character separates the parts of a file name.
pub fn is_separator(c: char) -> (separates: bool)
    ensures
        separates == separator_char(c),
{
    c == '-' || c == '_' || is_whitespace(c)
}

/// `text` without the given marker.
pub open spec fn without(text: Seq<char>, marker: &str) -> Seq<char> {
    replaced_text(text, marker@, ""@)
}

/// `text` without the markers that video and audio uploads carry in their
/// names, taken out one kind after the other.
pub open spec fn without_markers(text: Seq<char>) -> Seq<char> {
    let t1 = without(text, "(Official Audio)");
    let t2 = without(t1, "(Official Video)");
    let t3 = without(t2, "(Official Music Video)");
    let t4 = without(t3, "(Official Lyric Video)");
    let t5 = without(t4, "(Audio)");
    let t6 = without(t5, "(Video)");
    let t7 = without(t6, "(Lyric Video)");
    let t8 = without(t7, "(Music Video)");
    let t9 = without(t8, "[Official Audio]");
    let t10 = without(t9, "[Official Video]");
    let t11 = without(t10, "[Audio]");
    without(t11, "[Video]")
}

/// `text` after at most `passes` passes in which every two spaces become
/// one; the passes end when no two spaces stand together.
pub open spec fn spaces_collapsed(text: Seq<char>, passes: nat) -> Seq<char>
    decreases passes,
{
    if passes == 0 || !has_text(text, "  "@) {
        text
    } else {
        spaces_collapsed(replaced_text(text, "  "@, " "@), (passes - 1) as nat)
    }
}

/// The position of the first letter of `text` from `from` on, if it has
/// one.
pub open spec fn first_letter(text: Seq<char>, from: int) -> Option<int>
    decreases text.len() - from,
{
    if from >= text.len() {
        None
    } else if alphabetic_char(text[from]) {
        Some(from)
    } else {
        first_letter(text, from + 1)
    }
}

/// Whether a character can be part of a track number written before a
/// title: a digit or another number, a dot, a space or a hyphen.
pub open spec fn numbering_char(c: char) -> bool {
    numeric_char(c) || c == '.' || c == ' ' || c == '-'
}

/// Whether the first `upto` characters of `text` are all part of a track
/// number.
pub open spec fn is_numbering(text: Seq<char>, upto: int) -> bool {
    forall|i: int| 0 <= i < upto ==> numbering_char(#[trigger] text[i])
}

/// `text` without a track number before its first letter, and without
/// whitespace around what is left. A text without a letter, and one that
/// begins with something else than a number, stay as they are.
pub open spec fn without_numbering(text: Seq<char>) -> Seq<char> {
    match first_letter(text, 0) {
        Some(at) => if at > 0 && is_numbering(text, at) {
            stripped(text.subrange(at, text.len() as int), |c: char| whitespace_char(c))
        } else {
            text
        },
        None => text,
    }
}

/// The tidy form of a part of a file name: upload markers taken out,
/// whitespace around it removed, runs of spaces made one space, separators
/// around it removed, and a leading track number dropped.
pub open spec fn cleaned_text(text: Seq<char>) -> Seq<char> {
    let unmarked = without_markers(text);
    let trimmed = stripped(unmarked, |c: char| whitespace_char(c));
    let spaced = spaces_collapsed(trimmed, trimmed.len());
    let bare = stripped(spaced, |c: char| separator_char(c));
    without_numbering(bare)
}

/// Where the first letter of `text` stands.
fn find_first_letter(text: &str) -> (found: Option<usize>)
    ensures
        match found {
            Some(at) => first_letter(text@, 0) == Some(at as int) && at < text@.len(),
            None => first_letter(text@, 0) is None,
        },
{
    let len: usize = text.unicode_len();
    let mut i: usize = 0;
    while i < len
        invariant
            i <= len,
            len == text@.len(),
            first_letter(text@, 0) == first_letter(text@, i as int),
        decreases len - i,
    {
        if is_alphabetic(text.get_char(i)) {
            return Some(i);
        }
        i = i + 1;
    }
    None
}

/// Whether the first `upto` characters of `text` are all part of a track
/// number.
fn begins_with_numbering(text: &str, upto: usize) -> (numbering: bool)
    requires
        upto <= text@.len(),
    ensures
        numbering == is_numbering(text@, upto as int),
{
    let mut i: usize = 0;
    while i < upto
        invariant
            i <= upto <= text@.len(),
            is_numbering(text@, i as int),
        decreases upto - i,
    {
        let c: char = text.get_char(i);
        if !(is_numeric(c) || c == '.' || c == ' ' || c == '-') {
            assert(!numbering_char(text@[i as int]));
            return false;
        }
        i = i + 1;
    }
    true
}

/// Makes every run of spaces in `text` one space.
fn collapse_spaces(text: String) -> (collapsed: String)
    ensures
        collapsed@ == spaces_collapsed(text@, text@.len()),
{
    let mut cleaned: String = text;
    let mut passes: usize = cleaned.as_str().unicode_len();
    while passes > 0 && contains_text(cleaned.as_str(), "  ")
        invariant
            spaces_collapsed(cleaned@, passes as nat) == spaces_collapsed(text@, text@.len()),
        decreases passes,
    {
        cleaned = replace_text(cleaned.as_str(), "  ", " ");
        passes = passes - 1;
    }
    cleaned
}

/// The tidy form of a part of a file name: [`cleaned_text`].
pub fn clean_text(text: &str) -> (cleaned: String)
    ensures
        cleaned@ == cleaned_text(text@),
{
    let t1: String = replace_text(text, "(Official Audio)", "");
    let t2: String = replace_text(t1.as_str(), "(Official Video)", "");
    let t3: String = replace_text(t2.as_str(), "(Official Music Video)", "");
    let t4: String = replace_text(t3.as_str(), "(Official Lyric Video)", "");
    let t5: String = replace_text(t4.as_str(), "(Audio)", "");
    let t6: String = replace_text(t5.as_str(), "(Video)", "");
    let t7: String = replace_text(t6.as_str(), "(Lyric Video)", "");
    let t8: String = replace_text(t7.as_str(), "(Music Video)", "");
    let t9: String = replace_text(t8.as_str(), "[Official Audio]", "");
    let t10: String = replace_text(t9.as_str(), "[Official Video]", "");
    let t11: String = replace_text(t10.as_str(), "[Audio]", "");
    let unmarked: String = replace_text(t11.as_str(), "[Video]", "");
    let trimmed: String = trim_text(unmarked.as_str());
    let spaced: String = collapse_spaces(trimmed);
    let bare: String = trim_separators(spaced.as_str());
    match find_first_letter(bare.as_str()) {
        Some(at) => {
            if at > 0 && begins_with_numbering(bare.as_str(), at) {
                let len: usize = bare.as_str().unicode_len();
                let rest: &str = bare.as_str().substring_char(at, len);
                trim_text(rest)
            } else {
                bare
            }
        },
        None => bare,
    }
}

/// A title and an artist as one line: both without whitespace around them,
/// the title first, a hyphen between them.
pub fn format_as_song_artist(title: &str, artist: &str) -> (line: String)
    ensures
        line@ == stripped(title@, |c: char| whitespace_char(c)) + " - "@ + stripped(
            artist@,
            |c: char| whitespace_char(c),
        ),
{
    let mut line: String = trim_text(title);
    line.append(" - ");
    line.append(trim_text(artist).as_str());
    line
}

} // verus!
