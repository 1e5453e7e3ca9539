//! Bundle identifiers.

use vstd::prelude::*;
use vstd::std_specs::iter::IteratorSpec;

use crate::error::{decimal, decimal_of};

verus! {

broadcast use vstd::string::group_string_axioms;

/// The name by which the system knows an application, such as
/// `com.apple.Safari`. One that is read from a text holds ASCII letters,
/// digits, hyphens and periods only; one that the system reports for a
/// running application is taken as it is.
#[derive(Clone, Copy, Debug, PartialEq, Eq, Hash)]
pub struct BundleID<'a>(&'a str);

/// Why a text is no bundle identifier.
#[derive(Debug, PartialEq, Eq)]
pub enum BundleIDParseError {
    /// The character `c` at `index` cannot stand in a bundle identifier.
    /// Every character before it takes one byte, so the index counts
    /// characters and bytes alike.
    InvalidCharacter { index: usize, c: char },
}

/// Whether a character may stand in a bundle identifier.
pub open spec fn is_bundle_char(c: char) -> bool {
    ||| 'a' <= c <= 'z'
    ||| 'A' <= c <= 'Z'
    ||| '0' <= c <= '9'
    ||| c == '-'
    ||| c == '.'
}

/// Whether every character of a text may stand in a bundle identifier.
pub open spec fn is_bundle_text(text: Seq<char>) -> bool {
    forall|i: int| 0 <= i < text.len() ==> is_bundle_char(#[trigger] text[i])
}

/// Whether `index` is the place of the first character of `text` that cannot
/// stand in a bundle identifier.
pub open spec fn is_first_invalid(text: Seq<char>, index: int) -> bool {
    &&& 0 <= index < text.len()
    &&& !is_bundle_char(text[index])
    &&& is_bundle_text(text.take(index))
}

/// `char::to_string`: the text that holds the one character.
#[verifier::external_body]
fn char_text(c: char) -> (text: String)
    ensures
        text@ == seq![c],
{
    c.to_string()
}

impl BundleIDParseError {
    /// The error in words.
    pub open spec fn text(self) -> Seq<char> {
        match self {
            BundleIDParseError::InvalidCharacter { index, c } => "Invalid character '"@ + seq![c]
                + "' at index "@ + decimal_of(index as nat) + " in bundle ID"@,
        }
    }

    /// The error in words.
    pub fn message(&self) -> (text: String)
        ensures
            text@ == self.text(),
    {
        match self {
            BundleIDParseError::InvalidCharacter { index, c } => {
                let mut text = String::from_str("Invalid character '");
                text.append(char_text(*c).as_str());
                text.append("' at index ");
                text.append(decimal(*index as u64).as_str());
                text.append(" in bundle ID");
                text
            },
        }
    }
}

fn bundle_char(c: char) -> (valid: bool)
    ensures
        valid == is_bundle_char(c),
{
    ('a' <= c && c <= 'z') || ('A' <= c && c <= 'Z') || ('0' <= c && c <= '9') || c == '-' || c
        == '.'
}

impl<'a> BundleID<'a> {
    /// The text of the identifier.
    pub closed spec fn view(&self) -> Seq<char> {
        self.0@
    }

    /// Whether the identifier is made of the characters that one may hold.
    /// Every identifier that [`BundleID::try_from`] gives is.
    pub closed spec fn well_formed(&self) -> bool {
        is_bundle_text(self.0@)
    }

    /// Reads a text as a bundle identifier. It fails at the first character
    /// that is neither an ASCII letter or digit nor a hyphen or a period.
    pub fn try_from(value: &'a str) -> (result: Result<BundleID<'a>, BundleIDParseError>)
        ensures
            match result {
                Ok(id) => is_bundle_text(value@) && id@ == value@ && id.well_formed(),
                Err(BundleIDParseError::InvalidCharacter { index, c }) => is_first_invalid(
                    value@,
                    index as int,
                ) && c == value@[index as int],
            },
    {
        let length = value.unicode_len();
        let mut chars = value.chars();
        let mut index: usize = 0;
        loop
            invariant
                chars.obeys_prophetic_iter_laws(),
                length == value@.len(),
                0 <= index <= length,
                chars.remaining() == value@.skip(index as int),
                is_bundle_text(value@.take(index as int)),
                chars.decrease() is Some,
            decreases chars.decrease()->0,
        {
            let ghost before = chars;
            match chars.next() {
                None => {
                    proof {
                        assert(value@.take(index as int) =~= value@);
                    }
                    return Ok(BundleID(value));
                },
                Some(c) => {
                    proof {
                        assert(c == value@[index as int]);
                        assert(value@.skip(index as int).drop_first() =~= value@.skip(index + 1));
                    }
                    if !bundle_char(c) {
                        return Err(BundleIDParseError::InvalidCharacter { index, c });
                    }
                    proof {
                        assert(value@.take(index + 1) =~= value@.take(index as int).push(c));
                    }
                    index = index + 1;
                },
            }
        }
    }

    /// Takes a text that the system itself gave as the bundle identifier of
    /// a running application, as it is.
    pub fn of_running(text: &'a str) -> (id: BundleID<'a>)
        ensures
            id@ == text@,
    {
        BundleID(text)
    }

    /// The text of the identifier.
    pub fn as_ref(&self) -> (text: &'a str)
        ensures
            text@ == self@,
    {
        self.0
    }

    /// A copy of the identifier's text.
    pub fn to_string(&self) -> (text: String)
        ensures
            text@ == self@,
    {
        String::from_str(self.0)
    }
}

/// The lines of a text as `str::lines` cuts them.
pub uninterp spec fn lines_of(text: Seq<char>) -> Seq<Seq<char>>;

/// Whether a character is white space as `char::is_whitespace` tells.
pub uninterp spec fn is_whitespace(c: char) -> bool;

/// `str::lines`, collected: the lines of the text in order, each a part of
/// the text.
#[verifier::external_body]
fn lines<'a>(text: &'a str) -> (cut: Vec<&'a str>)
    ensures
        cut@.len() == lines_of(text@).len(),
        forall|i: int| 0 <= i < cut@.len() ==> (#[trigger] cut@[i])@ == lines_of(text@)[i],
{
    text.lines().collect()
}

/// `char::is_whitespace`.
#[verifier::external_body]
fn whitespace(c: char) -> (white: bool)
    ensures
        white == is_whitespace(c),
{
    c.is_whitespace()
}

/// Whether a line of a list of bundle identifiers names none: a comment,
/// which begins with `#`, or a line of nothing but white space.
pub open spec fn is_ignored(line: Seq<char>) -> bool {
    ||| line.len() > 0 && line[0] == '#'
    ||| forall|i: int| 0 <= i < line.len() ==> is_whitespace(#[trigger] line[i])
}

/// The lines that name a bundle identifier, in order.
pub open spec fn named(lines: Seq<Seq<char>>) -> Seq<Seq<char>>
    decreases lines.len(),
{
    if lines.len() == 0 {
        Seq::empty()
    } else if is_ignored(lines.last()) {
        named(lines.drop_last())
    } else {
        named(lines.drop_last()).push(lines.last())
    }
}

/// Whether `line` is the place of the first line that neither is ignored
/// nor holds a bundle identifier.
pub open spec fn is_first_bad_line(lines: Seq<Seq<char>>, line: int) -> bool {
    &&& 0 <= line < lines.len()
    &&& !is_ignored(lines[line])
    &&& !is_bundle_text(lines[line])
    &&& forall|j: int|
        0 <= j < line ==> is_ignored(#[trigger] lines[j]) || is_bundle_text(lines[j])
}

/// What reading lines as a list of bundle identifiers gives: the
/// identifiers that the lines name, or the error of the first line that
/// names none well.
pub open spec fn reads_as(
    lines: Seq<Seq<char>>,
    result: Result<Vec<BundleID<'_>>, BundleIDParseError>,
) -> bool {
    match result {
        Ok(ids) => {
            &&& ids@.len() == named(lines).len()
            &&& forall|i: int| 0 <= i < ids@.len() ==> (#[trigger] ids@[i])@ == named(lines)[i]
            &&& forall|i: int| 0 <= i < ids@.len() ==> (#[trigger] ids@[i]).well_formed()
            &&& forall|j: int|
                0 <= j < lines.len() ==> is_ignored(#[trigger] lines[j]) || is_bundle_text(
                    lines[j],
                )
        },
        Err(BundleIDParseError::InvalidCharacter { index, c }) => exists|line: int|
            {
                &&& #[trigger] is_first_bad_line(lines, line)
                &&& is_first_invalid(lines[line], index as int)
                &&& c == lines[line][index as int]
            },
    }
}

/// Whether a line names no bundle identifier.
pub fn is_ignored_line(line: &str) -> (ignored: bool)
    ensures
        ignored == is_ignored(line@),
{
    let mut chars = line.chars();
    let mut index: usize = 0;
    let length = line.unicode_len();
    loop
        invariant
            chars.obeys_prophetic_iter_laws(),
            length == line@.len(),
            0 <= index <= length,
            chars.remaining() == line@.skip(index as int),
            forall|i: int| 0 <= i < index ==> is_whitespace(#[trigger] line@[i]),
            index > 0 ==> line@[0] != '#',
            chars.decrease() is Some,
        decreases chars.decrease()->0,
    {
        match chars.next() {
            None => {
                assert(line@.skip(index as int).len() == 0);
                return true;
            },
            Some(c) => {
                proof {
                    assert(c == line@[index as int]);
                    assert(line@.skip(index as int).drop_first() =~= line@.skip(index + 1));
                }
                if index == 0 && c == '#' {
                    return true;
                }
                if !whitespace(c) {
                    return false;
                }
                index = index + 1;
            },
        }
    }
}

/// Reads lines as a list of bundle identifiers: comments and blank lines
/// are passed over, and every other line must be a bundle identifier.
pub fn parse_bundle_ids<'a>(lines: &Vec<&'a str>) -> (result: Result<
    Vec<BundleID<'a>>,
    BundleIDParseError,
>)
    ensures
        reads_as(lines@.map_values(|line: &str| line@), result),
{
    let ghost texts = lines@.map_values(|line: &str| line@);
    let mut ids: Vec<BundleID<'a>> = Vec::new();
    let mut index: usize = 0;
    while index < lines.len()
        invariant
            texts == lines@.map_values(|line: &str| line@),
            0 <= index <= lines@.len(),
            ids@.len() == named(texts.take(index as int)).len(),
            forall|i: int|
                0 <= i < ids@.len() ==> (#[trigger] ids@[i])@ == named(texts.take(index as int))[i],
            forall|i: int| 0 <= i < ids@.len() ==> (#[trigger] ids@[i]).well_formed(),
            forall|j: int|
                0 <= j < index ==> is_ignored(#[trigger] texts[j]) || is_bundle_text(texts[j]),
        decreases lines@.len() - index,
    {
        let line = lines[index];
        proof {
            assert(texts[index as int] == line@);
            assert(texts.take(index + 1).drop_last() =~= texts.take(index as int));
            assert(texts.take(index + 1).last() == line@);
        }
        if !is_ignored_line(line) {
            match BundleID::try_from(line) {
                Ok(id) => {
                    ids.push(id);
                },
                Err(error) => {
                    proof {
                        assert(is_first_bad_line(texts, index as int)) by {
                            match error {
                                BundleIDParseError::InvalidCharacter { index: at, c } => {
                                    assert(!is_bundle_char(line@[at as int]));
                                },
                            }
                        }
                    }
                    return Err(error);
                },
            }
        }
        index = index + 1;
    }
    proof {
        assert(texts.take(index as int) =~= texts);
    }
    Ok(ids)
}

/// Reads a text as a list of bundle identifiers, one to a line.
pub fn parse_bundle_id_list<'a>(contents: &'a str) -> (result: Result<
    Vec<BundleID<'a>>,
    BundleIDParseError,
>)
    ensures
        reads_as(lines_of(contents@), result),
{
    let cut = lines(contents);
    proof {
        assert(cut@.map_values(|line: &str| line@) =~= lines_of(contents@));
    }
    parse_bundle_ids(&cut)
}

} // verus!
