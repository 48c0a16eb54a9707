//! What is made of the lines that the user types at a prompt.

use crate::text::{number_of, parse_number, same_text};
use vstd::prelude::*;

verus! {

/// What a prompt does with what it read.
#[derive(Debug, PartialEq, Eq)]
pub enum Reading {
    /// The input has ended: start a new line and leave.
    Ended,
    /// The user asked to leave.
    Quit,
    /// The user answered: see whether the answer will do.
    Answer(String),
}

/// What a prompt does with the line that it read, or with the end of the
/// input where there was none: "q" and "quit" ask to leave, and any other
/// line, an empty one too, is an answer.
pub fn read_line(line: Option<String>) -> (reading: Reading)
    ensures
        reading == match line {
            None => Reading::Ended,
            Some(input) => if input@ == "q"@ || input@ == "quit"@ {
                Reading::Quit
            } else {
                Reading::Answer(input)
            },
        },
{
    match line {
        None => Reading::Ended,
        Some(input) => {
            if same_text(input.as_str(), "q") || same_text(input.as_str(), "quit") {
                Reading::Quit
            } else {
                Reading::Answer(input)
            }
        },
    }
}

/// The words for a search term that is too short.
pub open spec fn short_term() -> Seq<char> {
    "Search term must be longer than 3 characters."@
}

/// The words for an answer that is neither yes nor no.
pub open spec fn unclear_answer() -> Seq<char> {
    "Please respond with a yes or no."@
}

/// The words for a place in a list that the list does not have.
pub open spec fn out_of_bounds() -> Seq<char> {
    "The specified index was out of bounds."@
}

/// The words for an answer that is no number.
pub open spec fn no_number() -> Seq<char> {
    "The value wasn't an integer."@
}

/// Whether an answer says yes or says no, where it says either: an empty
/// answer says yes.
pub open spec fn confirmed(input: Seq<char>) -> Option<bool> {
    if input == ""@ || input == "y"@ || input == "Y"@ || input == "yes"@ {
        Some(true)
    } else if input == "n"@ || input == "N"@ || input == "no"@ {
        Some(false)
    } else {
        None
    }
}

/// The place in a list of `count` entries that an answer picks, counted from
/// nought, given the number that the answer is the notation of: the user
/// counts from one.
pub open spec fn picked(number: Option<u64>, count: usize) -> Result<usize, Seq<char>> {
    match number {
        Some(place) => if 1 <= place <= count {
            Ok((place - 1) as usize)
        } else {
            Err(out_of_bounds())
        },
        None => Err(no_number()),
    }
}

/// How many bytes a text takes.
pub open spec fn byte_length(text: Seq<char>) -> nat {
    vstd::utf8::encode_utf8(text).len()
}

/// The term to search for that the user gave, if it is long enough: it
/// has to take more than three bytes.
pub fn search_term(search: String) -> (term: Result<String, String>)
    ensures
        match term {
            Ok(text) => text == search && byte_length(search@) > 3,
            Err(words) => words@ == short_term() && byte_length(search@) <= 3,
        },
{
    if search.as_str().as_bytes().len() > 3 {
        Ok(search)
    } else {
        Err("Search term must be longer than 3 characters.".to_owned())
    }
}

/// Whether the user said yes or said no to a question.
pub fn confirmation(input: &str) -> (answer: Result<bool, String>)
    ensures
        match answer {
            Ok(yes) => confirmed(input@) == Some(yes),
            Err(words) => confirmed(input@) is None && words@ == unclear_answer(),
        },
{
    if same_text(input, "") || same_text(input, "y") || same_text(input, "Y") || same_text(
        input,
        "yes",
    ) {
        Ok(true)
    } else if same_text(input, "n") || same_text(input, "N") || same_text(input, "no") {
        Ok(false)
    } else {
        Err("Please respond with a yes or no.".to_owned())
    }
}

/// The place in a list of `count` entries that the user picked, given the
/// number that the answer is the notation of.
pub fn pick_place(number: Option<u64>, count: usize) -> (place: Result<usize, String>)
    ensures
        match place {
            Ok(index) => Ok(index),
            Err(words) => Err(words@),
        } == picked(number, count),
{
    match number {
        Some(place) => {
            if 1 <= place && place <= count as u64 {
                Ok((place - 1) as usize)
            } else {
                Err("The specified index was out of bounds.".to_owned())
            }
        },
        None => Err("The value wasn't an integer.".to_owned()),
    }
}

/// The place in a list of `count` entries that the user picked with the
/// answer `input`.
pub fn pick(input: &str, count: usize) -> (place: Result<usize, String>)
    ensures
        match place {
            Ok(index) => Ok(index),
            Err(words) => Err(words@),
        } == picked(number_of(input@), count),
{
    pick_place(parse_number(input), count)
}

} // verus!
