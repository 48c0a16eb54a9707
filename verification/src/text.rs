//! Texts: comparing them, writing numbers, and the tinted pieces that a
//! line of output is made of.

use vstd::prelude::*;
use vstd::string::StringExecFns;

verus! {

/// The character that stands for the digit `d`.
pub open spec fn digit(d: nat) -> char {
    if d == 0 {
        '0'
    } else if d == 1 {
        '1'
    } else if d == 2 {
        '2'
    } else if d == 3 {
        '3'
    } else if d == 4 {
        '4'
    } else if d == 5 {
        '5'
    } else if d == 6 {
        '6'
    } else if d == 7 {
        '7'
    } else if d == 8 {
        '8'
    } else {
        '9'
    }
}

/// The number `n` in decimal notation, without leading zeros.
pub open spec fn decimal(n: nat) -> Seq<char>
    decreases n,
{
    if n < 10 {
        seq![digit(n)]
    } else {
        decimal(n / 10).push(digit(n % 10))
    }
}

/// The colours in which a piece of a line is shown on a terminal.
#[derive(Clone, Copy, Debug, PartialEq, Eq, Structural)]
pub enum Tint {
    Plain,
    Green,
    BrightBlue,
    Purple,
    Red,
    Yellow,
}

/// The outputs that lines are printed to.
#[derive(Clone, Copy, Debug, PartialEq, Eq, Structural)]
pub enum Output {
    /// The standard output.
    Stdout,
    /// The standard error.
    Stderr,
}

/// A piece of a line of output: a text and the colour it has on a terminal.
#[derive(Debug, PartialEq, Eq)]
pub struct Span {
    pub text: String,
    pub tint: Tint,
}

impl View for Span {
    type V = (Seq<char>, Tint);

    open spec fn view(&self) -> (Seq<char>, Tint) {
        (self.text@, self.tint)
    }
}

/// The pieces of a line, each as its text and colour.
pub open spec fn line_view(line: Seq<Span>) -> Seq<(Seq<char>, Tint)> {
    Seq::new(line.len(), |i: int| line[i]@)
}

/// The text of a line without its colours: the texts of its pieces, joined.
pub open spec fn plain(line: Seq<(Seq<char>, Tint)>) -> Seq<char>
    decreases line.len(),
{
    if line.len() == 0 {
        Seq::empty()
    } else {
        plain(line.drop_last()) + line.last().0
    }
}

/// The text without the white space at its start and at its end.
pub uninterp spec fn trimmed(text: Seq<char>) -> Seq<char>;

/// `str::trim`: the text without the white space at its start and at its end.
#[verifier::external_body]
pub(crate) fn trim(text: &str) -> (inner: String)
    ensures
        inner@ == trimmed(text@),
{
    text.trim().to_owned()
}

/// The text with every letter in lower case.
pub uninterp spec fn lowered(text: Seq<char>) -> Seq<char>;

/// The number that a text is the decimal notation of, where it is one of a
/// number below two to the power of 64.
pub uninterp spec fn number_of(text: Seq<char>) -> Option<u64>;

/// Whether `needle` stands somewhere in `text`.
pub open spec fn holds(text: Seq<char>, needle: Seq<char>) -> bool {
    exists|at: int|
        0 <= at && at + needle.len() <= text.len() && #[trigger] text.subrange(
            at,
            at + needle.len(),
        ) == needle
}

/// `str::to_lowercase`: the text with every letter in lower case.
#[verifier::external_body]
pub(crate) fn lower(text: &str) -> (small: String)
    ensures
        small@ == lowered(text@),
{
    text.to_lowercase()
}

/// `str::contains`, with a text as the pattern: whether the pattern stands
/// somewhere in the text.
#[verifier::external_body]
pub(crate) fn contains(text: &str, needle: &str) -> (found: bool)
    ensures
        found == holds(text@, needle@),
{
    text.contains(needle)
}

/// `str::parse`, for a number of 64 bits: the number that the text is the
/// decimal notation of, and nothing where it is none.
#[verifier::external_body]
pub(crate) fn parse_number(text: &str) -> (number: Option<u64>)
    ensures
        number == number_of(text@),
{
    match text.parse::<u64>() {
        Ok(number) => Some(number),
        Err(_) => None,
    }
}

/// The texts of a list, each as a sequence of characters.
pub open spec fn texts(list: Seq<String>) -> Seq<Seq<char>> {
    Seq::new(list.len(), |i: int| list[i]@)
}

/// The texts of a list, one behind the other.
pub open spec fn joined(pieces: Seq<Seq<char>>) -> Seq<char>
    decreases pieces.len(),
{
    if pieces.len() == 0 {
        Seq::empty()
    } else {
        joined(pieces.drop_last()) + pieces.last()
    }
}

/// Whether `pieces` are the texts of the pieces of `line`, each as it is
/// printed: a piece without colour as it stands.
pub open spec fn printed(line: Seq<(Seq<char>, Tint)>, pieces: Seq<Seq<char>>) -> bool {
    &&& pieces.len() == line.len()
    &&& forall|i: int|
        0 <= i < line.len() && line[i].1 == Tint::Plain ==> #[trigger] pieces[i] == line[i].0
}

/// `colored::Colorize::color`, or `colored::Colorize::normal` for a text
/// without colour, and `to_string` on what they give: the text as it is
/// printed in the colour. Whether that holds anything but the text depends
/// on the environment and on whether the output is a terminal, so nothing is
/// claimed of a text with a colour; one without is printed as it stands.
#[verifier::external_body]
fn paint(text: &str, tint: Tint) -> (painted: String)
    ensures
        tint == Tint::Plain ==> painted@ == text@,
{
    match tint {
        Tint::Plain => colored::Colorize::normal(text),
        Tint::Green => colored::Colorize::color(text, colored::Color::Green),
        Tint::BrightBlue => colored::Colorize::color(text, colored::Color::BrightBlue),
        Tint::Purple => colored::Colorize::color(text, colored::Color::Magenta),
        Tint::Red => colored::Colorize::color(text, colored::Color::Red),
        Tint::Yellow => colored::Colorize::color(text, colored::Color::Yellow),
    }.to_string()
}

/// `atty::is`: whether the output is a terminal. That depends on how the
/// program was started, so nothing is claimed of it.
#[verifier::external_body]
pub(crate) fn is_terminal(output: Output) -> bool {
    match output {
        Output::Stdout => atty::is(atty::Stream::Stdout),
        Output::Stderr => atty::is(atty::Stream::Stderr),
    }
}

/// Whether two texts are the same.
pub fn same_text(a: &str, b: &str) -> (same: bool)
    ensures
        same == (a@ == b@),
{
    let left = a.to_owned();
    let right = b.to_owned();
    left == right
}

fn digit_text(d: u64) -> (text: &'static str)
    requires
        d < 10,
    ensures
        text@ == seq![digit(d as nat)],
{
    proof {
        reveal_strlit("0");
        reveal_strlit("1");
        reveal_strlit("2");
        reveal_strlit("3");
        reveal_strlit("4");
        reveal_strlit("5");
        reveal_strlit("6");
        reveal_strlit("7");
        reveal_strlit("8");
        reveal_strlit("9");
    }
    let text = if d == 0 {
        "0"
    } else if d == 1 {
        "1"
    } else if d == 2 {
        "2"
    } else if d == 3 {
        "3"
    } else if d == 4 {
        "4"
    } else if d == 5 {
        "5"
    } else if d == 6 {
        "6"
    } else if d == 7 {
        "7"
    } else if d == 8 {
        "8"
    } else {
        "9"
    };
    text
}

/// The number `n` in decimal notation.
pub fn decimal_text(n: u64) -> (text: String)
    ensures
        text@ == decimal(n as nat),
    decreases n,
{
    if n < 10 {
        digit_text(n).to_owned()
    } else {
        let mut text = decimal_text(n / 10);
        text.append(digit_text(n % 10));
        text
    }
}

/// A piece of a line with the text `text` in the colour `tint`.
pub fn span(text: &str, tint: Tint) -> (piece: Span)
    ensures
        piece@ == (text@, tint),
{
    Span { text: text.to_owned(), tint }
}

/// The text of a line without its colours.
pub fn plain_text(line: &Vec<Span>) -> (text: String)
    ensures
        text@ == plain(line_view(line@)),
{
    let mut text = String::new();
    let mut i: usize = 0;
    while i < line.len()
        invariant
            i <= line.len(),
            text@ == plain(line_view(line@).take(i as int)),
        decreases line.len() - i,
    {
        proof {
            let shown = line_view(line@);
            assert(shown.take(i + 1).drop_last() =~= shown.take(i as int));
        }
        text.append(line[i].text.as_str());
        i += 1;
    }
    proof {
        assert(line_view(line@).take(i as int) =~= line_view(line@));
    }
    text
}

/// The texts of a list, one behind the other.
pub fn join(pieces: &Vec<String>) -> (text: String)
    ensures
        text@ == joined(texts(pieces@)),
{
    let mut text = String::new();
    let mut i: usize = 0;
    while i < pieces.len()
        invariant
            i <= pieces.len(),
            text@ == joined(texts(pieces@).take(i as int)),
        decreases pieces.len() - i,
    {
        proof {
            assert(texts(pieces@).take(i + 1).drop_last() =~= texts(pieces@).take(i as int));
        }
        text.append(pieces[i].as_str());
        i += 1;
    }
    proof {
        assert(texts(pieces@).take(i as int) =~= texts(pieces@));
    }
    text
}

/// The line as it is printed: every piece in its colour. What a colour
/// adds to a text is left to the terminal, so the contract leaves the pieces
/// with a colour open.
pub fn render(line: &Vec<Span>) -> (text: String)
    ensures
        exists|pieces: Seq<Seq<char>>|
            #[trigger] printed(line_view(line@), pieces) && text@ == joined(pieces),
{
    let mut pieces: Vec<String> = Vec::new();
    let mut i: usize = 0;
    while i < line.len()
        invariant
            i <= line.len(),
            pieces@.len() == i,
            forall|j: int|
                0 <= j < i && line@[j].tint == Tint::Plain ==> (#[trigger] pieces@[j])@
                    == line@[j].text@,
        decreases line.len() - i,
    {
        pieces.push(paint(line[i].text.as_str(), line[i].tint));
        i += 1;
    }
    let text = join(&pieces);
    proof {
        assert(printed(line_view(line@), texts(pieces@)));
    }
    text
}

/// A line without colours is printed as its plain text.
pub proof fn lemma_plain_line_is_printed_as_it_stands(
    line: Seq<(Seq<char>, Tint)>,
    pieces: Seq<Seq<char>>,
)
    requires
        printed(line, pieces),
        forall|i: int| 0 <= i < line.len() ==> (#[trigger] line[i]).1 == Tint::Plain,
    ensures
        joined(pieces) == plain(line),
    decreases line.len(),
{
    if line.len() > 0 {
        lemma_plain_line_is_printed_as_it_stands(line.drop_last(), pieces.drop_last());
    }
}

} // verus!
