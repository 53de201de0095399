//! What is shown to the user after a run: where a diagnostic points to in the diagram
//! text, and the warnings and failures in words.

use vstd::prelude::*;
use vstd::string::*;
use crate::text::{
    decimal_digits, decimal_string, followed_by, signed_decimal_string, signed_digits, split_on,
    split_seq, texts,
};
use crate::types::{DiagramError, DiagramErrorView, Format, WSDEnum};

verus! {

/// A character that leaves a line empty to the eye.
pub open spec fn is_blank_char(c: char) -> bool {
    c == '\n' || c == ' ' || c == '\t'
}

/// A text of blanks, tabs and line ends only.
pub open spec fn is_blank(s: Seq<char>) -> bool {
    forall|i: int| 0 <= i < s.len() ==> is_blank_char(#[trigger] s[i])
}

/// Whether a text holds nothing but blanks, tabs and line ends.
pub fn is_empty(s: &str) -> (r: bool)
    ensures
        r == is_blank(s@),
{
    for c in it: s.chars()
        invariant
            it.seq() == s@,
            is_blank(s@.take(it.index() as int)),
    {
        if c != '\n' && c != ' ' && c != '\t' {
            assert(s@[it.index() as int] == c);
            return false;
        }
        assert forall|i: int| 0 <= i < it.index() + 1 implies is_blank_char(
            #[trigger] s@.take(it.index() + 1)[i],
        ) by {
            if i < it.index() {
                assert(s@.take(it.index() as int)[i] == s@[i]);
            }
        }
    }
    assert(s@.take(s@.len() as int) == s@);
    true
}

/// The views of a sequence of borrowed texts.
pub open spec fn line_texts(lines: Seq<&str>) -> Seq<Seq<char>> {
    lines.map_values(|line: &str| line@)
}

/// Whether the text begins with an empty line.
pub open spec fn begins_blank(lines: Seq<Seq<char>>) -> bool {
    lines.len() > 0 && is_blank(lines[0])
}

/// Whether the diagram text begins with an empty line. The service then counts its
/// lines from the second, so that every line number it reports is one too small.
pub fn has_empty_lines_at_begining(lines: &Vec<&str>) -> (r: bool)
    ensures
        r == begins_blank(line_texts(lines@)),
{
    !lines.is_empty() && is_empty(lines[0])
}

/// The lines of a diagram text: the pieces between its line ends.
pub fn source_lines(text: &str) -> (r: Vec<String>)
    ensures
        texts(r@) == split_seq(text@, '\n'),
{
    split_on(text, '\n')
}

/// What is added to a reported line number to find the line in the text.
pub open spec fn line_shift(lines: Seq<Seq<char>>) -> int {
    if begins_blank(lines) {
        1
    } else {
        0
    }
}

/// The line of the text that a diagnostic points to, counted from 1.
pub open spec fn shown_line_number(error: DiagramErrorView, lines: Seq<Seq<char>>) -> int {
    error.line_number + line_shift(lines)
}

/// The first line of the report of a diagnostic: the name of the input, the line, and
/// the description.
pub open spec fn spec_headline(
    input_name: Seq<char>,
    error: DiagramErrorView,
    lines: Seq<Seq<char>>,
) -> Seq<char> {
    input_name + ":"@ + signed_digits(shown_line_number(error, lines)) + " : "@
        + error.description
}

/// The line of the text that a diagnostic points to, where the text has such a line.
pub open spec fn spec_source_line(error: DiagramErrorView, lines: Seq<Seq<char>>) -> Option<
    Seq<char>,
> {
    let number = shown_line_number(error, lines);
    if 1 <= number <= lines.len() {
        Some(lines[number - 1])
    } else {
        None
    }
}

/// The report of one diagnostic.
#[derive(Debug, Clone, PartialEq, Eq)]
pub struct Located {
    /// The name of the input, the line and the description.
    pub headline: String,
    /// The line of the text, where the text has a line of that number.
    pub source_line: Option<String>,
}

/// Says where in the diagram text a diagnostic points to. The line number of the
/// diagnostic is left as the service reported it; only what is shown is shifted.
pub fn locate(input_name: &str, lines: &Vec<&str>, error: &DiagramError) -> (r: Located)
    ensures
        r.headline@ == spec_headline(input_name@, error@, line_texts(lines@)),
        crate::config::opt_text(r.source_line) == spec_source_line(error@, line_texts(lines@)),
{
    let shift: i64 = if has_empty_lines_at_begining(lines) {
        1
    } else {
        0
    };
    let number: i64 = error.line_number as i64 + shift;
    let mut headline = followed_by(input_name, ":");
    headline.append(signed_decimal_string(number).as_str());
    headline.append(" : ");
    headline.append(error.description.as_str());
    let source_line = if 1 <= number && number as u64 <= lines.len() as u64 {
        let index: usize = (number - 1) as usize;
        Some(lines[index].to_owned())
    } else {
        None
    };
    Located { headline, source_line }
}

/// The warning that the service answered in another format than the one asked for.
pub open spec fn spec_format_warning(actual: Format, requested: Format) -> Option<Seq<char>> {
    if actual == requested {
        None
    } else {
        Some(
            "WARNING: Actual format `"@ + actual.spec_wsd_value()
                + "` is different from requested format `"@ + requested.spec_wsd_value()
                + "`\nMaybe you do not provide correct api_key for premium features (like pdf or svg formats)"@,
        )
    }
}

/// Words the warning that the service answered in another format than the one asked
/// for; no warning where the two agree.
pub fn format_warning(actual: Format, requested: Format) -> (r: Option<String>)
    ensures
        crate::config::opt_text(r) == spec_format_warning(actual, requested),
{
    if actual == requested {
        None
    } else {
        let mut out = followed_by("WARNING: Actual format `", actual.wsd_value().as_str());
        out.append("` is different from requested format `");
        out.append(requested.wsd_value().as_str());
        out.append(
            "`\nMaybe you do not provide correct api_key for premium features (like pdf or svg formats)",
        );
        Some(out)
    }
}

/// Words the failure of a run in which diagnostics count as fatal.
pub fn errors_summary(count: usize) -> (r: String)
    ensures
        r@ == "Number of errors in diagram: "@ + decimal_digits(count as nat) + ". Exiting."@,
{
    let mut out = followed_by("Number of errors in diagram: ", decimal_string(count as u64).as_str());
    out.append(". Exiting.");
    out
}

} // verus!
