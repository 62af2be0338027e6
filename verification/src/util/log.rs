//! Log lines and the yes/no prompt.

use vstd::prelude::*;
use vstd::string::*;

use crate::text::{trim, trim_str};

verus! {

/// The kind of a log line; it decides the colour of the `[morlana]` tag.
#[derive(Clone, Copy, Debug, PartialEq, Eq)]
pub enum Level {
    Info,
    Error,
    Warn,
    Success,
}

/// How a piece of a log line is rendered.
#[derive(Clone, Copy, Debug, PartialEq, Eq)]
pub enum Style {
    Plain,
    Dimmed,
    Green,
}

/// A piece of a log line.
#[derive(Debug, PartialEq, Eq)]
pub struct Segment {
    pub text: String,
    pub style: Style,
}

/// The text and style of each piece of a log line.
pub open spec fn segments_view(m: Seq<Segment>) -> Seq<(Seq<char>, Style)> {
    m.map_values(|s: Segment| (s.text@, s.style))
}

/// A piece of text in a given style.
pub fn segment(text: &str, style: Style) -> (r: Segment)
    ensures
        r.text@ == text@,
        r.style == style,
{
    Segment { text: String::from_str(text), style }
}

/// A log line made of one plain piece.
pub fn plain_line(text: &str) -> (r: Vec<Segment>)
    ensures
        segments_view(r@) == seq![(text@, Style::Plain)],
{
    let r = vec![segment(text, Style::Plain)];
    proof {
        assert(segments_view(r@) =~= seq![(text@, Style::Plain)]);
    }
    r
}

/// A log line made of one piece in the given style.
pub fn styled_line(text: &str, style: Style) -> (r: Vec<Segment>)
    ensures
        segments_view(r@) == seq![(text@, style)],
{
    let r = vec![segment(text, style)];
    proof {
        assert(segments_view(r@) =~= seq![(text@, style)]);
    }
    r
}

/// A log line made of a plain piece followed by a dimmed one.
pub fn plain_then_dimmed(text: &str, dim: &str) -> (r: Vec<Segment>)
    ensures
        segments_view(r@) == seq![(text@, Style::Plain), (dim@, Style::Dimmed)],
{
    let r = vec![segment(text, Style::Plain), segment(dim, Style::Dimmed)];
    proof {
        assert(segments_view(r@) =~= seq![(text@, Style::Plain), (dim@, Style::Dimmed)]);
    }
    r
}

/// The choice hint shown after a prompt: the default answer is upper case.
pub open spec fn choice_hint(default: bool) -> Seq<char> {
    if default { "[Y/n]"@ } else { "[y/N]"@ }
}

/// The text of a yes/no prompt: the description, then the dimmed hint.
pub fn confirm_prompt(description: &str, default: bool) -> (r: Vec<Segment>)
    ensures
        segments_view(r@) == seq![(description@, Style::Plain), (choice_hint(default), Style::Dimmed)],
{
    if default {
        plain_then_dimmed(description, "[Y/n]")
    } else {
        plain_then_dimmed(description, "[y/N]")
    }
}

/// `t` lower-cased is the one-letter string `c` (a lower-case ASCII letter):
/// only `c` and its upper-case form lower-case to it.
pub open spec fn lowercases_to(t: Seq<char>, c: char) -> bool {
    t.len() == 1 && (t[0] == c || t[0] as u32 == c as u32 - 32)
}

/// What an answer to a yes/no prompt means, once trimmed: nothing picks the
/// default, `y` or `Y` is yes, `n` or `N` is no, and anything else is not an
/// answer (the prompt is asked again).
pub open spec fn answer_spec(input: Seq<char>, default: bool) -> Option<bool> {
    let t = trim(input);
    if t.len() == 0 {
        Some(default)
    } else if lowercases_to(t, 'y') {
        Some(true)
    } else if lowercases_to(t, 'n') {
        Some(false)
    } else {
        None
    }
}

/// Reads a line typed at a yes/no prompt.
pub fn confirm_answer(input: &str, default: bool) -> (r: Option<bool>)
    ensures
        r == answer_spec(input@, default),
{
    let t = trim_str(input);
    let n = t.as_str().unicode_len();
    if n == 0 {
        Some(default)
    } else if n == 1 {
        let c = t.as_str().get_char(0);
        if c == 'y' || c == 'Y' {
            Some(true)
        } else if c == 'n' || c == 'N' {
            Some(false)
        } else {
            None
        }
    } else {
        None
    }
}

} // verus!
