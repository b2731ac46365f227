//! The output formats of the highlighter and what can be set for each.

use crate::invocation::{highlighted, Invocation};
use std::borrow::Cow;
use vstd::prelude::*;

verus! {

/// The options that switch line numbers on.
pub open spec fn line_number_options() -> Seq<char> {
    "linenos=true"@
}

/// The options of a formatter whose one setting is whether lines are
/// numbered: none unless they are.
pub open spec fn options_of(line_numbers: bool) -> Option<Seq<char>> {
    if line_numbers {
        Some(line_number_options())
    } else {
        None
    }
}

/// An output format of the highlighter. Implement it for a format that is
/// missing here, or to pass options that the formatters here do not know.
pub trait PygmentizeFormatter: Sized {
    /// The name by which the highlighter knows the format, as contracts
    /// speak of it. An implementation that is to be verified says what it
    /// is; of any other nothing is known.
    open spec fn format_name() -> Seq<char> {
        arbitrary()
    }

    /// The name by which the highlighter knows the format.
    fn short_name() -> (name: &'static str)
        ensures
            name@ == Self::format_name(),
    ;

    /// The options that this formatter hands to the highlighter, if any,
    /// as contracts speak of them. An implementation that is to be verified
    /// says what they are; of any other nothing is known.
    open spec fn options(&self) -> Option<Seq<char>> {
        arbitrary()
    }

    /// The options that this formatter hands to the highlighter, if any,
    /// as one string of comma-separated `key=value` pairs.
    fn options_str(&self) -> (options: Option<Cow<'_, str>>)
        ensures
            options.deep_view() == self.options(),
    ;

    /// Prepares the run that highlights `code`, written in `lang`, in this
    /// format. Without a language the highlighter guesses it from the code,
    /// which is not reliable.
    fn highlight(&self, code: &str, lang: Option<&str>) -> (invocation: Invocation)
        ensures
            invocation@ == highlighted(code@, lang.deep_view(), Self::format_name(), self.options()),
    {
        let options = self.options_str();
        Invocation::new(code, lang, Self::short_name(), borrowed(&options))
    }
}

/// Lends the options out as a plain string slice.
pub(crate) fn borrowed<'a>(options: &'a Option<Cow<'_, str>>) -> (text: Option<&'a str>)
    ensures
        text.deep_view() == options.deep_view(),
{
    match options {
        Some(Cow::Borrowed(text)) => Some(*text),
        Some(Cow::Owned(text)) => Some(text.as_str()),
        None => None,
    }
}

/// Gives the options of a formatter whose one setting is whether lines are
/// numbered.
fn line_number_options_str(line_numbers: bool) -> (options: Option<Cow<'static, str>>)
    ensures
        options.deep_view() == options_of(line_numbers),
{
    if line_numbers {
        Some(Cow::Borrowed("linenos=true"))
    } else {
        None
    }
}

/// Formats the tokens as HTML `<span>` tags.
#[derive(Clone, Debug, PartialEq, Eq)]
pub struct HtmlFormatter {
    /// Whether the lines of the output are numbered.
    pub line_numbers: bool,
}

impl Default for HtmlFormatter {
    fn default() -> (fmt: HtmlFormatter)
        ensures
            !fmt.line_numbers,
    {
        HtmlFormatter { line_numbers: false }
    }
}

impl HtmlFormatter {
    /// The formatter with every setting at its default: no line numbers.
    pub fn new() -> (fmt: HtmlFormatter)
        ensures
            !fmt.line_numbers,
    {
        HtmlFormatter { line_numbers: false }
    }
}

impl PygmentizeFormatter for HtmlFormatter {
    open spec fn format_name() -> Seq<char> {
        "html"@
    }

    fn short_name() -> (name: &'static str) {
        "html"
    }

    open spec fn options(&self) -> Option<Seq<char>> {
        options_of(self.line_numbers)
    }

    fn options_str(&self) -> (options: Option<Cow<'_, str>>) {
        line_number_options_str(self.line_numbers)
    }
}

/// Formats the tokens as an SVG graphics file: each line of code is a
/// `<text>` element with explicit coordinates that holds `<tspan>` elements
/// with the styles of the tokens.
#[derive(Clone, Debug, PartialEq, Eq)]
pub struct SvgFormatter {
    /// Whether the lines of the output are numbered.
    pub line_numbers: bool,
}

impl Default for SvgFormatter {
    fn default() -> (fmt: SvgFormatter)
        ensures
            !fmt.line_numbers,
    {
        SvgFormatter { line_numbers: false }
    }
}

impl SvgFormatter {
    /// The formatter with every setting at its default: no line numbers.
    pub fn new() -> (fmt: SvgFormatter)
        ensures
            !fmt.line_numbers,
    {
        SvgFormatter { line_numbers: false }
    }
}

impl PygmentizeFormatter for SvgFormatter {
    open spec fn format_name() -> Seq<char> {
        "svg"@
    }

    fn short_name() -> (name: &'static str) {
        "svg"
    }

    open spec fn options(&self) -> Option<Seq<char>> {
        options_of(self.line_numbers)
    }

    fn options_str(&self) -> (options: Option<Cow<'_, str>>) {
        line_number_options_str(self.line_numbers)
    }
}

/// Formats the tokens as LaTeX code, which needs the `fancyvrb` and `color`
/// packages.
#[derive(Clone, Debug, PartialEq, Eq)]
pub struct LatexFormatter {
    /// Whether the lines of the output are numbered.
    pub line_numbers: bool,
}

impl Default for LatexFormatter {
    fn default() -> (fmt: LatexFormatter)
        ensures
            !fmt.line_numbers,
    {
        LatexFormatter { line_numbers: false }
    }
}

impl LatexFormatter {
    /// The formatter with every setting at its default: no line numbers.
    pub fn new() -> (fmt: LatexFormatter)
        ensures
            !fmt.line_numbers,
    {
        LatexFormatter { line_numbers: false }
    }
}

impl PygmentizeFormatter for LatexFormatter {
    open spec fn format_name() -> Seq<char> {
        "latex"@
    }

    fn short_name() -> (name: &'static str) {
        "latex"
    }

    open spec fn options(&self) -> Option<Seq<char>> {
        options_of(self.line_numbers)
    }

    fn options_str(&self) -> (options: Option<Cow<'_, str>>) {
        line_number_options_str(self.line_numbers)
    }
}

/// Formats the tokens with ANSI colour sequences, for a text console. The
/// sequences end at each newline, so that the output can be paged.
#[derive(Clone, Debug, PartialEq, Eq)]
pub struct TerminalFormatter {
    /// Whether the lines of the output are numbered.
    pub line_numbers: bool,
}

impl Default for TerminalFormatter {
    fn default() -> (fmt: TerminalFormatter)
        ensures
            !fmt.line_numbers,
    {
        TerminalFormatter { line_numbers: false }
    }
}

impl TerminalFormatter {
    /// The formatter with every setting at its default: no line numbers.
    pub fn new() -> (fmt: TerminalFormatter)
        ensures
            !fmt.line_numbers,
    {
        TerminalFormatter { line_numbers: false }
    }
}

impl PygmentizeFormatter for TerminalFormatter {
    open spec fn format_name() -> Seq<char> {
        "terminal"@
    }

    fn short_name() -> (name: &'static str) {
        "terminal"
    }

    open spec fn options(&self) -> Option<Seq<char>> {
        options_of(self.line_numbers)
    }

    fn options_str(&self) -> (options: Option<Cow<'_, str>>) {
        line_number_options_str(self.line_numbers)
    }
}

/// Formats the tokens with ANSI colour sequences, for a true-colour terminal.
/// The sequences end at each newline, as those of [`TerminalFormatter`] do.
#[derive(Clone, Debug, PartialEq, Eq)]
pub struct TerminalTrueColorFormatter {
    /// Whether the lines of the output are numbered.
    pub line_numbers: bool,
}

impl Default for TerminalTrueColorFormatter {
    fn default() -> (fmt: TerminalTrueColorFormatter)
        ensures
            !fmt.line_numbers,
    {
        TerminalTrueColorFormatter { line_numbers: false }
    }
}

impl TerminalTrueColorFormatter {
    /// The formatter with every setting at its default: no line numbers.
    pub fn new() -> (fmt: TerminalTrueColorFormatter)
        ensures
            !fmt.line_numbers,
    {
        TerminalTrueColorFormatter { line_numbers: false }
    }
}

impl PygmentizeFormatter for TerminalTrueColorFormatter {
    open spec fn format_name() -> Seq<char> {
        "terminal16m"@
    }

    fn short_name() -> (name: &'static str) {
        "terminal16m"
    }

    open spec fn options(&self) -> Option<Seq<char>> {
        options_of(self.line_numbers)
    }

    fn options_str(&self) -> (options: Option<Cow<'_, str>>) {
        line_number_options_str(self.line_numbers)
    }
}

/// Formats the tokens with ANSI colour sequences, for a terminal of 256
/// colours. The sequences end at each newline, as those of
/// [`TerminalFormatter`] do.
#[derive(Clone, Debug, PartialEq, Eq)]
pub struct Terminal256Formatter {
    /// Whether the lines of the output are numbered.
    pub line_numbers: bool,
}

impl Default for Terminal256Formatter {
    fn default() -> (fmt: Terminal256Formatter)
        ensures
            !fmt.line_numbers,
    {
        Terminal256Formatter { line_numbers: false }
    }
}

impl Terminal256Formatter {
    /// The formatter with every setting at its default: no line numbers.
    pub fn new() -> (fmt: Terminal256Formatter)
        ensures
            !fmt.line_numbers,
    {
        Terminal256Formatter { line_numbers: false }
    }
}

impl PygmentizeFormatter for Terminal256Formatter {
    open spec fn format_name() -> Seq<char> {
        "terminal256"@
    }

    fn short_name() -> (name: &'static str) {
        "terminal256"
    }

    open spec fn options(&self) -> Option<Seq<char>> {
        options_of(self.line_numbers)
    }

    fn options_str(&self) -> (options: Option<Cow<'_, str>>) {
        line_number_options_str(self.line_numbers)
    }
}

} // verus!
