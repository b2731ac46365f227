//! Drives the `pygmentize` command-line highlighter without performing any
//! input or output itself.
//!
//! [`highlight`] turns the code, its language and a formatter into the
//! [`Invocation`] of the highlighter. [`Run`] then says, step by step, what
//! to do with the child process and how the run ends: with the highlighted
//! text or with a [`PygmentizeError`].

pub mod args;
pub mod config;
pub mod decode;
pub mod error;
pub mod formatters;
pub mod invocation;
pub mod run;

pub use crate::config::{set_bin_path, BinPath};
pub use crate::error::{ExitStatus, OsError, OsErrorKind, PygmentizeError, Utf8Failure};
pub use crate::formatters::{
    HtmlFormatter, LatexFormatter, PygmentizeFormatter, SvgFormatter, Terminal256Formatter,
    TerminalFormatter, TerminalTrueColorFormatter,
};
pub use crate::invocation::Invocation;
pub use crate::run::{Action, Event, Output, Run};

use crate::formatters::borrowed;
use crate::invocation::highlighted;
use vstd::prelude::*;

verus! {

/// Prepares the run that highlights `code`, written in `lang`, in the
/// format of `fmt`: the arguments for the highlighter, and the code as its
/// input. Without a language the highlighter guesses it from the code,
/// which is not reliable.
pub fn highlight<F: PygmentizeFormatter>(code: &str, lang: Option<&str>, fmt: &F) -> (invocation:
    Invocation)
    ensures
        invocation@ == highlighted(code@, lang.deep_view(), F::format_name(), fmt.options()),
{
    let options = fmt.options_str();
    Invocation::new(code, lang, F::short_name(), borrowed(&options))
}

} // verus!
