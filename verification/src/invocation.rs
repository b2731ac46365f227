//! What one run hands to the highlighter.

use crate::args::{command_line, to_args};
use vstd::prelude::*;

verus! {

/// What one run hands to the child process: the arguments in order, and
/// the text for its standard input if there is any.
#[derive(Clone, Debug, PartialEq, Eq)]
pub struct Invocation {
    pub args: Vec<String>,
    pub stdin: Option<String>,
}

/// The mathematical value of an [`Invocation`].
pub struct InvocationView {
    pub args: Seq<Seq<char>>,
    pub stdin: Option<Seq<char>>,
}

impl View for Invocation {
    type V = InvocationView;

    open spec fn view(&self) -> InvocationView {
        InvocationView { args: self.args.deep_view(), stdin: self.stdin.deep_view() }
    }
}

/// What highlighting `code` hands to the highlighter: the command line for
/// the language, the format and the options, and the code as its input.
pub open spec fn highlighted(
    code: Seq<char>,
    lang: Option<Seq<char>>,
    fmt_name: Seq<char>,
    options: Option<Seq<char>>,
) -> InvocationView {
    InvocationView { args: command_line(lang, fmt_name, options), stdin: Some(code) }
}

/// Copies the arguments into strings of their own.
fn owned_args(args: &Vec<&str>) -> (owned: Vec<String>)
    ensures
        owned.deep_view() == args.deep_view(),
{
    let mut owned: Vec<String> = Vec::new();
    let mut i: usize = 0;
    while i < args.len()
        invariant
            i <= args.len(),
            owned.len() == i,
            forall|j: int| 0 <= j < i ==> owned[j]@ == args[j]@,
        decreases args.len() - i,
    {
        owned.push(args[i].to_owned());
        i += 1;
    }
    assert(owned.deep_view() =~= args.deep_view());
    owned
}

impl Invocation {
    /// The invocation that highlights `code`, written in `lang`, in the
    /// format named `fmt_name` with the formatter's `options`.
    pub fn new(
        code: &str,
        lang: Option<&str>,
        fmt_name: &str,
        options: Option<&str>,
    ) -> (invocation: Invocation)
        ensures
            invocation@ == highlighted(code@, lang.deep_view(), fmt_name@, options.deep_view()),
    {
        let args = to_args(lang, fmt_name, options);
        Invocation { args: owned_args(&args), stdin: Some(code.to_owned()) }
    }
}

} // verus!
