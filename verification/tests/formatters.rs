use pygmentize::Invocation;
use pygmentize::{
    highlight, HtmlFormatter, LatexFormatter, PygmentizeFormatter, SvgFormatter,
    Terminal256Formatter, TerminalFormatter, TerminalTrueColorFormatter,
};
use std::borrow::Cow;

fn strings(args: &[&str]) -> Vec<String> {
    args.iter().map(|arg| arg.to_string()).collect()
}

#[test]
fn short_names() {
    assert_eq!(HtmlFormatter::short_name(), "html");
    assert_eq!(SvgFormatter::short_name(), "svg");
    assert_eq!(LatexFormatter::short_name(), "latex");
    assert_eq!(TerminalFormatter::short_name(), "terminal");
    assert_eq!(TerminalTrueColorFormatter::short_name(), "terminal16m");
    assert_eq!(Terminal256Formatter::short_name(), "terminal256");
}

#[test]
fn new_formatters_number_no_lines() {
    assert!(!HtmlFormatter::new().line_numbers);
    assert!(!SvgFormatter::new().line_numbers);
    assert!(!LatexFormatter::new().line_numbers);
    assert!(!TerminalFormatter::new().line_numbers);
    assert!(!TerminalTrueColorFormatter::new().line_numbers);
    assert!(!Terminal256Formatter::new().line_numbers);
}

#[test]
fn default_formatters_are_new_formatters() {
    assert_eq!(HtmlFormatter::default(), HtmlFormatter::new());
    assert_eq!(SvgFormatter::default(), SvgFormatter::new());
    assert_eq!(LatexFormatter::default(), LatexFormatter::new());
    assert_eq!(TerminalFormatter::default(), TerminalFormatter::new());
    assert_eq!(TerminalTrueColorFormatter::default(), TerminalTrueColorFormatter::new());
    assert_eq!(Terminal256Formatter::default(), Terminal256Formatter::new());
}

#[test]
fn no_options_without_line_numbers() {
    assert_eq!(HtmlFormatter::new().options_str(), None);
    assert_eq!(SvgFormatter::new().options_str(), None);
    assert_eq!(LatexFormatter::new().options_str(), None);
    assert_eq!(TerminalFormatter::new().options_str(), None);
    assert_eq!(TerminalTrueColorFormatter::new().options_str(), None);
    assert_eq!(Terminal256Formatter::new().options_str(), None);
}

#[test]
fn line_numbers_are_the_one_option() {
    let expected = Some(Cow::Borrowed("linenos=true"));
    assert_eq!(HtmlFormatter { line_numbers: true }.options_str(), expected);
    assert_eq!(SvgFormatter { line_numbers: true }.options_str(), expected);
    assert_eq!(LatexFormatter { line_numbers: true }.options_str(), expected);
    assert_eq!(TerminalFormatter { line_numbers: true }.options_str(), expected);
    assert_eq!(TerminalTrueColorFormatter { line_numbers: true }.options_str(), expected);
    assert_eq!(Terminal256Formatter { line_numbers: true }.options_str(), expected);
}

#[test]
fn highlight_python_as_html_with_line_numbers() {
    let fmt = HtmlFormatter { line_numbers: true };
    let invocation = highlight("x=1", Some("python"), &fmt);
    assert_eq!(
        invocation.args,
        strings(&["-f", "html", "-l", "python", "-O", "linenos=true"])
    );
    assert_eq!(invocation.stdin, Some("x=1".to_string()));
}

#[test]
fn highlight_guesses_without_language() {
    let invocation = highlight("fn main() {}", None, &Terminal256Formatter::new());
    assert_eq!(invocation.args, strings(&["-f", "terminal256", "-g"]));
    assert_eq!(invocation.stdin, Some("fn main() {}".to_string()));
}

#[test]
fn highlight_hands_over_empty_code() {
    let invocation = highlight("", Some("rust"), &LatexFormatter::new());
    assert_eq!(invocation.args, strings(&["-f", "latex", "-l", "rust"]));
    assert_eq!(invocation.stdin, Some(String::new()));
}

#[test]
fn formatter_method_is_the_free_function() {
    let fmt = SvgFormatter { line_numbers: true };
    assert_eq!(fmt.highlight("a = b", Some("make")), highlight("a = b", Some("make"), &fmt));
    let plain = TerminalTrueColorFormatter::new();
    assert_eq!(plain.highlight("a = b", None), highlight("a = b", None, &plain));
}

#[test]
fn invocation_is_built_from_plain_values() {
    let invocation = Invocation::new("print(1)", Some("python"), "html", Some("style=monokai"));
    assert_eq!(
        invocation.args,
        strings(&["-f", "html", "-l", "python", "-O", "style=monokai"])
    );
    assert_eq!(invocation.stdin, Some("print(1)".to_string()));
    let none = Invocation::new("print(1)", None, "svg", None);
    assert_eq!(none.args, strings(&["-f", "svg", "-g"]));
}

struct RawTokens {
    compress: Option<String>,
}

impl PygmentizeFormatter for RawTokens {
    fn short_name() -> &'static str {
        "raw"
    }

    fn options_str(&self) -> Option<Cow<'_, str>> {
        self.compress.as_ref().map(|kind| Cow::Owned(format!("compress={kind}")))
    }
}

#[test]
fn a_formatter_of_ones_own() {
    let fmt = RawTokens { compress: Some("gz".to_string()) };
    let invocation = fmt.highlight("x", Some("text"));
    assert_eq!(
        invocation.args,
        strings(&["-f", "raw", "-l", "text", "-O", "compress=gz"])
    );
    let plain = RawTokens { compress: None };
    assert_eq!(highlight("x", None, &plain).args, strings(&["-f", "raw", "-g"]));
}
