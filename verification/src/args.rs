//! The command line that selects the output format, the language and the
//! formatter's options.

use vstd::prelude::*;

verus! {

/// The flag that selects the output format; the format's name follows it.
pub open spec fn format_flag() -> Seq<char> {
    "-f"@
}

/// The flag that selects the language; the language follows it.
pub open spec fn language_flag() -> Seq<char> {
    "-l"@
}

/// The flag that asks the highlighter to guess the language from the
/// input. Nothing follows it.
pub open spec fn guess_flag() -> Seq<char> {
    "-g"@
}

/// The flag that hands options to the formatter; the options follow it.
pub open spec fn options_flag() -> Seq<char> {
    "-O"@
}

/// The part of the command line that selects the language: the language flag
/// and the language where one is given, and the guess flag alone otherwise.
pub open spec fn language_args(lang: Option<Seq<char>>) -> Seq<Seq<char>> {
    match lang {
        Some(lang) => seq![language_flag(), lang],
        None => seq![guess_flag()],
    }
}

/// The options are worth passing on: they are there and not empty.
pub open spec fn has_options(options: Option<Seq<char>>) -> bool {
    options matches Some(text) && text.len() > 0
}

/// The part of the command line that hands over the options: the options
/// flag and the options as they are, or nothing where there are none.
pub open spec fn options_args(options: Option<Seq<char>>) -> Seq<Seq<char>> {
    if has_options(options) {
        seq![options_flag(), options->0]
    } else {
        seq![]
    }
}

/// The whole command line: the format, then the language or the request to
/// guess it, then the options.
pub open spec fn command_line(
    lang: Option<Seq<char>>,
    fmt_name: Seq<char>,
    options: Option<Seq<char>>,
) -> Seq<Seq<char>> {
    seq![format_flag(), fmt_name] + language_args(lang) + options_args(options)
}

/// Builds the arguments for the highlighter, in the one order that it is
/// given them: format, language, options.
pub fn to_args<'a>(lang: Option<&'a str>, fmt_name: &'a str, options: Option<&'a str>) -> (args:
    Vec<&'a str>)
    ensures
        args.deep_view() == command_line(lang.deep_view(), fmt_name@, options.deep_view()),
{
    let mut args: Vec<&'a str> = Vec::new();
    args.push("-f");
    args.push(fmt_name);
    match lang {
        Some(lang) => {
            args.push("-l");
            args.push(lang);
        },
        None => {
            args.push("-g");
        },
    }
    if let Some(text) = options {
        if !text.is_empty() {
            args.push("-O");
            args.push(text);
        }
    }
    assert(args.deep_view() =~= command_line(lang.deep_view(), fmt_name@, options.deep_view()));
    args
}

/// The four flags are four different tokens.
pub proof fn lemma_flags_differ()
    ensures
        format_flag() != language_flag(),
        format_flag() != guess_flag(),
        format_flag() != options_flag(),
        language_flag() != guess_flag(),
        language_flag() != options_flag(),
        guess_flag() != options_flag(),
{
    reveal_strlit("-f");
    reveal_strlit("-l");
    reveal_strlit("-g");
    reveal_strlit("-O");
    assert(format_flag()[1] == 'f');
    assert(language_flag()[1] == 'l');
    assert(guess_flag()[1] == 'g');
    assert(options_flag()[1] == 'O');
}

/// Whenever a language is given, the command line begins with the format
/// flag and the format's name, and the language flag and the language
/// come next, whatever the options are.
pub proof fn lemma_language_follows_format(
    lang: Seq<char>,
    fmt_name: Seq<char>,
    options: Option<Seq<char>>,
)
    ensures
        command_line(Some(lang), fmt_name, options).len() >= 4,
        command_line(Some(lang), fmt_name, options).subrange(0, 4) == seq![
            format_flag(),
            fmt_name,
            language_flag(),
            lang,
        ],
        command_line(Some(lang), fmt_name, options).subrange(
            4,
            command_line(Some(lang), fmt_name, options).len() as int,
        ) == options_args(options),
{
    let line = command_line(Some(lang), fmt_name, options);
    assert(line.subrange(0, 4) =~= seq![format_flag(), fmt_name, language_flag(), lang]);
    assert(line.subrange(4, line.len() as int) =~= options_args(options));
}

/// Whenever no language is given, the guess flag stands where the language
/// flag would, and no value follows it: the command line either ends with
/// it or goes on with the options flag.
pub proof fn lemma_guess_without_language(fmt_name: Seq<char>, options: Option<Seq<char>>)
    ensures
        command_line(None, fmt_name, options).len() >= 3,
        command_line(None, fmt_name, options).subrange(0, 3) == seq![
            format_flag(),
            fmt_name,
            guess_flag(),
        ],
        command_line(None, fmt_name, options)[2] != language_flag(),
        command_line(None, fmt_name, options).subrange(
            3,
            command_line(None, fmt_name, options).len() as int,
        ) == options_args(options),
        command_line(None, fmt_name, options).len() > 3 ==> command_line(
            None,
            fmt_name,
            options,
        )[3] == options_flag(),
{
    lemma_flags_differ();
    let line = command_line(None, fmt_name, options);
    assert(line.subrange(0, 3) =~= seq![format_flag(), fmt_name, guess_flag()]);
    assert(line.subrange(3, line.len() as int) =~= options_args(options));
}

/// Without options, or with empty ones, the command line ends after the
/// language, and none of its tokens is the options flag. A format name or
/// a language that is itself spelled like the options flag is left out:
/// it would be such a token.
pub proof fn lemma_no_options_no_flag(
    lang: Option<Seq<char>>,
    fmt_name: Seq<char>,
    options: Option<Seq<char>>,
)
    requires
        !has_options(options),
        fmt_name != options_flag(),
        lang != Some(options_flag()),
    ensures
        command_line(lang, fmt_name, options) == seq![format_flag(), fmt_name] + language_args(
            lang,
        ),
        forall|i: int|
            0 <= i < command_line(lang, fmt_name, options).len() ==> command_line(
                lang,
                fmt_name,
                options,
            )[i] != options_flag(),
{
    lemma_flags_differ();
    assert(command_line(lang, fmt_name, options) =~= seq![format_flag(), fmt_name]
        + language_args(lang));
}

/// With options that are not empty, the command line ends with the options
/// flag and the options exactly as they were given, and no other token is
/// the options flag. A format name, a language or options spelled like the
/// options flag are left out: they would be such a token.
pub proof fn lemma_options_flag_once(
    lang: Option<Seq<char>>,
    fmt_name: Seq<char>,
    options: Seq<char>,
)
    requires
        options.len() > 0,
        fmt_name != options_flag(),
        lang != Some(options_flag()),
        options != options_flag(),
    ensures
        command_line(lang, fmt_name, Some(options)).len() >= 5,
        command_line(lang, fmt_name, Some(options)).last() == options,
        forall|i: int|
            0 <= i < command_line(lang, fmt_name, Some(options)).len() ==> (command_line(
                lang,
                fmt_name,
                Some(options),
            )[i] == options_flag() <==> i == command_line(lang, fmt_name, Some(options)).len()
                - 2),
{
    lemma_flags_differ();
}

} // verus!
