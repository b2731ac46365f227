use pygmentize::args::to_args;

#[test]
fn language_and_options_follow_the_format() {
    let args = to_args(Some("python"), "html", Some("linenos=true"));
    assert_eq!(args, vec!["-f", "html", "-l", "python", "-O", "linenos=true"]);
}

#[test]
fn language_without_options() {
    let args = to_args(Some("rust"), "svg", None);
    assert_eq!(args, vec!["-f", "svg", "-l", "rust"]);
}

#[test]
fn missing_language_is_guessed() {
    let args = to_args(None, "latex", None);
    assert_eq!(args, vec!["-f", "latex", "-g"]);
}

#[test]
fn guess_flag_takes_no_value() {
    let args = to_args(None, "terminal", Some("linenos=true"));
    assert_eq!(args, vec!["-f", "terminal", "-g", "-O", "linenos=true"]);
    assert_eq!(args[3], "-O");
}

#[test]
fn empty_options_add_no_flag() {
    let with_language = to_args(Some("c"), "html", Some(""));
    assert_eq!(with_language, vec!["-f", "html", "-l", "c"]);
    assert!(!with_language.contains(&"-O"));
    let guessed = to_args(None, "html", Some(""));
    assert_eq!(guessed, vec!["-f", "html", "-g"]);
    assert!(!guessed.contains(&"-O"));
}

#[test]
fn absent_options_add_no_flag() {
    let args = to_args(Some("go"), "terminal256", None);
    assert!(!args.contains(&"-O"));
    assert_eq!(args.len(), 4);
}

#[test]
fn options_are_passed_unmodified() {
    let options = " linenos=true, style=monokai ,full ";
    let args = to_args(Some("toml"), "html", Some(options));
    assert_eq!(args.len(), 6);
    assert_eq!(args[4], "-O");
    assert_eq!(args[5], options);
    assert_eq!(args.iter().filter(|arg| **arg == "-O").count(), 1);
}

#[test]
fn format_comes_first_for_every_format() {
    for name in ["html", "svg", "latex", "terminal", "terminal16m", "terminal256"] {
        for lang in [Some("python"), None] {
            let args = to_args(lang, name, None);
            assert_eq!(args[0], "-f");
            assert_eq!(args[1], name);
        }
    }
}

#[test]
fn empty_language_is_still_a_language() {
    let args = to_args(Some(""), "html", None);
    assert_eq!(args, vec!["-f", "html", "-l", ""]);
}

#[test]
fn language_is_passed_unmodified() {
    let args = to_args(Some("Visual Basic.NET"), "html", None);
    assert_eq!(args, vec!["-f", "html", "-l", "Visual Basic.NET"]);
}
