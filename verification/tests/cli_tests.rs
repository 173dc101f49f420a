use rewrite::cli::help;
use rewrite::cli::parse_args;
use rewrite::cli::version;
use rewrite::cli::Arg;
use rewrite::cli::CliRequest;

fn text_arg(s: &str) -> Arg {
    Arg { bytes: s.as_bytes().to_vec(), text: true }
}

#[test]
fn brief_help_has_usage_only() {
    let text = help(false);
    assert_eq!(
        text,
        "Usage: rewrite [options] FILE\nSafely rewrite contents of FILE with stdin, even where FILE is being read by upstream command\n"
    );
}

#[test]
fn full_help_lists_options() {
    let text = help(true);
    assert_eq!(
        text,
        "Usage: rewrite [options] FILE\nSafely rewrite contents of FILE with stdin, even where FILE is being read by upstream command\n\nOptions:\n\t-h, --help      prints this help info and exit\n\t-V, --version   show version info and exit\n"
    );
}

#[test]
fn version_banner() {
    assert_eq!(
        version(),
        "rewrite 0.1.0\nCopyright (C) NeoSmart Technologies 2017-2021. Written by Mahmoud Al-Qudsi <mqudsi@neosmart.net>\n"
    );
}

#[test]
fn help_flags_are_recognized() {
    assert_eq!(parse_args(&vec![text_arg("-h")]), CliRequest::ShowHelp);
    assert_eq!(parse_args(&vec![text_arg("--help")]), CliRequest::ShowHelp);
    assert_eq!(
        parse_args(&vec![text_arg("out.txt"), text_arg("-h")]),
        CliRequest::ShowHelp
    );
}

#[test]
fn version_flags_are_recognized() {
    assert_eq!(parse_args(&vec![text_arg("-V")]), CliRequest::ShowVersion);
    assert_eq!(parse_args(&vec![text_arg("--version")]), CliRequest::ShowVersion);
}

#[test]
fn single_file_argument_is_the_destination() {
    assert_eq!(parse_args(&vec![text_arg("out.txt")]), CliRequest::Replace(0));
}

#[test]
fn bare_dash_is_a_file_argument() {
    assert_eq!(parse_args(&vec![text_arg("-")]), CliRequest::Replace(0));
}

#[test]
fn double_dash_ends_option_handling() {
    assert_eq!(
        parse_args(&vec![text_arg("--"), text_arg("-h")]),
        CliRequest::Replace(1)
    );
}

#[test]
fn unknown_option_is_rejected() {
    assert_eq!(parse_args(&vec![text_arg("-x")]), CliRequest::BadOption(0));
    assert_eq!(
        parse_args(&vec![text_arg("out.txt"), text_arg("--frobnicate")]),
        CliRequest::BadOption(1)
    );
}

#[test]
fn two_file_arguments_are_rejected() {
    assert_eq!(
        parse_args(&vec![text_arg("a"), text_arg("b")]),
        CliRequest::TooManyFiles
    );
}

#[test]
fn no_file_argument_is_rejected() {
    assert_eq!(parse_args(&Vec::new()), CliRequest::MissingFile);
}

#[test]
fn non_text_argument_is_a_file_even_with_leading_dash() {
    let raw = Arg { bytes: vec![b'-', 0xff, 0xfe], text: false };
    assert_eq!(parse_args(&vec![raw]), CliRequest::Replace(0));
}
