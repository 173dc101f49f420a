//! Text shown by the command-line front end.
//!
//! The front end itself (argument handling, printing, exit codes) is outside
//! the library; these functions only compute the text it shows.

use vstd::prelude::*;

verus! {

/// The brief usage text, shown when an invocation is rejected.
pub open spec fn brief_help_text() -> Seq<char> {
    "Usage: rewrite [options] FILE\nSafely rewrite contents of FILE with stdin, even where FILE is being read by upstream command\n"@
}

/// The full usage text, shown on an explicit help request.
pub open spec fn full_help_text() -> Seq<char> {
    "Usage: rewrite [options] FILE\nSafely rewrite contents of FILE with stdin, even where FILE is being read by upstream command\n\nOptions:\n\t-h, --help      prints this help info and exit\n\t-V, --version   show version info and exit\n"@
}

/// The version banner: the program name and version, then the
/// copyright/author line.
pub open spec fn version_text() -> Seq<char> {
    "rewrite 0.1.0\nCopyright (C) NeoSmart Technologies 2017-2021. Written by Mahmoud Al-Qudsi <mqudsi@neosmart.net>\n"@
}

/// Returns the usage text: the option summary is included exactly when
/// `verbose` is set.
pub fn help(verbose: bool) -> (r: &'static str)
    ensures
        verbose ==> r@ == full_help_text(),
        !verbose ==> r@ == brief_help_text(),
{
    if verbose {
        "Usage: rewrite [options] FILE\nSafely rewrite contents of FILE with stdin, even where FILE is being read by upstream command\n\nOptions:\n\t-h, --help      prints this help info and exit\n\t-V, --version   show version info and exit\n"
    } else {
        "Usage: rewrite [options] FILE\nSafely rewrite contents of FILE with stdin, even where FILE is being read by upstream command\n"
    }
}

/// Returns the version banner.
pub fn version() -> (r: &'static str)
    ensures
        r@ == version_text(),
{
    "rewrite 0.1.0\nCopyright (C) NeoSmart Technologies 2017-2021. Written by Mahmoud Al-Qudsi <mqudsi@neosmart.net>\n"
}

/// One command-line argument (the program name excluded): its raw bytes,
/// and whether those bytes decode as unicode text. Only text arguments are
/// eligible to be options; anything else names the destination file.
pub struct Arg {
    pub bytes: Vec<u8>,
    pub text: bool,
}

/// What an invocation asks for. The index payloads point into the argument
/// list handed to `parse_args`.
#[derive(Clone, Copy, Debug, PartialEq, Eq, Structural)]
pub enum CliRequest {
    /// `-h` or `--help` was given.
    ShowHelp,
    /// `-V` or `--version` was given.
    ShowVersion,
    /// The argument at this index looks like an option but is not one.
    BadOption(usize),
    /// More than one destination file was supplied.
    TooManyFiles,
    /// No destination file was supplied.
    MissingFile,
    /// Replace the file named by the argument at this index.
    Replace(usize),
}

/// `-h` or `--help`, as bytes.
pub open spec fn help_token(s: Seq<u8>) -> bool {
    s == seq![45u8, 104u8] || s == seq![45u8, 45u8, 104u8, 101u8, 108u8, 112u8]
}

/// `-V` or `--version`, as bytes.
pub open spec fn version_token(s: Seq<u8>) -> bool {
    s == seq![45u8, 86u8] || s == seq![
        45u8,
        45u8,
        118u8,
        101u8,
        114u8,
        115u8,
        105u8,
        111u8,
        110u8,
    ]
}

/// `--`, as bytes: everything after it is taken as a file name.
pub open spec fn switch_end_token(s: Seq<u8>) -> bool {
    s == seq![45u8, 45u8]
}

/// An argument is treated as an option when it is text, starts with `-`,
/// and is not the bare `-` (which conventionally names standard streams).
pub open spec fn is_switch(a: Arg) -> bool {
    a.text && a.bytes@.len() >= 2 && a.bytes@[0] == 45u8
}

/// What the invocation asks for, reading the arguments from position `i`
/// on: options are examined until `--` is seen, the single free argument is
/// the destination, and the first violation wins.
pub open spec fn parse_from(args: Seq<Arg>, i: int, skip: bool, file: Option<int>) -> CliRequest
    decreases args.len() - i,
{
    if i < 0 || i >= args.len() {
        match file {
            Some(j) => CliRequest::Replace(j as usize),
            None => CliRequest::MissingFile,
        }
    } else if !skip && is_switch(args[i]) {
        if help_token(args[i].bytes@) {
            CliRequest::ShowHelp
        } else if version_token(args[i].bytes@) {
            CliRequest::ShowVersion
        } else if switch_end_token(args[i].bytes@) {
            parse_from(args, i + 1, true, file)
        } else {
            CliRequest::BadOption(i as usize)
        }
    } else if file is Some {
        CliRequest::TooManyFiles
    } else {
        parse_from(args, i + 1, skip, Some(i))
    }
}

/// What the invocation asks for.
pub open spec fn parse(args: Seq<Arg>) -> CliRequest {
    parse_from(args, 0, false, None)
}

fn is_help_token(b: &Vec<u8>) -> (r: bool)
    ensures
        r == help_token(b@),
{
    if b.len() == 2 {
        let r = b[0] == 45u8 && b[1] == 104u8;
        proof {
            if r {
                assert(b@ =~= seq![45u8, 104u8]);
            }
        }
        r
    } else if b.len() == 6 {
        let r = b[0] == 45u8 && b[1] == 45u8 && b[2] == 104u8 && b[3] == 101u8 && b[4] == 108u8
            && b[5] == 112u8;
        proof {
            if r {
                assert(b@ =~= seq![45u8, 45u8, 104u8, 101u8, 108u8, 112u8]);
            }
        }
        r
    } else {
        false
    }
}

fn is_version_token(b: &Vec<u8>) -> (r: bool)
    ensures
        r == version_token(b@),
{
    if b.len() == 2 {
        let r = b[0] == 45u8 && b[1] == 86u8;
        proof {
            if r {
                assert(b@ =~= seq![45u8, 86u8]);
            }
        }
        r
    } else if b.len() == 9 {
        let r = b[0] == 45u8 && b[1] == 45u8 && b[2] == 118u8 && b[3] == 101u8 && b[4] == 114u8
            && b[5] == 115u8 && b[6] == 105u8 && b[7] == 111u8 && b[8] == 110u8;
        proof {
            if r {
                assert(b@ =~= seq![45u8, 45u8, 118u8, 101u8, 114u8, 115u8, 105u8, 111u8, 110u8]);
            }
        }
        r
    } else {
        false
    }
}

fn is_switch_end(b: &Vec<u8>) -> (r: bool)
    ensures
        r == switch_end_token(b@),
{
    if b.len() == 2 {
        let r = b[0] == 45u8 && b[1] == 45u8;
        proof {
            if r {
                assert(b@ =~= seq![45u8, 45u8]);
            }
        }
        r
    } else {
        false
    }
}

/// Decides what an invocation asks for.
pub fn parse_args(args: &Vec<Arg>) -> (r: CliRequest)
    ensures
        r == parse(args@),
{
    let mut i: usize = 0;
    let mut skip = false;
    let mut file: Option<usize> = None;
    while i < args.len()
        invariant
            i <= args.len(),
            parse(args@) == parse_from(
                args@,
                i as int,
                skip,
                match file {
                    Some(j) => Some(j as int),
                    None => None,
                },
            ),
        decreases args.len() - i,
    {
        let a = &args[i];
        if !skip && a.text && a.bytes.len() >= 2 && a.bytes[0] == 45u8 {
            if is_help_token(&a.bytes) {
                return CliRequest::ShowHelp;
            } else if is_version_token(&a.bytes) {
                return CliRequest::ShowVersion;
            } else if is_switch_end(&a.bytes) {
                skip = true;
            } else {
                return CliRequest::BadOption(i);
            }
        } else {
            if file.is_some() {
                return CliRequest::TooManyFiles;
            }
            file = Some(i);
        }
        i = i + 1;
    }
    match file {
        Some(j) => CliRequest::Replace(j),
        None => CliRequest::MissingFile,
    }
}

} // verus!
