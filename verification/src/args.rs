//! The command line of the compiler: `compiler [filepath]` or
//! `compiler --filepath <path>`.
use crate::text::{is_prefix_of, starts_with_text, text_eq};
use vstd::prelude::*;
use vstd::string::*;

verus! {

/// Why a command line is refused.
pub enum ArgError {
    /// `--filepath` was the last argument.
    MissingPathValue,
    /// `--filepath=` with nothing after the `=`.
    EmptyPathValue,
    /// An argument that starts with `-` and is no option of the compiler.
    UnknownArgument(String),
    /// A second input path.
    MultiplePaths,
}

/// What the command line asks for.
pub enum ArgsOutcome {
    /// Compile the file at this path.
    Compile(String),
    /// Print the usage and stop.
    Help,
    Invalid(ArgError),
}

/// `ArgsOutcome` with its strings as character sequences.
pub enum ArgsMeaning {
    Compile(Seq<char>),
    Help,
    MissingPathValue,
    EmptyPathValue,
    UnknownArgument(Seq<char>),
    MultiplePaths,
}

impl View for ArgsOutcome {
    type V = ArgsMeaning;

    open spec fn view(&self) -> ArgsMeaning {
        match self {
            ArgsOutcome::Compile(p) => ArgsMeaning::Compile(p@),
            ArgsOutcome::Help => ArgsMeaning::Help,
            ArgsOutcome::Invalid(ArgError::MissingPathValue) => ArgsMeaning::MissingPathValue,
            ArgsOutcome::Invalid(ArgError::EmptyPathValue) => ArgsMeaning::EmptyPathValue,
            ArgsOutcome::Invalid(ArgError::UnknownArgument(a)) => ArgsMeaning::UnknownArgument(
                a@,
            ),
            ArgsOutcome::Invalid(ArgError::MultiplePaths) => ArgsMeaning::MultiplePaths,
        }
    }
}

pub open spec fn default_path() -> Seq<char> {
    "src/test.lang"@
}

/// The meaning of the arguments from position `i` on, `path` being the
/// input path that the arguments before `i` chose, if any. Arguments are
/// read left to right: `--filepath <p>` and `--filepath=<p>` set the path
/// (replacing an earlier one), `--help` and `-h` ask for the usage, another
/// argument that starts with `-` is unknown, and any other argument is the
/// path, of which there may be one only.
pub open spec fn args_meaning(args: Seq<Seq<char>>, i: int, path: Option<Seq<char>>) -> ArgsMeaning
    decreases args.len() - i,
{
    if i < 0 || i >= args.len() {
        match path {
            Some(p) => ArgsMeaning::Compile(p),
            None => ArgsMeaning::Compile(default_path()),
        }
    } else {
        let arg = args[i];
        if arg == "--filepath"@ {
            if i + 1 >= args.len() {
                ArgsMeaning::MissingPathValue
            } else {
                args_meaning(args, i + 2, Some(args[i + 1]))
            }
        } else if is_prefix_of("--filepath="@, arg) {
            let rest = arg.subrange("--filepath="@.len() as int, arg.len() as int);
            if rest.len() == 0 {
                ArgsMeaning::EmptyPathValue
            } else {
                args_meaning(args, i + 1, Some(rest))
            }
        } else if arg == "--help"@ || arg == "-h"@ {
            ArgsMeaning::Help
        } else if arg.len() > 0 && arg[0] == '-' {
            ArgsMeaning::UnknownArgument(arg)
        } else if path is Some {
            ArgsMeaning::MultiplePaths
        } else {
            args_meaning(args, i + 1, Some(arg))
        }
    }
}

/// The two ways of naming the input file mean the same: `compiler <p>`,
/// `compiler --filepath <p>` and `compiler --filepath=<p>` all compile `p`,
/// for any path `p` that is not empty and does not start with `-`; with no
/// argument the default file is compiled.
pub proof fn law_path_forms_agree(p: Seq<char>)
    requires
        p.len() > 0,
        p[0] != '-',
    ensures
        args_meaning(seq![p], 0, None) == ArgsMeaning::Compile(p),
        args_meaning(seq!["--filepath"@, p], 0, None) == ArgsMeaning::Compile(p),
        args_meaning(seq!["--filepath="@ + p], 0, None) == ArgsMeaning::Compile(p),
        args_meaning(Seq::<Seq<char>>::empty(), 0, None) == ArgsMeaning::Compile(default_path()),
{
    reveal_strlit("--filepath");
    reveal_strlit("--filepath=");
    reveal_strlit("--help");
    reveal_strlit("-h");
    let plain = seq![p];
    assert(plain[0] != "--filepath"@);
    assert(!is_prefix_of("--filepath="@, plain[0]));
    assert(plain[0] != "--help"@);
    assert(plain[0] != "-h"@);
    assert(args_meaning(plain, 1, Some(p)) == ArgsMeaning::Compile(p));
    let opt = seq!["--filepath"@, p];
    assert(opt[0] == "--filepath"@);
    assert(args_meaning(opt, 2, Some(p)) == ArgsMeaning::Compile(p));
    let joined = "--filepath="@ + p;
    let eq = seq![joined];
    assert(eq[0] != "--filepath"@) by {
        assert(eq[0].len() != "--filepath"@.len());
    }
    assert(is_prefix_of("--filepath="@, eq[0])) by {
        assert(joined.subrange(0, "--filepath="@.len() as int) =~= "--filepath="@);
    }
    assert(joined.subrange("--filepath="@.len() as int, joined.len() as int) =~= p);
    assert(args_meaning(eq, 1, Some(p)) == ArgsMeaning::Compile(p));
}

/// `--help` or `-h` as the first argument asks for the usage, whatever
/// follows it.
pub proof fn law_help_first(args: Seq<Seq<char>>)
    requires
        args.len() > 0,
        args[0] == "--help"@ || args[0] == "-h"@,
    ensures
        args_meaning(args, 0, None) == ArgsMeaning::Help,
{
    reveal_strlit("--filepath");
    reveal_strlit("--filepath=");
    reveal_strlit("--help");
    reveal_strlit("-h");
    assert(args[0] != "--filepath"@) by {
        assert(args[0].len() != "--filepath"@.len());
    }
    if is_prefix_of("--filepath="@, args[0]) {
        assert(args[0].len() >= 11);
    }
}

/// Reads the arguments that follow the program's name.
pub fn filepath_from_args(args: &Vec<String>) -> (r: ArgsOutcome)
    ensures
        r@ == args_meaning(args@.map_values(|a: String| a@), 0, None),
{
    let ghost view = args@.map_values(|a: String| a@);
    let mut filepath: Option<String> = None;
    let mut i: usize = 0;
    while i < args.len()
        invariant
            view == args@.map_values(|a: String| a@),
            i <= args@.len(),
            args_meaning(view, 0, None) == args_meaning(
                view,
                i as int,
                match filepath {
                    Some(p) => Some(p@),
                    None => None,
                },
            ),
        decreases args.len() - i,
    {
        let arg = args[i].as_str();
        assert(arg@ == view[i as int]);
        if text_eq(arg, "--filepath") {
            if i + 1 >= args.len() {
                return ArgsOutcome::Invalid(ArgError::MissingPathValue);
            }
            assert(args[i as int + 1]@ == view[i + 1]);
            filepath = Some(args[i + 1].clone());
            i += 2;
            continue;
        }
        if starts_with_text(arg, "--filepath=") {
            let start = "--filepath=".unicode_len();
            let end = arg.unicode_len();
            let rest = arg.substring_char(start, end);
            if rest.unicode_len() == 0 {
                return ArgsOutcome::Invalid(ArgError::EmptyPathValue);
            }
            filepath = Some(String::from_str(rest));
            i += 1;
            continue;
        }
        if text_eq(arg, "--help") || text_eq(arg, "-h") {
            return ArgsOutcome::Help;
        }
        if arg.unicode_len() > 0 && arg.get_char(0) == '-' {
            return ArgsOutcome::Invalid(ArgError::UnknownArgument(String::from_str(arg)));
        }
        if filepath.is_some() {
            return ArgsOutcome::Invalid(ArgError::MultiplePaths);
        }
        filepath = Some(String::from_str(arg));
        i += 1;
    }
    match filepath {
        Some(p) => ArgsOutcome::Compile(p),
        None => ArgsOutcome::Compile(String::from_str("src/test.lang")),
    }
}

/// The position of the last `c` in `s`, or -1 where `s` holds none.
pub open spec fn last_index_of(s: Seq<char>, c: char) -> int
    decreases s.len(),
{
    if s.len() == 0 {
        -1
    } else if s.last() == c {
        s.len() - 1
    } else {
        last_index_of(s.drop_last(), c)
    }
}

/// The last component of `p`: what follows its last `/`.
pub open spec fn file_name(p: Seq<char>) -> Seq<char> {
    p.subrange(last_index_of(p, '/') + 1, p.len() as int)
}

/// A path that every platform reads alike, with a file name at its end: no
/// `\` and no `:` in it, not ending in `/`, and a last component other
/// than `.` and `..`.
pub open spec fn plain_path(p: Seq<char>) -> bool {
    &&& !p.contains('\\')
    &&& !p.contains(':')
    &&& p.len() > 0
    &&& p.last() != '/'
    &&& file_name(p) != "."@
    &&& file_name(p) != ".."@
}

/// The stem of a file name: the part before its last `.`, or the whole name
/// where it has no `.` or only one at its start.
pub open spec fn file_stem(name: Seq<char>) -> Seq<char> {
    let dot = last_index_of(name, '.');
    if dot <= 0 {
        name
    } else {
        name.subrange(0, dot)
    }
}

/// `p` with the extension of its last component replaced by `ext`: the path
/// up to the end of the file's stem, then `.` and `ext` unless `ext` is
/// empty.
pub open spec fn replace_extension(p: Seq<char>, ext: Seq<char>) -> Seq<char> {
    let start = last_index_of(p, '/') + 1;
    let kept = p.subrange(0, start) + file_stem(file_name(p));
    if ext.len() == 0 {
        kept
    } else {
        kept + "."@ + ext
    }
}

/// Calls `std::path::Path::with_extension` on `path`, as text in and out.
/// The std function panics where the extension holds a path separator, so
/// `ext` holds none. Claimed, as its documentation states it: for a plain
/// path, the extension of the file name (what follows its last `.`, unless
/// that `.` starts the name) is replaced by `ext`, or removed where `ext` is
/// empty. The result for other paths (with `\`, a drive prefix, a trailing
/// `/`, or ending in `.` or `..`) depends on the platform and is not stated.
#[verifier::external_body]
fn with_extension(path: &str, ext: &str) -> (r: String)
    requires
        !ext@.contains('/'),
        !ext@.contains('\\'),
    ensures
        plain_path(path@) ==> r@ == replace_extension(path@, ext@),
{
    std::path::Path::new(path).with_extension(ext).to_string_lossy().into_owned()
}

/// The name of the executable built from the source file `filepath`: the
/// same path without its extension, or with the extension `exe` when the
/// compiler targets Windows.
pub fn output_name(filepath: &str, windows: bool) -> (r: String)
    ensures
        plain_path(filepath@) ==> r@ == replace_extension(
            filepath@,
            if windows {
                "exe"@
            } else {
                ""@
            },
        ),
{
    proof {
        reveal_strlit("exe");
        reveal_strlit("");
        assert(!"exe"@.contains('/'));
        assert(!"exe"@.contains('\\'));
    }
    if windows {
        with_extension(filepath, "exe")
    } else {
        with_extension(filepath, "")
    }
}

/// The Windows executable is the other platforms' executable name with
/// `.exe` added, for every plain input path.
pub proof fn law_windows_name_adds_exe(p: Seq<char>)
    requires
        plain_path(p),
    ensures
        replace_extension(p, "exe"@) == replace_extension(p, ""@) + ".exe"@,
{
    reveal_strlit("exe");
    reveal_strlit("");
    reveal_strlit(".exe");
    reveal_strlit(".");
    let kept = p.subrange(0, last_index_of(p, '/') + 1) + file_stem(file_name(p));
    assert(kept + "."@ + "exe"@ =~= kept + ".exe"@);
}

} // verus!
