use compiler::args::{filepath_from_args, output_name, ArgError, ArgsOutcome};

fn run(args: &[&str]) -> ArgsOutcome {
    let v: Vec<String> = args.iter().map(|s| s.to_string()).collect();
    filepath_from_args(&v)
}

fn path_of(o: ArgsOutcome) -> String {
    match o {
        ArgsOutcome::Compile(p) => p,
        _ => panic!("expected a path"),
    }
}

#[test]
fn no_arguments_compile_the_default_file() {
    assert_eq!(path_of(run(&[])), "src/test.lang");
}

#[test]
fn a_plain_argument_is_the_path() {
    assert_eq!(path_of(run(&["test.lang"])), "test.lang");
    assert_eq!(path_of(run(&["examples/demo.lang"])), "examples/demo.lang");
}

#[test]
fn filepath_option_takes_the_next_argument() {
    assert_eq!(path_of(run(&["--filepath", "path/to/file.lang"])), "path/to/file.lang");
    assert_eq!(path_of(run(&["--filepath", "-odd.lang"])), "-odd.lang");
}

#[test]
fn filepath_option_with_equals() {
    assert_eq!(path_of(run(&["--filepath=a.lang"])), "a.lang");
}

#[test]
fn a_later_filepath_option_replaces_the_path() {
    assert_eq!(path_of(run(&["a.lang", "--filepath", "b.lang"])), "b.lang");
    assert_eq!(path_of(run(&["--filepath=a.lang", "--filepath=b.lang"])), "b.lang");
}

#[test]
fn filepath_option_needs_a_value() {
    assert!(matches!(run(&["--filepath"]), ArgsOutcome::Invalid(ArgError::MissingPathValue)));
    assert!(matches!(run(&["--filepath="]), ArgsOutcome::Invalid(ArgError::EmptyPathValue)));
}

#[test]
fn help_options() {
    assert!(matches!(run(&["--help"]), ArgsOutcome::Help));
    assert!(matches!(run(&["-h"]), ArgsOutcome::Help));
    assert!(matches!(run(&["x.lang", "-h"]), ArgsOutcome::Help));
}

#[test]
fn unknown_options_are_refused() {
    match run(&["-v"]) {
        ArgsOutcome::Invalid(ArgError::UnknownArgument(a)) => assert_eq!(a, "-v"),
        _ => panic!("expected an unknown argument"),
    }
    match run(&["--filepathx"]) {
        ArgsOutcome::Invalid(ArgError::UnknownArgument(a)) => assert_eq!(a, "--filepathx"),
        _ => panic!("expected an unknown argument"),
    }
}

#[test]
fn only_one_input_path() {
    assert!(matches!(run(&["a.lang", "b.lang"]), ArgsOutcome::Invalid(ArgError::MultiplePaths)));
    assert!(matches!(
        run(&["--filepath", "a.lang", "b.lang"]),
        ArgsOutcome::Invalid(ArgError::MultiplePaths)
    ));
}

#[test]
fn the_three_path_forms_agree() {
    for p in ["test.lang", "examples/demo.lang", "x"] {
        let a = path_of(run(&[p]));
        let b = path_of(run(&["--filepath", p]));
        let c = path_of(run(&[&format!("--filepath={}", p)]));
        assert_eq!(a, p);
        assert_eq!(b, p);
        assert_eq!(c, p);
    }
}

#[test]
fn help_first_wins_over_what_follows() {
    assert!(matches!(run(&["--help", "a.lang", "b.lang"]), ArgsOutcome::Help));
    assert!(matches!(run(&["-h", "-v"]), ArgsOutcome::Help));
}

#[test]
fn output_names_keep_the_base_name() {
    assert_eq!(output_name("test.lang", false), "test");
    assert_eq!(output_name("examples/demo.lang", false), "examples/demo");
    assert_eq!(output_name("src/test.lang", false), "src/test");
    assert_eq!(output_name("noext", false), "noext");
}

#[test]
fn output_names_on_windows_end_in_exe() {
    assert_eq!(output_name("test.lang", true), "test.exe");
    assert_eq!(output_name("examples/demo.lang", true), "examples/demo.exe");
}
