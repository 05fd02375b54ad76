use golem_cli::args::{parse_args, parse_error_message, Command, ParseError, Parsed};
use golem_cli::config::{
    allow_insecure_of, resolve_base_url, validate_base_url, verbosity_of,
};
use golem_cli::examples::GuestLanguage;
use golem_cli::model::{exit_code_of, Format, GolemError, RunOutcome, Verbosity};
use golem_cli::template::{TemplateRef, TemplateSubcommand};
use golem_cli::worker::WorkerSubcommand;

fn argv(xs: &[&str]) -> Vec<String> {
    xs.iter().map(|s| s.to_string()).collect()
}

fn run(xs: &[&str]) -> golem_cli::args::GolemCommand {
    match parse_args(&argv(xs)) {
        Ok(Parsed::Run(gc)) => gc,
        _ => panic!("expected a run command"),
    }
}

#[test]
fn template_list_with_json_format_after_subcommand() {
    let gc = run(&["template", "list", "--format", "json"]);
    assert_eq!(gc.format, Format::Json);
    match gc.command {
        Command::Template(TemplateSubcommand::List { template_name }) => {
            assert!(template_name.is_none());
        }
        _ => panic!("expected template list"),
    }
}

#[test]
fn format_defaults_to_yaml() {
    let gc = run(&["template", "list"]);
    assert_eq!(gc.format, Format::Yaml);
}

#[test]
fn parsing_is_deterministic_across_runs() {
    let a = argv(&["worker", "invoke", "--template-name", "foo", "--worker-name", "w1", "--function", "bar", "--parameters", "[1]"]);
    let first = parse_args(&a);
    let second = parse_args(&a);
    match (first, second) {
        (Ok(Parsed::Run(x)), Ok(Parsed::Run(y))) => {
            assert_eq!(x.format, y.format);
            match (x.command, y.command) {
                (
                    Command::Worker(WorkerSubcommand::Invoke { worker_name: w1, function: f1, parameters: p1, .. }),
                    Command::Worker(WorkerSubcommand::Invoke { worker_name: w2, function: f2, parameters: p2, .. }),
                ) => {
                    assert_eq!(w1, w2);
                    assert_eq!(f1, f2);
                    assert_eq!(p1, p2);
                }
                _ => panic!("expected invoke on both runs"),
            }
        }
        _ => panic!("expected both runs to parse"),
    }
}

#[test]
fn unknown_flag_is_rejected() {
    match parse_args(&argv(&["template", "list", "--bogus", "x"])) {
        Err(ParseError::UnknownFlag(t)) => assert_eq!(t, "--bogus"),
        _ => panic!("expected an unknown-flag error"),
    }
}

#[test]
fn unknown_command_is_rejected() {
    assert!(matches!(
        parse_args(&argv(&["frobnicate"])),
        Err(ParseError::UnknownCommand(_))
    ));
}

#[test]
fn missing_command_is_rejected() {
    assert!(matches!(parse_args(&argv(&[])), Err(ParseError::MissingCommand)));
}

#[test]
fn bad_format_value_is_rejected() {
    assert!(matches!(
        parse_args(&argv(&["--format", "xml", "template", "list"])),
        Err(ParseError::BadValue(_))
    ));
}

#[test]
fn duplicate_format_flag_is_rejected() {
    assert!(matches!(
        parse_args(&argv(&["--format", "json", "template", "list", "--format", "yaml"])),
        Err(ParseError::DuplicateFlag(_))
    ));
}

#[test]
fn format_flag_without_value_is_rejected() {
    assert!(matches!(
        parse_args(&argv(&["template", "list", "-F"])),
        Err(ParseError::MissingValue(_))
    ));
}

#[test]
fn help_and_version_short_circuit() {
    assert!(matches!(parse_args(&argv(&["--help"])), Ok(Parsed::Help)));
    assert!(matches!(parse_args(&argv(&["template", "--version"])), Ok(Parsed::Version)));
}

#[test]
fn golem_url_flag_is_collected() {
    let gc = run(&["-u", "https://example.test:9000", "template", "list"]);
    assert_eq!(gc.golem_url.as_deref(), Some("https://example.test:9000"));
}

#[test]
fn verbosity_stacking() {
    assert_eq!(run(&["template", "list"]).verbosity, Verbosity::Error);
    assert_eq!(run(&["-v", "template", "list"]).verbosity, Verbosity::Warn);
    assert_eq!(run(&["-vv", "template", "list"]).verbosity, Verbosity::Info);
    assert_eq!(run(&["-vvv", "template", "list"]).verbosity, Verbosity::Debug);
    assert_eq!(run(&["-v", "-vvv", "template", "list"]).verbosity, Verbosity::Trace);
    assert_eq!(run(&["-q", "template", "list"]).verbosity, Verbosity::Off);
}

#[test]
fn worker_invoke_parses_typed_values() {
    let gc = run(&[
        "worker", "invoke", "--template-name", "foo", "--worker-name", "w1", "--function",
        "bar", "--parameters", "[1,2]",
    ]);
    match gc.command {
        Command::Worker(WorkerSubcommand::Invoke { template_ref, worker_name, function, parameters }) => {
            assert!(matches!(template_ref, TemplateRef::Name(n) if n == "foo"));
            assert_eq!(worker_name, "w1");
            assert_eq!(function, "bar");
            assert_eq!(parameters, "[1,2]");
        }
        _ => panic!("expected worker invoke"),
    }
}

#[test]
fn worker_add_collects_repeated_env_and_args() {
    let gc = run(&[
        "worker", "add", "--template-id", "T", "--worker-name", "w", "--env", "A=1", "--env",
        "B=2", "--args", "x",
    ]);
    match gc.command {
        Command::Worker(WorkerSubcommand::Add { env, args, .. }) => {
            assert_eq!(env, vec!["A=1".to_string(), "B=2".to_string()]);
            assert_eq!(args, vec!["x".to_string()]);
        }
        _ => panic!("expected worker add"),
    }
}

#[test]
fn invoke_and_await_use_stdio_flag() {
    let gc = run(&[
        "worker", "invoke-and-await", "--template-id", "T", "--worker-name", "w", "--function",
        "f", "--parameters", "[]", "--use-stdio",
    ]);
    match gc.command {
        Command::Worker(WorkerSubcommand::InvokeAndAwait { use_stdio, .. }) => assert!(use_stdio),
        _ => panic!("expected invoke-and-await"),
    }
}

#[test]
fn template_id_and_name_conflict() {
    assert!(matches!(
        parse_args(&argv(&["worker", "get", "--template-id", "T", "--template-name", "n", "--worker-name", "w"])),
        Err(ParseError::ConflictingOptions(_, _))
    ));
}

#[test]
fn missing_required_option_is_rejected() {
    assert!(matches!(
        parse_args(&argv(&["worker", "get", "--template-id", "T"])),
        Err(ParseError::MissingOption(_))
    ));
    assert!(matches!(
        parse_args(&argv(&["template", "add", "--template-name", "n"])),
        Err(ParseError::MissingOption(_))
    ));
}

#[test]
fn new_and_list_examples_leaves() {
    let gc = run(&["new", "--example", "rust-hello", "--template-name", "myapp"]);
    match gc.command {
        Command::New { example, template_name, package_name } => {
            assert_eq!(example, "rust-hello");
            assert_eq!(template_name, "myapp");
            assert!(package_name.is_none());
        }
        _ => panic!("expected new"),
    }
    let gc = run(&["list-examples", "--language", "rust", "--min-tier", "2"]);
    match gc.command {
        Command::ListExamples { min_tier, language } => {
            assert_eq!(min_tier, Some(2));
            assert_eq!(language, Some(GuestLanguage::Rust));
        }
        _ => panic!("expected list-examples"),
    }
}

#[test]
fn language_aliases_and_bad_tier() {
    let gc = run(&["list-examples", "--language", "ts"]);
    assert!(matches!(
        gc.command,
        Command::ListExamples { language: Some(GuestLanguage::TypeScript), .. }
    ));
    assert!(matches!(
        parse_args(&argv(&["list-examples", "--min-tier", "9"])),
        Err(ParseError::BadValue(_))
    ));
}

#[test]
fn base_url_precedence() {
    assert_eq!(
        resolve_base_url(None, None),
        "http://localhost:9881".to_string()
    );
    assert_eq!(
        resolve_base_url(None, Some("http://env:1".to_string())),
        "http://env:1".to_string()
    );
    assert_eq!(
        resolve_base_url(Some("http://flag:2".to_string()), Some("http://env:1".to_string())),
        "http://flag:2".to_string()
    );
}

#[test]
fn allow_insecure_iff_present_and_not_false() {
    assert!(!allow_insecure_of(&None));
    assert!(!allow_insecure_of(&Some("false".to_string())));
    assert!(allow_insecure_of(&Some("true".to_string())));
    assert!(allow_insecure_of(&Some("0".to_string())));
    assert!(allow_insecure_of(&Some("".to_string())));
}

#[test]
fn base_url_validation() {
    assert!(validate_base_url(&"http://localhost:9881".to_string()).is_ok());
    assert!(validate_base_url(&"https://golem.example".to_string()).is_ok());
    match validate_base_url(&"ftp://nope".to_string()) {
        Err(GolemError::InvalidConfig(m)) => assert_eq!(m, "ftp://nope"),
        _ => panic!("expected an invalid-config error"),
    }
    assert!(validate_base_url(&"http://".to_string()).is_err());
}

#[test]
fn exit_codes() {
    assert_eq!(exit_code_of(&RunOutcome::Success), 0);
    assert_eq!(exit_code_of(&RunOutcome::ParseFailure), 2);
    assert_eq!(
        exit_code_of(&RunOutcome::Failure(GolemError::NotFound("x".to_string()))),
        1
    );
    assert_eq!(exit_code_of(&RunOutcome::Failure(GolemError::Cancelled)), 130);
}

#[test]
fn parse_error_diagnostics_are_human_readable() {
    match parse_args(&argv(&["template", "list", "--bogus", "x"])) {
        Err(e) => assert_eq!(parse_error_message(&e), "unknown flag: --bogus"),
        _ => panic!("expected an error"),
    }
    match parse_args(&argv(&["worker", "get", "--template-id", "T"])) {
        Err(e) => assert_eq!(
            parse_error_message(&e),
            "missing required option: --worker-name"
        ),
        _ => panic!("expected an error"),
    }
    match parse_args(&argv(&["worker", "get", "--template-id", "T", "--template-name", "n", "--worker-name", "w"])) {
        Err(e) => assert_eq!(
            parse_error_message(&e),
            "conflicting options: --template-id and --template-name"
        ),
        _ => panic!("expected an error"),
    }
}

#[test]
fn verbosity_mapping() {
    assert_eq!(verbosity_of(0, false), Verbosity::Error);
    assert_eq!(verbosity_of(4, false), Verbosity::Trace);
    assert_eq!(verbosity_of(3, true), Verbosity::Off);
}
