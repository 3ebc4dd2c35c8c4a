use rshell::builtins::Builtin;
use rshell::builtins::exit_code;
use rshell::dispatch::Action;
use rshell::dispatch::Lookup;
use rshell::dispatch::LookupRequest;
use rshell::dispatch::lookup_request;
use rshell::dispatch::process_command;
use rshell::errors::ShellError;
use rshell::numbers::parse_i32;
use rshell::output::external_output;
use rshell::output::trim;
use rshell::resolver::FileStat;
use rshell::resolver::SystemExecutable;
use rshell::tokenizer::Command;

fn parse_ok(line: &str) -> Command {
    match Command::parse(line) {
        Some(cmd) => cmd,
        None => panic!("line {:?} unexpectedly produced no command", line),
    }
}

fn stat(path: &str, mode: u32) -> Option<FileStat> {
    Some(FileStat { abs_path: path.to_string(), mode })
}

fn output_of(act: Action) -> String {
    match act {
        Action::Output(s) => s,
        _ => panic!("expected an output action"),
    }
}

fn report_of(act: Action) -> ShellError {
    match act {
        Action::Report(e) => e,
        _ => panic!("expected an error report"),
    }
}

#[test]
fn parse_empty_line_yields_no_command() {
    assert!(Command::parse("").is_none());
}

#[test]
fn parse_whitespace_only_line_yields_no_command() {
    assert!(Command::parse("   \t  \n").is_none());
}

#[test]
fn parse_splits_name_and_args() {
    let cmd = parse_ok("echo  a   b\n");
    assert_eq!(cmd.name, "echo");
    assert_eq!(cmd.args, vec!["a".to_string(), "b".to_string()]);
}

#[test]
fn parse_keeps_argument_order() {
    let cmd = parse_ok("cat one two three");
    assert_eq!(cmd.name, "cat");
    assert_eq!(
        cmd.args,
        vec!["one".to_string(), "two".to_string(), "three".to_string()]
    );
}

#[test]
fn parse_trims_surrounding_whitespace() {
    let cmd = parse_ok("  pwd  \n");
    assert_eq!(cmd.name, "pwd");
    assert!(cmd.args.is_empty());
}

#[test]
fn builtin_names_match_exactly() {
    assert!(matches!(Builtin::from_str("echo"), Some(Builtin::Echo)));
    assert!(matches!(Builtin::from_str("exit"), Some(Builtin::Exit)));
    assert!(matches!(Builtin::from_str("type"), Some(Builtin::Type)));
    assert!(matches!(Builtin::from_str("pwd"), Some(Builtin::Pwd)));
    assert!(Builtin::from_str("cd").is_none());
    assert!(Builtin::from_str("Echo").is_none());
    assert!(Builtin::from_str("").is_none());
}

#[test]
fn echo_rejoins_tokens_with_single_spaces() {
    let cmd = parse_ok("echo  a   b");
    let out = output_of(process_command(&cmd, Lookup::NotNeeded));
    assert_eq!(out, "a b");
}

#[test]
fn echo_without_arguments_prints_empty_line() {
    let cmd = parse_ok("echo");
    let out = output_of(process_command(&cmd, Lookup::NotNeeded));
    assert_eq!(out, "");
}

#[test]
fn exit_with_integer_uses_that_status() {
    let cmd = parse_ok("exit 42");
    assert!(matches!(
        process_command(&cmd, Lookup::NotNeeded),
        Action::Exit(42)
    ));
}

#[test]
fn exit_without_argument_uses_status_zero() {
    let cmd = parse_ok("exit");
    assert!(matches!(
        process_command(&cmd, Lookup::NotNeeded),
        Action::Exit(0)
    ));
}

#[test]
fn exit_with_non_integer_uses_status_zero() {
    let cmd = parse_ok("exit notanumber");
    assert!(matches!(
        process_command(&cmd, Lookup::NotNeeded),
        Action::Exit(0)
    ));
}

#[test]
fn exit_accepts_signs_and_leading_zeros() {
    assert!(matches!(
        process_command(&parse_ok("exit -5"), Lookup::NotNeeded),
        Action::Exit(-5)
    ));
    assert!(matches!(
        process_command(&parse_ok("exit +7"), Lookup::NotNeeded),
        Action::Exit(7)
    ));
    assert!(matches!(
        process_command(&parse_ok("exit 0042"), Lookup::NotNeeded),
        Action::Exit(42)
    ));
}

#[test]
fn exit_out_of_range_uses_status_zero() {
    assert!(matches!(
        process_command(&parse_ok("exit 2147483648"), Lookup::NotNeeded),
        Action::Exit(0)
    ));
    assert!(matches!(
        process_command(&parse_ok("exit -2147483648"), Lookup::NotNeeded),
        Action::Exit(-2147483648)
    ));
}

#[test]
fn parse_i32_bounds() {
    assert_eq!(parse_i32("2147483647"), Some(2147483647));
    assert_eq!(parse_i32("2147483648"), None);
    assert_eq!(parse_i32("-2147483648"), Some(-2147483648));
    assert_eq!(parse_i32("-2147483649"), None);
    assert_eq!(parse_i32(""), None);
    assert_eq!(parse_i32("-"), None);
    assert_eq!(parse_i32("12a"), None);
}

#[test]
fn exit_code_reads_only_first_argument() {
    assert_eq!(exit_code(&vec!["3".to_string(), "9".to_string()]), 3);
}

#[test]
fn pwd_reports_working_directory() {
    let cmd = parse_ok("pwd");
    let out = output_of(process_command(&cmd, Lookup::Cwd(Some("/tmp".to_string()))));
    assert_eq!(out, "/tmp");
}

#[test]
fn pwd_reports_environment_failure() {
    let cmd = parse_ok("pwd");
    let err = report_of(process_command(&cmd, Lookup::Cwd(None)));
    assert_eq!(err, ShellError::EnvironmentQueryFailure);
    assert_eq!(err.message(), "could not parse current directory path");
}

#[test]
fn type_reports_builtin() {
    let cmd = parse_ok("type echo");
    let out = output_of(process_command(&cmd, Lookup::NotNeeded));
    assert_eq!(out, "echo is a shell builtin");
}

#[test]
fn type_prefers_builtin_over_search_path() {
    // Even when an identically named executable exists on the search path,
    // the builtin wins.
    let cmd = parse_ok("type type");
    let shadowing = SystemExecutable {
        name: "type".to_string(),
        abs_path: "/usr/bin/type".to_string(),
        mode: 0o755,
    };
    let out = output_of(process_command(&cmd, Lookup::Resolved(Some(shadowing))));
    assert_eq!(out, "type is a shell builtin");
}

#[test]
fn type_reports_resolved_path() {
    let cmd = parse_ok("type ls");
    let exe = SystemExecutable {
        name: "ls".to_string(),
        abs_path: "/usr/bin/ls".to_string(),
        mode: 0o755,
    };
    let out = output_of(process_command(&cmd, Lookup::Resolved(Some(exe))));
    assert_eq!(out, "ls is /usr/bin/ls");
}

#[test]
fn type_reports_not_found() {
    let cmd = parse_ok("type cd");
    let out = output_of(process_command(&cmd, Lookup::Resolved(None)));
    assert_eq!(out, "cd: not found");
}

#[test]
fn type_requires_an_argument() {
    let cmd = parse_ok("type");
    let err = report_of(process_command(&cmd, Lookup::NotNeeded));
    assert_eq!(
        err,
        ShellError::InvalidArguments("type requires an argument".to_string())
    );
    assert_eq!(err.message(), "type requires an argument");
}

#[test]
fn unknown_command_is_reported_not_found() {
    let cmd = parse_ok("nosuch --flag");
    let err = report_of(process_command(&cmd, Lookup::Resolved(None)));
    assert_eq!(err, ShellError::CommandNotFound("nosuch".to_string()));
    assert_eq!(err.message(), "nosuch: command not found");
}

#[test]
fn resolved_command_is_handed_to_the_executor() {
    let cmd = parse_ok("sort -r");
    let exe = SystemExecutable {
        name: "sort".to_string(),
        abs_path: "/usr/bin/sort".to_string(),
        mode: 0o755,
    };
    match process_command(&cmd, Lookup::Resolved(Some(exe))) {
        Action::RunExternal(e) => {
            assert_eq!(e.name, "sort");
            assert_eq!(e.abs_path, "/usr/bin/sort");
        }
        _ => panic!("expected the command to be handed to the executor"),
    }
}

#[test]
fn lookup_request_for_builtins_and_externals() {
    assert!(matches!(
        lookup_request(&parse_ok("pwd")),
        LookupRequest::NeedCwd
    ));
    assert!(matches!(
        lookup_request(&parse_ok("echo hi")),
        LookupRequest::NoLookup
    ));
    assert!(matches!(
        lookup_request(&parse_ok("exit 1")),
        LookupRequest::NoLookup
    ));
    match lookup_request(&parse_ok("type cd")) {
        LookupRequest::NeedResolve(n) => assert_eq!(n, "cd"),
        _ => panic!("type with a non-builtin operand must resolve it"),
    }
    // Builtin precedence: the operand of `type` that names a builtin is
    // never looked up on the search path.
    assert!(matches!(
        lookup_request(&parse_ok("type echo")),
        LookupRequest::NoLookup
    ));
    match lookup_request(&parse_ok("ls -l")) {
        LookupRequest::NeedResolve(n) => assert_eq!(n, "ls"),
        _ => panic!("a non-builtin name must be resolved"),
    }
}

#[test]
fn resolver_takes_first_match() {
    let probes = vec![stat("/d1/foo", 0o755), stat("/d2/foo", 0o755)];
    let exe = SystemExecutable::resolve("foo", &probes).expect("foo should resolve");
    assert_eq!(exe.abs_path, "/d1/foo");
    assert_eq!(exe.name, "foo");
    assert_eq!(exe.mode, 0o755);
}

#[test]
fn resolver_skips_file_without_execute_bit() {
    let probes = vec![stat("/d1/foo", 0o644), stat("/d2/foo", 0o755)];
    let exe = SystemExecutable::resolve("foo", &probes).expect("foo should resolve");
    assert_eq!(exe.abs_path, "/d2/foo");
}

#[test]
fn resolver_skips_failed_probes() {
    let probes = vec![None, stat("/d2/foo", 0o111)];
    let exe = SystemExecutable::resolve("foo", &probes).expect("foo should resolve");
    assert_eq!(exe.abs_path, "/d2/foo");
}

#[test]
fn resolver_accepts_any_execute_bit() {
    for mode in [0o100, 0o010, 0o001] {
        let probes = vec![stat("/d/foo", mode)];
        assert!(SystemExecutable::resolve("foo", &probes).is_some());
    }
}

#[test]
fn resolver_finds_nothing_without_executable_match() {
    assert!(SystemExecutable::resolve("foo", &vec![]).is_none());
    let probes = vec![None, stat("/d2/foo", 0o644)];
    assert!(SystemExecutable::resolve("foo", &probes).is_none());
}

#[test]
fn external_output_is_decoded_and_trimmed() {
    let bytes = b"  hello world \n".to_vec();
    assert_eq!(external_output(bytes).unwrap(), "hello world");
}

#[test]
fn external_output_keeps_non_ascii_text() {
    let bytes = "caf\u{e9}\n".as_bytes().to_vec();
    assert_eq!(external_output(bytes).unwrap(), "caf\u{e9}");
}

#[test]
fn external_output_rejects_invalid_utf8() {
    let err = external_output(vec![0xff, 0xfe]).unwrap_err();
    assert_eq!(err, ShellError::OutputDecodeFailure);
    assert_eq!(err.message(), "could not decode command output");
}

#[test]
fn external_output_of_nothing_is_empty() {
    assert_eq!(external_output(Vec::new()).unwrap(), "");
}

#[test]
fn trim_removes_surrounding_whitespace_only() {
    assert_eq!(trim("  a  b\t\n"), "a  b");
    assert_eq!(trim(""), "");
    assert_eq!(trim(" \t "), "");
}

#[test]
fn spawn_failure_message() {
    assert_eq!(
        ShellError::SpawnFailure.message(),
        "failed to spawn process"
    );
}
