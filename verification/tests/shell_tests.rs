use tinysh::shell::builtins::{
    cd, cmd_type, echo, export, get_builtins, help, BuiltInCMD, BuiltInFn,
};
use tinysh::shell::cmd_validation::{
    classify, is_executable, is_external_cmd, Classification, PathInfo,
};
use tinysh::shell::{plan_line, run_builtin, split_input, BuiltinEffect, LinePlan, ShellError, TinySh};

fn executable_file() -> PathInfo {
    PathInfo { exists: true, is_file: true, is_dir: false, mode: 0o755 }
}

fn missing_path() -> PathInfo {
    PathInfo { exists: false, is_file: false, is_dir: false, mode: 0 }
}

fn plain_file() -> PathInfo {
    PathInfo { exists: true, is_file: true, is_dir: false, mode: 0o644 }
}

fn directory() -> PathInfo {
    PathInfo { exists: true, is_file: false, is_dir: true, mode: 0o755 }
}

fn args(xs: &[&str]) -> Vec<String> {
    xs.iter().map(|x| x.to_string()).collect()
}

#[test]
fn split_basic() {
    let (head, rest) = split_input("echo a b c");
    assert_eq!(head, "echo");
    assert_eq!(rest, args(&["a", "b", "c"]));
}

#[test]
fn split_empty_line() {
    let (head, rest) = split_input("");
    assert_eq!(head, "");
    assert!(rest.is_empty());
}

#[test]
fn split_double_space_yields_empty_token() {
    let (head, rest) = split_input("a  b");
    assert_eq!(head, "a");
    assert_eq!(rest, args(&["", "b"]));
}

#[test]
fn split_trailing_space() {
    let (head, rest) = split_input("cd ");
    assert_eq!(head, "cd");
    assert_eq!(rest, args(&[""]));
}

#[test]
fn plan_exit_bypasses_resolution() {
    assert_eq!(plan_line("exit"), LinePlan::Exit);
    assert_eq!(plan_line("exit now"), LinePlan::Exit);
}

#[test]
fn plan_builtin_head() {
    match plan_line("echo hi there") {
        LinePlan::Builtin(c, rest) => {
            assert_eq!(c, BuiltInCMD::ECHO);
            assert_eq!(rest, args(&["hi", "there"]));
        }
        other => panic!("expected a builtin plan, got {:?}", other),
    }
}

#[test]
fn plan_unknown_head_goes_to_resolver() {
    match plan_line("ls -l") {
        LinePlan::Resolve(name, rest) => {
            assert_eq!(name, "ls");
            assert_eq!(rest, args(&["-l"]));
        }
        other => panic!("expected a resolver plan, got {:?}", other),
    }
}

#[test]
fn builtin_names_resolve() {
    assert_eq!(BuiltInCMD::is_builtin("cd"), Some(BuiltInCMD::CD));
    assert_eq!(BuiltInCMD::is_builtin("echo"), Some(BuiltInCMD::ECHO));
    assert_eq!(BuiltInCMD::is_builtin("type"), Some(BuiltInCMD::TYPE));
    assert_eq!(BuiltInCMD::is_builtin("help"), Some(BuiltInCMD::HELP));
    assert_eq!(BuiltInCMD::is_builtin("export"), Some(BuiltInCMD::EXPORT));
    assert_eq!(BuiltInCMD::is_builtin("ls"), None);
    assert_eq!(BuiltInCMD::is_builtin(""), None);
}

#[test]
fn builtin_name_round_trip() {
    for (c, _) in get_builtins() {
        assert_eq!(BuiltInCMD::is_builtin(c.name().as_str()), Some(c));
    }
}

#[test]
fn classify_builtin_ignores_filesystem() {
    // same verdict whatever the filesystem or the search path would say
    assert_eq!(classify("echo", &executable_file(), true), Classification::Builtin);
    assert_eq!(classify("echo", &missing_path(), false), Classification::Builtin);
    assert_eq!(classify("cd", &directory(), false), Classification::Builtin);
}

#[test]
fn classify_separated_path() {
    assert_eq!(classify("/bin/ls", &executable_file(), false), Classification::External);
    assert_eq!(classify("/bin/ls", &missing_path(), true), Classification::Unknown);
    assert_eq!(classify("/bin/ls", &plain_file(), true), Classification::Unknown);
    assert_eq!(classify("/bin", &directory(), true), Classification::Unknown);
}

#[test]
fn classify_bare_name_uses_search_path() {
    assert_eq!(classify("ls", &missing_path(), true), Classification::External);
    assert_eq!(classify("nosuchcmd", &missing_path(), false), Classification::Unknown);
}

#[test]
fn executable_needs_a_bit_set() {
    assert!(is_executable(&executable_file()));
    assert!(!is_executable(&plain_file()));
    assert!(!is_executable(&missing_path()));
}

#[test]
fn external_cmd_checks() {
    assert!(is_external_cmd("/usr/bin/env", &executable_file(), false));
    assert!(!is_external_cmd("/usr/bin/env", &plain_file(), true));
    assert!(is_external_cmd("env", &missing_path(), true));
    assert!(!is_external_cmd("env", &executable_file(), false));
}

#[test]
fn export_splits_on_first_equals() {
    let mut sh = TinySh::new();
    let r = export(&mut sh, &args(&["A=B=C"]));
    assert!(r.is_ok());
    assert_eq!(sh.env_vars.len(), 1);
    assert_eq!(sh.env_vars[0].0, "A");
    assert_eq!(sh.env_vars[0].1, "B=C");
}

#[test]
fn export_without_equals_fails_and_keeps_state() {
    let mut sh = TinySh::new();
    export(&mut sh, &args(&["K=1"])).unwrap();
    let r = export(&mut sh, &args(&["NOEQUALS"]));
    assert_eq!(r, Err(ShellError::MalformedAssignmentError));
    assert_eq!(sh.env_vars.len(), 1);
    assert_eq!(sh.env_vars[0].0, "K");
    assert_eq!(sh.env_vars[0].1, "1");
}

#[test]
fn export_overwrites_existing_key() {
    let mut sh = TinySh::new();
    export(&mut sh, &args(&["A=1"])).unwrap();
    export(&mut sh, &args(&["B=2"])).unwrap();
    export(&mut sh, &args(&["A=3"])).unwrap();
    assert_eq!(sh.env_vars.len(), 2);
    assert_eq!(sh.env_vars[0], ("A".to_string(), "3".to_string()));
    assert_eq!(sh.env_vars[1], ("B".to_string(), "2".to_string()));
}

#[test]
fn export_empty_key() {
    let mut sh = TinySh::new();
    export(&mut sh, &args(&["=v"])).unwrap();
    assert_eq!(sh.env_vars[0], ("".to_string(), "v".to_string()));
}

#[test]
fn insert_env_var_direct() {
    let mut sh = TinySh::new();
    sh.insert_env_var("X".to_string(), "1".to_string());
    sh.insert_env_var("X".to_string(), "2".to_string());
    assert_eq!(sh.env_vars, vec![("X".to_string(), "2".to_string())]);
}

#[test]
fn cd_to_directory_succeeds() {
    let r = cd(&args(&["/tmp"]), &directory());
    assert_eq!(r, Ok("/tmp".to_string()));
}

#[test]
fn cd_to_missing_path_fails() {
    let r = cd(&args(&["/no/such/dir"]), &missing_path());
    assert_eq!(r, Err(ShellError::DirectoryChangeError));
}

#[test]
fn cd_to_file_fails() {
    let r = cd(&args(&["/etc/passwd"]), &plain_file());
    assert_eq!(r, Err(ShellError::DirectoryChangeError));
}

#[test]
fn echo_spaces_every_token() {
    assert_eq!(echo(&args(&["a", "b", "c"])), "a b c \n");
    assert_eq!(echo(&args(&[])), "\n");
    assert_eq!(echo(&args(&[""])), " \n");
}

#[test]
fn type_reports_resolution() {
    assert_eq!(
        cmd_type(&args(&["echo"]), &missing_path(), false),
        "echo is a shell builtin\n"
    );
    assert_eq!(
        cmd_type(&args(&["ls"]), &missing_path(), true),
        "ls is an external command\n"
    );
    assert_eq!(
        cmd_type(&args(&["nosuch"]), &missing_path(), false),
        "nosuch is an unknown command\n"
    );
}

#[test]
fn help_lists_every_builtin() {
    assert_eq!(help(&args(&[])), "cd\necho\ntype\nhelp\nexport\n");
}

#[test]
fn registry_is_exhaustive_and_tagged() {
    let reg = get_builtins();
    assert_eq!(reg.len(), 5);
    assert_eq!(reg[0], (BuiltInCMD::CD, BuiltInFn::NoShellState(BuiltInCMD::CD)));
    assert_eq!(reg[1], (BuiltInCMD::ECHO, BuiltInFn::NoShellState(BuiltInCMD::ECHO)));
    assert_eq!(reg[2], (BuiltInCMD::TYPE, BuiltInFn::NoShellState(BuiltInCMD::TYPE)));
    assert_eq!(reg[3], (BuiltInCMD::HELP, BuiltInFn::NoShellState(BuiltInCMD::HELP)));
    assert_eq!(reg[4], (BuiltInCMD::EXPORT, BuiltInFn::MutShellState(BuiltInCMD::EXPORT)));
}

#[test]
fn dispatch_echo() {
    let mut sh = TinySh::new();
    let r = run_builtin(&BuiltInCMD::ECHO, &mut sh, &args(&["x", "y"]), &missing_path(), false);
    assert_eq!(r, Ok(BuiltinEffect::Print("x y \n".to_string())));
    assert!(sh.env_vars.is_empty());
}

#[test]
fn dispatch_export_mutates_state() {
    let mut sh = TinySh::new();
    let r = run_builtin(&BuiltInCMD::EXPORT, &mut sh, &args(&["P=q"]), &missing_path(), false);
    assert_eq!(r, Ok(BuiltinEffect::NoOutput));
    assert_eq!(sh.env_vars, vec![("P".to_string(), "q".to_string())]);
}

#[test]
fn dispatch_export_error() {
    let mut sh = TinySh::new();
    let r = run_builtin(&BuiltInCMD::EXPORT, &mut sh, &args(&["bad"]), &missing_path(), false);
    assert_eq!(r, Err(ShellError::MalformedAssignmentError));
    assert!(sh.env_vars.is_empty());
}

#[test]
fn dispatch_cd() {
    let mut sh = TinySh::new();
    let ok = run_builtin(&BuiltInCMD::CD, &mut sh, &args(&["/tmp"]), &directory(), false);
    assert_eq!(ok, Ok(BuiltinEffect::ChangeDir("/tmp".to_string())));
    let bad = run_builtin(&BuiltInCMD::CD, &mut sh, &args(&["/nope"]), &missing_path(), false);
    assert_eq!(bad, Err(ShellError::DirectoryChangeError));
}

#[test]
fn dispatch_type_and_help() {
    let mut sh = TinySh::new();
    let t = run_builtin(&BuiltInCMD::TYPE, &mut sh, &args(&["cd"]), &missing_path(), false);
    assert_eq!(t, Ok(BuiltinEffect::Print("cd is a shell builtin\n".to_string())));
    let h = run_builtin(&BuiltInCMD::HELP, &mut sh, &args(&[]), &missing_path(), false);
    assert_eq!(h, Ok(BuiltinEffect::Print("cd\necho\ntype\nhelp\nexport\n".to_string())));
}

#[test]
fn error_messages() {
    assert_eq!(ShellError::DirectoryChangeError.message(), "Failed to change directory");
    assert_eq!(
        ShellError::MalformedAssignmentError.message(),
        "Incorrect Environment Variable formatting. Expected \"key=val\""
    );
    assert_eq!(ShellError::SpawnError.message(), "Failed to spawn external command");
    assert_eq!(ShellError::PtyAllocationError.message(), "Failed to allocate pseudo-terminal");
    assert_eq!(ShellError::TerminalModeError.message(), "Failed to switch terminal mode");
    assert_eq!(
        ShellError::OutputStreamError.message(),
        "Failed to read the external command's output"
    );
    assert_eq!(ShellError::ChildWaitError.message(), "Failed to wait for the external command");
}
