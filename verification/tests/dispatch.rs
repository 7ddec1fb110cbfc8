use shell_dispatch::builtins::{all, help_listing};
use shell_dispatch::command_line::{tokenize, CommandLine};
use shell_dispatch::dispatch::{
    after_launch, decide, dispatch, dispatch_listed, entry_line, failure_message, home_target,
    home_variable, run_line, search_path_from, search_target, Action, ChildProcessResult,
    ErrorKind, Failure,
};
use shell_dispatch::resolver::{FileStatus, Platform};
use std::cell::Cell;

fn strings(items: &[&str]) -> Vec<String> {
    items.iter().map(|s| s.to_string()).collect()
}

fn present(yes: bool) -> FileStatus {
    FileStatus { exists: yes, read_only: false }
}

fn path() -> Vec<String> {
    strings(&["/usr/bin", "/bin", "/home/me"])
}

fn files() -> Vec<String> {
    strings(&["/bin/ls", "/usr/bin/env", "/bin/env", "/bin/echo", "/usr/bin/exit", "/home/me/run"])
}

fn outcome(line: &str) -> Result<Action, Failure> {
    let command = tokenize(line).unwrap();
    dispatch_listed(&command, &path(), Platform::Unix, &files())
}

fn failure(kind: ErrorKind, message: &str) -> Result<Action, Failure> {
    Err(Failure { kind, message: message.to_string() })
}

#[test]
fn echo_prints_its_arguments_with_single_blanks() {
    assert_eq!(outcome("echo a b c"), Ok(Action::Print("a b c\n".to_string())));
    assert_eq!(outcome("echo   a \t b"), Ok(Action::Print("a b\n".to_string())));
    assert_eq!(outcome("echo"), Ok(Action::Print("\n".to_string())));
    assert_eq!(outcome("echo $HOME *"), Ok(Action::Print("$HOME *\n".to_string())));
}

#[test]
fn type_knows_the_builtins() {
    assert_eq!(outcome("type echo"), Ok(Action::Print("echo is a shell builtin\n".to_string())));
    assert_eq!(outcome("type exit"), Ok(Action::Print("exit is a shell builtin\n".to_string())));
    assert_eq!(outcome("type PATH"), Ok(Action::Print("PATH is a shell builtin\n".to_string())));
}

#[test]
fn type_reports_where_a_program_is() {
    assert_eq!(outcome("type ls"), Ok(Action::Print("ls is /bin/ls\n".to_string())));
    assert_eq!(outcome("type env"), Ok(Action::Print("env is /usr/bin/env\n".to_string())));
    assert_eq!(outcome("type run"), Ok(Action::Print("run is /home/me/run\n".to_string())));
}

#[test]
fn type_reports_what_it_cannot_find() {
    assert_eq!(
        outcome("type nosuchthing"),
        failure(ErrorKind::ResolutionFailed, "nosuchthing: not found")
    );
}

#[test]
fn type_and_exec_and_move_need_an_argument() {
    assert_eq!(
        outcome("type"),
        failure(ErrorKind::MissingArgument, "command failed 'type': please provide an argument")
    );
    assert_eq!(
        outcome("exec"),
        failure(ErrorKind::MissingArgument, "command failed 'exec': please provide an argument")
    );
    assert_eq!(
        outcome("move"),
        failure(ErrorKind::MissingArgument, "command failed 'move': no target directory provided")
    );
}

#[test]
fn builtins_shadow_programs_of_the_same_name() {
    assert_eq!(outcome("echo hi"), Ok(Action::Print("hi\n".to_string())));
    assert_eq!(outcome("exit 3"), Ok(Action::Exit(3)));
    for b in all() {
        let everything = strings(&[
            &format!("/usr/bin/{}", b.name()),
            &format!("/bin/{}", b.name()),
            &format!("/home/me/{}", b.name()),
        ]);
        let command = CommandLine { name: b.name().to_string(), arguments: Vec::new() };
        let with = dispatch_listed(&command, &path(), Platform::Unix, &everything);
        let without = dispatch_listed(&command, &path(), Platform::Unix, &Vec::new());
        assert_eq!(with, without);
        assert!(!matches!(with, Ok(Action::Launch(_, _))));
    }
}

#[test]
fn help_lists_every_builtin() {
    assert_eq!(outcome("help"), Ok(Action::Print(help_listing())));
}

#[test]
fn help_describes_one_builtin() {
    assert_eq!(
        outcome("help clr"),
        Ok(Action::Print(" - clr   : clear the screen\n".to_string()))
    );
}

#[test]
fn help_for_an_unknown_name_is_no_failure() {
    assert_eq!(
        outcome("help unknownbuiltin"),
        Ok(Action::Print(" - unknownbuiltin : this shell command doesn't exist\n".to_string()))
    );
}

#[test]
fn exit_without_an_argument_ends_with_zero() {
    assert_eq!(outcome("exit"), Ok(Action::Exit(0)));
}

#[test]
fn exit_with_a_status_ends_with_it() {
    assert_eq!(outcome("exit 7"), Ok(Action::Exit(7)));
    assert_eq!(outcome("exit -1"), Ok(Action::Exit(-1)));
    assert_eq!(outcome("exit 7 8"), Ok(Action::Exit(7)));
}

#[test]
fn exit_with_no_number_fails_and_does_not_end() {
    assert_eq!(
        outcome("exit abc"),
        failure(
            ErrorKind::InvalidExitCode,
            "failed to execute command 'exit': the exit code is not a 32-bit integer"
        )
    );
    assert!(matches!(outcome("exit 2147483648"), Err(Failure { kind: ErrorKind::InvalidExitCode, .. })));
}

#[test]
fn exec_launches_what_it_finds_with_the_remaining_arguments() {
    assert_eq!(
        outcome("exec ls -l /tmp"),
        Ok(Action::Launch("/bin/ls".to_string(), strings(&["-l", "/tmp"])))
    );
    assert_eq!(
        outcome("exec env"),
        Ok(Action::Launch("/usr/bin/env".to_string(), Vec::new()))
    );
    assert_eq!(
        outcome("exec echo hi"),
        Ok(Action::Launch("/bin/echo".to_string(), strings(&["hi"])))
    );
}

#[test]
fn exec_of_a_missing_program_launches_nothing() {
    assert_eq!(
        outcome("exec nonexistentprogram"),
        failure(ErrorKind::ResolutionFailed, "nonexistentprogram: command not found")
    );
}

#[test]
fn path_shows_the_search_path_in_order() {
    assert_eq!(outcome("path"), Ok(Action::ShowPath(path())));
    assert_eq!(outcome("PATH"), Ok(Action::ShowPath(path())));
}

#[test]
fn clr_clears_the_screen() {
    assert_eq!(outcome("clr"), Ok(Action::ClearScreen));
}

#[test]
fn move_goes_home_or_to_the_target() {
    assert_eq!(outcome("move ~"), Ok(Action::GoHome));
    assert_eq!(outcome("move src"), Ok(Action::ChangeDirectory("src".to_string())));
    assert_eq!(outcome("move ~/src"), Ok(Action::ChangeDirectory("~/src".to_string())));
    assert_eq!(outcome("move /tmp x"), Ok(Action::ChangeDirectory("/tmp".to_string())));
}

#[test]
fn this_lists_the_working_directory_or_one_below_it() {
    assert_eq!(outcome("this"), Ok(Action::ListDirectory(None)));
    assert_eq!(outcome("this src"), Ok(Action::ListDirectory(Some("src".to_string()))));
}

#[test]
fn other_names_are_programs_on_the_search_path() {
    assert_eq!(
        outcome("ls -a"),
        Ok(Action::Launch("/bin/ls".to_string(), strings(&["-a"])))
    );
    assert_eq!(outcome("env"), Ok(Action::Launch("/usr/bin/env".to_string(), Vec::new())));
}

#[test]
fn unknown_names_are_reported() {
    assert_eq!(
        outcome("frobnicate now"),
        failure(ErrorKind::UnknownCommand, "frobnicate: not a shell command")
    );
}

#[test]
fn the_search_target_is_named_only_where_a_search_is_needed() {
    assert_eq!(search_target(&tokenize("type ls").unwrap()), Some("ls".to_string()));
    assert_eq!(search_target(&tokenize("type echo").unwrap()), None);
    assert_eq!(search_target(&tokenize("type").unwrap()), None);
    assert_eq!(search_target(&tokenize("exec echo").unwrap()), Some("echo".to_string()));
    assert_eq!(search_target(&tokenize("exec").unwrap()), None);
    assert_eq!(search_target(&tokenize("ls -l").unwrap()), Some("ls".to_string()));
    assert_eq!(search_target(&tokenize("echo ls").unwrap()), None);
    assert_eq!(search_target(&tokenize("help ls").unwrap()), None);
}

#[test]
fn decide_takes_the_result_of_the_search() {
    let command = tokenize("exec tool x").unwrap();
    assert_eq!(
        decide(&command, &path(), Some("/opt/tool".to_string())),
        Ok(Action::Launch("/opt/tool".to_string(), strings(&["x"])))
    );
    assert_eq!(
        decide(&command, &path(), None),
        failure(ErrorKind::ResolutionFailed, "tool: command not found")
    );
    let echo = tokenize("echo x").unwrap();
    assert_eq!(
        decide(&echo, &path(), Some("/bin/echo".to_string())),
        Ok(Action::Print("x\n".to_string()))
    );
}

#[test]
fn builtins_do_not_probe_the_file_system() {
    let asked = Cell::new(0u32);
    for line in ["echo a", "type echo", "help", "help ls", "exit 1", "exit x", "path", "clr",
        "move ~", "this", "type", "exec"]
    {
        let command = tokenize(line).unwrap();
        let _ = dispatch(&command, &path(), Platform::Unix, |_p: &str| {
            asked.set(asked.get() + 1);
            present(true)
        });
    }
    assert_eq!(asked.get(), 0);
}

#[test]
fn dispatch_asks_the_probe_along_the_search_path() {
    let asked = Cell::new(0u32);
    let command = tokenize("exec tool").unwrap();
    let r = dispatch(&command, &path(), Platform::Unix, |p: &str| {
        asked.set(asked.get() + 1);
        present(p == "/bin/tool")
    });
    assert_eq!(r, Ok(Action::Launch("/bin/tool".to_string(), Vec::new())));
    assert_eq!(asked.get(), 2);
    let r = dispatch(&command, &path(), Platform::Windows, |p: &str| {
        present(p == "/bin\\tool.exe")
    });
    assert_eq!(r, Ok(Action::Launch("/bin\\tool.exe".to_string(), Vec::new())));
}

#[test]
fn a_blank_line_comes_to_nothing() {
    let asked = Cell::new(0u32);
    for line in ["", " ", "   \t  ", "\n", "\u{a0} \u{3000}"] {
        let r = run_line(line, &path(), Platform::Unix, |_p: &str| {
            asked.set(asked.get() + 1);
            present(true)
        });
        assert_eq!(r, None);
    }
    assert_eq!(asked.get(), 0);
}

#[test]
fn a_line_with_words_comes_to_a_decision() {
    let r = run_line("  echo  hello world ", &path(), Platform::Unix, |_p: &str| present(false));
    assert_eq!(r, Some(Ok(Action::Print("hello world\n".to_string()))));
    let r = run_line("nothing", &path(), Platform::Unix, |_p: &str| present(false));
    assert_eq!(r, Some(failure(ErrorKind::UnknownCommand, "nothing: not a shell command")));
}

#[test]
fn failures_are_reported_in_one_shape() {
    assert_eq!(
        failure_message("exec", "permission denied"),
        "failed to execute command 'exec': permission denied"
    );
    assert_eq!(failure_message("", ""), "failed to execute command '': ");
}

#[test]
fn directory_entries_are_tagged() {
    assert_eq!(entry_line("src", true), "(D)-[src]\n");
    assert_eq!(entry_line("main.rs", false), "(F)-[main.rs]\n");
}

#[test]
fn the_home_variable_goes_by_the_platform() {
    assert_eq!(home_variable(Platform::Unix), "HOME");
    assert_eq!(home_variable(Platform::Windows), "USERPROFILE");
}

#[test]
fn after_a_program_ran_one_empty_line_follows() {
    assert_eq!(
        after_launch("exec", Ok(ChildProcessResult::Exited(0))),
        Ok(Action::Print("\n".to_string()))
    );
    assert_eq!(
        after_launch("exec", Ok(ChildProcessResult::Exited(3))),
        Ok(Action::Print("\n".to_string()))
    );
    assert_eq!(
        after_launch("ls", Ok(ChildProcessResult::Abnormal)),
        Ok(Action::Print("\n".to_string()))
    );
}

#[test]
fn a_program_that_could_not_start_is_a_failure() {
    assert_eq!(
        after_launch("exec", Err("permission denied".to_string())),
        failure(ErrorKind::SpawnFailed, "failed to execute command 'exec': permission denied")
    );
}

#[test]
fn a_failure_carries_its_kind_and_its_line() {
    let f = shell_dispatch::dispatch::failure(
        ErrorKind::EnvironmentUnavailable,
        "move",
        "environment variable not found",
    );
    assert_eq!(f.kind, ErrorKind::EnvironmentUnavailable);
    assert_eq!(f.message, "failed to execute command 'move': environment variable not found");
}

#[test]
fn the_search_path_comes_from_the_environment() {
    let r = search_path_from(
        "ls",
        Ok("/usr/bin:/bin".to_string()),
        Ok("/home/me".to_string()),
        Platform::Unix,
    );
    assert_eq!(r, Ok(strings(&["/usr/bin", "/bin", "/home/me"])));
    let r = search_path_from(
        "ls",
        Ok("C:\\A;C:\\B".to_string()),
        Ok("C:\\Me".to_string()),
        Platform::Windows,
    );
    assert_eq!(r, Ok(strings(&["C:\\A", "C:\\B", "C:\\Me"])));
}

#[test]
fn a_missing_environment_fails_the_command_only() {
    let r = search_path_from(
        "ls",
        Err("environment variable not found".to_string()),
        Ok("/home/me".to_string()),
        Platform::Unix,
    );
    assert_eq!(
        r,
        Err(Failure {
            kind: ErrorKind::EnvironmentUnavailable,
            message: "failed to execute command 'ls': environment variable not found"
                .to_string(),
        })
    );
    let r = search_path_from(
        "ls",
        Ok("/bin".to_string()),
        Err("no such directory".to_string()),
        Platform::Unix,
    );
    assert_eq!(
        r,
        Err(Failure {
            kind: ErrorKind::EnvironmentUnavailable,
            message: "failed to execute command 'ls': no such directory".to_string(),
        })
    );
    let r = search_path_from(
        "ls",
        Err("first".to_string()),
        Err("second".to_string()),
        Platform::Unix,
    );
    assert_eq!(
        r,
        Err(Failure {
            kind: ErrorKind::EnvironmentUnavailable,
            message: "failed to execute command 'ls': first".to_string(),
        })
    );
}

#[test]
fn going_home_needs_the_home_directory() {
    assert_eq!(
        home_target("move", Ok("/home/me".to_string())),
        Ok(Action::ChangeDirectory("/home/me".to_string()))
    );
    assert_eq!(
        home_target("move", Err("environment variable not found".to_string())),
        failure(
            ErrorKind::EnvironmentUnavailable,
            "failed to execute command 'move': environment variable not found"
        )
    );
}
