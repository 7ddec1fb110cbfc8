//! What one command line leads to.
//!
//! The decision is a function of the line, the search path and the outcome
//! of at most one search along that path. What it returns is a value: an
//! [`Action`] for the caller to carry out, or a [`Failure`] to report. The
//! shell goes on to the next prompt after either, but for [`Action::Exit`].

use vstd::prelude::*;
use vstd::string::*;
use crate::builtins::{
    all_builtins,
    builtin_named,
    describe,
    description_of,
    help_line,
    help_lines,
    help_listing,
    lemma_path_has_two_names,
    lookup,
    render_help_line,
    Builtin,
};
use crate::command_line::{is_blank, tokenize, words, CommandLine};
use crate::exit_code::{exit_code, parse_exit_code};
use crate::resolver::{
    found_by,
    list_separator,
    resolution,
    resolve,
    resolve_listed,
    search_path,
    split_list,
    FileStatus,
    Platform,
};
use crate::text::{copy_from, fields, join, joined, optional_text, same_text, texts};

verus! {

/// Why a command line could not be carried out.
#[derive(Clone, Copy, Debug, PartialEq, Eq, Structural)]
pub enum ErrorKind {
    /// The name is no builtin and no program on the search path.
    UnknownCommand,
    /// A builtin was given no argument and needs one.
    MissingArgument,
    /// The search for the program that a builtin was asked about found nothing.
    ResolutionFailed,
    /// A program could not be started, or its status could not be read.
    SpawnFailed,
    /// The argument of `exit` is no status.
    InvalidExitCode,
    /// The environment lacks the search path or the home directory.
    EnvironmentUnavailable,
}

/// A command line that could not be carried out.
#[derive(Clone, Debug, PartialEq, Eq)]
pub struct Failure {
    /// The reason.
    pub kind: ErrorKind,
    /// The line to write to standard error, without the line break.
    pub message: String,
}

/// What the caller is to do for a command line.
#[derive(Clone, Debug, PartialEq, Eq)]
pub enum Action {
    /// Write the text to standard output as it is.
    Print(String),
    /// Write the directories of the search path, in this order.
    ShowPath(Vec<String>),
    /// Make the user's home directory the working directory.
    GoHome,
    /// Make the given directory the working directory; a relative one is
    /// meant from the working directory.
    ChangeDirectory(String),
    /// List the entries of the working directory, or of the given directory
    /// below it.
    ListDirectory(Option<String>),
    /// Clear the screen.
    ClearScreen,
    /// End the shell with the given status.
    Exit(i32),
    /// Start the program at the given path with the given arguments and wait
    /// for it.
    Launch(String, Vec<String>),
}

/// What a command line comes to, as plain text and numbers: one case for
/// each [`Action`], and one for a [`Failure`].
pub enum Outcome {
    Print(Seq<char>),
    ShowPath(Seq<Seq<char>>),
    GoHome,
    ChangeDirectory(Seq<char>),
    ListDirectory(Option<Seq<char>>),
    ClearScreen,
    Exit(i32),
    Launch(Seq<char>, Seq<Seq<char>>),
    Fail(ErrorKind, Seq<char>),
}

/// The outcome that a returned value stands for.
pub open spec fn outcome_of(r: Result<Action, Failure>) -> Outcome {
    match r {
        Ok(Action::Print(t)) => Outcome::Print(t@),
        Ok(Action::ShowPath(dirs)) => Outcome::ShowPath(texts(dirs@)),
        Ok(Action::GoHome) => Outcome::GoHome,
        Ok(Action::ChangeDirectory(d)) => Outcome::ChangeDirectory(d@),
        Ok(Action::ListDirectory(d)) => Outcome::ListDirectory(optional_text(d)),
        Ok(Action::ClearScreen) => Outcome::ClearScreen,
        Ok(Action::Exit(code)) => Outcome::Exit(code),
        Ok(Action::Launch(program, arguments)) => Outcome::Launch(program@, texts(arguments@)),
        Err(f) => Outcome::Fail(f.kind, f.message@),
    }
}

/// The line that reports that the command `name` failed for `reason`.
pub open spec fn failure_text(name: Seq<char>, reason: Seq<char>) -> Seq<char> {
    "failed to execute command '"@ + name + "': "@ + reason
}

/// The name that is searched for along the search path before the decision
/// can be made, if any: the argument of `type` unless it names a builtin,
/// the program of `exec`, and a command name that is no builtin.
pub open spec fn searched_name(name: Seq<char>, args: Seq<Seq<char>>) -> Option<Seq<char>> {
    match builtin_named(name) {
        Some(Builtin::Type) => if args.len() > 0 && builtin_named(args[0]) is None {
            Some(args[0])
        } else {
            None
        },
        Some(Builtin::Exec) => if args.len() > 0 {
            Some(args[0])
        } else {
            None
        },
        Some(_) => None,
        None => Some(name),
    }
}

/// What the command `name` with the arguments `args` comes to, where `path`
/// is the search path and `found` is what the search for
/// `searched_name(name, args)` along it found.
pub open spec fn decision(
    name: Seq<char>,
    args: Seq<Seq<char>>,
    path: Seq<Seq<char>>,
    found: Option<Seq<char>>,
) -> Outcome {
    match builtin_named(name) {
        Some(Builtin::Echo) => Outcome::Print(joined(args, " "@) + "\n"@),
        Some(Builtin::This) => Outcome::ListDirectory(
            if args.len() > 0 {
                Some(args[0])
            } else {
                None
            },
        ),
        Some(Builtin::Move) => if args.len() == 0 {
            Outcome::Fail(
                ErrorKind::MissingArgument,
                "command failed 'move': no target directory provided"@,
            )
        } else if args[0] == "~"@ {
            Outcome::GoHome
        } else {
            Outcome::ChangeDirectory(args[0])
        },
        Some(Builtin::Type) => if args.len() == 0 {
            Outcome::Fail(
                ErrorKind::MissingArgument,
                "command failed 'type': please provide an argument"@,
            )
        } else if builtin_named(args[0]) is Some {
            Outcome::Print(args[0] + " is a shell builtin\n"@)
        } else {
            match found {
                Some(file) => Outcome::Print(args[0] + " is "@ + file + "\n"@),
                None => Outcome::Fail(ErrorKind::ResolutionFailed, args[0] + ": not found"@),
            }
        },
        Some(Builtin::Exec) => if args.len() == 0 {
            Outcome::Fail(
                ErrorKind::MissingArgument,
                "command failed 'exec': please provide an argument"@,
            )
        } else {
            match found {
                Some(file) => Outcome::Launch(file, args.skip(1)),
                None => Outcome::Fail(
                    ErrorKind::ResolutionFailed,
                    args[0] + ": command not found"@,
                ),
            }
        },
        Some(Builtin::Exit) => if args.len() == 0 {
            Outcome::Exit(0)
        } else {
            match exit_code(args[0]) {
                Some(code) => Outcome::Exit(code),
                None => Outcome::Fail(
                    ErrorKind::InvalidExitCode,
                    failure_text(name, "the exit code is not a 32-bit integer"@),
                ),
            }
        },
        Some(Builtin::Path) => Outcome::ShowPath(path),
        Some(Builtin::Clr) => Outcome::ClearScreen,
        Some(Builtin::Help) => if args.len() == 0 {
            Outcome::Print(help_lines(all_builtins()))
        } else {
            Outcome::Print(help_line(args[0], description_of(args[0])))
        },
        None => match found {
            Some(file) => Outcome::Launch(file, args),
            None => Outcome::Fail(ErrorKind::UnknownCommand, name + ": not a shell command"@),
        },
    }
}

/// Writes the line that reports that the command `name` failed for `reason`.
pub fn failure_message(name: &str, reason: &str) -> (r: String)
    ensures
        r@ == failure_text(name@, reason@),
{
    let mut r = String::from_str("failed to execute command '");
    r.append(name);
    r.append("': ");
    r.append(reason);
    r
}

fn fail(kind: ErrorKind, message: String) -> (r: Result<Action, Failure>)
    ensures
        outcome_of(r) == Outcome::Fail(kind, message@),
{
    Err(Failure { kind, message })
}

fn with_ending(start: &str, ending: &str) -> (r: String)
    ensures
        r@ == start@ + ending@,
{
    let mut r = String::from_str(start);
    r.append(ending);
    r
}

/// The name that has to be searched for before `line` can be decided.
pub fn search_target(line: &CommandLine) -> (r: Option<String>)
    ensures
        optional_text(r) == searched_name(line.name@, line.argument_texts()),
{
    match lookup(line.name.as_str()) {
        Some(Builtin::Type) => {
            if line.arguments.len() > 0 && lookup(line.arguments[0].as_str()).is_none() {
                Some(line.arguments[0].clone())
            } else {
                None
            }
        },
        Some(Builtin::Exec) => {
            if line.arguments.len() > 0 {
                Some(line.arguments[0].clone())
            } else {
                None
            }
        },
        Some(_) => None,
        None => Some(line.name.clone()),
    }
}

/// Decides what `line` comes to, given the search path and what the search
/// for the line's target along it found.
pub fn decide(line: &CommandLine, search_path: &Vec<String>, found: Option<String>) -> (r: Result<
    Action,
    Failure,
>)
    ensures
        outcome_of(r) == decision(
            line.name@,
            line.argument_texts(),
            texts(search_path@),
            optional_text(found),
        ),
{
    let args = &line.arguments;
    let ghost a = line.argument_texts();
    assert(forall|k: int| 0 <= k < args.len() ==> a[k] == args[k]@);
    match lookup(line.name.as_str()) {
        Some(Builtin::Echo) => {
            let mut text = join(args, " ");
            text.append("\n");
            Ok(Action::Print(text))
        },
        Some(Builtin::This) => {
            if args.len() > 0 {
                Ok(Action::ListDirectory(Some(args[0].clone())))
            } else {
                Ok(Action::ListDirectory(None))
            }
        },
        Some(Builtin::Move) => {
            if args.len() == 0 {
                fail(
                    ErrorKind::MissingArgument,
                    String::from_str("command failed 'move': no target directory provided"),
                )
            } else if same_text(args[0].as_str(), "~") {
                Ok(Action::GoHome)
            } else {
                Ok(Action::ChangeDirectory(args[0].clone()))
            }
        },
        Some(Builtin::Type) => {
            if args.len() == 0 {
                fail(
                    ErrorKind::MissingArgument,
                    String::from_str("command failed 'type': please provide an argument"),
                )
            } else if lookup(args[0].as_str()).is_some() {
                Ok(Action::Print(with_ending(args[0].as_str(), " is a shell builtin\n")))
            } else {
                match found {
                    Some(file) => {
                        let mut text = with_ending(args[0].as_str(), " is ");
                        text.append(file.as_str());
                        text.append("\n");
                        Ok(Action::Print(text))
                    },
                    None => fail(
                        ErrorKind::ResolutionFailed,
                        with_ending(args[0].as_str(), ": not found"),
                    ),
                }
            }
        },
        Some(Builtin::Exec) => {
            if args.len() == 0 {
                fail(
                    ErrorKind::MissingArgument,
                    String::from_str("command failed 'exec': please provide an argument"),
                )
            } else {
                match found {
                    Some(file) => Ok(Action::Launch(file, copy_from(args, 1))),
                    None => fail(
                        ErrorKind::ResolutionFailed,
                        with_ending(args[0].as_str(), ": command not found"),
                    ),
                }
            }
        },
        Some(Builtin::Exit) => {
            if args.len() == 0 {
                Ok(Action::Exit(0))
            } else {
                match parse_exit_code(args[0].as_str()) {
                    Some(code) => Ok(Action::Exit(code)),
                    None => fail(
                        ErrorKind::InvalidExitCode,
                        failure_message(
                            line.name.as_str(),
                            "the exit code is not a 32-bit integer",
                        ),
                    ),
                }
            }
        },
        Some(Builtin::Path) => {
            let dirs = copy_from(search_path, 0);
            assert(texts(search_path@).skip(0) =~= texts(search_path@));
            Ok(Action::ShowPath(dirs))
        },
        Some(Builtin::Clr) => Ok(Action::ClearScreen),
        Some(Builtin::Help) => {
            if args.len() == 0 {
                Ok(Action::Print(help_listing()))
            } else {
                Ok(Action::Print(render_help_line(args[0].as_str(), describe(args[0].as_str()))))
            }
        },
        None => {
            match found {
                Some(file) => {
                    let arguments = copy_from(args, 0);
                    assert(a.skip(0) =~= a);
                    Ok(Action::Launch(file, arguments))
                },
                None => fail(
                    ErrorKind::UnknownCommand,
                    with_ending(line.name.as_str(), ": not a shell command"),
                ),
            }
        },
    }
}

/// That `outcome` is what the command comes to when `probe` answers for the
/// files along the search path: the decision for some result of the search
/// that the probe's answers allow, or, where nothing is searched for, the
/// decision itself.
pub open spec fn dispatched<F: Fn(&str) -> FileStatus>(
    probe: F,
    name: Seq<char>,
    args: Seq<Seq<char>>,
    path: Seq<Seq<char>>,
    platform: Platform,
    outcome: Outcome,
) -> bool {
    match searched_name(name, args) {
        Some(target) => exists|found: Option<Seq<char>>|
            #![trigger decision(name, args, path, found)]
            found_by(probe, target, path, platform, found) && outcome == decision(
                name,
                args,
                path,
                found,
            ),
        None => outcome == decision(name, args, path, None),
    }
}

/// What the command comes to when exactly the files in `launchable` can be
/// launched.
pub open spec fn listed_decision(
    name: Seq<char>,
    args: Seq<Seq<char>>,
    path: Seq<Seq<char>>,
    platform: Platform,
    launchable: Set<Seq<char>>,
) -> Outcome {
    decision(
        name,
        args,
        path,
        match searched_name(name, args) {
            Some(target) => resolution(target, path, platform, launchable),
            None => None,
        },
    )
}

/// Carries a command line as far as a decision: looks the name up among the
/// builtins first, searches the path only where the decision depends on it,
/// and asks `probe` which candidate can be launched.
pub fn dispatch<F: Fn(&str) -> FileStatus>(
    line: &CommandLine,
    search_path: &Vec<String>,
    platform: Platform,
    probe: F,
) -> (r: Result<Action, Failure>)
    requires
        forall|s: &str| call_requires(probe, (s,)),
    ensures
        dispatched(
            probe,
            line.name@,
            line.argument_texts(),
            texts(search_path@),
            platform,
            outcome_of(r),
        ),
{
    match search_target(line) {
        Some(target) => {
            let found = resolve(target.as_str(), search_path, platform, probe);
            decide(line, search_path, found)
        },
        None => decide(line, search_path, None),
    }
}

/// Carries a command line as far as a decision, where exactly the files
/// listed in `launchable` can be launched.
pub fn dispatch_listed(
    line: &CommandLine,
    search_path: &Vec<String>,
    platform: Platform,
    launchable: &Vec<String>,
) -> (r: Result<Action, Failure>)
    ensures
        outcome_of(r) == listed_decision(
            line.name@,
            line.argument_texts(),
            texts(search_path@),
            platform,
            texts(launchable@).to_set(),
        ),
{
    match search_target(line) {
        Some(target) => {
            let found = resolve_listed(target.as_str(), search_path, platform, launchable);
            decide(line, search_path, found)
        },
        None => decide(line, search_path, None),
    }
}

/// Reads one line of input and carries it as far as a decision. A blank
/// line comes to nothing: no action and no failure.
pub fn run_line<F: Fn(&str) -> FileStatus>(
    line: &str,
    search_path: &Vec<String>,
    platform: Platform,
    probe: F,
) -> (r: Option<Result<Action, Failure>>)
    requires
        forall|s: &str| call_requires(probe, (s,)),
    ensures
        r is None <==> is_blank(line@),
        r is Some ==> dispatched(
            probe,
            words(line@)[0],
            words(line@).skip(1),
            texts(search_path@),
            platform,
            outcome_of(r.unwrap()),
        ),
{
    match tokenize(line) {
        Some(command) => {
            proof {
                let all = seq![command.name@] + command.argument_texts();
                assert(all[0] == command.name@);
                assert(all.skip(1) =~= command.argument_texts());
            }
            Some(dispatch(&command, search_path, platform, probe))
        },
        None => None,
    }
}

/// How a launched program ended.
#[derive(Clone, Copy, Debug, PartialEq, Eq, Structural)]
pub enum ChildProcessResult {
    /// The program ended by itself, with this status.
    Exited(i32),
    /// The program was ended from outside and left no status.
    Abnormal,
}

/// A failure of the given kind, with the line that reports that the command
/// `name` failed for `reason`.
pub fn failure(kind: ErrorKind, name: &str, reason: &str) -> (r: Failure)
    ensures
        r.kind == kind,
        r.message@ == failure_text(name@, reason@),
{
    Failure { kind, message: failure_message(name, reason) }
}

/// What follows a launch for the command `name`: one empty line after a
/// program that ran, however it ended, and a failure to report where the
/// program could not be started or waited for, with the reason given.
pub fn after_launch(name: &str, result: Result<ChildProcessResult, String>) -> (r: Result<
    Action,
    Failure,
>)
    ensures
        outcome_of(r) == match result {
            Ok(_) => Outcome::Print("\n"@),
            Err(reason) => Outcome::Fail(ErrorKind::SpawnFailed, failure_text(name@, reason@)),
        },
{
    match result {
        Ok(_) => Ok(Action::Print(String::from_str("\n"))),
        Err(reason) => Err(failure(ErrorKind::SpawnFailed, name, reason.as_str())),
    }
}

/// The search path for the command `name`, from what the environment gave:
/// the directories of its list, in their order, and the working directory
/// last. Where the list or the working directory could not be had, the
/// command fails for the reason that came in its place, the list's first.
pub fn search_path_from(
    name: &str,
    list: Result<String, String>,
    working_dir: Result<String, String>,
    platform: Platform,
) -> (r: Result<Vec<String>, Failure>)
    ensures
        match (list, working_dir) {
            (Ok(l), Ok(w)) => r is Ok && texts(r.unwrap()@) == fields(
                l@,
                list_separator(platform),
            ).push(w@),
            (Err(reason), _) => r is Err && r.unwrap_err().kind == ErrorKind::EnvironmentUnavailable
                && r.unwrap_err().message@ == failure_text(name@, reason@),
            (Ok(_), Err(reason)) => r is Err && r.unwrap_err().kind
                == ErrorKind::EnvironmentUnavailable && r.unwrap_err().message@ == failure_text(
                name@,
                reason@,
            ),
        },
{
    match list {
        Ok(l) => match working_dir {
            Ok(w) => Ok(search_path(split_list(l.as_str(), platform), w)),
            Err(reason) => Err(failure(ErrorKind::EnvironmentUnavailable, name, reason.as_str())),
        },
        Err(reason) => Err(failure(ErrorKind::EnvironmentUnavailable, name, reason.as_str())),
    }
}

/// What going home comes to for the command `name`, from what the
/// environment gave as the home directory: a change to that directory, or a
/// failure for the reason that came in its place.
pub fn home_target(name: &str, home: Result<String, String>) -> (r: Result<Action, Failure>)
    ensures
        outcome_of(r) == match home {
            Ok(dir) => Outcome::ChangeDirectory(dir@),
            Err(reason) => Outcome::Fail(
                ErrorKind::EnvironmentUnavailable,
                failure_text(name@, reason@),
            ),
        },
{
    match home {
        Ok(dir) => Ok(Action::ChangeDirectory(dir)),
        Err(reason) => Err(failure(ErrorKind::EnvironmentUnavailable, name, reason.as_str())),
    }
}

/// The line that `this` prints for one entry of a directory.
pub open spec fn entry_text(name: Seq<char>, is_directory: bool) -> Seq<char> {
    if is_directory {
        "(D)-["@ + name + "]\n"@
    } else {
        "(F)-["@ + name + "]\n"@
    }
}

/// Writes the line that `this` prints for one entry of a directory.
pub fn entry_line(name: &str, is_directory: bool) -> (r: String)
    ensures
        r@ == entry_text(name@, is_directory),
{
    let mut r = if is_directory {
        String::from_str("(D)-[")
    } else {
        String::from_str("(F)-[")
    };
    r.append(name);
    r.append("]\n");
    r
}

/// The environment variable that names the user's home directory.
pub fn home_variable(platform: Platform) -> (r: &'static str)
    ensures
        r@ == match platform {
            Platform::Unix => "HOME"@,
            Platform::Windows => "USERPROFILE"@,
        },
{
    match platform {
        Platform::Unix => "HOME",
        Platform::Windows => "USERPROFILE",
    }
}

/// Builtins come first: under a builtin's name nothing is searched for but
/// what the builtin's argument names, a program is launched by `exec` alone,
/// and where nothing is searched for the outcome is the same whatever the
/// search path holds.
pub proof fn lemma_builtin_takes_precedence(
    name: Seq<char>,
    args: Seq<Seq<char>>,
    path: Seq<Seq<char>>,
    found: Option<Seq<char>>,
)
    requires
        builtin_named(name) is Some,
    ensures
        searched_name(name, args) is Some ==> args.len() > 0 && searched_name(name, args) == Some(
            args[0],
        ),
        decision(name, args, path, found) is Launch ==> builtin_named(name) == Some(Builtin::Exec)
            && found is Some && decision(name, args, path, found) == Outcome::Launch(
            found.unwrap(),
            args.skip(1),
        ),
        searched_name(name, args) is None ==> decision(name, args, path, found) == decision(
            name,
            args,
            path,
            None,
        ),
{
}

/// The shell ends on `exit` alone, and only with a status: with 0 where
/// `exit` has no argument, else with the status that its first argument
/// writes. An argument that writes none is a failure, and the shell goes on.
pub proof fn lemma_exit_needs_a_status(
    name: Seq<char>,
    args: Seq<Seq<char>>,
    path: Seq<Seq<char>>,
    found: Option<Seq<char>>,
    code: i32,
)
    ensures
        decision(name, args, path, found) == Outcome::Exit(code) <==> builtin_named(name) == Some(
            Builtin::Exit,
        ) && if args.len() == 0 {
            code == 0
        } else {
            exit_code(args[0]) == Some(code)
        },
        builtin_named(name) == Some(Builtin::Exit) && args.len() > 0 && exit_code(args[0])
            is None ==> decision(name, args, path, found) is Fail && decision(
            name,
            args,
            path,
            found,
        )->Fail_0 == ErrorKind::InvalidExitCode,
{
}

/// Where the search found nothing, no program is launched; and `help`
/// fails for no name.
pub proof fn lemma_nothing_found_nothing_launched(
    name: Seq<char>,
    args: Seq<Seq<char>>,
    path: Seq<Seq<char>>,
)
    ensures
        !(decision(name, args, path, None) is Launch),
        builtin_named(name) == Some(Builtin::Help) ==> decision(name, args, path, None) is Print,
{
}

/// A name that is no builtin is launched from the first directory of the
/// search path that holds it, and is an unknown command where none does.
pub proof fn lemma_program_from_first_directory(
    name: Seq<char>,
    args: Seq<Seq<char>>,
    path: Seq<Seq<char>>,
    platform: Platform,
    launchable: Set<Seq<char>>,
)
    requires
        builtin_named(name) is None,
    ensures
        listed_decision(name, args, path, platform, launchable) == match resolution(
            name,
            path,
            platform,
            launchable,
        ) {
            Some(file) => Outcome::Launch(file, args),
            None => Outcome::Fail(ErrorKind::UnknownCommand, name + ": not a shell command"@),
        },
{
}

/// `path` shows the directories of the environment's list in their order and
/// the working directory after them, under either of its names and whatever
/// its arguments are.
pub proof fn lemma_path_shows_list_then_working_dir(
    name: Seq<char>,
    args: Seq<Seq<char>>,
    list: Seq<char>,
    working_dir: Seq<char>,
    platform: Platform,
    found: Option<Seq<char>>,
)
    requires
        name == "path"@ || name == "PATH"@,
    ensures
        ({
            let dirs = fields(list, list_separator(platform));
            let shown = decision(name, args, dirs.push(working_dir), found);
            &&& shown is ShowPath
            &&& shown->ShowPath_0.len() == dirs.len() + 1
            &&& shown->ShowPath_0.take(dirs.len() as int) == dirs
            &&& shown->ShowPath_0.last() == working_dir
        }),
{
    lemma_path_has_two_names();
    let dirs = fields(list, list_separator(platform));
    assert(dirs.push(working_dir).take(dirs.len() as int) =~= dirs);
}

} // verus!
