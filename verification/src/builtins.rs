//! The commands that the shell carries out itself.

use vstd::prelude::*;
use vstd::string::*;
use crate::text::{pad, padded, same_text};

verus! {

/// A builtin command.
#[derive(Clone, Copy, Debug, PartialEq, Eq, Structural)]
pub enum Builtin {
    /// Prints its arguments.
    Echo,
    /// Lists a directory.
    This,
    /// Changes the working directory.
    Move,
    /// Says what a name stands for.
    Type,
    /// Runs a program.
    Exec,
    /// Leaves the shell.
    Exit,
    /// Prints the search path.
    Path,
    /// Clears the screen.
    Clr,
    /// Describes the builtins.
    Help,
}

impl Builtin {
    /// The name under which the builtin is listed.
    pub open spec fn name_text(self) -> Seq<char> {
        match self {
            Builtin::Echo => "echo"@,
            Builtin::This => "this"@,
            Builtin::Move => "move"@,
            Builtin::Type => "type"@,
            Builtin::Exec => "exec"@,
            Builtin::Exit => "exit"@,
            Builtin::Path => "path"@,
            Builtin::Clr => "clr"@,
            Builtin::Help => "help"@,
        }
    }

    /// The builtin's help text.
    pub open spec fn description_text(self) -> Seq<char> {
        match self {
            Builtin::Echo => "[argument(s): message] print message to stdout"@,
            Builtin::This => "print the current location in the file tree"@,
            Builtin::Move => "[argument(s): target] change location in file tree"@,
            Builtin::Type => "[argument(s): file] print the location of an executable"@,
            Builtin::Exec => "[argument(s): program, parameters (optional)] run an executable"@,
            Builtin::Exit => "[argument(s): exit code (optional)] exit the shell"@,
            Builtin::Path => "print every directory in the PATH environment variable"@,
            Builtin::Clr => "clear the screen"@,
            Builtin::Help => "[argument(s): shell command (optional)] show this screen or information about a command"@,
        }
    }

    /// The name under which the builtin is listed.
    pub fn name(self) -> (r: &'static str)
        ensures
            r@ == self.name_text(),
    {
        match self {
            Builtin::Echo => "echo",
            Builtin::This => "this",
            Builtin::Move => "move",
            Builtin::Type => "type",
            Builtin::Exec => "exec",
            Builtin::Exit => "exit",
            Builtin::Path => "path",
            Builtin::Clr => "clr",
            Builtin::Help => "help",
        }
    }

    /// The builtin's help text.
    pub fn description(self) -> (r: &'static str)
        ensures
            r@ == self.description_text(),
    {
        match self {
            Builtin::Echo => "[argument(s): message] print message to stdout",
            Builtin::This => "print the current location in the file tree",
            Builtin::Move => "[argument(s): target] change location in file tree",
            Builtin::Type => "[argument(s): file] print the location of an executable",
            Builtin::Exec => "[argument(s): program, parameters (optional)] run an executable",
            Builtin::Exit => "[argument(s): exit code (optional)] exit the shell",
            Builtin::Path => "print every directory in the PATH environment variable",
            Builtin::Clr => "clear the screen",
            Builtin::Help => "[argument(s): shell command (optional)] show this screen or information about a command",
        }
    }
}

/// The builtin that `name` stands for. The search path is printed under
/// `path` and under `PATH` alike.
pub open spec fn builtin_named(name: Seq<char>) -> Option<Builtin> {
    if name == "echo"@ {
        Some(Builtin::Echo)
    } else if name == "this"@ {
        Some(Builtin::This)
    } else if name == "move"@ {
        Some(Builtin::Move)
    } else if name == "type"@ {
        Some(Builtin::Type)
    } else if name == "exec"@ {
        Some(Builtin::Exec)
    } else if name == "exit"@ {
        Some(Builtin::Exit)
    } else if name == "path"@ || name == "PATH"@ {
        Some(Builtin::Path)
    } else if name == "clr"@ {
        Some(Builtin::Clr)
    } else if name == "help"@ {
        Some(Builtin::Help)
    } else {
        None
    }
}

/// Every builtin, in the order in which `help` lists them.
pub open spec fn all_builtins() -> Seq<Builtin> {
    seq![
        Builtin::Echo,
        Builtin::This,
        Builtin::Move,
        Builtin::Type,
        Builtin::Exec,
        Builtin::Exit,
        Builtin::Path,
        Builtin::Clr,
        Builtin::Help,
    ]
}

/// What `help` says about `name`: the builtin's help text, or that there is
/// no such command.
pub open spec fn description_of(name: Seq<char>) -> Seq<char> {
    match builtin_named(name) {
        Some(b) => b.description_text(),
        None => "this shell command doesn't exist"@,
    }
}

/// One line of `help`: the name in a column of five characters, then the
/// text.
pub open spec fn help_line(name: Seq<char>, text: Seq<char>) -> Seq<char> {
    " - "@ + padded(name, 5) + " : "@ + text + "\n"@
}

/// The lines of `help` for the given builtins, in their order.
pub open spec fn help_lines(list: Seq<Builtin>) -> Seq<char>
    decreases list.len(),
{
    if list.len() == 0 {
        Seq::empty()
    } else {
        help_lines(list.drop_last()) + help_line(
            list.last().name_text(),
            list.last().description_text(),
        )
    }
}

/// Finds the builtin that `name` stands for.
pub fn lookup(name: &str) -> (r: Option<Builtin>)
    ensures
        r == builtin_named(name@),
{
    if same_text(name, "echo") {
        Some(Builtin::Echo)
    } else if same_text(name, "this") {
        Some(Builtin::This)
    } else if same_text(name, "move") {
        Some(Builtin::Move)
    } else if same_text(name, "type") {
        Some(Builtin::Type)
    } else if same_text(name, "exec") {
        Some(Builtin::Exec)
    } else if same_text(name, "exit") {
        Some(Builtin::Exit)
    } else if same_text(name, "path") || same_text(name, "PATH") {
        Some(Builtin::Path)
    } else if same_text(name, "clr") {
        Some(Builtin::Clr)
    } else if same_text(name, "help") {
        Some(Builtin::Help)
    } else {
        None
    }
}

/// Every builtin, in the order in which `help` lists them.
pub fn all() -> (r: Vec<Builtin>)
    ensures
        r@ == all_builtins(),
{
    let mut r: Vec<Builtin> = Vec::new();
    r.push(Builtin::Echo);
    r.push(Builtin::This);
    r.push(Builtin::Move);
    r.push(Builtin::Type);
    r.push(Builtin::Exec);
    r.push(Builtin::Exit);
    r.push(Builtin::Path);
    r.push(Builtin::Clr);
    r.push(Builtin::Help);
    assert(r@ =~= all_builtins());
    r
}

/// The help text of the builtin that `name` stands for, or the message that
/// there is no such command.
pub fn describe(name: &str) -> (r: &'static str)
    ensures
        r@ == description_of(name@),
{
    match lookup(name) {
        Some(b) => b.description(),
        None => "this shell command doesn't exist",
    }
}

/// Writes one line of `help`.
pub fn render_help_line(name: &str, text: &str) -> (r: String)
    ensures
        r@ == help_line(name@, text@),
{
    let mut r = String::from_str(" - ");
    let column = pad(name, 5);
    r.append(column.as_str());
    r.append(" : ");
    r.append(text);
    r.append("\n");
    r
}

/// Writes the lines of `help` for every builtin.
pub fn help_listing() -> (r: String)
    ensures
        r@ == help_lines(all_builtins()),
{
    let list = all();
    let mut r = String::new();
    let mut i: usize = 0;
    while i < list.len()
        invariant
            i <= list.len(),
            r@ == help_lines(list@.take(i as int)),
        decreases list.len() - i,
    {
        let line = render_help_line(list[i].name(), list[i].description());
        r.append(line.as_str());
        proof {
            assert(list@.take(i + 1).drop_last() =~= list@.take(i as int));
        }
        i += 1;
    }
    assert(list@.take(list.len() as int) =~= list@);
    r
}

/// Every builtin is found under its own name, so no two share one.
pub proof fn lemma_found_by_name(b: Builtin)
    ensures
        builtin_named(b.name_text()) == Some(b),
{
    reveal_strlit("echo");
    reveal_strlit("this");
    reveal_strlit("move");
    reveal_strlit("type");
    reveal_strlit("exec");
    reveal_strlit("exit");
    reveal_strlit("path");
    reveal_strlit("PATH");
    reveal_strlit("clr");
    reveal_strlit("help");
    match b {
        Builtin::Echo => {},
        Builtin::This => {
            assert("this"@[0] != "echo"@[0]);
        },
        Builtin::Move => {
            assert("move"@[0] == 'm');
        },
        Builtin::Type => {
            assert("type"@[0] == 't' && "type"@[1] == 'y');
        },
        Builtin::Exec => {
            assert("exec"@[0] == 'e' && "exec"@[1] == 'x' && "exec"@[2] == 'e');
        },
        Builtin::Exit => {
            assert("exit"@[0] == 'e' && "exit"@[1] == 'x' && "exit"@[2] == 'i');
        },
        Builtin::Path => {
            assert("path"@[0] == 'p');
        },
        Builtin::Clr => {
            assert("clr"@.len() == 3);
        },
        Builtin::Help => {
            assert("help"@[0] == 'h');
        },
    }
}

/// The search path is printed under `path` and under `PATH`.
pub proof fn lemma_path_has_two_names()
    ensures
        builtin_named("path"@) == Some(Builtin::Path),
        builtin_named("PATH"@) == Some(Builtin::Path),
{
    lemma_found_by_name(Builtin::Path);
    reveal_strlit("PATH");
    reveal_strlit("echo");
    reveal_strlit("this");
    reveal_strlit("move");
    reveal_strlit("type");
    reveal_strlit("exec");
    reveal_strlit("exit");
    assert("PATH"@[0] == 'P');
}

/// The list of all builtins holds every builtin, and each once.
pub proof fn lemma_all_is_complete(b: Builtin)
    ensures
        all_builtins().contains(b),
        all_builtins().no_duplicates(),
{
    let list = all_builtins();
    match b {
        Builtin::Echo => assert(list[0] == b),
        Builtin::This => assert(list[1] == b),
        Builtin::Move => assert(list[2] == b),
        Builtin::Type => assert(list[3] == b),
        Builtin::Exec => assert(list[4] == b),
        Builtin::Exit => assert(list[5] == b),
        Builtin::Path => assert(list[6] == b),
        Builtin::Clr => assert(list[7] == b),
        Builtin::Help => assert(list[8] == b),
    }
}

} // verus!
