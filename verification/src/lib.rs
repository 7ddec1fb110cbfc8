//! The command dispatcher of a small interactive shell: tokenization of an
//! input line, the table of builtins, the search for an executable along an
//! ordered list of directories, and the decision what one line leads to.
//!
//! The library never touches the terminal, the environment or the file
//! system. Whoever drives it hands in the search path and a probe that says
//! whether a candidate file can be launched, and carries out the returned
//! [`dispatch::Action`].

pub mod builtins;
pub mod command_line;
pub mod dispatch;
pub mod exit_code;
pub mod resolver;
pub mod text;
