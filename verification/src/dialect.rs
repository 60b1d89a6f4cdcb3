//! The host that commands are run on.

use vstd::prelude::*;

verus! {

/// The shell that the host runs commands with.
#[derive(Clone, Copy, Debug, PartialEq, Eq, Structural)]
pub enum ShellDialect {
    /// `sh -c`, with the whole command as one argument; paths are
    /// separated by `/`.
    Posix,
    /// `cmd /C`, with the words of the command as arguments; paths are
    /// separated by `\`.
    Windows,
}

/// The character that separates the components of a path on a host.
pub open spec fn separator(dialect: ShellDialect) -> char {
    match dialect {
        ShellDialect::Posix => '/',
        ShellDialect::Windows => '\\',
    }
}

} // verus!
