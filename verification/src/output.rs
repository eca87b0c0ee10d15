//! The result of running a command: the lines it prints and the process
//! exit code it maps to.

use vstd::prelude::*;

use crate::fs_model::views_of;

verus! {

/// What a command handler decided: lines for standard output, lines for
/// standard error, and the exit code of the invocation.
pub struct CommandOutput {
    /// Lines to print to standard output, in order.
    pub out_lines: Vec<String>,
    /// Lines to print to standard error, in order.
    pub err_lines: Vec<String>,
    /// The process exit code.
    pub exit_code: i32,
}

impl CommandOutput {
    /// The views of the standard-output lines.
    pub open spec fn outs(self) -> Seq<Seq<char>> {
        views_of(self.out_lines@)
    }

    /// The views of the standard-error lines.
    pub open spec fn errs(self) -> Seq<Seq<char>> {
        views_of(self.err_lines@)
    }
}

} // verus!
