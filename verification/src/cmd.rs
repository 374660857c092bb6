//! What running an external command yields. The spawning itself happens
//! outside the library; this is the shape of its result, and the rules that
//! classify and gate an exit code.
use vstd::prelude::*;
use crate::analyze::AnalyzerError;

verus! {

/// The captured result of one finished external command.
#[derive(Debug)]
pub struct CmdOuput {
    pub exit_code: i32,
    pub stdout: String,
    pub stderr: String,
}

impl CmdOuput {
    /// Whether the command reported failure through its exit code.
    pub fn failed(&self) -> (r: bool)
        ensures
            r == (self.exit_code > 0),
    {
        self.exit_code > 0
    }
}

/// Escalates a non-zero exit code to an error when the caller disallows
/// failure, carrying the code and the captured standard error; otherwise
/// hands the standard output on.
pub fn gate_output(out: CmdOuput, allow_fail: bool) -> (r: Result<String, AnalyzerError>)
    ensures
        out.exit_code > 0 && !allow_fail ==> r == Err::<String, AnalyzerError>(
            AnalyzerError::CommandExecFailed(out.exit_code, out.stderr),
        ),
        !(out.exit_code > 0 && !allow_fail) ==> r == Ok::<String, AnalyzerError>(out.stdout),
{
    if out.exit_code > 0 && !allow_fail {
        Err(AnalyzerError::CommandExecFailed(out.exit_code, out.stderr))
    } else {
        Ok(out.stdout)
    }
}

} // verus!
