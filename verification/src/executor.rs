//! What running the target command yields: both output streams captured in
//! full and kept verbatim for forwarding, and the exit code owed to the
//! operator — the child's own code, or 1 when it terminated abnormally
//! without one.

use vstd::prelude::*;

verus! {

/// A finished child process: its captured streams and the resolved exit
/// code.
#[derive(Debug, Clone)]
pub struct ExecutionResult {
    pub stdout: Vec<u8>,
    pub stderr: Vec<u8>,
    pub exit_code: i32,
}

/// The process's own exit code given the child's reported one: equal to the
/// child's, or 1 when the child terminated without a reportable code.
pub open spec fn spec_exit_code(raw: Option<i32>) -> int {
    match raw {
        Some(c) => c as int,
        None => 1,
    }
}

/// Resolves the child's status into the exit code to propagate.
pub fn resolve_exit_code(raw: Option<i32>) -> (r: i32)
    ensures
        r as int == spec_exit_code(raw),
{
    match raw {
        Some(c) => c,
        None => 1,
    }
}

/// Packs a finished child's captured streams and status. The streams are
/// kept byte for byte: what the caller forwards afterwards is exactly what
/// the child wrote.
pub fn execution_result(stdout: Vec<u8>, stderr: Vec<u8>, raw_code: Option<i32>) -> (r:
    ExecutionResult)
    ensures
        r.stdout@ == stdout@,
        r.stderr@ == stderr@,
        r.exit_code as int == spec_exit_code(raw_code),
{
    let exit_code = resolve_exit_code(raw_code);
    ExecutionResult { stdout, stderr, exit_code }
}

} // verus!
