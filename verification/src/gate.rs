//! The database gate and the generation job, as far as they are computed: the
//! statements sent to the database, the reading of a probe's answer, and the
//! shape of the job's invocation and of its outcome.

use vstd::prelude::*;
use vstd::string::*;

verus! {

/// The statement that runs the stored procedure `name`.
pub open spec fn procedure_statement_text(name: Seq<char>) -> Seq<char> {
    "EXEC "@ + name
}

/// The statement that asks whether `table` holds at least one row.
pub open spec fn probe_statement_text(table: Seq<char>) -> Seq<char> {
    "SELECT TOP 1 1 FROM "@ + table
}

/// The statement that runs the stored procedure `name`. The name is taken as
/// it is.
pub fn procedure_statement(name: &str) -> (statement: String)
    ensures
        statement@ == procedure_statement_text(name@),
{
    String::from_str("EXEC ").concat(name)
}

/// The statement that probes `table` for a row: it asks for one row at most.
/// The name is taken as it is.
pub fn probe_statement(table: &str) -> (statement: String)
    ensures
        statement@ == probe_statement_text(table@),
{
    String::from_str("SELECT TOP 1 1 FROM ").concat(table)
}

/// Whether a probe found a row: `row` is what the probe's statement fetched.
pub fn has_any_row(row: &Option<i32>) -> (found: bool)
    ensures
        found == (row is Some),
{
    row.is_some()
}

/// How the generation job ended.
#[derive(Clone, Debug)]
pub struct ExitOutcome {
    /// Whether the job exited with code zero.
    pub success: bool,
    /// What the job wrote to its error stream.
    pub stderr: Vec<u8>,
}

impl ExitOutcome {
    /// The outcome of a job that exited with `exit_code`, or without one where
    /// it was ended from outside. Only exit code zero is a success.
    pub fn new(exit_code: Option<i32>, stderr: Vec<u8>) -> (outcome: ExitOutcome)
        ensures
            outcome.success == (exit_code == Some(0i32)),
            outcome.stderr@ == stderr@,
    {
        let success = match exit_code {
            Some(code) => code == 0,
            None => false,
        };
        ExitOutcome { success, stderr }
    }
}

/// The program that runs the generation job.
pub fn job_program() -> (program: &'static str)
    ensures
        program@ == "java"@,
{
    "java"
}

/// The arguments with which the generation job at `job_path` is started: one
/// flag and the path.
pub fn job_arguments(job_path: &str) -> (arguments: Vec<String>)
    ensures
        arguments@.len() == 2,
        arguments@[0]@ == "-jar"@,
        arguments@[1]@ == job_path@,
{
    let mut arguments: Vec<String> = Vec::new();
    arguments.push(String::from_str("-jar"));
    arguments.push(String::from_str(job_path));
    arguments
}

} // verus!
