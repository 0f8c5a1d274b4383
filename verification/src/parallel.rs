//! Bookkeeping for tasks run in a batch: their results, failure counts and the
//! summaries that close a batch.

use crate::output::{count_status, BatchResult, CommandResult, CommandStatus};
use crate::text::{chars_of, decimal, extend_str, push_decimal, string_of};
use vstd::prelude::*;

verus! {

/// Result from executing a single task.
pub struct TaskResult<T> {
    pub name: String,
    pub result: Result<T, String>,
}

/// The JSON record of one task: its output when it succeeded (none when that
/// output is empty), its error otherwise; no duration is measured per task.
pub open spec fn command_result_of(t: TaskResult<String>) -> CommandResult {
    match t.result {
        Ok(o) => CommandResult {
            command: t.name,
            status: CommandStatus::Success,
            duration_ms: 0,
            output: if o@.len() == 0 { None } else { Some(o) },
            error: None,
        },
        Err(e) => CommandResult {
            command: t.name,
            status: CommandStatus::Failed,
            duration_ms: 0,
            output: None,
            error: Some(e),
        },
    }
}

/// How many of `results` failed.
pub open spec fn failures<T>(results: Seq<TaskResult<T>>) -> nat
    decreases results.len(),
{
    if results.len() == 0 {
        0
    } else {
        failures(results.drop_last()) + if results.last().result is Err {
            1nat
        } else {
            0nat
        }
    }
}

proof fn lemma_failures_bound<T>(results: Seq<TaskResult<T>>)
    ensures
        failures(results) <= results.len(),
    decreases results.len(),
{
    if results.len() > 0 {
        lemma_failures_bound(results.drop_last());
    }
}

/// Number of failed tasks.
pub fn count_failed<T>(results: &[TaskResult<T>]) -> (n: usize)
    ensures
        n == failures(results@),
{
    let mut n: usize = 0;
    for i in 0..results.len()
        invariant
            n == failures(results@.take(i as int)),
            n <= i,
    {
        assert(results@.take(i + 1).drop_last() =~= results@.take(i as int));
        if results[i].result.is_err() {
            n = n + 1;
        }
    }
    assert(results@.take(results@.len() as int) =~= results@);
    n
}

fn command_result(t: &TaskResult<String>) -> (r: CommandResult)
    ensures
        r == command_result_of(*t),
{
    match &t.result {
        Ok(output) => CommandResult::success(
            t.name.clone(),
            0,
            if output.as_str().is_empty() { None } else { Some(output.clone()) },
        ),
        Err(e) => CommandResult::failed(t.name.clone(), 0, e.clone()),
    }
}

/// A failed task is reported as a failed command, any other as a successful one.
proof fn lemma_statuses<T>(results: Seq<TaskResult<String>>)
    ensures
        count_status(results.map_values(|t: TaskResult<String>| command_result_of(t)), CommandStatus::Failed)
            == failures(results),
        count_status(results.map_values(|t: TaskResult<String>| command_result_of(t)), CommandStatus::Skipped)
            == 0,
    decreases results.len(),
{
    if results.len() > 0 {
        lemma_statuses::<T>(results.drop_last());
        assert(results.drop_last().map_values(|t: TaskResult<String>| command_result_of(t))
            =~= results.map_values(|t: TaskResult<String>| command_result_of(t)).drop_last());
    }
}

/// Convert task results to JSON batch result.
pub fn to_batch_result(results: &[TaskResult<String>], total_duration_ms: u128) -> (b: BatchResult)
    ensures
        b.results@ == results@.map_values(|t: TaskResult<String>| command_result_of(t)),
        b.total == results@.len(),
        b.failed == failures(results@),
        b.skipped == 0,
        b.succeeded == results@.len() - failures(results@),
        b.duration_ms == total_duration_ms as u64,
{
    let mut records: Vec<CommandResult> = Vec::new();
    for i in 0..results.len()
        invariant
            records@ == results@.take(i as int).map_values(|t: TaskResult<String>| command_result_of(t)),
    {
        let r = command_result(&results[i]);
        records.push(r);
        assert(results@.take(i + 1).map_values(|t: TaskResult<String>| command_result_of(t))
            =~= results@.take(i as int).map_values(|t: TaskResult<String>| command_result_of(t)).push(
            command_result_of(results@[i as int]),
        ));
    }
    assert(results@.take(results@.len() as int) =~= results@);
    proof {
        lemma_statuses::<String>(results@);
        lemma_failures_bound(results@);
    }
    BatchResult::from_results(records, total_duration_ms)
}

/// Runs `tasks` one after another, calling `tick` after each, and collects
/// their results in task order, each under its task's name.
pub fn run_in_order<T, F: Fn() -> Result<T, String>, G: Fn()>(tasks: &Vec<(String, F)>, tick: &G) -> (results: Vec<TaskResult<T>>)
    requires
        forall|i: int| 0 <= i < tasks@.len() ==> call_requires(#[trigger] tasks@[i].1, ()),
        call_requires(*tick, ()),
    ensures
        results@.len() == tasks@.len(),
        forall|i: int| 0 <= i < tasks@.len() ==> (#[trigger] results@[i]).name@ == tasks@[i].0@,
        forall|i: int| 0 <= i < tasks@.len() ==> call_ensures(tasks@[i].1, (), #[trigger] results@[i].result),
{
    let mut results: Vec<TaskResult<T>> = Vec::new();
    for i in 0..tasks.len()
        invariant
            forall|j: int| 0 <= j < tasks@.len() ==> call_requires(#[trigger] tasks@[j].1, ()),
            call_requires(*tick, ()),
            results@.len() == i,
            forall|j: int| 0 <= j < i ==> (#[trigger] results@[j]).name@ == tasks@[j].0@,
            forall|j: int| 0 <= j < i ==> call_ensures(tasks@[j].1, (), #[trigger] results@[j].result),
    {
        let task = &tasks[i];
        let result = (task.1)();
        tick();
        results.push(TaskResult { name: task.0.clone(), result });
    }
    results
}

/// How a batch of tasks ended, and the message that says so.
pub struct BatchSummary {
    /// At least one task failed.
    pub any_failed: bool,
    pub message: String,
}

/// The closing message of a batch: "`description`: `failed` failed" when some
/// failed, else "`description`: `total` completed".
pub open spec fn summary_text(description: Seq<char>, total: nat, failed: nat) -> Seq<char> {
    if failed > 0 {
        description + ": "@ + decimal(failed) + " failed"@
    } else {
        description + ": "@ + decimal(total) + " completed"@
    }
}

/// The summary of a batch of `total` tasks of which `failed` failed.
pub fn batch_summary(description: &str, total: usize, failed: usize) -> (s: BatchSummary)
    ensures
        s.any_failed == (failed > 0),
        s.message@ == summary_text(description@, total as nat, failed as nat),
{
    let mut out = chars_of(description);
    extend_str(&mut out, ": ");
    if failed > 0 {
        push_decimal(&mut out, failed as u64);
        extend_str(&mut out, " failed");
    } else {
        push_decimal(&mut out, total as u64);
        extend_str(&mut out, " completed");
    }
    BatchSummary { any_failed: failed > 0, message: string_of(&out) }
}

} // verus!
