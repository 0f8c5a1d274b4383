//! Results of command executions, as they are reported in JSON mode.

use vstd::prelude::*;

verus! {

/// Status of a command execution.
#[derive(Clone, Copy, Debug, PartialEq, Eq, Structural)]
pub enum CommandStatus {
    Success,
    Failed,
    Skipped,
}

/// Result of one command execution.
#[derive(Clone, Debug)]
pub struct CommandResult {
    pub command: String,
    pub status: CommandStatus,
    pub duration_ms: u64,
    pub output: Option<String>,
    pub error: Option<String>,
}

impl CommandResult {
    /// A successful result; `duration_ms` is the elapsed time in milliseconds
    /// (`Duration::as_millis`), stored truncated to 64 bits.
    pub fn success(command: String, duration_ms: u128, output: Option<String>) -> (r: Self)
        ensures
            r.command == command,
            r.status == CommandStatus::Success,
            r.duration_ms == duration_ms as u64,
            r.output == output,
            r.error is None,
    {
        CommandResult {
            command,
            status: CommandStatus::Success,
            duration_ms: duration_ms as u64,
            output,
            error: None,
        }
    }

    /// A failed result carrying the error text.
    pub fn failed(command: String, duration_ms: u128, error: String) -> (r: Self)
        ensures
            r.command == command,
            r.status == CommandStatus::Failed,
            r.duration_ms == duration_ms as u64,
            r.output is None,
            r.error == Some(error),
    {
        CommandResult {
            command,
            status: CommandStatus::Failed,
            duration_ms: duration_ms as u64,
            output: None,
            error: Some(error),
        }
    }

    /// A skipped result; the reason is reported as its error, its duration is zero.
    pub fn skipped(command: String, reason: String) -> (r: Self)
        ensures
            r.command == command,
            r.status == CommandStatus::Skipped,
            r.duration_ms == 0,
            r.output is None,
            r.error == Some(reason),
    {
        CommandResult {
            command,
            status: CommandStatus::Skipped,
            duration_ms: 0,
            output: None,
            error: Some(reason),
        }
    }
}

/// Summary of several command executions.
#[derive(Clone, Debug)]
pub struct BatchResult {
    pub total: usize,
    pub succeeded: usize,
    pub failed: usize,
    pub skipped: usize,
    pub duration_ms: u64,
    pub results: Vec<CommandResult>,
}

/// How many of `results` have status `status`.
pub open spec fn count_status(results: Seq<CommandResult>, status: CommandStatus) -> nat
    decreases results.len(),
{
    if results.len() == 0 {
        0
    } else {
        count_status(results.drop_last(), status) + if results.last().status == status {
            1nat
        } else {
            0nat
        }
    }
}

/// Every result has one of the three statuses, so the three counts add up to the length.
pub proof fn lemma_status_counts_partition(results: Seq<CommandResult>)
    ensures
        count_status(results, CommandStatus::Success) + count_status(results, CommandStatus::Failed)
            + count_status(results, CommandStatus::Skipped) == results.len(),
    decreases results.len(),
{
    if results.len() > 0 {
        lemma_status_counts_partition(results.drop_last());
    }
}

/// Counting is additive: the results of two batches together count what each
/// batch counts.
pub proof fn law_counts_add(a: Seq<CommandResult>, b: Seq<CommandResult>, status: CommandStatus)
    ensures
        count_status(a + b, status) == count_status(a, status) + count_status(b, status),
    decreases b.len(),
{
    if b.len() == 0 {
        assert(a + b =~= a);
    } else {
        law_counts_add(a, b.drop_last(), status);
        assert((a + b).drop_last() =~= a + b.drop_last());
    }
}

/// Counting ignores order: results that are a permutation of each other (the
/// same multiset) count alike.
pub proof fn law_counts_ignore_order(a: Seq<CommandResult>, b: Seq<CommandResult>, status: CommandStatus)
    requires
        a.to_multiset() == b.to_multiset(),
    ensures
        count_status(a, status) == count_status(b, status),
    decreases a.len(),
{
    broadcast use vstd::seq_lib::group_to_multiset_ensures;
    if a.len() == 0 {
        assert(b.to_multiset().len() == 0);
        assert(b.len() == 0);
    } else {
        let x = a.last();
        let rest = a.drop_last();
        assert(a =~= rest.push(x));
        assert(a.to_multiset().count(x) > 0);
        assert(b.contains(x));
        let i = choose|i: int| 0 <= i < b.len() && b[i] == x;
        let b2 = b.remove(i);
        vstd::seq_lib::to_multiset_remove(b, i);
        assert(rest.to_multiset() =~= a.to_multiset().remove(x));
        law_counts_ignore_order(rest, b2, status);
        let front = b.take(i);
        let back = b.skip(i + 1);
        assert(b2 =~= front + back);
        assert(b =~= front + seq![x] + back);
        law_counts_add(front, back, status);
        law_counts_add(front, seq![x], status);
        law_counts_add(front + seq![x], back, status);
        assert(seq![x].drop_last() =~= Seq::<CommandResult>::empty());
        assert(count_status(Seq::<CommandResult>::empty(), status) == 0);
        assert(seq![x].last() == x);
        assert(count_status(seq![x], status) == count_status(seq![x].drop_last(), status) + if x.status == status { 1nat } else { 0nat });
        assert(count_status(seq![x], status) == if x.status == status { 1nat } else { 0nat });
        assert(count_status(b, status) == count_status(front + seq![x] + back, status));
        assert(count_status(a, status) == count_status(rest, status) + if x.status == status {
            1nat
        } else {
            0nat
        });
    }
}

impl BatchResult {
    /// Summarises `results`, counting each status; `total_duration_ms` as in
    /// `CommandResult::success`.
    pub fn from_results(results: Vec<CommandResult>, total_duration_ms: u128) -> (r: Self)
        ensures
            r.results@ == results@,
            r.total == results.len(),
            r.succeeded == count_status(results@, CommandStatus::Success),
            r.failed == count_status(results@, CommandStatus::Failed),
            r.skipped == count_status(results@, CommandStatus::Skipped),
            r.succeeded + r.failed + r.skipped == r.total,
            r.duration_ms == total_duration_ms as u64,
    {
        let mut succeeded: usize = 0;
        let mut failed: usize = 0;
        let mut skipped: usize = 0;
        for i in 0..results.len()
            invariant
                succeeded == count_status(results@.take(i as int), CommandStatus::Success),
                failed == count_status(results@.take(i as int), CommandStatus::Failed),
                skipped == count_status(results@.take(i as int), CommandStatus::Skipped),
                succeeded + failed + skipped == i,
        {
            assert(results@.take(i + 1).drop_last() =~= results@.take(i as int));
            proof {
                lemma_status_counts_partition(results@.take(i as int));
            }
            match results[i].status {
                CommandStatus::Success => succeeded = succeeded + 1,
                CommandStatus::Failed => failed = failed + 1,
                CommandStatus::Skipped => skipped = skipped + 1,
            }
        }
        assert(results@.take(results.len() as int) =~= results@);
        proof {
            lemma_status_counts_partition(results@);
        }
        let total = results.len();
        BatchResult {
            total,
            succeeded,
            failed,
            skipped,
            duration_ms: total_duration_ms as u64,
            results,
        }
    }
}

} // verus!
