use rsbuild::output::{BatchResult, CommandResult, CommandStatus};
use rsbuild::parallel::{batch_summary, count_failed, to_batch_result, TaskResult};

#[test]
fn success_result_keeps_fields() {
    let r = CommandResult::success("make".to_string(), 1234, Some("done".to_string()));
    assert_eq!(r.command, "make");
    assert_eq!(r.status, CommandStatus::Success);
    assert_eq!(r.duration_ms, 1234);
    assert_eq!(r.output, Some("done".to_string()));
    assert_eq!(r.error, None);
}

#[test]
fn duration_is_truncated_to_64_bits() {
    let big: u128 = (1u128 << 64) + 7;
    let r = CommandResult::success("x".to_string(), big, None);
    assert_eq!(r.duration_ms, 7);
}

#[test]
fn failed_result_carries_error() {
    let r = CommandResult::failed("make".to_string(), 10, "boom".to_string());
    assert_eq!(r.status, CommandStatus::Failed);
    assert_eq!(r.duration_ms, 10);
    assert_eq!(r.output, None);
    assert_eq!(r.error, Some("boom".to_string()));
}

#[test]
fn skipped_result_has_zero_duration() {
    let r = CommandResult::skipped("make".to_string(), "dry run".to_string());
    assert_eq!(r.status, CommandStatus::Skipped);
    assert_eq!(r.duration_ms, 0);
    assert_eq!(r.output, None);
    assert_eq!(r.error, Some("dry run".to_string()));
}

#[test]
fn batch_counts_each_status() {
    let results = vec![
        CommandResult::success("a".to_string(), 1, None),
        CommandResult::failed("b".to_string(), 2, "e".to_string()),
        CommandResult::skipped("c".to_string(), "r".to_string()),
        CommandResult::success("d".to_string(), 3, None),
        CommandResult::failed("e".to_string(), 4, "e".to_string()),
    ];
    let b = BatchResult::from_results(results, 99);
    assert_eq!(b.total, 5);
    assert_eq!(b.succeeded, 2);
    assert_eq!(b.failed, 2);
    assert_eq!(b.skipped, 1);
    assert_eq!(b.duration_ms, 99);
    assert_eq!(b.results.len(), 5);
    assert_eq!(b.results[1].command, "b");
    assert_eq!(b.succeeded + b.failed + b.skipped, b.total);
}

#[test]
fn empty_batch() {
    let b = BatchResult::from_results(Vec::new(), 0);
    assert_eq!((b.total, b.succeeded, b.failed, b.skipped), (0, 0, 0, 0));
}

fn task(name: &str, result: Result<String, String>) -> TaskResult<String> {
    TaskResult { name: name.to_string(), result }
}

#[test]
fn task_results_become_command_results() {
    let tasks = vec![
        task("one", Ok("out".to_string())),
        task("two", Ok(String::new())),
        task("three", Err("bad".to_string())),
    ];
    let b = to_batch_result(&tasks, 42);
    assert_eq!(b.total, 3);
    assert_eq!(b.succeeded, 2);
    assert_eq!(b.failed, 1);
    assert_eq!(b.skipped, 0);
    assert_eq!(b.duration_ms, 42);
    assert_eq!(b.results[0].output, Some("out".to_string()));
    assert_eq!(b.results[0].duration_ms, 0);
    assert_eq!(b.results[1].output, None);
    assert_eq!(b.results[1].status, CommandStatus::Success);
    assert_eq!(b.results[2].status, CommandStatus::Failed);
    assert_eq!(b.results[2].error, Some("bad".to_string()));
    assert_eq!(b.results[2].command, "three");
}

#[test]
fn failures_are_counted() {
    let tasks = vec![task("a", Err("x".to_string())), task("b", Ok("y".to_string())), task("c", Err("z".to_string()))];
    assert_eq!(count_failed(&tasks), 2);
    assert_eq!(count_failed::<String>(&[]), 0);
}

#[test]
fn summary_messages() {
    let s = batch_summary("Building", 3, 0);
    assert!(!s.any_failed);
    assert_eq!(s.message, "Building: 3 completed");
    let s = batch_summary("Building", 12, 10);
    assert!(s.any_failed);
    assert_eq!(s.message, "Building: 10 failed");
}

#[test]
fn tasks_run_in_order_with_ticks() {
    let ticks = std::cell::Cell::new(0);
    let order = std::cell::RefCell::new(Vec::new());
    let make = |n: i32| {
        let order = &order;
        move || -> Result<i32, String> {
            order.borrow_mut().push(n);
            if n == 2 { Err(format!("task {} failed", n)) } else { Ok(n * 10) }
        }
    };
    let tasks = vec![("a".to_string(), make(1)), ("b".to_string(), make(2)), ("c".to_string(), make(3))];
    let results = rsbuild::parallel::run_in_order(&tasks, &|| ticks.set(ticks.get() + 1));
    assert_eq!(ticks.get(), 3);
    assert_eq!(*order.borrow(), vec![1, 2, 3]);
    assert_eq!(results.len(), 3);
    assert_eq!(results[0].name, "a");
    assert_eq!(results[0].result, Ok(10));
    assert_eq!(results[1].result, Err("task 2 failed".to_string()));
    assert_eq!(results[2].name, "c");
    assert_eq!(count_failed(&results), 1);
}

#[test]
fn counts_add_up_and_ignore_order() {
    let a = vec![
        CommandResult::success("a".to_string(), 1, None),
        CommandResult::failed("b".to_string(), 2, "e".to_string()),
    ];
    let b = vec![
        CommandResult::skipped("c".to_string(), "r".to_string()),
        CommandResult::failed("d".to_string(), 4, "e".to_string()),
    ];
    let mut both = a.clone();
    both.extend(b.clone());
    let x = BatchResult::from_results(both.clone(), 0);
    let y = BatchResult::from_results(a, 0);
    let z = BatchResult::from_results(b, 0);
    assert_eq!(x.total, y.total + z.total);
    assert_eq!(x.succeeded, y.succeeded + z.succeeded);
    assert_eq!(x.failed, y.failed + z.failed);
    assert_eq!(x.skipped, y.skipped + z.skipped);
    both.reverse();
    let r = BatchResult::from_results(both, 0);
    assert_eq!((r.succeeded, r.failed, r.skipped), (x.succeeded, x.failed, x.skipped));
}
