//! The pool of validations.

use validate_xml::duration::Duration;
use validate_xml::scheduler::{Dispatch, Scheduler};
use validate_xml::validator::{
    FileValidationResult, ValidationConfig, ValidationPhase, ValidationProgress,
};

fn config(limit: usize, fail_fast: bool) -> ValidationConfig {
    ValidationConfig {
        max_concurrent_validations: limit,
        validation_timeout: Duration::from_secs(5),
        fail_fast,
        show_progress: false,
        collect_metrics: true,
    }
}

fn names(list: &[&str]) -> Vec<String> {
    list.iter().map(|n| n.to_string()).collect()
}

fn numbered(count: usize) -> Vec<String> {
    (0..count).map(|i| format!("file{}.xml", i + 1)).collect()
}

fn valid(name: &str) -> FileValidationResult {
    FileValidationResult::valid(name.to_string(), "S.xsd".to_string(), Duration::from_millis(1))
}

fn invalid(name: &str) -> FileValidationResult {
    FileValidationResult::invalid(
        name.to_string(),
        "S.xsd".to_string(),
        1,
        Duration::from_millis(1),
        vec!["Element 'wrong' is not expected".to_string()],
    )
}

#[test]
fn test_no_files_is_done_at_once() {
    let mut pool = Scheduler::new(Vec::new(), &config(4, false));
    assert_eq!(pool.next(), Dispatch::Done);
    assert!(pool.into_results().is_empty());
}

#[test]
fn test_the_pool_fills_up_to_its_limit() {
    let mut pool = Scheduler::new(names(&["a", "b", "c", "d", "e"]), &config(3, false));
    assert_eq!(pool.next(), Dispatch::Start { index: 0 });
    assert_eq!(pool.next(), Dispatch::Start { index: 1 });
    assert_eq!(pool.next(), Dispatch::Start { index: 2 });
    assert_eq!(pool.in_flight(), 3);
    // Every permit is taken.
    assert_eq!(pool.next(), Dispatch::Wait);
    assert_eq!(pool.next(), Dispatch::Wait);
    assert_eq!(pool.in_flight(), 3);
    assert!(pool.is_running(1));
    assert!(!pool.is_running(3));
    pool.record(1, valid("b"));
    assert!(!pool.is_running(1));
    assert_eq!(pool.in_flight(), 2);
    assert_eq!(pool.next(), Dispatch::Start { index: 3 });
    assert_eq!(pool.next(), Dispatch::Wait);
}

#[test]
fn test_every_file_gets_its_outcome() {
    let files = ["a", "b", "c", "d", "e"];
    let mut pool = Scheduler::new(names(&files), &config(2, false));
    let mut running: Vec<usize> = Vec::new();
    let mut reports: Vec<ValidationProgress> = Vec::new();
    loop {
        match pool.next() {
            Dispatch::Start { index } => running.push(index),
            Dispatch::Wait => {
                // The file started last ends first.
                let index = running.pop().unwrap();
                let outcome = if index == 1 { invalid(files[index]) } else { valid(files[index]) };
                assert_eq!(pool.file(index), files[index]);
                reports.push(pool.record(index, outcome));
            }
            Dispatch::Done => break,
        }
        assert!(pool.in_flight() <= 2);
    }
    assert_eq!(pool.completed(), 5);
    assert!(!pool.is_stopped());
    let completed: Vec<usize> = reports.iter().map(|r| r.completed).collect();
    assert_eq!(completed, vec![1, 2, 3, 4, 5]);
    assert!(reports.iter().all(|r| r.total == 5 && r.phase == ValidationPhase::Validation));
    assert_eq!(reports[0].current_file, Some("b".to_string()));
    let results = pool.into_results();
    let order: Vec<&str> = results.iter().map(|r| r.path.as_str()).collect();
    assert_eq!(order, vec!["b", "c", "d", "e", "a"]);
    assert!(results[0].status.is_invalid());
}

#[test]
fn test_fail_fast_stops_the_scheduling() {
    // A hundred files, the fifth invalid, one at a time.
    let mut pool = Scheduler::new(numbered(100), &config(1, true));
    let mut finished = 0;
    loop {
        match pool.next() {
            Dispatch::Start { index } => {
                let name = pool.file(index).clone();
                let outcome = if index + 1 == 5 { invalid(&name) } else { valid(&name) };
                pool.record(index, outcome);
                finished += 1;
            }
            Dispatch::Wait => unreachable!("with one permit nothing runs between two turns"),
            Dispatch::Done => break,
        }
    }
    assert_eq!(finished, 5);
    assert!(pool.is_stopped());
    let results = pool.into_results();
    assert_eq!(results.len(), 5);
    assert!(results[..4].iter().all(|r| r.status.is_valid()));
    assert!(results[4].status.is_invalid());
    assert_eq!(results[4].path, "file5.xml");
}

#[test]
fn test_fail_fast_lets_what_runs_finish() {
    let mut pool = Scheduler::new(
        names(&["a", "b", "c", "d", "e", "f", "g", "h", "i", "j"]),
        &config(3, true),
    );
    assert_eq!(pool.next(), Dispatch::Start { index: 0 });
    assert_eq!(pool.next(), Dispatch::Start { index: 1 });
    assert_eq!(pool.next(), Dispatch::Start { index: 2 });
    pool.record(
        1,
        FileValidationResult::skipped("b".to_string(), "no schema URL".to_string(), Duration::zero()),
    );
    assert!(pool.is_stopped());
    // Two validations still run: the driver waits for them and starts nothing.
    assert_eq!(pool.next(), Dispatch::Wait);
    pool.record(0, valid("a"));
    assert_eq!(pool.next(), Dispatch::Wait);
    pool.record(2, valid("c"));
    assert_eq!(pool.next(), Dispatch::Done);
    assert_eq!(pool.completed(), 3);
}

#[test]
fn test_without_fail_fast_a_failure_stops_nothing() {
    let mut pool = Scheduler::new(names(&["a", "b"]), &config(1, false));
    assert_eq!(pool.next(), Dispatch::Start { index: 0 });
    pool.record(0, invalid("a"));
    assert!(!pool.is_stopped());
    assert_eq!(pool.next(), Dispatch::Start { index: 1 });
    pool.record(1, valid("b"));
    assert_eq!(pool.next(), Dispatch::Done);
}

#[test]
fn test_the_results_are_those_of_the_files() {
    // Seven files, three at a time, ending in an order of their own.
    let files = numbered(7);
    let mut pool = Scheduler::new(files.clone(), &config(3, false));
    assert_eq!(pool.total(), 7);
    let mut running: Vec<usize> = Vec::new();
    let mut turn = 0;
    loop {
        match pool.next() {
            Dispatch::Start { index } => running.push(index),
            Dispatch::Wait => {
                let index = running.remove(turn % running.len());
                turn += 1;
                assert!(pool.is_running(index));
                let outcome = valid(pool.file(index));
                pool.record(index, outcome);
                assert!(!pool.is_running(index));
            }
            Dispatch::Done => break,
        }
    }
    let mut paths: Vec<String> = pool.into_results().into_iter().map(|r| r.path).collect();
    assert_ne!(paths, files);
    paths.sort();
    assert_eq!(paths, files);
}
