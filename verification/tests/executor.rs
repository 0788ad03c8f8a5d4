use std::cell::Cell;
use std::rc::Rc;

use commandsystem::command::Command;
use commandsystem::executor::ExecutionOutcome;
use commandsystem::executor::execution_report;
use commandsystem::logging::LogColor;
use commandsystem::registry::Registry;

#[test]
fn completed_outcome_logs_nothing() {
    let report = execution_report(ExecutionOutcome::Completed);
    assert!(report.is_none());
}

#[test]
fn faulted_outcome_logs_one_exception() {
    let report = execution_report(ExecutionOutcome::Faulted("boom".to_string()));
    let entry = report.expect("a fault must be reported");
    assert_eq!(entry.message, "Failed to execute Command. boom");
    assert_eq!(entry.color, LogColor::Red);
    assert!(entry.prefix.starts_with('['));
    assert!(entry.prefix.ends_with("] (EXCEPTION):"));
}

#[test]
fn faulted_outcome_keeps_an_empty_detail() {
    let report = execution_report(ExecutionOutcome::Faulted(String::new()));
    let entry = report.expect("a fault must be reported");
    assert_eq!(entry.message, "Failed to execute Command. ");
}

#[test]
fn ping_round_trip_runs_the_action_once() {
    let count = Rc::new(Cell::new(0u32));
    let seen = count.clone();
    let mut r = Registry::new();
    r.register(Command::new(
        "ping".to_string(),
        "replies pong".to_string(),
        move || seen.set(seen.get() + 1),
    ));
    let c = r.get(&"ping".to_string()).expect("registered name");
    (c.action())();
    let report = execution_report(ExecutionOutcome::Completed);
    assert!(report.is_none());
    assert_eq!(count.get(), 1);
}
