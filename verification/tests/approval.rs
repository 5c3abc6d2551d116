use ollama_tui::approval::{reconcile, ApprovalGate, Dispatch};
use ollama_tui::models::{AgentCommand, CommandSource};

fn cmd(text: &str) -> AgentCommand {
    AgentCommand::new(text.to_string(), CommandSource::Fenced)
}

fn gate_of(texts: &[&str]) -> ApprovalGate {
    let mut gate = ApprovalGate::new();
    gate.add_batch(texts.iter().map(|t| cmd(t)).collect());
    gate
}

#[test]
fn new_gate_is_empty() {
    let gate = ApprovalGate::new();
    assert!(gate.is_empty());
    assert_eq!(gate.len(), 0);
    assert_eq!(gate.cursor(), None);
    assert!(gate.current().is_none());
    assert!(gate.get(0).is_none());
}

#[test]
fn add_batch_sets_cursor_once() {
    let mut gate = ApprovalGate::new();
    gate.add_batch(Vec::new());
    assert_eq!(gate.cursor(), None);
    gate.add_batch(vec![cmd("a"), cmd("b")]);
    assert_eq!(gate.cursor(), Some(0));
    gate.navigate(1);
    gate.add_batch(vec![cmd("c")]);
    assert_eq!(gate.cursor(), Some(1));
    assert_eq!(gate.len(), 3);
    assert_eq!(gate.get(2).unwrap().command, "c");
}

#[test]
fn approve_current_marks_and_stays() {
    let mut gate = gate_of(&["a", "b"]);
    gate.navigate(1);
    gate.approve_current();
    assert_eq!(gate.len(), 2);
    assert_eq!(gate.cursor(), Some(1));
    assert!(!gate.get(0).unwrap().approved);
    assert!(gate.get(1).unwrap().approved);
    assert_eq!(gate.current().unwrap().command, "b");
}

#[test]
fn reject_current_removes_and_clamps() {
    let mut gate = gate_of(&["a", "b", "c"]);
    gate.navigate(2);
    gate.reject_current();
    assert_eq!(gate.len(), 2);
    assert_eq!(gate.cursor(), Some(1));
    gate.navigate(-1);
    gate.reject_current();
    assert_eq!(gate.cursor(), Some(0));
    assert_eq!(gate.current().unwrap().command, "b");
    gate.reject_current();
    assert!(gate.is_empty());
    assert_eq!(gate.cursor(), None);
}

#[test]
fn operations_on_empty_gate_do_nothing() {
    let mut gate = ApprovalGate::new();
    gate.approve_current();
    gate.reject_current();
    gate.approve_all();
    gate.reject_all();
    gate.navigate(1);
    gate.navigate(-1);
    assert!(gate.is_empty());
    assert_eq!(gate.cursor(), None);
    assert_eq!(gate.execute_approved().len(), 0);
}

#[test]
fn bulk_flags_do_not_remove() {
    let mut gate = gate_of(&["a", "b", "c"]);
    gate.approve_all();
    assert_eq!(gate.len(), 3);
    assert!((0..3).all(|i| gate.get(i).unwrap().approved));
    gate.reject_all();
    assert_eq!(gate.len(), 3);
    assert!((0..3).all(|i| !gate.get(i).unwrap().approved));
    assert_eq!(gate.cursor(), Some(0));
}

#[test]
fn navigate_stops_at_the_ends() {
    let mut gate = gate_of(&["a", "b", "c"]);
    gate.navigate(-1);
    assert_eq!(gate.cursor(), Some(0));
    gate.navigate(1);
    assert_eq!(gate.cursor(), Some(1));
    gate.navigate(1);
    gate.navigate(1);
    assert_eq!(gate.cursor(), Some(2));
    gate.navigate(i32::MIN);
    assert_eq!(gate.cursor(), Some(0));
    gate.navigate(i32::MAX);
    assert_eq!(gate.cursor(), Some(2));
    gate.navigate(0);
    assert_eq!(gate.cursor(), Some(2));
}

#[test]
fn execute_approved_drains_tagged_batch() {
    let mut gate = gate_of(&["a", "b", "c", "d"]);
    gate.navigate(1);
    gate.approve_current();
    gate.navigate(2);
    gate.approve_current();
    let batch = gate.execute_approved();
    assert!(gate.is_empty());
    assert_eq!(gate.cursor(), None);
    assert_eq!(batch.len(), 2);
    assert_eq!(batch[0].index, 1);
    assert_eq!(batch[0].command.command, "b");
    assert_eq!(batch[1].index, 3);
    assert_eq!(batch[1].command.command, "d");
}

#[test]
fn executed_commands_are_not_dispatched_again() {
    let mut done = cmd("a");
    done.approved = true;
    done.complete(Ok("out".to_string()));
    let mut gate = ApprovalGate::new();
    gate.add_batch(vec![done, cmd("b")]);
    gate.approve_all();
    let batch = gate.execute_approved();
    assert_eq!(batch.len(), 1);
    assert_eq!(batch[0].index, 1);
}

#[test]
fn results_are_reconciled_by_tag_in_any_order() {
    let mut batch = vec![
        Dispatch { index: 1, command: cmd("b") },
        Dispatch { index: 3, command: cmd("d") },
    ];
    assert!(reconcile(&mut batch, 3, Err("boom".to_string())));
    assert!(batch[1].command.executed);
    assert_eq!(batch[1].command.error.as_deref(), Some("boom"));
    assert!(batch[1].command.output.is_none());
    assert!(!batch[0].command.executed);
    assert!(reconcile(&mut batch, 1, Ok("fine".to_string())));
    assert!(batch[0].command.executed);
    assert_eq!(batch[0].command.output.as_deref(), Some("fine"));
    assert!(batch[1].command.executed);
    assert!(!reconcile(&mut batch, 7, Ok("x".to_string())));
    assert_eq!(batch.len(), 2);
}

#[test]
fn executed_never_reverts() {
    let mut c = cmd("a");
    c.complete(Ok("one".to_string()));
    c.complete(Err("two".to_string()));
    assert!(c.executed);
    assert_eq!(c.output.as_deref(), Some("one"));
    assert_eq!(c.error.as_deref(), Some("two"));
}
