use ollama_tui::models::{CommandSource, RiskLevel};
use ollama_tui::workflow::{Workflow, WorkflowError, WorkflowManager, WorkflowStep};

fn step(name: &str, command: &str) -> WorkflowStep {
    WorkflowStep {
        name: name.to_string(),
        command: command.to_string(),
        condition: None,
        retry_count: 0,
        timeout_secs: 60,
        continue_on_error: false,
    }
}

#[test]
fn new_workflow_is_empty() {
    let workflow = Workflow::new("build".to_string(), "Builds the project".to_string());
    assert_eq!(workflow.name, "build");
    assert_eq!(workflow.description, "Builds the project");
    assert!(workflow.steps.is_empty());
    assert!(workflow.triggers.is_empty());
    assert!(workflow.variables.is_empty());
}

#[test]
fn add_step_appends() {
    let mut workflow = Workflow::new("example".to_string(), "Demo workflow".to_string());
    workflow.add_step(step("build", "cargo build"));
    workflow.add_step(step("test", "cargo test"));
    assert_eq!(workflow.steps.len(), 2);
    assert_eq!(workflow.steps[1].name, "test");
}

#[test]
fn add_variable_sets_and_replaces() {
    let mut workflow = Workflow::new("example".to_string(), "desc".to_string());
    workflow.add_variable("ENV".to_string(), "production".to_string());
    assert_eq!(workflow.variables.get("ENV"), Some(&"production".to_string()));
    workflow.add_variable("ENV".to_string(), "staging".to_string());
    assert_eq!(workflow.variables.get("ENV"), Some(&"staging".to_string()));
    assert_eq!(workflow.variables.len(), 1);
    assert!(workflow.variables.contains_key("ENV"));
    assert!(!workflow.variables.contains_key("env"));
}

#[test]
fn substitute_variables_replaces_placeholders() {
    let mut workflow = Workflow::new("example".to_string(), "desc".to_string());
    workflow.add_variable("USER".to_string(), "alice".to_string());
    assert_eq!(workflow.substitute_variables("echo Hello, ${USER}!"), "echo Hello, alice!");
    assert_eq!(workflow.substitute_variables("${USER}${USER} $USER ${USER"), "alicealice $USER ${USER");
    assert_eq!(workflow.substitute_variables("${OTHER}"), "${OTHER}");
    assert_eq!(workflow.substitute_variables(""), "");
}

#[test]
fn substitution_goes_variable_by_variable() {
    let mut workflow = Workflow::new("w".to_string(), "d".to_string());
    workflow.add_variable("A".to_string(), "${B}".to_string());
    workflow.add_variable("B".to_string(), "x".to_string());
    assert_eq!(workflow.substitute_variables("${A}-${B}"), "x-x");
    let plain = Workflow::new("w".to_string(), "d".to_string());
    assert_eq!(plain.substitute_variables("${A}"), "${A}");
}

#[test]
fn manager_stores_by_name() {
    let mut manager = WorkflowManager::new();
    assert_eq!(manager.list_workflows().len(), 0);
    assert!(manager.get_workflow("build").is_none());
    manager.add_workflow(Workflow::new("build".to_string(), "Build project".to_string()));
    manager.add_workflow(Workflow::new("test".to_string(), "Test project".to_string()));
    assert!(manager.get_workflow("build").is_some());
    manager.add_workflow(Workflow::new("build".to_string(), "Again".to_string()));
    let listed = manager.list_workflows();
    assert_eq!(listed.len(), 2);
    assert_eq!(listed[0].name, "build");
    assert_eq!(listed[0].description, "Again");
    assert_eq!(listed[1].name, "test");
    assert_eq!(manager.get_workflow("build").unwrap().description, "Again");
}

#[test]
fn common_workflows_are_created() {
    let mut manager = WorkflowManager::new();
    manager.create_common_workflows();
    assert!(manager.get_workflow("rust-ci").is_some());
    let backup = manager.get_workflow("project-backup").unwrap();
    assert_eq!(manager.list_workflows().len(), 2);
    let ci = manager.get_workflow("rust-ci").unwrap();
    assert_eq!(ci.description, "Standard Rust CI pipeline");
    let names: Vec<&str> = ci.steps.iter().map(|s| s.name.as_str()).collect();
    assert_eq!(names, vec!["Format Check", "Clippy Lints", "Build", "Test"]);
    assert_eq!(ci.steps[1].command, "cargo clippy -- -D warnings");
    assert_eq!((ci.steps[1].retry_count, ci.steps[1].timeout_secs), (1, 60));
    assert_eq!(ci.steps[3].timeout_secs, 300);
    assert_eq!(backup.steps.len(), 3);
    assert_eq!(backup.steps[1].condition.as_deref(), Some("test -d src"));
    assert!(backup.steps[1].continue_on_error);
    assert_eq!(backup.variables.get("backup_dir"), Some(&"backups".to_string()));
    let stamp = backup.variables.get("timestamp").unwrap();
    assert_eq!(stamp.len(), 15);
    assert!(stamp.chars().enumerate().all(|(i, c)| if i == 8 { c == '_' } else { c.is_ascii_digit() }));
}

#[test]
fn common_workflows_with_given_moment() {
    let mut manager = WorkflowManager::new();
    manager.add_common_workflows("20240102_030405".to_string());
    let commands = manager.execute_workflow("project-backup").unwrap();
    assert_eq!(commands.len(), 3);
    assert_eq!(commands[0].command, "mkdir -p backups/20240102_030405");
    assert_eq!(commands[0].description, "Create Backup Directory");
    assert_eq!(commands[0].risk_level, RiskLevel::Moderate);
    assert_eq!(commands[0].source, CommandSource::Workflow);
    assert_eq!(commands[1].command, "cp -r src backups/20240102_030405/");
    assert_eq!(
        commands[2].command,
        "cp *.toml *.json *.yaml backups/20240102_030405/ 2>/dev/null || true"
    );
    assert_eq!(commands[2].risk_level, RiskLevel::Moderate);
    assert!(commands.iter().all(|c| !c.approved && !c.executed));
}

#[test]
fn execute_workflow_of_rust_ci() {
    let mut manager = WorkflowManager::new();
    manager.create_common_workflows();
    let commands = manager.execute_workflow("rust-ci").unwrap();
    assert!(!commands.is_empty());
    let texts: Vec<&str> = commands.iter().map(|c| c.command.as_str()).collect();
    assert_eq!(
        texts,
        vec!["cargo fmt --check", "cargo clippy -- -D warnings", "cargo build", "cargo test"]
    );
    assert_eq!(commands[0].risk_level, RiskLevel::Safe);
}

#[test]
fn unknown_workflow_is_an_error() {
    let manager = WorkflowManager::new();
    match manager.execute_workflow("nope") {
        Err(WorkflowError::NotFound(name)) => assert_eq!(name, "nope"),
        Ok(_) => panic!("no such workflow"),
    }
}
