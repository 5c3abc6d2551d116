use ollama_tui::agent::Agent;
use ollama_tui::models::{CommandSource, RiskLevel};
use ollama_tui::toolcall::parse_tool_calls;

#[test]
fn tool_call_with_command_pair() {
    let calls =
        Agent::parse_tool_calls("<tool_call name=\"execute_command\">\ncommand=echo hi\n</tool_call>");
    assert_eq!(calls.len(), 1);
    assert_eq!(calls[0].name, "execute_command");
    assert_eq!(calls[0].arg("command").map(|s| s.as_str()), Some("echo hi"));
    assert_eq!(
        calls[0].arg("description").map(|s| s.as_str()),
        Some("AI agent tool execution")
    );
    assert_eq!(calls[0].args.len(), 2);
}

#[test]
fn free_text_becomes_the_command() {
    let response = "Let's analyze the Git diff to understand the changes made in the repository.\n\nTo view the Git diff, I will use the `execute_command` tool. Here is the command:\n\n<tool_call name=\"execute_command\">\ngit diff\n</tool_call>\n\nPlease approve the execution of this command to display the Git diff.";
    let calls = parse_tool_calls(response);
    assert_eq!(calls.len(), 1);
    assert_eq!(calls[0].name, "execute_command");
    assert_eq!(calls[0].arg("command").map(|s| s.as_str()), Some("git diff"));
}

#[test]
fn free_text_lines_are_joined() {
    let calls = parse_tool_calls("<tool_call name=\"run\">\n  cd /tmp  \n\nls\n</tool_call>");
    assert_eq!(calls[0].arg("command").map(|s| s.as_str()), Some("cd /tmp\nls"));
}

#[test]
fn explicit_command_wins_over_free_text() {
    let calls = parse_tool_calls("<tool_call name=\"run\">\nfree text\ncommand=ls\n</tool_call>");
    assert_eq!(calls[0].arg("command").map(|s| s.as_str()), Some("ls"));
}

#[test]
fn quotes_and_blanks_are_stripped() {
    let calls = parse_tool_calls(
        "<tool_call name=\"t\">\n path = \"/tmp/x\" \ndescription=\"list it\"\nempty=\"\"\n</tool_call>",
    );
    assert_eq!(calls.len(), 1);
    assert_eq!(calls[0].arg("path").map(|s| s.as_str()), Some("/tmp/x"));
    assert_eq!(calls[0].arg("description").map(|s| s.as_str()), Some("list it"));
    assert_eq!(calls[0].arg("empty").map(|s| s.as_str()), Some(""));
    assert!(calls[0].arg("command").is_none());
    assert!(calls[0].arg("missing").is_none());
}

#[test]
fn later_value_replaces_earlier() {
    let calls = parse_tool_calls("<tool_call name=\"t\">\na=1\nb=2\na=3\n</tool_call>");
    assert_eq!(calls[0].arg("a").map(|s| s.as_str()), Some("3"));
    assert_eq!(calls[0].args.len(), 3);
    let first = calls[0].args.entry(0);
    assert_eq!((first.0.as_str(), first.1.as_str()), ("a", "3"));
}

#[test]
fn stray_space_tags_are_accepted() {
    let calls = parse_tool_calls("<tool_ call name=\"x\">\ncommand=pwd\n</tool_ call>\nafter=1");
    assert_eq!(calls.len(), 1);
    assert_eq!(calls[0].name, "x");
    assert_eq!(calls[0].arg("command").map(|s| s.as_str()), Some("pwd"));
    assert!(calls[0].arg("after").is_none());
}

#[test]
fn unclosed_call_runs_to_the_end() {
    let calls = parse_tool_calls("<tool_call name=\"x\">\ncommand=pwd\nk=v");
    assert_eq!(calls.len(), 1);
    assert_eq!(calls[0].arg("k").map(|s| s.as_str()), Some("v"));
}

#[test]
fn calls_come_in_document_order() {
    let calls = parse_tool_calls(
        "<tool_call name=\"a\">\nls\n</tool_call>\ntext\n<tool_call name=\"b\">\npwd\n</tool_call>",
    );
    assert_eq!(calls.len(), 2);
    assert_eq!(calls[0].name, "a");
    assert_eq!(calls[1].name, "b");
    assert_eq!(calls[1].arg("command").map(|s| s.as_str()), Some("pwd"));
}

#[test]
fn malformed_opening_tags_open_nothing() {
    assert_eq!(parse_tool_calls("<tool_call>\nls\n</tool_call>").len(), 0);
    assert_eq!(parse_tool_calls("<tool_call name=x>\nls\n</tool_call>").len(), 0);
    assert_eq!(parse_tool_calls("<tool_call name=\"x>\nls\n</tool_call>").len(), 0);
    assert_eq!(parse_tool_calls("text <tool_call name=\"x\">\nls\n</tool_call>").len(), 0);
    assert_eq!(parse_tool_calls("").len(), 0);
}

#[test]
fn empty_name_and_empty_body() {
    let calls = parse_tool_calls("<tool_call name=\"\">\n</tool_call>");
    assert_eq!(calls.len(), 1);
    assert_eq!(calls[0].name, "");
    assert!(calls[0].arg("command").is_none());
    assert_eq!(calls[0].args.len(), 1);
}

#[test]
fn call_becomes_a_candidate() {
    let calls = parse_tool_calls(
        "<tool_call name=\"execute_command\">\ncommand=sudo ls\ndescription=look\n</tool_call>",
    );
    let command = calls[0].to_command().unwrap();
    assert_eq!(command.command, "sudo ls");
    assert_eq!(command.description, "look");
    assert_eq!(command.source, CommandSource::ToolCall);
    assert_eq!(command.risk_level, RiskLevel::High);
    assert!(!command.approved && !command.executed);
    let none = parse_tool_calls("<tool_call name=\"t\">\npath=x\n</tool_call>");
    assert!(none[0].to_command().is_none());
}
