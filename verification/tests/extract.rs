use ollama_tui::agent::Agent;
use ollama_tui::models::{CommandSource, RiskLevel};

#[test]
fn test_parse_single_bash_block() {
    let response = "\nHere's how to list files:\n\n```bash\nls -la\n```\n";
    let commands = Agent::parse_commands_from_response(response);
    assert_eq!(commands.len(), 1);
    assert_eq!(commands[0].command, "ls -la");
}

#[test]
fn test_parse_multiple_commands() {
    let response = "\nLet me help you:\n\n```bash\npwd\nls -la\necho \"Hello\"\n```\n";
    let commands = Agent::parse_commands_from_response(response);
    assert_eq!(commands.len(), 3);
    assert_eq!(commands[0].command, "pwd");
    assert_eq!(commands[1].command, "ls -la");
    assert_eq!(commands[2].command, "echo \"Hello\"");
}

#[test]
fn test_parse_multiple_blocks() {
    let response =
        "\nFirst, check the directory:\n```bash\npwd\n```\n\nThen list files:\n```sh\nls\n```\n";
    let commands = Agent::parse_commands_from_response(response);
    assert_eq!(commands.len(), 2);
    assert_eq!(commands[0].command, "pwd");
    assert_eq!(commands[1].command, "ls");
}

#[test]
fn test_skip_comments() {
    let response = "\n```bash\n# This is a comment\nls -la\n# Another comment\npwd\n```\n";
    let commands = Agent::parse_commands_from_response(response);
    assert_eq!(commands.len(), 2);
    assert_eq!(commands[0].command, "ls -la");
    assert_eq!(commands[1].command, "pwd");
}

#[test]
fn test_no_commands() {
    let response = "Just some text without any code blocks";
    let commands = Agent::parse_commands_from_response(response);
    assert_eq!(commands.len(), 0);
}

#[test]
fn fenced_commands_are_fresh_and_classified() {
    let commands = Agent::parse_commands_from_response("```shell\nrm -rf build\ncp a b\n```");
    assert_eq!(commands.len(), 2);
    assert_eq!(commands[0].source, CommandSource::Fenced);
    assert_eq!(commands[0].risk_level, RiskLevel::Critical);
    assert_eq!(commands[1].risk_level, RiskLevel::Moderate);
    for c in &commands {
        assert!(!c.approved);
        assert!(!c.executed);
        assert!(c.output.is_none());
        assert!(c.error.is_none());
        assert_eq!(c.description, "");
    }
}

#[test]
fn block_count_is_count_of_command_lines() {
    let response = "```bash\n\n  # note\nls\n\n   \n  pwd  \n#x\nwhoami\n```";
    let commands = Agent::parse_commands_from_response(response);
    assert_eq!(commands.len(), 3);
    assert_eq!(commands[0].command, "ls");
    assert_eq!(commands[1].command, "pwd");
    assert_eq!(commands[2].command, "whoami");
}

#[test]
fn empty_block_gives_nothing() {
    assert_eq!(Agent::parse_commands_from_response("```bash\n```").len(), 0);
    assert_eq!(Agent::parse_commands_from_response("```bash\n# only a comment\n```").len(), 0);
}

#[test]
fn other_tags_are_not_shell() {
    let response = "```python\nprint(1)\n```\n```\nplain\n```\n```bashful\nx\n```";
    assert_eq!(Agent::parse_commands_from_response(response).len(), 0);
}

#[test]
fn tag_may_be_followed_by_blanks() {
    let commands = Agent::parse_commands_from_response("```sh  \t\n\nls\n```");
    assert_eq!(commands.len(), 1);
    assert_eq!(commands[0].command, "ls");
}

#[test]
fn unclosed_block_gives_nothing() {
    assert_eq!(Agent::parse_commands_from_response("```bash\nls\npwd\n").len(), 0);
}

#[test]
fn block_may_open_and_close_within_a_line() {
    let commands = Agent::parse_commands_from_response("run ```bash\nls``` now");
    assert_eq!(commands.len(), 1);
    assert_eq!(commands[0].command, "ls");
}

#[test]
fn carriage_returns_are_trimmed() {
    let commands = Agent::parse_commands_from_response("```bash\r\nls -la\r\npwd\r\n```\r\n");
    assert_eq!(commands.len(), 2);
    assert_eq!(commands[0].command, "ls -la");
    assert_eq!(commands[1].command, "pwd");
}

#[test]
fn two_blocks_keep_document_order() {
    let response = "```bash\none\ntwo\n```\ntext\n```bash\nthree\n```\n```sh\nfour\n```";
    let commands = Agent::parse_commands_from_response(response);
    let texts: Vec<&str> = commands.iter().map(|c| c.command.as_str()).collect();
    assert_eq!(texts, vec!["one", "two", "three", "four"]);
}

#[test]
fn inline_and_fenced_commands_keep_document_order() {
    let response = "Try this:\n$ ls -la\nor\n```bash\npwd\n```\n$ pwd\n  $ whoami  \n$ ls -la\n$\n$   \n";
    let commands = Agent::parse_commands_from_response(response);
    let texts: Vec<&str> = commands.iter().map(|c| c.command.as_str()).collect();
    assert_eq!(texts, vec!["ls -la", "pwd", "whoami"]);
    assert_eq!(commands[0].source, CommandSource::Inline);
    assert_eq!(commands[1].source, CommandSource::Fenced);
    assert_eq!(commands[2].source, CommandSource::Inline);
}

#[test]
fn non_ascii_text_is_handled() {
    let commands = Agent::parse_commands_from_response("héllo ✓\n```bash\necho ✓ é\n```\n");
    assert_eq!(commands.len(), 1);
    assert_eq!(commands[0].command, "echo ✓ é");
}

#[test]
fn inline_lines_inside_a_block_count_once_more() {
    let response = "$ a\n```bash\n$ b\nc\n```\n$ c\n```sh\na\n```\n";
    let commands = Agent::parse_commands_from_response(response);
    let texts: Vec<&str> = commands.iter().map(|c| c.command.as_str()).collect();
    assert_eq!(texts, vec!["a", "$ b", "c", "b", "a"]);
    let sources: Vec<CommandSource> = commands.iter().map(|c| c.source).collect();
    assert_eq!(
        sources,
        vec![
            CommandSource::Inline,
            CommandSource::Fenced,
            CommandSource::Fenced,
            CommandSource::Inline,
            CommandSource::Fenced
        ]
    );
}

fn commands_by_pattern(response: &str) -> Vec<String> {
    let pattern = regex::Regex::new(r"```(?:bash|sh|shell)\s*\n([\s\S]*?)```").unwrap();
    let mut commands = Vec::new();
    for cap in pattern.captures_iter(response) {
        if let Some(code) = cap.get(1) {
            for line in code.as_str().trim().lines() {
                let line = line.trim();
                if line.is_empty() || line.starts_with('#') {
                    continue;
                }
                commands.push(line.to_string());
            }
        }
    }
    commands
}

#[test]
fn fenced_rule_agrees_with_its_pattern() {
    let responses = [
        "",
        "```",
        "```bash",
        "```bash\n",
        "```bash\n```",
        "```bash\n\n```",
        "```bash\nls",
        "```bash\nls\n```",
        "```bash \t \n \nls\n```",
        "```bash\n\n\n  ls  \n\n  pwd\n```",
        "```bash ls\n```",
        "```bashx\nls\n```",
        "```BASH\nls\n```",
        "```Bash\nls\n```",
        "```sh\nls\n```",
        "```shell\nls\n```",
        "```shel\nls\n```",
        "```shells\nls\n```",
        "```sh ell\nls\n```",
        "```bash\u{a0}\nls```",
        "```bash\u{2028}\n\u{3000}ls\u{3000}\n```",
        "```bash\u{b}\u{c}\nls\n```",
        "```bash\r\nls\r\npwd\r\n```",
        "```bash\nls\r```",
        "a```shell\nls``` b ```sh\npwd```",
        "``````bash\nx\n```",
        "````bash\nls\n````",
        "`````bash\nls\n`````",
        "``bash\nls\n```",
        "```bash\n```bash\nls\n```",
        "```sh\n```sh\nls\n```\n```",
        "```bash\nls\n``` ```sh\npwd\n```",
        "```bash\nls\n``````sh\npwd\n```",
        "```bash\n#c\n # d\nls # e\n#\n```",
        "```bash\n`ls`\n```",
        "```bash\n``\nls\n``\n```",
        "```bash\nécho ✓\n```",
        "é```sh\n✓\n```é```bash\né\n```",
        "```python\nprint(1)\n```\n```bash\nls\n```",
        "```\nplain\n```\n```sh\nls\n```",
        "```bash\n\n```\n```\nls\n```",
        "text\n```bash\none\n```\nmore\n```shell\ntwo\nthree\n```\nend\n```sh\nfour",
        "```sh\n\n\n\n```sh\n\n```",
        "```shell```shell\nls\n```",
        "```bash\n  \t\n```bash\n",
    ];
    for response in responses {
        let ours: Vec<String> = Agent::parse_commands_from_response(response)
            .into_iter()
            .filter(|c| c.source == CommandSource::Fenced)
            .map(|c| c.command)
            .collect();
        assert_eq!(ours, commands_by_pattern(response), "{:?}", response);
    }
}
