use ollama_tui::agent::{Agent, SystemContext};
use ollama_tui::autonomous_agent::{
    AgentState, AgentStep, AnalysisResponse, AutonomousAgent, Decision, LoopError,
    ReasoningResponse,
};

fn context() -> SystemContext {
    SystemContext {
        current_dir: "/work".to_string(),
        is_git_repo: true,
        git_branch: Some("main".to_string()),
        shell: "/bin/zsh".to_string(),
        os: "Linux".to_string(),
        home_dir: None,
    }
}

fn step(i: usize) -> AgentStep {
    AgentStep {
        step_number: i,
        reasoning: format!("Step {}", i),
        command: Some("ls".to_string()),
        output: Some("output".to_string()),
        exit_code: Some(0),
        timestamp: chrono::Utc::now().timestamp_millis(),
    }
}

#[test]
fn test_agent_creation() {
    let agent = AutonomousAgent::new(context());
    assert_eq!(agent.state, AgentState::Idle);
    assert!(agent.goal.is_none());
    assert_eq!(agent.current_step, 0);
}

#[test]
fn test_set_goal() {
    let mut agent = AutonomousAgent::new(context());
    agent.set_goal("Find all Rust files".to_string());
    assert_eq!(agent.state, AgentState::Reasoning);
    assert_eq!(agent.goal, Some("Find all Rust files".to_string()));
}

#[test]
fn test_memory_limit() {
    let mut agent = AutonomousAgent::new(context());
    agent.max_memory_size = 5;

    for i in 0..10 {
        agent.add_to_memory(step(i), format!("Analysis {}", i));
    }

    assert_eq!(agent.memory.len(), 5);
}

#[test]
fn test_should_stop() {
    let mut agent = AutonomousAgent::new(context());
    agent.max_steps = 10;
    agent.current_step = 11;
    assert!(agent.should_stop());

    agent.current_step = 5;
    assert!(!agent.should_stop());
}

#[test]
fn should_stop_exactly_at_the_limit() {
    let mut agent = AutonomousAgent::with_limits(context(), 3, 2);
    for (current, expected) in [(0, false), (2, false), (3, true), (4, true)] {
        agent.current_step = current;
        assert_eq!(agent.should_stop(), expected);
    }
    agent.max_steps = 0;
    agent.current_step = 0;
    assert!(agent.should_stop());
}

#[test]
fn defaults_are_fifty_steps_and_hundred_entries() {
    let agent = AutonomousAgent::new(context());
    assert_eq!(agent.max_steps, 50);
    assert_eq!(agent.max_memory_size, 100);
    assert!(agent.memory.is_empty());
    assert!(agent.in_flight.is_none());
}

#[test]
fn memory_keeps_the_newest_in_order() {
    let mut agent = AutonomousAgent::with_limits(context(), 50, 3);
    for i in 0..7 {
        agent.add_to_memory(step(i), format!("Analysis {}", i));
        assert!(agent.memory.len() <= 3);
    }
    let kept: Vec<usize> = agent.memory.iter().map(|e| e.step.step_number).collect();
    assert_eq!(kept, vec![4, 5, 6]);
    assert_eq!(agent.memory[2].analysis, "Analysis 6");
}

#[test]
fn memory_of_size_zero_stays_empty() {
    let mut agent = AutonomousAgent::with_limits(context(), 50, 0);
    agent.add_to_memory(step(1), "a".to_string());
    assert_eq!(agent.memory.len(), 0);
}

#[test]
fn shrinking_the_limit_takes_effect_on_the_next_append() {
    let mut agent = AutonomousAgent::with_limits(context(), 50, 10);
    for i in 0..6 {
        agent.add_to_memory(step(i), String::new());
    }
    agent.max_memory_size = 2;
    agent.add_to_memory(step(6), String::new());
    let kept: Vec<usize> = agent.memory.iter().map(|e| e.step.step_number).collect();
    assert_eq!(kept, vec![5, 6]);
}

#[test]
fn set_goal_resets_steps_and_keeps_memory() {
    let mut agent = AutonomousAgent::new(context());
    agent.add_to_memory(step(1), "a".to_string());
    agent.current_step = 7;
    agent.set_goal("x".to_string());
    assert_eq!(agent.current_step, 0);
    assert_eq!(agent.memory.len(), 1);
    agent.reset();
    assert_eq!(agent.state, AgentState::Idle);
    assert!(agent.goal.is_none());
    assert_eq!(agent.memory.len(), 1);
}

#[test]
fn first_execute_answer_moves_to_executing() {
    let mut agent = AutonomousAgent::new(context());
    assert_eq!(agent.state, AgentState::Idle);
    agent.set_goal("where am I".to_string());
    assert_eq!(agent.state, AgentState::Reasoning);
    let answer = "{\"reasoning\": \"look\", \"action\": \"execute\", \"command\": \"pwd\", \"expected_outcome\": \"a path\"}";
    match agent.on_reasoning_response(answer, 42) {
        Ok(Decision::Execute(c)) => assert_eq!(c, "pwd"),
        other => panic!("unexpected {:?}", other),
    }
    assert_eq!(agent.state, AgentState::Executing);
    assert_eq!(agent.current_step, 1);
    let step = agent.in_flight.as_ref().unwrap();
    assert_eq!(step.step_number, 1);
    assert_eq!(step.reasoning, "look");
    assert_eq!(step.command.as_deref(), Some("pwd"));
    assert_eq!(step.timestamp, 42);
    assert!(step.output.is_none());
}

#[test]
fn json_is_taken_between_first_and_last_brace() {
    let mut agent = AutonomousAgent::new(context());
    agent.set_goal("g".to_string());
    let answer = "Sure!\n```json\n{\"action\": \"goal_achieved\", \"reasoning\": \"done\"}\n```\nBye";
    assert!(matches!(agent.on_reasoning_response(answer, 0), Ok(Decision::GoalAchieved)));
    assert_eq!(agent.state, AgentState::GoalAchieved);
}

#[test]
fn need_info_pauses() {
    let mut agent = AutonomousAgent::new(context());
    agent.set_goal("g".to_string());
    let r = agent.on_reasoning_response("{\"action\":\"need_info\"}", 0);
    assert!(matches!(r, Ok(Decision::NeedInfo)));
    assert_eq!(agent.state, AgentState::Idle);
    assert_eq!(agent.current_step, 0);
}

#[test]
fn execute_without_command_is_a_contract_violation() {
    let mut agent = AutonomousAgent::new(context());
    agent.set_goal("g".to_string());
    for answer in [
        "{\"action\":\"execute\",\"command\":null}",
        "{\"action\":\"execute\"}",
        "{\"command\":7}",
        "{}",
        "[1, {\"a\": 1}]",
    ] {
        let r = agent.on_reasoning_response(answer, 0);
        assert!(matches!(r, Err(LoopError::ContractViolation)), "{}", answer);
        assert_eq!(agent.state, AgentState::Reasoning);
        assert_eq!(agent.current_step, 0);
        assert!(agent.in_flight.is_none());
    }
}

#[test]
fn missing_action_means_execute() {
    let mut agent = AutonomousAgent::new(context());
    agent.set_goal("g".to_string());
    let r = agent.on_reasoning_response("{\"command\":\"ls\"}", 0);
    assert!(matches!(r, Ok(Decision::Execute(_))));
    assert_eq!(agent.in_flight.as_ref().unwrap().reasoning, "No reasoning provided");
}

#[test]
fn unknown_action_is_reported() {
    let mut agent = AutonomousAgent::new(context());
    agent.set_goal("g".to_string());
    match agent.on_reasoning_response("{\"action\":\"dance\",\"command\":\"ls\"}", 0) {
        Err(LoopError::UnknownAction(a)) => assert_eq!(a, "dance"),
        other => panic!("unexpected {:?}", other),
    }
    assert_eq!(agent.state, AgentState::Reasoning);
}

#[test]
fn unreadable_json_changes_nothing() {
    let mut agent = AutonomousAgent::new(context());
    agent.set_goal("g".to_string());
    for answer in ["no json here", "{\"action\": ", "} {", ""] {
        match agent.on_reasoning_response(answer, 0) {
            Err(LoopError::JsonParse(message)) => assert!(!message.is_empty()),
            other => panic!("unexpected {:?}", other),
        }
        assert_eq!(agent.state, AgentState::Reasoning);
        assert_eq!(agent.current_step, 0);
    }
}

#[test]
fn step_limit_fails_the_goal_without_dispatch() {
    let mut agent = AutonomousAgent::with_limits(context(), 2, 10);
    agent.set_goal("g".to_string());
    for expected in 1..=2 {
        let r = agent.on_reasoning_response("{\"action\":\"execute\",\"command\":\"ls\"}", 0);
        assert!(matches!(r, Ok(Decision::Execute(_))));
        assert_eq!(agent.current_step, expected);
        assert!(agent.current_step <= agent.max_steps);
        assert!(agent.on_command_finished("out".to_string(), 0).is_some());
        assert!(agent.on_analysis_response("{\"analysis\":\"ok\"}").unwrap().is_some());
    }
    match agent.on_reasoning_response("{\"action\":\"execute\",\"command\":\"ls\"}", 0) {
        Err(LoopError::SafetyLimitExceeded(limit)) => assert_eq!(limit, 2),
        other => panic!("unexpected {:?}", other),
    }
    assert_eq!(agent.state, AgentState::Failed);
    assert_eq!(agent.current_step, 2);
    assert!(agent.in_flight.is_none());
    let again = agent.on_reasoning_response("{\"action\":\"goal_achieved\"}", 0);
    assert!(matches!(again, Err(LoopError::Stale)));
}

#[test]
fn full_cycle_writes_one_memory_entry() {
    let mut agent = AutonomousAgent::new(context());
    agent.set_goal("list".to_string());
    agent
        .on_reasoning_response("{\"reasoning\":\"r1\",\"action\":\"execute\",\"command\":\"ls\"}", 5)
        .unwrap();
    let prompt = agent.on_command_finished("a.txt\n".to_string(), 3).unwrap();
    assert_eq!(agent.state, AgentState::AnalyzingOutput);
    assert!(prompt.contains("GOAL: list"));
    assert!(prompt.contains("COMMAND EXECUTED:\nls\n"));
    assert!(prompt.contains("EXIT CODE: 3\n"));
    assert!(prompt.contains("OUTPUT:\na.txt\n"));
    let next = agent
        .on_analysis_response("text {\"success\": true, \"analysis\": \"one file\", \"progress\": \"p\"} text")
        .unwrap()
        .unwrap();
    assert_eq!(agent.state, AgentState::Reasoning);
    assert!(agent.in_flight.is_none());
    assert_eq!(agent.memory.len(), 1);
    let entry = &agent.memory[0];
    assert_eq!(entry.analysis, "one file");
    assert_eq!(entry.step.step_number, 1);
    assert_eq!(entry.step.reasoning, "r1");
    assert_eq!(entry.step.command.as_deref(), Some("ls"));
    assert_eq!(entry.step.output.as_deref(), Some("a.txt\n"));
    assert_eq!(entry.step.exit_code, Some(3));
    assert_eq!(entry.step.timestamp, 5);
    assert_eq!(next, agent.create_reasoning_prompt());
    assert!(next.contains("CURRENT STEP: 2/50"));
    assert!(next.contains("\n1. r1\n   Command: ls\n   Output: a.txt\n\n   Analysis: one file\n"));
}

#[test]
fn stale_events_are_ignored() {
    let mut agent = AutonomousAgent::new(context());
    assert!(agent.on_command_finished("x".to_string(), 0).is_none());
    assert!(agent.on_analysis_response("{}").unwrap().is_none());
    assert!(matches!(
        agent.on_reasoning_response("{\"action\":\"goal_achieved\"}", 0),
        Err(LoopError::Stale)
    ));
    assert_eq!(agent.state, AgentState::Idle);
    agent.set_goal("g".to_string());
    agent.on_reasoning_response("{\"command\":\"ls\"}", 0).unwrap();
    agent.set_goal("other".to_string());
    assert!(agent.on_command_finished("late".to_string(), 0).is_none());
    assert_eq!(agent.state, AgentState::Reasoning);
    assert_eq!(agent.memory.len(), 0);
}

#[test]
fn unreadable_analysis_keeps_waiting() {
    let mut agent = AutonomousAgent::new(context());
    agent.set_goal("g".to_string());
    agent.on_reasoning_response("{\"command\":\"ls\"}", 0).unwrap();
    agent.on_command_finished("out".to_string(), 0).unwrap();
    assert!(matches!(agent.on_analysis_response("nothing"), Err(LoopError::JsonParse(_))));
    assert_eq!(agent.state, AgentState::AnalyzingOutput);
    assert_eq!(agent.memory.len(), 0);
    assert!(agent.in_flight.is_some());
    assert!(agent.on_analysis_response("{}").unwrap().is_some());
    assert_eq!(agent.memory[0].analysis, "No analysis provided");
}

#[test]
fn responses_are_read_with_defaults() {
    let r: ReasoningResponse =
        AutonomousAgent::read_reasoning("{\"expected_outcome\":\"e\",\"command\":\"c\"}").unwrap();
    assert_eq!(r.reasoning, "No reasoning provided");
    assert_eq!(r.action, "execute");
    assert_eq!(r.command.as_deref(), Some("c"));
    assert_eq!(r.expected_outcome.as_deref(), Some("e"));
    let a: AnalysisResponse = AutonomousAgent::read_analysis(
        "{\"success\":true,\"analysis\":\"a\",\"progress\":\"p\",\"learned\":\"l\",\"next_suggestion\":\"n\"}",
    )
    .unwrap();
    assert!(a.success);
    assert_eq!(
        (a.analysis.as_str(), a.progress.as_str(), a.learned.as_str(), a.next_suggestion.as_str()),
        ("a", "p", "l", "n")
    );
    let b = AutonomousAgent::read_analysis("{\"success\":\"yes\",\"analysis\":3}").unwrap();
    assert!(!b.success);
    assert_eq!(b.analysis, "No analysis provided");
    assert_eq!(b.progress, "");
}

#[test]
fn reasoning_prompt_text() {
    let mut agent = AutonomousAgent::with_limits(context(), 9, 100);
    let empty = agent.create_reasoning_prompt();
    assert!(empty.starts_with("You are an AUTONOMOUS AGENT working to achieve a goal."));
    assert!(empty.contains("5. Repeat until goal is achieved\n\nSYSTEM CONTEXT:\n- Operating System: Linux\n- Shell: /bin/zsh\n- Current Directory: /work\n- Git Repository: Yes (branch: main)\n- Home Directory: unknown\n\nCURRENT GOAL:\nNo goal set\n\nNo previous steps taken yet.\n\nCURRENT STEP: 1/9\n\nYOUR TASK:"));
    assert!(empty.contains("```json\n{\n  \"reasoning\":"));
    assert!(empty.contains("6. Use the system context (you're in directory: /work)\n7."));
    assert!(empty.ends_with("Respond with ONLY the JSON object, no other text."));
    agent.set_goal("G".to_string());
    for i in 1..=12 {
        let mut s = step(i);
        if i == 12 {
            s.output = Some("o".repeat(201));
            s.command = None;
        }
        if i == 11 {
            s.output = None;
        }
        agent.add_to_memory(s, if i == 12 { "a".repeat(101) } else { format!("A{}", i) });
    }
    let prompt = agent.create_reasoning_prompt();
    let expected_first = format!(
        "Previous steps:\n\n12. Step 12\n   Command: none\n   Output: {}...\n   Analysis: {}...\n\n11. Step 11\n   Command: ls\n   Output: no output\n   Analysis: A11\n",
        "o".repeat(200),
        "a".repeat(100)
    );
    assert!(prompt.contains(&expected_first));
    assert!(prompt.contains("\n3. Step 3\n"));
    assert!(!prompt.contains("\n2. Step 2\n"));
    assert!(prompt.contains("CURRENT GOAL:\nG\n\nPrevious steps:"));
}

#[test]
fn analysis_prompt_text() {
    let agent = AutonomousAgent::new(context());
    let short = agent.create_analysis_prompt("ls", &"x".repeat(1000), -1);
    assert!(short.starts_with("You are analyzing the result of a command execution in an autonomous agent loop.\n\nGOAL: No goal set\n\nCOMMAND EXECUTED:\nls\n\nEXIT CODE: -1\n\nOUTPUT:\n"));
    assert!(short.contains(&format!("OUTPUT:\n{}\n\nYOUR TASK:", "x".repeat(1000))));
    let long = agent.create_analysis_prompt("ls", &"x".repeat(1001), i32::MIN);
    assert!(long.contains(&format!("OUTPUT:\n{}... (truncated)\n\nYOUR TASK:", "x".repeat(1000))));
    assert!(long.contains("EXIT CODE: -2147483648\n"));
    assert!(long.ends_with("Respond with ONLY the JSON object, no other text."));
}

#[test]
fn progress_summary_text() {
    let mut agent = AutonomousAgent::new(context());
    assert_eq!(
        agent.get_progress_summary(),
        "🎯 Goal: None\n📊 Progress: Step 0/50\n💾 Memory: 0 entries\n🤖 State: Idle"
    );
    agent.set_goal("g".to_string());
    agent.current_step = 12;
    agent.state = AgentState::AnalyzingOutput;
    agent.add_to_memory(step(1), String::new());
    assert_eq!(
        agent.get_progress_summary(),
        "🎯 Goal: g\n📊 Progress: Step 12/50\n💾 Memory: 1 entries\n🤖 State: AnalyzingOutput"
    );
}

#[test]
fn agent_system_prompt_text() {
    let mut c = context();
    let prompt = Agent::create_agent_system_prompt(&c);
    assert!(prompt.starts_with("You are an AI assistant in AGENT MODE. You can suggest shell commands to help the user.\n\nSYSTEM CONTEXT:\n- Operating System: Linux\n- Shell: /bin/zsh\n- Current Directory: /work\n- Git Repository: Yes (branch: main)\n- Home Directory: unknown\n\nIMPORTANT INSTRUCTIONS:\n1. When suggesting commands, you MUST use this EXACT format:\n   \n   ```bash\n   command here\n   ```\n\n2."));
    assert!(prompt.contains("- Use appropriate commands for Linux\n- Commands run independently"));
    assert!(prompt.contains("be aware of current directory: /work\n\nEXAMPLE RESPONSE:\n\"To list all Rust files in the current directory:\n\n```bash\nfind . -name \"*.rs\" -type f\n```\n\nThis will recursively search for all .rs files.\"\n\nRemember:"));
    assert!(prompt.ends_with("shown to the user for approval before execution."));
    c.is_git_repo = false;
    c.git_branch = None;
    c.home_dir = Some("/home/u".to_string());
    let other = Agent::create_agent_system_prompt(&c);
    assert!(other.contains("- Git Repository: No\n- Home Directory: /home/u\n"));
}
