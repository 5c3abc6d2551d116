use ollama_tui::agent::SystemContext;
use ollama_tui::app::{chat_width, render_chat, select_lines, AppMode, AppState};
use ollama_tui::autonomous_agent::{AgentState, AutonomousAgent};
use ollama_tui::events::{handle_key_event, parse_index, Effect, Key};
use ollama_tui::models::{AgentCommand, ChatSession, CommandSource, Config, Message, Role};
use ollama_tui::text::to_chars;

fn session(id: i64) -> ChatSession {
    let mut s = ChatSession::new(id, 0);
    s.id = id;
    s
}

fn state() -> AppState {
    AppState::new(
        Config::default(),
        vec![session(10), session(20), session(30)],
        "No model selected".to_string(),
        20,
    )
}

fn type_text(app: &mut AppState, text: &str) {
    for c in text.chars() {
        handle_key_event(Key::Char(c), app);
    }
}

#[test]
fn starts_on_the_last_session() {
    let app = state();
    assert_eq!(app.mode, AppMode::Normal);
    assert_eq!(app.current_session_index, 1);
    assert_eq!(app.session_selected, Some(1));
    assert_eq!(app.current_session_id(), 20);
    assert_eq!(app.ollama_base_url, "http://127.0.0.1:11434");
    assert!(app.auto_scroll);
    assert_eq!((app.terminal_width, app.terminal_height), (80, 24));
    let other = AppState::new(Config::default(), vec![session(1), session(2)], "m".to_string(), 99);
    assert_eq!(other.current_session_index, 0);
    assert_eq!(other.current_model, "m");
}

#[test]
fn sessions_wrap_around() {
    let mut app = state();
    app.next_session();
    assert_eq!(app.session_selected, Some(2));
    app.next_session();
    assert_eq!(app.session_selected, Some(0));
    app.previous_session();
    assert_eq!(app.session_selected, Some(2));
    app.session_selected = None;
    app.previous_session();
    assert_eq!(app.session_selected, Some(0));
    assert_eq!(app.switch_to_selected_session(), Some(10));
    assert_eq!(app.current_session_index, 0);
    app.session_selected = Some(7);
    assert_eq!(app.switch_to_selected_session(), None);
    assert_eq!(app.switch_to_session(3), Some(30));
    assert_eq!(app.current_session_index, 2);
    assert_eq!(app.switch_to_session(0), None);
    assert_eq!(app.switch_to_session(4), None);
}

#[test]
fn sessions_are_adopted_cleared_removed() {
    let mut app = state();
    app.mode = AppMode::Command;
    app.adopt_session(session(40));
    assert_eq!(app.sessions.len(), 4);
    assert_eq!(app.current_session_index, 3);
    assert_eq!(app.session_selected, Some(3));
    assert_eq!(app.mode, AppMode::Normal);
    app.push_message(Role::User, "hi".to_string());
    assert_eq!(app.current_messages().len(), 2);
    app.clear_current_messages();
    assert_eq!(app.current_messages().len(), 1);
    assert_eq!(app.current_messages()[0].content, "History Cleared.");
    assert_eq!(app.remove_current_session().unwrap().id, 40);
    assert_eq!(app.current_session_index, 2);
    app.current_session_index = 0;
    assert_eq!(app.remove_current_session().unwrap().id, 10);
    assert_eq!(app.current_session_index, 0);
    assert_eq!(app.current_session_id(), 20);
    app.remove_current_session();
    assert!(app.remove_current_session().is_none());
    assert_eq!(app.sessions.len(), 1);
}

#[test]
fn models_are_chosen() {
    let mut app = state();
    app.is_fetching_models = true;
    app.set_models(vec!["a".to_string(), "b".to_string()]);
    assert!(!app.is_fetching_models);
    assert_eq!(app.current_model, "a");
    assert_eq!(app.model_selected, Some(0));
    app.next_model();
    assert_eq!(app.model_selected, Some(1));
    app.next_model();
    assert_eq!(app.model_selected, Some(0));
    app.previous_model();
    assert_eq!(app.model_selected, Some(1));
    app.mode = AppMode::ModelSelection;
    assert_eq!(app.confirm_model_selection(), Some("b".to_string()));
    assert_eq!(app.current_model, "b");
    assert_eq!(app.mode, AppMode::Normal);
    app.set_models(vec!["c".to_string()]);
    assert_eq!(app.current_model, "b");
    app.model_selected = Some(5);
    assert_eq!(app.confirm_model_selection(), None);
    app.mode = AppMode::ModelSelection;
    app.is_fetching_models = true;
    app.available_models.clear();
    assert!(app.should_fetch_models());
}

#[test]
fn chat_lines_and_selection() {
    assert_eq!(chat_width(80), 60);
    assert_eq!(chat_width(u16::MAX), 49151);
    let messages = vec![
        Message { role: Role::User, content: "hello there world".to_string() },
        Message { role: Role::Assistant, content: String::new() },
        Message { role: Role::Assistant, content: "ok".to_string() },
    ];
    let lines = render_chat(&messages, 11);
    assert_eq!(lines, vec!["You: hello there", "     world", "", "AI: ", "AI: ok", ""]);
    assert_eq!(select_lines(&lines, 1, 0), "You: hello there\n     world");
    assert_eq!(select_lines(&lines, 1, 4), "world\n\nAI: \nAI: ok");
    assert_eq!(select_lines(&lines, 9, 12), "");
    let mut app = state();
    app.push_message(Role::User, "hello there world".to_string());
    app.update_terminal_dimensions(40, 10);
    assert_eq!(app.calculate_total_message_lines(17), 8);
    assert_eq!(app.calculate_total_message_lines(200), 4);
    app.trigger_auto_scroll();
    assert_eq!(app.chat_selected, Some(4));
    app.start_visual_selection();
    assert_eq!(app.mode, AppMode::Visual);
    app.update_visual_selection(0);
    assert_eq!(
        app.get_selected_text(),
        "AI: New chat started. Ask me\n     anything!\n\nYou: hello there world"
    );
    app.clear_visual_selection();
    assert_eq!(app.get_selected_text(), "");
    app.auto_scroll = false;
    app.chat_selected = None;
    app.trigger_auto_scroll();
    assert_eq!(app.chat_selected, None);
}

#[test]
fn tool_calls_are_reviewed() {
    let mut app = state();
    assert!(!app.has_pending_tool_calls());
    app.reject_current_tool_call();
    assert!(app.approve_current_tool_call().is_none());
    let calls = app.parse_agent_response(
        "<tool_call name=\"a\">\nls\n</tool_call>\n<tool_call name=\"b\">\npwd\n</tool_call>\n<tool_call name=\"c\">\nid\n</tool_call>",
    );
    app.add_tool_calls(calls);
    assert!(app.has_pending_tool_calls());
    assert_eq!(app.command_approval_index, Some(0));
    assert_eq!(app.get_current_tool_call().unwrap().name, "a");
    app.command_approval_index = Some(2);
    assert_eq!(app.approve_current_tool_call().unwrap().name, "c");
    assert_eq!(app.command_approval_index, Some(1));
    app.command_approval_index = Some(0);
    app.reject_current_tool_call();
    assert_eq!(app.command_approval_index, Some(0));
    assert_eq!(app.get_current_tool_call().unwrap().name, "b");
    app.reject_current_tool_call();
    assert_eq!(app.command_approval_index, None);
    app.enter_agent_mode();
    assert_eq!(app.mode, AppMode::Agent);
    assert_eq!(
        app.status_message.as_deref(),
        Some("Agent mode activated - AI has access to system tools")
    );
    app.exit_agent_mode();
    assert!(!app.agent_mode);
    assert_eq!(app.status_message.as_deref(), Some("Agent mode deactivated"));
    app.clear_status_message();
    assert!(app.status_message.is_none());
}

#[test]
fn index_parsing() {
    let p = |t: &str| parse_index(&to_chars(t));
    assert_eq!(p("12"), Some(12));
    assert_eq!(p("+7"), Some(7));
    assert_eq!(p("007"), Some(7));
    assert_eq!(p("0"), Some(0));
    assert_eq!(p(""), None);
    assert_eq!(p("+"), None);
    assert_eq!(p("-1"), None);
    assert_eq!(p("1a"), None);
    assert_eq!(p(" 1"), None);
    assert_eq!(p("++1"), None);
    assert_eq!(p(&usize::MAX.to_string()), Some(usize::MAX));
    assert_eq!(p("99999999999999999999999999"), None);
    assert_eq!(p("18446744073709551616"), "18446744073709551616".parse::<usize>().ok());
}

#[test]
fn normal_mode_keys() {
    let mut app = state();
    app.set_status_message("note".to_string());
    assert!(matches!(handle_key_event(Key::Char('z'), &mut app), Effect::Nothing));
    assert!(app.status_message.is_none());
    assert!(matches!(handle_key_event(Key::Char('q'), &mut app), Effect::Quit));
    app.push_message(Role::User, "one".to_string());
    app.push_message(Role::Assistant, "two".to_string());
    handle_key_event(Key::Char('j'), &mut app);
    assert_eq!(app.chat_selected, Some(0));
    assert!(!app.auto_scroll);
    handle_key_event(Key::Down, &mut app);
    assert_eq!(app.chat_selected, Some(1));
    handle_key_event(Key::Char('G'), &mut app);
    assert_eq!(app.chat_selected, Some(5));
    handle_key_event(Key::Char('j'), &mut app);
    assert_eq!(app.chat_selected, Some(5));
    handle_key_event(Key::Char('k'), &mut app);
    assert_eq!(app.chat_selected, Some(4));
    handle_key_event(Key::Char('g'), &mut app);
    assert_eq!(app.chat_selected, Some(0));
    handle_key_event(Key::Up, &mut app);
    assert_eq!(app.chat_selected, Some(0));
    app.update_terminal_dimensions(80, 9);
    handle_key_event(Key::PageDown, &mut app);
    assert_eq!(app.chat_selected, Some(3));
    handle_key_event(Key::PageDown, &mut app);
    assert_eq!(app.chat_selected, Some(5));
    handle_key_event(Key::PageUp, &mut app);
    assert_eq!(app.chat_selected, Some(2));
    handle_key_event(Key::PageUp, &mut app);
    assert_eq!(app.chat_selected, Some(0));
    app.chat_selected = None;
    handle_key_event(Key::Char('k'), &mut app);
    assert_eq!(app.chat_selected, Some(5));
    handle_key_event(Key::Char('i'), &mut app);
    assert_eq!(app.mode, AppMode::Insert);
    handle_key_event(Key::Esc, &mut app);
    app.input = "left".to_string();
    handle_key_event(Key::Char('o'), &mut app);
    assert_eq!((app.mode, app.input.as_str()), (AppMode::Insert, ""));
    handle_key_event(Key::Esc, &mut app);
    handle_key_event(Key::Char('?'), &mut app);
    assert_eq!(app.mode, AppMode::Help);
    handle_key_event(Key::Char('x'), &mut app);
    assert_eq!(app.mode, AppMode::Help);
    handle_key_event(Key::Char('?'), &mut app);
    assert_eq!(app.mode, AppMode::Normal);
}

#[test]
fn insert_mode_sends_messages() {
    let mut app = state();
    handle_key_event(Key::Char('i'), &mut app);
    assert!(matches!(handle_key_event(Key::Enter, &mut app), Effect::Nothing));
    type_text(&mut app, "hey!");
    handle_key_event(Key::Backspace, &mut app);
    assert_eq!(app.input, "hey");
    assert!(matches!(handle_key_event(Key::Enter, &mut app), Effect::SendChat(None)));
    assert_eq!(app.input, "");
    assert!(app.is_loading);
    let messages = app.current_messages();
    assert_eq!(messages.len(), 3);
    assert_eq!((messages[1].role, messages[1].content.as_str()), (Role::User, "hey"));
    assert_eq!((messages[2].role, messages[2].content.as_str()), (Role::Assistant, ""));
    assert_eq!(app.chat_selected, Some(4));
    type_text(&mut app, "again");
    assert!(matches!(handle_key_event(Key::Enter, &mut app), Effect::Nothing));
    assert_eq!(app.current_messages().len(), 3);
    app.on_chunk("Hel");
    app.on_chunk("lo");
    assert_eq!(app.current_messages()[2].content, "Hello");
    assert!(app.on_stream_done().is_empty());
    assert!(!app.is_loading);
    app.is_loading = true;
    app.on_stream_error("lost");
    assert_eq!(app.current_messages()[2].content, "Hello\n[STREAM ERROR: lost]");
    assert!(!app.is_loading);
    for _ in 0..10 {
        handle_key_event(Key::Backspace, &mut app);
    }
    assert_eq!(app.input, "");
}

#[test]
fn command_mode_commands() {
    let mut app = state();
    let mut run = |app: &mut AppState, command: &str| {
        app.mode = AppMode::Normal;
        handle_key_event(Key::Char(':'), app);
        assert_eq!(app.mode, AppMode::Command);
        type_text(app, command);
        assert_eq!(app.vim_command, command);
        let e = handle_key_event(Key::Enter, app);
        assert_eq!(app.vim_command, "");
        e
    };
    assert!(matches!(run(&mut app, "q"), Effect::Quit));
    assert!(matches!(run(&mut app, "wq"), Effect::Quit));
    assert!(matches!(run(&mut app, "w"), Effect::SaveSession));
    assert_eq!(app.mode, AppMode::Normal);
    assert!(matches!(run(&mut app, "n"), Effect::NewSession));
    assert!(matches!(run(&mut app, "c"), Effect::ClearSession(20)));
    assert!(matches!(run(&mut app, "m"), Effect::FetchModels));
    assert_eq!(app.mode, AppMode::ModelSelection);
    assert!(app.is_fetching_models);
    assert!(matches!(run(&mut app, "s"), Effect::Nothing));
    assert_eq!(app.mode, AppMode::SessionSelection);
    assert_eq!(app.session_selected, Some(1));
    assert!(matches!(run(&mut app, "a"), Effect::Nothing));
    assert_eq!(app.mode, AppMode::Agent);
    assert!(app.agent_mode);
    assert!(matches!(run(&mut app, "h"), Effect::Nothing));
    assert_eq!(app.mode, AppMode::Help);
    assert!(matches!(run(&mut app, "?"), Effect::Nothing));
    assert_eq!(app.mode, AppMode::Help);
    assert!(matches!(run(&mut app, "b3"), Effect::StoreSession(30)));
    assert_eq!(app.current_session_index, 2);
    assert_eq!(app.mode, AppMode::Normal);
    assert!(matches!(run(&mut app, "b9"), Effect::Nothing));
    assert!(matches!(run(&mut app, "bx"), Effect::Nothing));
    assert!(matches!(run(&mut app, "b"), Effect::Nothing));
    assert!(matches!(run(&mut app, "d1"), Effect::DeleteSession(10)));
    assert_eq!(app.current_session_index, 0);
    assert!(matches!(run(&mut app, "d"), Effect::DeleteSession(10)));
    assert!(matches!(run(&mut app, "d0"), Effect::Nothing));
    assert!(matches!(run(&mut app, "dd"), Effect::Nothing));
    assert!(matches!(run(&mut app, "zzz"), Effect::Nothing));
    assert!(matches!(run(&mut app, ""), Effect::Nothing));
    app.remove_current_session();
    app.remove_current_session();
    assert!(matches!(run(&mut app, "d"), Effect::ClearSession(30)));
    app.mode = AppMode::Command;
    type_text(&mut app, "ab");
    handle_key_event(Key::Backspace, &mut app);
    assert_eq!(app.vim_command, "a");
    handle_key_event(Key::Esc, &mut app);
    assert_eq!((app.mode, app.vim_command.as_str()), (AppMode::Normal, ""));
    assert!(matches!(app.execute_vim_command("q"), Effect::Nothing));
}

#[test]
fn selection_modes() {
    let mut app = state();
    app.mode = AppMode::ModelSelection;
    handle_key_event(Key::Down, &mut app);
    assert_eq!(app.model_selected, None);
    app.set_models(vec!["a".to_string(), "b".to_string()]);
    handle_key_event(Key::Char('j'), &mut app);
    assert_eq!(app.model_selected, Some(1));
    handle_key_event(Key::Char('k'), &mut app);
    assert_eq!(app.model_selected, Some(0));
    handle_key_event(Key::Up, &mut app);
    assert_eq!(app.model_selected, Some(1));
    match handle_key_event(Key::Enter, &mut app) {
        Effect::StoreModel(name) => assert_eq!(name, "b"),
        other => panic!("unexpected {:?}", other),
    }
    assert_eq!(app.mode, AppMode::Normal);
    app.mode = AppMode::ModelSelection;
    handle_key_event(Key::Char('q'), &mut app);
    assert_eq!(app.mode, AppMode::Normal);
    app.mode = AppMode::SessionSelection;
    handle_key_event(Key::Char('j'), &mut app);
    assert_eq!(app.session_selected, Some(2));
    assert!(matches!(handle_key_event(Key::Char('d'), &mut app), Effect::DeleteSession(20)));
    assert!(matches!(handle_key_event(Key::Delete, &mut app), Effect::DeleteSession(20)));
    assert!(matches!(handle_key_event(Key::Enter, &mut app), Effect::StoreSession(30)));
    assert_eq!((app.mode, app.current_session_index), (AppMode::Normal, 2));
    app.mode = AppMode::SessionSelection;
    app.session_selected = None;
    assert!(matches!(handle_key_event(Key::Enter, &mut app), Effect::Nothing));
    assert_eq!(app.mode, AppMode::Normal);
}

#[test]
fn visual_mode_keys() {
    let mut app = state();
    app.push_message(Role::User, "one".to_string());
    handle_key_event(Key::Char('v'), &mut app);
    assert_eq!(app.mode, AppMode::Normal);
    app.chat_selected = Some(1);
    handle_key_event(Key::Char('v'), &mut app);
    assert_eq!((app.mode, app.visual_start, app.visual_end), (AppMode::Visual, Some(1), Some(1)));
    handle_key_event(Key::Char('j'), &mut app);
    assert_eq!((app.chat_selected, app.visual_end), (Some(2), Some(2)));
    handle_key_event(Key::Char('G'), &mut app);
    assert_eq!((app.chat_selected, app.visual_end), (Some(3), Some(3)));
    handle_key_event(Key::Down, &mut app);
    assert_eq!((app.chat_selected, app.visual_end), (Some(3), Some(3)));
    handle_key_event(Key::Char('k'), &mut app);
    assert_eq!(app.visual_end, Some(2));
    handle_key_event(Key::Char('g'), &mut app);
    assert_eq!(app.visual_end, Some(0));
    handle_key_event(Key::Up, &mut app);
    assert_eq!(app.visual_end, Some(0));
    match handle_key_event(Key::Char('y'), &mut app) {
        Effect::Copy(text) => assert_eq!(text, "AI: New chat started. Ask me anything!"),
        other => panic!("unexpected {:?}", other),
    }
    assert_eq!((app.mode, app.visual_start, app.visual_end), (AppMode::Normal, None, None));
    app.mode = AppMode::Visual;
    handle_key_event(Key::Esc, &mut app);
    assert_eq!(app.mode, AppMode::Normal);
}

#[test]
fn agent_and_approval_keys() {
    let mut app = state();
    app.enter_agent_mode();
    app.agent_system_prompt = "SYS".to_string();
    type_text(&mut app, "  ");
    assert!(matches!(handle_key_event(Key::Enter, &mut app), Effect::Nothing));
    type_text(&mut app, "list files");
    match handle_key_event(Key::Enter, &mut app) {
        Effect::SendChat(Some(prompt)) => assert_eq!(prompt, "SYS"),
        other => panic!("unexpected {:?}", other),
    }
    assert_eq!(app.current_messages()[1].content, "  list files");
    app.on_chunk("Try:\n```bash\nls\nrm -rf x\npwd\n```");
    let commands = app.on_stream_done();
    assert_eq!(commands.len(), 3);
    app.review_commands(commands);
    assert_eq!(app.mode, AppMode::AgentApproval);
    assert_eq!(app.approval.cursor(), Some(0));
    handle_key_event(Key::Char('y'), &mut app);
    handle_key_event(Key::Char('j'), &mut app);
    handle_key_event(Key::Char('n'), &mut app);
    assert_eq!(app.approval.len(), 2);
    assert_eq!(app.approval.current().unwrap().command, "pwd");
    handle_key_event(Key::Char('k'), &mut app);
    assert_eq!(app.approval.cursor(), Some(0));
    handle_key_event(Key::Char('r'), &mut app);
    assert!(!app.approval.get(0).unwrap().approved);
    handle_key_event(Key::Char('a'), &mut app);
    handle_key_event(Key::Down, &mut app);
    handle_key_event(Key::Up, &mut app);
    match handle_key_event(Key::Char('x'), &mut app) {
        Effect::Execute(batch) => {
            assert_eq!(batch.len(), 2);
            assert_eq!((batch[0].index, batch[0].command.command.as_str()), (0, "ls"));
            assert_eq!((batch[1].index, batch[1].command.command.as_str()), (1, "pwd"));
        }
        other => panic!("unexpected {:?}", other),
    }
    assert_eq!(app.mode, AppMode::Agent);
    assert!(app.approval.is_empty());
    app.review_commands(vec![AgentCommand::new("ls".to_string(), CommandSource::Fenced)]);
    assert!(matches!(handle_key_event(Key::Enter, &mut app), Effect::Nothing));
    assert_eq!(app.status_message.as_deref(), Some("No commands approved for execution"));
    assert_eq!(app.mode, AppMode::Agent);
    app.review_commands(Vec::new());
    assert_eq!(app.mode, AppMode::Agent);
    app.review_commands(vec![AgentCommand::new("ls".to_string(), CommandSource::Fenced)]);
    handle_key_event(Key::Esc, &mut app);
    assert_eq!(app.mode, AppMode::Agent);
    assert!(app.approval.is_empty());
    handle_key_event(Key::Char('q'), &mut app);
    assert_eq!(app.mode, AppMode::Normal);
    assert!(!app.agent_mode);
    app.report_execution("ls", &Ok("a".to_string()));
    app.report_execution("ls", &Err("b".to_string()));
    let n = app.current_messages().len();
    assert_eq!(
        app.current_messages()[n - 2].content,
        "Command executed successfully:\n```\nls\n```\n\nOutput:\n```\na\n```"
    );
    assert_eq!(
        app.current_messages()[n - 1].content,
        "Command failed:\n```\nls\n```\n\nError:\n```\nb\n```"
    );
    app.on_models_error("refused");
    assert_eq!(
        app.current_messages().last().unwrap().content,
        "Error fetching models: refused. Is Ollama running?"
    );
}

#[test]
fn autonomous_mode_keys() {
    let mut app = state();
    app.mode = AppMode::Autonomous;
    type_text(&mut app, "find it");
    assert!(matches!(handle_key_event(Key::Enter, &mut app), Effect::Nothing));
    assert_eq!(app.input, "");
    app.autonomous_agent = Some(AutonomousAgent::new(SystemContext {
        current_dir: "/".to_string(),
        is_git_repo: false,
        git_branch: None,
        shell: "sh".to_string(),
        os: "Linux".to_string(),
        home_dir: None,
    }));
    type_text(&mut app, "find it");
    match handle_key_event(Key::Enter, &mut app) {
        Effect::Reason(prompt) => {
            assert!(prompt.contains("CURRENT GOAL:\nfind it\n"));
            assert_eq!(prompt, app.autonomous_agent.as_ref().unwrap().create_reasoning_prompt());
        }
        other => panic!("unexpected {:?}", other),
    }
    let agent = app.autonomous_agent.as_ref().unwrap();
    assert_eq!(agent.state, AgentState::Reasoning);
    assert_eq!(agent.goal.as_deref(), Some("find it"));
    assert!(app.is_loading);
    let n = app.current_messages().len();
    assert_eq!(app.current_messages()[n - 2].content, "find it");
    assert_eq!(
        app.current_messages()[n - 1].content,
        "🔍 Analyzing goal and planning first step..."
    );
    handle_key_event(Key::Char('q'), &mut app);
    assert_eq!(app.mode, AppMode::Normal);
    assert!(app.autonomous_agent.is_none());
    assert_eq!(app.current_messages().last().unwrap().content, "🛑 Autonomous mode stopped.");
}
