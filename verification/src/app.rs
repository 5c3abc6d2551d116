//! The state of the application, as far as it is plain data.
//!
//! Nothing here draws, stores or sends. Where a change of state goes with
//! work outside (a chat saved, a session deleted), the caller does that work
//! and then calls the method that changes the state.

use vstd::prelude::*;
use vstd::string::StringExecFns;
use crate::agent::Agent;
use crate::approval::ApprovalGate;
use crate::autonomous_agent::AutonomousAgent;
use crate::models::{ChatSession, Config, Message, Role};
use crate::strmap::distinct_keys;
use crate::text::{from_chars, strings, to_chars, trim, trimmed};
use crate::toolcall::{tool_call_views, tool_calls_of, ToolCall};

verus! {

/// What `textwrap::wrap` makes of a text at a width: its lines.
pub uninterp spec fn wrapped_lines(text: Seq<char>, width: nat) -> Seq<Seq<char>>;

/// `textwrap::wrap` breaks a text into lines that fit a width, with the
/// crate's default options. The lines depend on the text and the width
/// alone.
#[verifier::external_body]
pub(crate) fn wrap_text(text: &str, width: usize) -> (lines: Vec<String>)
    ensures
        strings(lines@) == wrapped_lines(text@, width as nat),
{
    textwrap::wrap(text, width).into_iter().map(|line| line.into_owned()).collect()
}

/// What the keys mean at the moment.
#[derive(Debug, Clone, Copy, PartialEq, Eq, Structural)]
pub enum AppMode {
    /// Moving about the chat.
    Normal,
    /// Typing a message.
    Insert,
    /// Typing a `:` command.
    Command,
    /// Selecting lines of the chat.
    Visual,
    ModelSelection,
    SessionSelection,
    /// Talking to the supervised agent.
    Agent,
    /// Reviewing the commands that the agent proposed.
    AgentApproval,
    /// Giving goals to the autonomous agent.
    Autonomous,
    Help,
}

/// Everything the interface shows and the keys change.
pub struct AppState {
    pub mode: AppMode,
    /// The command being typed in command mode.
    pub vim_command: String,
    /// Where the visual selection began.
    pub visual_start: Option<usize>,
    /// Where the visual selection ends.
    pub visual_end: Option<usize>,
    /// A note for the status bar, until the next key.
    pub status_message: Option<String>,
    pub sessions: Vec<ChatSession>,
    pub current_session_index: usize,
    /// The entry that is highlighted in the list of sessions.
    pub session_selected: Option<usize>,
    pub input: String,
    pub current_model: String,
    pub available_models: Vec<String>,
    /// The entry that is highlighted in the list of models.
    pub model_selected: Option<usize>,
    pub is_loading: bool,
    pub is_fetching_models: bool,
    pub scroll_offset: u16,
    pub target_scroll_offset: u16,
    pub auto_scroll: bool,
    pub terminal_width: u16,
    pub terminal_height: u16,
    /// The line that is highlighted in the chat.
    pub chat_selected: Option<usize>,
    pub ollama_base_url: String,
    pub config: Config,
    pub agent_mode: bool,
    /// The commands under review.
    pub approval: ApprovalGate,
    pub pending_tool_calls: Vec<ToolCall>,
    /// The tool call under review.
    pub command_approval_index: Option<usize>,
    pub agent_context: String,
    pub agent_system_prompt: String,
    pub autonomous_agent: Option<AutonomousAgent>,
}

/// The model name that stands for "none chosen yet".
pub open spec fn no_model() -> Seq<char> {
    "No model selected"@
}

/// The entry after `selected` in a list of `len` entries, the first one after
/// the last.
pub open spec fn next_index(selected: Option<usize>, len: nat) -> usize {
    match selected {
        Some(i) => if i >= len - 1 {
            0
        } else {
            (i + 1) as usize
        },
        None => 0,
    }
}

/// The entry before `selected` in a list of `len` entries, the last one
/// before the first.
pub open spec fn previous_index(selected: Option<usize>, len: nat) -> usize {
    match selected {
        Some(i) => if i == 0 {
            (len - 1) as usize
        } else {
            (i - 1) as usize
        },
        None => 0,
    }
}

/// Three quarters of the terminal's width: the width of the chat.
pub open spec fn chat_width_of(terminal_width: u16) -> u16 {
    ((terminal_width as int * 3) / 4) as u16
}

/// The width at which messages are wrapped in a chat of width `chat_width`.
pub open spec fn wrap_width_of(chat_width: u16) -> nat {
    if chat_width >= 6 {
        (chat_width - 6) as nat
    } else {
        0
    }
}

/// The number of lines that a message takes in the chat: its wrapped lines,
/// at least one, and an empty line after it unless it is empty itself.
pub open spec fn message_height(content: Seq<char>, wrap_width: nat) -> nat {
    let lines = wrapped_lines(content, wrap_width).len();
    (if lines < 1 {
        1
    } else {
        lines
    }) + (if content.len() > 0 {
        1nat
    } else {
        0nat
    })
}

/// The number of lines that some messages take together.
pub open spec fn messages_height(messages: Seq<Message>, wrap_width: nat) -> nat
    decreases messages.len(),
{
    if messages.len() == 0 {
        0
    } else {
        messages_height(messages.drop_last(), wrap_width) + message_height(
            messages.last().content@,
            wrap_width,
        )
    }
}

/// The number of lines that some messages take, as far as it can be counted.
pub open spec fn capped_height(messages: Seq<Message>, wrap_width: nat) -> usize {
    if messages_height(messages, wrap_width) > usize::MAX {
        usize::MAX
    } else {
        messages_height(messages, wrap_width) as usize
    }
}

/// The last of `total` lines, or `selected` where there is no line.
pub open spec fn bottom_selected(selected: Option<usize>, total: usize) -> Option<usize> {
    if total > 0 {
        Some((total - 1) as usize)
    } else {
        selected
    }
}

/// `after` differs from `before` in its sessions only, and there only in
/// the messages of the current session, which are `messages`.
pub open spec fn with_current_messages(before: AppState, after: AppState, messages: Seq<Message>)
    -> bool {
    let index = before.current_session_index as int;
    &&& after == (AppState { sessions: after.sessions, ..before })
    &&& after.sessions@.len() == before.sessions@.len()
    &&& forall|i: int|
        0 <= i < before.sessions@.len() && i != index ==> after.sessions@[i] == before.sessions@[i]
    &&& after.sessions@[index] == (ChatSession {
        messages: after.sessions@[index].messages,
        ..before.sessions@[index]
    })
    &&& after.sessions@[index].messages@ == messages
}

/// `after` is `before` with new messages at its end, which have the roles
/// and texts of `added`.
pub open spec fn appended(
    before: Seq<Message>,
    after: Seq<Message>,
    added: Seq<(Role, Seq<char>)>,
) -> bool {
    &&& after.len() == before.len() + added.len()
    &&& after.take(before.len() as int) == before
    &&& forall|i: int|
        0 <= i < added.len() ==> (#[trigger] after[before.len() + i]).role == added[i].0
            && after[before.len() + i].content@ == added[i].1
}

/// How the speaker of a message is written before its first line.
pub open spec fn speaker_prefix(role: Role) -> Seq<char> {
    match role {
        Role::User => "You: "@,
        Role::Assistant => "AI: "@,
    }
}

/// The wrapped lines `lines` of a message as the chat shows them from line
/// `upto` back: the first under the speaker's prefix, the others indented.
pub open spec fn shown_lines(role: Role, lines: Seq<Seq<char>>, upto: nat) -> Seq<Seq<char>>
    decreases upto,
{
    if upto == 0 || upto > lines.len() {
        Seq::empty()
    } else {
        shown_lines(role, lines, (upto - 1) as nat).push(
            if upto == 1 {
                speaker_prefix(role) + lines[0]
            } else {
                "     "@ + lines[upto - 1]
            },
        )
    }
}

/// The lines that a message takes in the chat, the empty line after it
/// included.
pub open spec fn message_lines(message: Message, wrap_width: nat) -> Seq<Seq<char>> {
    let wrapped = wrapped_lines(message.content@, wrap_width);
    let shown = shown_lines(message.role, wrapped, wrapped.len());
    if message.content@.len() > 0 {
        shown.push(Seq::empty())
    } else {
        shown
    }
}

/// The lines of a chat.
pub open spec fn chat_lines(messages: Seq<Message>, wrap_width: nat) -> Seq<Seq<char>>
    decreases messages.len(),
{
    if messages.len() == 0 {
        Seq::empty()
    } else {
        chat_lines(messages.drop_last(), wrap_width) + message_lines(messages.last(), wrap_width)
    }
}

/// The lines `from..=to` of `lines` among its first `upto`, each followed by a
/// line feed.
pub open spec fn lines_between(lines: Seq<Seq<char>>, from: nat, to: nat, upto: nat) -> Seq<char>
    decreases upto,
{
    if upto == 0 || upto > lines.len() {
        Seq::empty()
    } else {
        let before = lines_between(lines, from, to, (upto - 1) as nat);
        if from <= upto - 1 <= to {
            before + lines[upto - 1] + "\n"@
        } else {
            before
        }
    }
}

/// The text that a selection from line `a` to line `b`, in either order,
/// takes out of `lines`.
pub open spec fn selection_text(lines: Seq<Seq<char>>, a: usize, b: usize) -> Seq<char> {
    let from = if a <= b {
        a
    } else {
        b
    };
    let to = if a <= b {
        b
    } else {
        a
    };
    trimmed(lines_between(lines, from as nat, to as nat, lines.len()))
}

/// Where the cursor of a queue stands after the entry at `index` was taken
/// out and `len` entries are left.
pub open spec fn index_after_removal(index: usize, len: nat) -> Option<usize> {
    if len == 0 {
        None
    } else if index >= len {
        Some((len - 1) as usize)
    } else {
        Some(index)
    }
}

/// Three quarters of the terminal's width.
pub fn chat_width(terminal_width: u16) -> (w: u16)
    ensures
        w == chat_width_of(terminal_width),
{
    let wide: u32 = terminal_width as u32 * 3 / 4;
    wide as u16
}

/// The lines that `messages` take in a chat wrapped at `wrap_width`.
pub fn render_chat(messages: &Vec<Message>, wrap_width: usize) -> (r: Vec<String>)
    ensures
        strings(r@) == chat_lines(messages@, wrap_width as nat),
{
    let mut out: Vec<String> = Vec::new();
    let mut m: usize = 0;
    assert(messages@.take(0) == Seq::<Message>::empty());
    assert(strings(out@) == Seq::<Seq<char>>::empty());
    while m < messages.len()
        invariant
            m <= messages.len(),
            strings(out@) == chat_lines(messages@.take(m as int), wrap_width as nat),
        decreases messages.len() - m,
    {
        assert(messages@.take(m + 1).drop_last() == messages@.take(m as int));
        let message = &messages[m];
        let wrapped = wrap_text(message.content.as_str(), wrap_width);
        let ghost before = strings(out@);
        let ghost lines = strings(wrapped@);
        let mut i: usize = 0;
        assert(before + shown_lines(message.role, lines, 0) == before);
        while i < wrapped.len()
            invariant
                i <= wrapped.len(),
                lines == strings(wrapped@),
                strings(out@) == before + shown_lines(message.role, lines, i as nat),
            decreases wrapped.len() - i,
        {
            let mut line = String::new();
            if i == 0 {
                match message.role {
                    Role::User => {
                        line.append("You: ");
                    },
                    Role::Assistant => {
                        line.append("AI: ");
                    },
                }
            } else {
                line.append("     ");
            }
            line.append(wrapped[i].as_str());
            let ghost shown = strings(out@);
            out.push(line);
            assert(strings(out@) == shown.push(line@));
            assert(before + shown_lines(message.role, lines, i as nat).push(line@) == shown.push(
                line@,
            ));
            i += 1;
        }
        if message.content.as_str().unicode_len() > 0 {
            let ghost shown = strings(out@);
            let blank = String::new();
            out.push(blank);
            assert(strings(out@) == shown.push(Seq::empty()));
            assert(before + shown_lines(message.role, lines, lines.len()).push(Seq::empty())
                == shown.push(Seq::empty()));
        }
        m += 1;
    }
    assert(messages@.take(messages.len() as int) == messages@);
    out
}

/// The text that a selection from line `a` to line `b` takes out of `lines`.
pub fn select_lines(lines: &Vec<String>, a: usize, b: usize) -> (r: String)
    ensures
        r@ == selection_text(strings(lines@), a, b),
{
    let from = if a <= b {
        a
    } else {
        b
    };
    let to = if a <= b {
        b
    } else {
        a
    };
    let mut text = String::new();
    let mut i: usize = 0;
    while i < lines.len()
        invariant
            i <= lines.len(),
            text@ == lines_between(strings(lines@), from as nat, to as nat, i as nat),
        decreases lines.len() - i,
    {
        if from <= i && i <= to {
            text.append(lines[i].as_str());
            text.append("\n");
        }
        i += 1;
    }
    from_chars(&trim(&to_chars(text.as_str())))
}

impl AppState {
    /// There is a current session.
    pub open spec fn wf(&self) -> bool {
        self.current_session_index < self.sessions@.len()
    }

    /// The state in which the application starts: in normal mode, on the
    /// session that was current last, or on the first one where that is gone.
    pub fn new(config: Config, sessions: Vec<ChatSession>, current_model: String, last_session_id: i64) -> (state:
        AppState)
        requires
            sessions.len() > 0,
        ensures
            state.wf(),
            state.sessions == sessions,
            state.current_model == current_model,
            state.mode == AppMode::Normal,
            state.session_selected == Some(state.current_session_index),
            state.sessions@[state.current_session_index as int].id == last_session_id || (
            state.current_session_index == 0 && forall|i: int|
                0 <= i < sessions.len() ==> sessions@[i].id != last_session_id),
            forall|i: int|
                0 <= i < state.current_session_index ==> sessions@[i].id != last_session_id,
            state.ollama_base_url@ == crate::config::base_url(
                config.ollama_host@,
                config.ollama_port,
            ),
            state.config == config,
            state.auto_scroll,
            !state.is_loading && !state.is_fetching_models && !state.agent_mode,
            state.terminal_width == 80 && state.terminal_height == 24,
            state.scroll_offset == 0 && state.target_scroll_offset == 0,
            state.visual_start is None && state.visual_end is None,
            state.status_message is None && state.model_selected is None && state.chat_selected
                is None && state.command_approval_index is None && state.autonomous_agent is None,
            state.input@.len() == 0 && state.vim_command@.len() == 0,
            state.available_models@.len() == 0 && state.pending_tool_calls@.len() == 0,
            state.approval@.queue.len() == 0 && state.approval@.cursor is None,
    {
        let mut index: usize = 0;
        let mut i: usize = 0;
        let mut found = false;
        while i < sessions.len() && !found
            invariant
                i <= sessions.len(),
                sessions.len() > 0,
                forall|k: int| 0 <= k < i && !found ==> sessions@[k].id != last_session_id,
                found ==> index < sessions.len() && sessions@[index as int].id == last_session_id
                    && forall|k: int| 0 <= k < index ==> sessions@[k].id != last_session_id,
                !found ==> index == 0,
            decreases sessions.len() - i + (if found { 0int } else { 1int }),
        {
            if sessions[i].id == last_session_id {
                index = i;
                found = true;
            } else {
                i += 1;
            }
        }
        let ollama_base_url = config.server_url();
        AppState {
            mode: AppMode::Normal,
            vim_command: String::new(),
            visual_start: None,
            visual_end: None,
            status_message: None,
            sessions,
            current_session_index: index,
            session_selected: Some(index),
            input: String::new(),
            current_model,
            available_models: Vec::new(),
            model_selected: None,
            is_loading: false,
            is_fetching_models: false,
            scroll_offset: 0,
            target_scroll_offset: 0,
            auto_scroll: true,
            terminal_width: 80,
            terminal_height: 24,
            chat_selected: None,
            ollama_base_url,
            config,
            agent_mode: false,
            approval: ApprovalGate::new(),
            pending_tool_calls: Vec::new(),
            command_approval_index: None,
            agent_context: String::new(),
            agent_system_prompt: String::new(),
            autonomous_agent: None,
        }
    }

    /// The messages of the current session.
    pub fn current_messages(&self) -> (messages: &Vec<Message>)
        requires
            self.wf(),
        ensures
            *messages == self.sessions@[self.current_session_index as int].messages,
    {
        &self.sessions[self.current_session_index].messages
    }

    /// The identifier of the current session.
    pub fn current_session_id(&self) -> (id: i64)
        requires
            self.wf(),
        ensures
            id == self.sessions@[self.current_session_index as int].id,
    {
        self.sessions[self.current_session_index].id
    }

    /// The messages of the current session, as a sequence.
    pub open spec fn messages(&self) -> Seq<Message> {
        self.sessions@[self.current_session_index as int].messages@
    }

    /// The number of lines of the current session at the terminal's width.
    pub open spec fn total_lines(&self) -> usize {
        capped_height(self.messages(), wrap_width_of(chat_width_of(self.terminal_width)))
    }

    /// Appends a message to the current session.
    pub fn push_message(&mut self, role: Role, content: String)
        requires
            old(self).wf(),
        ensures
            final(self).wf(),
            with_current_messages(
                *old(self),
                *final(self),
                old(self).messages().push(Message { role, content }),
            ),
    {
        let index = self.current_session_index;
        let mut session = self.sessions.remove(index);
        session.messages.push(Message { role, content });
        self.sessions.insert(index, session);
    }

    /// Takes a session that was just stored as the current one.
    pub fn adopt_session(&mut self, session: ChatSession)
        requires
            old(self).sessions@.len() < usize::MAX,
        ensures
            final(self).wf(),
            *final(self) == (AppState {
                sessions: final(self).sessions,
                current_session_index: old(self).sessions@.len() as usize,
                session_selected: Some(old(self).sessions@.len() as usize),
                scroll_offset: 0,
                mode: AppMode::Normal,
                ..*old(self)
            }),
            final(self).sessions@ == old(self).sessions@.push(session),
    {
        self.sessions.push(session);
        self.current_session_index = self.sessions.len() - 1;
        self.session_selected = Some(self.current_session_index);
        self.scroll_offset = 0;
        self.mode = AppMode::Normal;
    }

    /// Empties the current session down to a note that it was cleared.
    pub fn clear_current_messages(&mut self)
        requires
            old(self).wf(),
        ensures
            final(self).wf(),
            with_current_messages(
                AppState { chat_selected: None, ..*old(self) },
                *final(self),
                final(self).messages(),
            ),
            final(self).messages().len() == 1,
            final(self).messages()[0].role == Role::Assistant,
            final(self).messages()[0].content@ == "History Cleared."@,
    {
        let index = self.current_session_index;
        let mut session = self.sessions.remove(index);
        session.messages = Vec::new();
        session.messages.push(
            Message { role: Role::Assistant, content: "History Cleared.".to_string() },
        );
        self.sessions.insert(index, session);
        self.chat_selected = None;
    }

    /// Takes the current session out of the list; the one that follows it
    /// becomes current, or the last one where none follows. The last session
    /// of all is never removed.
    pub fn remove_current_session(&mut self) -> (removed: Option<ChatSession>)
        requires
            old(self).wf(),
        ensures
            final(self).wf(),
            match removed {
                Some(session) => old(self).sessions@.len() > 1 && session == old(
                    self,
                ).sessions@[old(self).current_session_index as int] && final(self).sessions@
                    == old(self).sessions@.remove(old(self).current_session_index as int)
                    && final(self).current_session_index == (if old(self).current_session_index
                    >= old(self).sessions@.len() - 1 {
                    (old(self).sessions@.len() - 2) as usize
                } else {
                    old(self).current_session_index
                }) && *final(self) == (AppState {
                    sessions: final(self).sessions,
                    current_session_index: final(self).current_session_index,
                    session_selected: Some(final(self).current_session_index),
                    chat_selected: None,
                    ..*old(self)
                }),
                None => old(self).sessions@.len() == 1 && *final(self) == *old(self),
            },
    {
        if self.sessions.len() <= 1 {
            return None;
        }
        let session = self.sessions.remove(self.current_session_index);
        if self.current_session_index >= self.sessions.len() {
            self.current_session_index = self.sessions.len() - 1;
        }
        self.session_selected = Some(self.current_session_index);
        self.chat_selected = None;
        Some(session)
    }

    /// Highlights the next session of the list.
    pub fn next_session(&mut self)
        requires
            old(self).sessions@.len() > 0,
        ensures
            *final(self) == (AppState {
                session_selected: Some(
                    next_index(old(self).session_selected, old(self).sessions@.len()),
                ),
                ..*old(self)
            }),
    {
        let i: usize = match self.session_selected {
            Some(i) => if i >= self.sessions.len() - 1 {
                0
            } else {
                i + 1
            },
            None => 0,
        };
        self.session_selected = Some(i);
    }

    /// Highlights the session before.
    pub fn previous_session(&mut self)
        requires
            old(self).sessions@.len() > 0,
        ensures
            *final(self) == (AppState {
                session_selected: Some(
                    previous_index(old(self).session_selected, old(self).sessions@.len()),
                ),
                ..*old(self)
            }),
    {
        let i: usize = match self.session_selected {
            Some(i) => if i == 0 {
                self.sessions.len() - 1
            } else {
                i - 1
            },
            None => 0,
        };
        self.session_selected = Some(i);
    }

    /// Makes the highlighted session the current one, and gives its
    /// identifier; does nothing where no session of the list is highlighted.
    pub fn switch_to_selected_session(&mut self) -> (id: Option<i64>)
        ensures
            match old(self).session_selected {
                Some(selected) => if selected < old(self).sessions@.len() {
                    id == Some(old(self).sessions@[selected as int].id) && *final(self)
                        == (AppState {
                        current_session_index: selected,
                        chat_selected: None,
                        mode: AppMode::Normal,
                        ..*old(self)
                    })
                } else {
                    id is None && *final(self) == *old(self)
                },
                None => id is None && *final(self) == *old(self),
            },
            old(self).wf() ==> final(self).wf(),
    {
        match self.session_selected {
            Some(selected) => {
                if selected < self.sessions.len() {
                    self.current_session_index = selected;
                    self.chat_selected = None;
                    self.mode = AppMode::Normal;
                    Some(self.sessions[selected].id)
                } else {
                    None
                }
            },
            None => None,
        }
    }

    /// Makes the session with the number `number`, counted from one, the
    /// current one, and gives its identifier; does nothing where there is no
    /// such session.
    pub fn switch_to_session(&mut self, number: usize) -> (id: Option<i64>)
        ensures
            if 0 < number <= old(self).sessions@.len() {
                id == Some(old(self).sessions@[number - 1].id) && *final(self) == (AppState {
                    current_session_index: (number - 1) as usize,
                    session_selected: Some((number - 1) as usize),
                    chat_selected: None,
                    ..*old(self)
                })
            } else {
                id is None && *final(self) == *old(self)
            },
            old(self).wf() ==> final(self).wf(),
    {
        if number > 0 && number <= self.sessions.len() {
            self.current_session_index = number - 1;
            self.session_selected = Some(self.current_session_index);
            self.chat_selected = None;
            Some(self.sessions[number - 1].id)
        } else {
            None
        }
    }

    /// Highlights the next model of the list.
    pub fn next_model(&mut self)
        requires
            old(self).available_models@.len() > 0,
        ensures
            *final(self) == (AppState {
                model_selected: Some(
                    next_index(old(self).model_selected, old(self).available_models@.len()),
                ),
                ..*old(self)
            }),
    {
        let i: usize = match self.model_selected {
            Some(i) => if i >= self.available_models.len() - 1 {
                0
            } else {
                i + 1
            },
            None => 0,
        };
        self.model_selected = Some(i);
    }

    /// Highlights the model before.
    pub fn previous_model(&mut self)
        requires
            old(self).available_models@.len() > 0,
        ensures
            *final(self) == (AppState {
                model_selected: Some(
                    previous_index(old(self).model_selected, old(self).available_models@.len()),
                ),
                ..*old(self)
            }),
    {
        let i: usize = match self.model_selected {
            Some(i) => if i == 0 {
                self.available_models.len() - 1
            } else {
                i - 1
            },
            None => 0,
        };
        self.model_selected = Some(i);
    }

    /// Takes the highlighted model as the current one and returns to normal
    /// mode. Gives the model's name where there is one to take.
    pub fn confirm_model_selection(&mut self) -> (chosen: Option<String>)
        ensures
            match old(self).model_selected {
                Some(selected) => if selected < old(self).available_models@.len() {
                    chosen is Some && chosen->Some_0@ == old(self).available_models@[selected as int]@
                        && final(self).current_model@ == old(
                        self,
                    ).available_models@[selected as int]@ && *final(self) == (AppState {
                        current_model: final(self).current_model,
                        mode: AppMode::Normal,
                        ..*old(self)
                    })
                } else {
                    chosen is None && *final(self) == (AppState {
                        mode: AppMode::Normal,
                        ..*old(self)
                    })
                },
                None => chosen is None && *final(self) == (AppState {
                    mode: AppMode::Normal,
                    ..*old(self)
                }),
            },
    {
        self.mode = AppMode::Normal;
        match self.model_selected {
            Some(selected) => {
                if selected < self.available_models.len() {
                    self.current_model = self.available_models[selected].clone();
                    Some(self.current_model.clone())
                } else {
                    None
                }
            },
            None => None,
        }
    }

    /// Takes the list of models that the server offers. Where no model was
    /// chosen yet, the first of the list is.
    pub fn set_models(&mut self, models: Vec<String>)
        ensures
            final(self).available_models == models,
            !final(self).is_fetching_models,
            if models@.len() > 0 && old(self).current_model@ == no_model() {
                final(self).current_model@ == models@[0]@ && *final(self) == (AppState {
                    available_models: models,
                    is_fetching_models: false,
                    current_model: final(self).current_model,
                    model_selected: Some(0),
                    ..*old(self)
                })
            } else {
                *final(self) == (AppState {
                    available_models: models,
                    is_fetching_models: false,
                    ..*old(self)
                })
            },
    {
        self.is_fetching_models = false;
        self.available_models = models;
        if self.available_models.len() > 0 && crate::text::equal(
            self.current_model.as_str(),
            "No model selected",
        ) {
            self.current_model = self.available_models[0].clone();
            self.model_selected = Some(0);
        }
    }

    /// Records the size of the terminal.
    pub fn update_terminal_dimensions(&mut self, width: u16, height: u16)
        ensures
            *final(self) == (AppState {
                terminal_width: width,
                terminal_height: height,
                ..*old(self)
            }),
    {
        self.terminal_width = width;
        self.terminal_height = height;
    }

    /// The number of lines that the current session takes in a chat of width
    /// `chat_width`, or the greatest number there is where it takes more.
    pub fn calculate_total_message_lines(&self, chat_width: u16) -> (total: usize)
        requires
            self.wf(),
        ensures
            total == capped_height(self.messages(), wrap_width_of(chat_width)),
    {
        let messages = self.current_messages();
        let wrap_width: usize = chat_width.saturating_sub(6) as usize;
        let mut total: usize = 0;
        let mut m: usize = 0;
        assert(messages@.take(0) == Seq::<Message>::empty());
        while m < messages.len()
            invariant
                m <= messages.len(),
                wrap_width == wrap_width_of(chat_width),
                total == capped_height(messages@.take(m as int), wrap_width as nat),
            decreases messages.len() - m,
        {
            assert(messages@.take(m + 1).drop_last() == messages@.take(m as int));
            let wrapped = wrap_text(messages[m].content.as_str(), wrap_width);
            let lines: usize = if wrapped.len() < 1 {
                1
            } else {
                wrapped.len()
            };
            total = total.saturating_add(lines);
            if messages[m].content.as_str().unicode_len() > 0 {
                total = total.saturating_add(1);
            }
            m += 1;
        }
        assert(messages@.take(messages.len() as int) == messages@);
        total
    }

    /// The number of lines of the current session at the terminal's width.
    pub fn count_lines(&self) -> (total: usize)
        requires
            self.wf(),
        ensures
            total == self.total_lines(),
    {
        self.calculate_total_message_lines(chat_width(self.terminal_width))
    }

    /// Highlights the last line of the chat, where following the chat is on
    /// and the chat has a line.
    pub fn auto_scroll_to_bottom(&mut self, chat_height: u16, chat_width: u16)
        requires
            old(self).wf(),
        ensures
            *final(self) == (AppState {
                chat_selected: if old(self).auto_scroll {
                    bottom_selected(
                        old(self).chat_selected,
                        capped_height(old(self).messages(), wrap_width_of(chat_width)),
                    )
                } else {
                    old(self).chat_selected
                },
                ..*old(self)
            }),
    {
        if !self.auto_scroll {
            return ;
        }
        let total = self.calculate_total_message_lines(chat_width);
        if total > 0 {
            self.chat_selected = Some(total - 1);
        }
    }

    /// Follows the chat to its last line, at the width of the terminal.
    pub fn trigger_auto_scroll(&mut self)
        requires
            old(self).wf(),
        ensures
            *final(self) == (AppState {
                chat_selected: if old(self).auto_scroll {
                    bottom_selected(old(self).chat_selected, old(self).total_lines())
                } else {
                    old(self).chat_selected
                },
                ..*old(self)
            }),
    {
        if self.auto_scroll {
            let width = chat_width(self.terminal_width);
            let height = self.terminal_height.saturating_sub(6);
            self.auto_scroll_to_bottom(height, width);
        }
    }

    /// Follows the chat to its last line while an answer streams in.
    pub fn trigger_auto_scroll_aggressive(&mut self)
        requires
            old(self).wf(),
        ensures
            *final(self) == (AppState {
                chat_selected: if old(self).auto_scroll {
                    bottom_selected(old(self).chat_selected, old(self).total_lines())
                } else {
                    old(self).chat_selected
                },
                ..*old(self)
            }),
    {
        if self.auto_scroll {
            let total = self.count_lines();
            if total > 0 {
                self.chat_selected = Some(total - 1);
            }
        }
    }

    /// Whether the list of models is awaited and empty.
    pub fn should_fetch_models(&self) -> (b: bool)
        ensures
            b == (self.mode == AppMode::ModelSelection && self.is_fetching_models
                && self.available_models@.len() == 0),
    {
        self.mode == AppMode::ModelSelection && self.is_fetching_models
            && self.available_models.len() == 0
    }

    /// Begins a visual selection at the highlighted line of the chat; does
    /// nothing where none is highlighted.
    pub fn start_visual_selection(&mut self)
        ensures
            *final(self) == (match old(self).chat_selected {
                Some(line) => AppState {
                    visual_start: Some(line),
                    visual_end: Some(line),
                    mode: AppMode::Visual,
                    ..*old(self)
                },
                None => *old(self),
            }),
    {
        match self.chat_selected {
            Some(line) => {
                self.visual_start = Some(line);
                self.visual_end = Some(line);
                self.mode = AppMode::Visual;
            },
            None => {},
        }
    }

    /// Moves the end of the visual selection to `line`, where a selection has
    /// begun.
    pub fn update_visual_selection(&mut self, line: usize)
        ensures
            *final(self) == (if old(self).visual_start is Some {
                AppState { visual_end: Some(line), ..*old(self) }
            } else {
                *old(self)
            }),
    {
        if self.visual_start.is_some() {
            self.visual_end = Some(line);
        }
    }

    /// The text of the lines that are selected, as the chat shows them, without
    /// blanks at either end; empty where nothing is selected.
    pub fn get_selected_text(&self) -> (text: String)
        requires
            self.wf(),
        ensures
            text@ == (match (self.visual_start, self.visual_end) {
                (Some(a), Some(b)) => selection_text(
                    chat_lines(self.messages(), wrap_width_of(chat_width_of(self.terminal_width))),
                    a,
                    b,
                ),
                _ => Seq::empty(),
            }),
    {
        match (self.visual_start, self.visual_end) {
            (Some(a), Some(b)) => {
                let width = chat_width(self.terminal_width);
                let lines = render_chat(self.current_messages(), width.saturating_sub(6) as usize);
                select_lines(&lines, a, b)
            },
            _ => String::new(),
        }
    }

    /// Ends the visual selection.
    pub fn clear_visual_selection(&mut self)
        ensures
            *final(self) == (AppState {
                visual_start: None,
                visual_end: None,
                mode: AppMode::Normal,
                ..*old(self)
            }),
    {
        self.visual_start = None;
        self.visual_end = None;
        self.mode = AppMode::Normal;
    }

    /// Puts a note on the status bar.
    pub fn set_status_message(&mut self, message: String)
        ensures
            *final(self) == (AppState { status_message: Some(message), ..*old(self) }),
    {
        self.status_message = Some(message);
    }

    /// Takes the note off the status bar.
    pub fn clear_status_message(&mut self)
        ensures
            *final(self) == (AppState { status_message: None, ..*old(self) }),
    {
        self.status_message = None;
    }

    /// Turns to the supervised agent.
    pub fn enter_agent_mode(&mut self)
        ensures
            *final(self) == (AppState {
                mode: AppMode::Agent,
                agent_mode: true,
                status_message: final(self).status_message,
                ..*old(self)
            }),
            final(self).status_message is Some,
            final(self).status_message->Some_0@
                == "Agent mode activated - AI has access to system tools"@,
    {
        self.mode = AppMode::Agent;
        self.agent_mode = true;
        self.status_message = Some(
            "Agent mode activated - AI has access to system tools".to_string(),
        );
    }

    /// Leaves the supervised agent; the tool calls that waited are dropped.
    pub fn exit_agent_mode(&mut self)
        ensures
            *final(self) == (AppState {
                mode: AppMode::Normal,
                agent_mode: false,
                pending_tool_calls: final(self).pending_tool_calls,
                command_approval_index: None,
                status_message: final(self).status_message,
                ..*old(self)
            }),
            final(self).pending_tool_calls@.len() == 0,
            final(self).status_message is Some,
            final(self).status_message->Some_0@ == "Agent mode deactivated"@,
    {
        self.mode = AppMode::Normal;
        self.agent_mode = false;
        self.pending_tool_calls = Vec::new();
        self.command_approval_index = None;
        self.status_message = Some("Agent mode deactivated".to_string());
    }

    /// Whether tool calls wait for review.
    pub fn has_pending_tool_calls(&self) -> (b: bool)
        ensures
            b == (self.pending_tool_calls@.len() > 0),
    {
        self.pending_tool_calls.len() > 0
    }

    /// The tool call under review.
    pub fn get_current_tool_call(&self) -> (call: Option<&ToolCall>)
        ensures
            match self.command_approval_index {
                Some(index) => if index < self.pending_tool_calls@.len() {
                    call == Some(&self.pending_tool_calls@[index as int])
                } else {
                    call is None
                },
                None => call is None,
            },
    {
        match self.command_approval_index {
            Some(index) => if index < self.pending_tool_calls.len() {
                Some(&self.pending_tool_calls[index])
            } else {
                None
            },
            None => None,
        }
    }

    /// Takes the tool call under review out of the queue, for execution.
    pub fn approve_current_tool_call(&mut self) -> (call: Option<ToolCall>)
        ensures
            match old(self).command_approval_index {
                Some(index) => if index < old(self).pending_tool_calls@.len() {
                    call == Some(old(self).pending_tool_calls@[index as int])
                        && final(self).pending_tool_calls@ == old(self).pending_tool_calls@.remove(
                        index as int,
                    ) && *final(self) == (AppState {
                        pending_tool_calls: final(self).pending_tool_calls,
                        command_approval_index: index_after_removal(
                            index,
                            final(self).pending_tool_calls@.len(),
                        ),
                        ..*old(self)
                    })
                } else {
                    call is None && *final(self) == *old(self)
                },
                None => call is None && *final(self) == *old(self),
            },
    {
        match self.command_approval_index {
            Some(index) => {
                if index < self.pending_tool_calls.len() {
                    let call = self.pending_tool_calls.remove(index);
                    self.command_approval_index = if self.pending_tool_calls.len() == 0 {
                        None
                    } else if index >= self.pending_tool_calls.len() {
                        Some(self.pending_tool_calls.len() - 1)
                    } else {
                        Some(index)
                    };
                    Some(call)
                } else {
                    None
                }
            },
            None => None,
        }
    }

    /// Takes the tool call under review out of the queue, for good.
    pub fn reject_current_tool_call(&mut self)
        ensures
            match old(self).command_approval_index {
                Some(index) => if index < old(self).pending_tool_calls@.len() {
                    final(self).pending_tool_calls@ == old(self).pending_tool_calls@.remove(
                        index as int,
                    ) && *final(self) == (AppState {
                        pending_tool_calls: final(self).pending_tool_calls,
                        command_approval_index: index_after_removal(
                            index,
                            final(self).pending_tool_calls@.len(),
                        ),
                        ..*old(self)
                    })
                } else {
                    *final(self) == *old(self)
                },
                None => *final(self) == *old(self),
            },
    {
        let _ = self.approve_current_tool_call();
    }

    /// Queues tool calls for review; the first of the queue comes under
    /// review where none was.
    pub fn add_tool_calls(&mut self, tool_calls: Vec<ToolCall>)
        ensures
            final(self).pending_tool_calls@ == old(self).pending_tool_calls@ + tool_calls@,
            *final(self) == (AppState {
                pending_tool_calls: final(self).pending_tool_calls,
                command_approval_index: if old(self).command_approval_index is None
                    && final(self).pending_tool_calls@.len() > 0 {
                    Some(0)
                } else {
                    old(self).command_approval_index
                },
                ..*old(self)
            }),
    {
        let mut tool_calls = tool_calls;
        self.pending_tool_calls.append(&mut tool_calls);
        if self.command_approval_index.is_none() && self.pending_tool_calls.len() > 0 {
            self.command_approval_index = Some(0);
        }
    }

    /// The tool calls that an answer of the model holds.
    pub fn parse_agent_response(&self, response: &str) -> (calls: Vec<ToolCall>)
        ensures
            tool_call_views(calls@) == tool_calls_of(response@),
            forall|i: int| 0 <= i < calls.len() ==> distinct_keys(#[trigger] calls@[i].args@),
    {
        Agent::parse_tool_calls(response)
    }
}

} // verus!
