//! What the keys do.
//!
//! A key changes the state at once. Where it also asks for work outside (a
//! message sent, a session stored, commands run), the work is named in the
//! `Effect` that is returned, and the caller does it.

use vstd::prelude::*;
use crate::app::{
    appended, bottom_selected, chat_lines, chat_width_of, selection_text, with_current_messages,
    wrap_width_of, AppMode, AppState,
};
use crate::autonomous_agent::{reasoning_prompt, AgentState, AgentView};
use crate::text::{has_prefix, slice, starts_with};
use crate::approval::{approved_batch, dispatch_views, Dispatch};
use crate::models::{Message, Role};
use crate::text::{equal, to_chars, trim, trimmed};

verus! {

/// A key of the keyboard, as far as the application tells keys apart.
#[derive(Debug, Clone, Copy, PartialEq, Eq, Structural)]
pub enum Key {
    Char(char),
    Enter,
    Esc,
    Backspace,
    Delete,
    Up,
    Down,
    PageUp,
    PageDown,
    Other,
}

/// The work outside that a key asks for.
#[derive(Debug)]
pub enum Effect {
    /// None.
    Nothing,
    /// Leave the application.
    Quit,
    /// Send the current session to the model, under the system prompt given.
    SendChat(Option<String>),
    /// Store the current session.
    SaveSession,
    /// Make a new session, store it, and hand it to `adopt_session`.
    NewSession,
    /// Delete the messages of the session with this identifier from the store,
    /// then call `clear_current_messages`.
    ClearSession(i64),
    /// Delete the session with this identifier from the store, then call
    /// `remove_current_session`.
    DeleteSession(i64),
    /// Store this identifier as that of the current session.
    StoreSession(i64),
    /// Store this name as that of the current model.
    StoreModel(String),
    /// Ask the server for its models.
    FetchModels,
    /// Put this text on the clipboard.
    Copy(String),
    /// Run these commands.
    Execute(Vec<Dispatch>),
    /// Ask the model for the next action with this prompt.
    Reason(String),
}

/// The number of lines of a page of the chat.
pub open spec fn page_size(terminal_height: u16) -> usize {
    if terminal_height >= 6 {
        (terminal_height - 6) as usize
    } else {
        0
    }
}

/// One line down in a chat of `total` lines.
pub open spec fn line_down(selected: Option<usize>, total: usize) -> Option<usize> {
    match selected {
        Some(i) => if i + 1 < total {
            Some((i + 1) as usize)
        } else {
            Some(i)
        },
        None => if total > 0 {
            Some(0)
        } else {
            None
        },
    }
}

/// One line up in a chat of `total` lines.
pub open spec fn line_up(selected: Option<usize>, total: usize) -> Option<usize> {
    match selected {
        Some(i) => if i > 0 {
            Some((i - 1) as usize)
        } else {
            Some(i)
        },
        None => if total > 0 {
            Some((total - 1) as usize)
        } else {
            None
        },
    }
}

/// To the last of `total` lines, where there is one.
pub open spec fn to_bottom(selected: Option<usize>, total: usize) -> Option<usize> {
    if total > 0 {
        Some((total - 1) as usize)
    } else {
        selected
    }
}

/// A page up.
pub open spec fn page_up(selected: Option<usize>, page: usize) -> Option<usize> {
    match selected {
        Some(i) => if i >= page {
            Some((i - page) as usize)
        } else {
            Some(0)
        },
        None => None,
    }
}

/// A page down in a chat of `total` lines.
pub open spec fn page_down(selected: Option<usize>, page: usize, total: usize) -> Option<usize> {
    match selected {
        Some(i) => {
            let last: int = if total > 0 {
                total - 1
            } else {
                0
            };
            if i + page < last {
                Some((i + page) as usize)
            } else {
                Some(last as usize)
            }
        },
        None => None,
    }
}

/// Where the highlighted line of the chat goes on a key that moves it, and
/// whether the key does move it.
pub open spec fn moved_line(selected: Option<usize>, key: Key, total: usize, page: usize) -> Option<
    Option<usize>,
> {
    if key == Key::Char('j') || key == Key::Down {
        Some(line_down(selected, total))
    } else if key == Key::Char('k') || key == Key::Up {
        Some(line_up(selected, total))
    } else if key == Key::Char('g') {
        Some(Some(0usize))
    } else if key == Key::Char('G') {
        Some(to_bottom(selected, total))
    } else if key == Key::PageUp {
        Some(page_up(selected, page))
    } else if key == Key::PageDown {
        Some(page_down(selected, page, total))
    } else {
        None
    }
}

/// Whether a key that moves the highlighted line also stops the chat from
/// following its end.
pub open spec fn stops_following(key: Key) -> bool {
    key != Key::Char('g') && key != Key::Char('G')
}

fn move_line(selected: Option<usize>, key: Key, total: usize, page: usize) -> (r: Option<
    Option<usize>,
>)
    ensures
        r == moved_line(selected, key, total, page),
{
    match key {
        Key::Char(c) => {
            if c == 'j' {
                Some(down(selected, total))
            } else if c == 'k' {
                Some(up(selected, total))
            } else if c == 'g' {
                Some(Some(0))
            } else if c == 'G' {
                Some(
                    if total > 0 {
                        Some(total - 1)
                    } else {
                        selected
                    },
                )
            } else {
                None
            }
        },
        Key::Down => Some(down(selected, total)),
        Key::Up => Some(up(selected, total)),
        Key::PageUp => Some(
            match selected {
                Some(i) => Some(i.saturating_sub(page)),
                None => None,
            },
        ),
        Key::PageDown => Some(
            match selected {
                Some(i) => {
                    let last = total.saturating_sub(1);
                    let target = i.saturating_add(page);
                    if target < last {
                        Some(target)
                    } else {
                        Some(last)
                    }
                },
                None => None,
            },
        ),
        _ => None,
    }
}

fn down(selected: Option<usize>, total: usize) -> (r: Option<usize>)
    ensures
        r == line_down(selected, total),
{
    match selected {
        Some(i) => if i < total.saturating_sub(1) {
            Some(i + 1)
        } else {
            Some(i)
        },
        None => if total > 0 {
            Some(0)
        } else {
            None
        },
    }
}

fn up(selected: Option<usize>, total: usize) -> (r: Option<usize>)
    ensures
        r == line_up(selected, total),
{
    match selected {
        Some(i) => if i > 0 {
            Some(i - 1)
        } else {
            Some(i)
        },
        None => if total > 0 {
            Some(total - 1)
        } else {
            None
        },
    }
}

/// The line to which a key moves the highlighted line, and with it the end
/// of the selection, in visual mode. A key that would leave the chat does not
/// move.
pub open spec fn visual_target(selected: Option<usize>, key: Key, total: usize, page: usize)
    -> Option<usize> {
    if key == Key::Char('j') || key == Key::Down {
        match selected {
            Some(i) => if i + 1 < total {
                Some((i + 1) as usize)
            } else {
                None
            },
            None => None,
        }
    } else if key == Key::Char('k') || key == Key::Up {
        match selected {
            Some(i) => if i > 0 {
                Some((i - 1) as usize)
            } else {
                None
            },
            None => None,
        }
    } else if key == Key::Char('g') {
        Some(0)
    } else if key == Key::Char('G') {
        if total > 0 {
            Some((total - 1) as usize)
        } else {
            None
        }
    } else if key == Key::PageUp {
        page_up(selected, page)
    } else if key == Key::PageDown {
        page_down(selected, page, total)
    } else {
        None
    }
}

fn visual_move(selected: Option<usize>, key: Key, total: usize, page: usize) -> (r: Option<usize>)
    ensures
        r == visual_target(selected, key, total, page),
{
    match key {
        Key::Char(c) => {
            if c == 'j' {
                step_down(selected, total)
            } else if c == 'k' {
                step_up(selected)
            } else if c == 'g' {
                Some(0)
            } else if c == 'G' {
                if total > 0 {
                    Some(total - 1)
                } else {
                    None
                }
            } else {
                None
            }
        },
        Key::Down => step_down(selected, total),
        Key::Up => step_up(selected),
        Key::PageUp => match move_line(selected, key, total, page) {
            Some(line) => line,
            None => None,
        },
        Key::PageDown => match move_line(selected, key, total, page) {
            Some(line) => line,
            None => None,
        },
        _ => None,
    }
}

fn step_down(selected: Option<usize>, total: usize) -> (r: Option<usize>)
    ensures
        r == visual_target(selected, Key::Down, total, 0),
{
    match selected {
        Some(i) => if i < total.saturating_sub(1) {
            Some(i + 1)
        } else {
            None
        },
        None => None,
    }
}

fn step_up(selected: Option<usize>) -> (r: Option<usize>)
    ensures
        r == visual_target(selected, Key::Up, 0, 0),
{
    match selected {
        Some(i) => if i > 0 {
            Some(i - 1)
        } else {
            None
        },
        None => None,
    }
}

/// What a key does in normal mode. Every key takes the note off the status
/// bar.
pub open spec fn normal_step(o: AppState, key: Key, n: AppState, e: Effect) -> bool {
    let c = AppState { status_message: None, ..o };
    if key == Key::Char('q') {
        n == c && e is Quit
    } else if key == Key::Char('i') {
        n == (AppState { mode: AppMode::Insert, ..c }) && e is Nothing
    } else if key == Key::Char('o') || key == Key::Char('O') {
        n == (AppState { mode: AppMode::Insert, input: n.input, ..c }) && n.input@.len() == 0
            && e is Nothing
    } else if key == Key::Char(':') {
        n == (AppState { mode: AppMode::Command, vim_command: n.vim_command, ..c })
            && n.vim_command@.len() == 0 && e is Nothing
    } else if key == Key::Char('?') {
        n == (AppState { mode: AppMode::Help, ..c }) && e is Nothing
    } else if key == Key::Char('v') {
        e is Nothing && n == (match o.chat_selected {
            Some(line) => AppState {
                visual_start: Some(line),
                visual_end: Some(line),
                mode: AppMode::Visual,
                ..c
            },
            None => c,
        })
    } else {
        e is Nothing && (match moved_line(
            o.chat_selected,
            key,
            o.total_lines(),
            page_size(o.terminal_height),
        ) {
            Some(line) => n == (AppState {
                chat_selected: line,
                auto_scroll: o.auto_scroll && !stops_following(key),
                ..c
            }),
            None => n == c,
        })
    }
}

/// What a key does in visual mode: it ends the selection, copies it, or
/// moves its end with the highlighted line.
pub open spec fn visual_step(o: AppState, key: Key, n: AppState, e: Effect) -> bool {
    let ended = AppState { visual_start: None, visual_end: None, mode: AppMode::Normal, ..o };
    if key == Key::Esc || key == Key::Char('q') {
        n == ended && e is Nothing
    } else if key == Key::Char('y') {
        n == ended && e is Copy && e->Copy_0@ == (match (o.visual_start, o.visual_end) {
            (Some(a), Some(b)) => selection_text(
                chat_lines(
                    o.messages(),
                    wrap_width_of(chat_width_of(o.terminal_width)),
                ),
                a,
                b,
            ),
            _ => Seq::empty(),
        })
    } else {
        e is Nothing && (match visual_target(
            o.chat_selected,
            key,
            o.total_lines(),
            page_size(o.terminal_height),
        ) {
            Some(line) => n == (AppState {
                chat_selected: Some(line),
                visual_end: if o.visual_start is Some {
                    Some(line)
                } else {
                    o.visual_end
                },
                ..o
            }),
            None => n == o,
        })
    }
}

/// What a key does while the help is shown.
pub open spec fn help_step(o: AppState, key: Key, n: AppState, e: Effect) -> bool {
    e is Nothing && n == (if key == Key::Char('q') || key == Key::Esc || key == Key::Char('?') {
        AppState { mode: AppMode::Normal, ..o }
    } else {
        o
    })
}

/// The state after the user's text went to the model: the text and an empty
/// answer are the last messages of the current session, the input is empty,
/// and the chat follows its end while the answer is awaited.
pub open spec fn sent(o: AppState, n: AppState, text: Seq<char>) -> bool {
    &&& with_current_messages(
        AppState {
            input: n.input,
            is_loading: true,
            auto_scroll: true,
            chat_selected: n.chat_selected,
            ..o
        },
        n,
        n.messages(),
    )
    &&& n.input@.len() == 0
    &&& appended(
        o.messages(),
        n.messages(),
        seq![(Role::User, text), (Role::Assistant, Seq::empty())],
    )
    &&& n.chat_selected == bottom_selected(o.chat_selected, n.total_lines())
}

/// What a key does in insert mode.
pub open spec fn insert_step(o: AppState, key: Key, n: AppState, e: Effect) -> bool {
    match key {
        Key::Esc => n == (AppState { mode: AppMode::Normal, ..o }) && e is Nothing,
        Key::Char(c) => n == (AppState { input: n.input, ..o }) && n.input@ == o.input@.push(c)
            && e is Nothing,
        Key::Backspace => n == (AppState { input: n.input, ..o }) && n.input@ == (if o.input@.len()
            > 0 {
            o.input@.drop_last()
        } else {
            o.input@
        }) && e is Nothing,
        Key::Enter => if o.input@.len() > 0 && !o.is_loading {
            sent(o, n, o.input@) && e is SendChat && e->SendChat_0 is None
        } else {
            n == o && e is Nothing
        },
        _ => n == o && e is Nothing,
    }
}

impl AppState {
    /// Puts the text and an empty answer at the end of the current session,
    /// and waits for the model.
    fn send(&mut self, text: String)
        requires
            old(self).wf(),
        ensures
            final(self).wf(),
            sent(*old(self), *final(self), text@),
    {
        let ghost before = old(self).messages();
        self.input = String::new();
        self.push_message(Role::User, text);
        self.push_message(Role::Assistant, String::new());
        self.is_loading = true;
        self.auto_scroll = true;
        self.trigger_auto_scroll();
        assert(self.messages().take(before.len() as int) == before);
        assert(self.messages()[before.len() as int + 0].content@ == text@);
        assert(self.messages()[before.len() as int + 1].role == Role::Assistant);
    }

    fn normal_key(&mut self, key: Key) -> (e: Effect)
        requires
            old(self).wf(),
        ensures
            final(self).wf(),
            normal_step(*old(self), key, *final(self), e),
    {
        self.status_message = None;
        match key {
            Key::Char(c) => {
                if c == 'q' {
                    return Effect::Quit;
                } else if c == 'i' {
                    self.mode = AppMode::Insert;
                    return Effect::Nothing;
                } else if c == 'o' || c == 'O' {
                    self.mode = AppMode::Insert;
                    self.input = String::new();
                    return Effect::Nothing;
                } else if c == ':' {
                    self.mode = AppMode::Command;
                    self.vim_command = String::new();
                    return Effect::Nothing;
                } else if c == '?' {
                    self.mode = AppMode::Help;
                    return Effect::Nothing;
                } else if c == 'v' {
                    self.start_visual_selection();
                    return Effect::Nothing;
                }
            },
            _ => {},
        }
        let total = self.count_lines();
        let page = self.terminal_height.saturating_sub(6) as usize;
        match move_line(self.chat_selected, key, total, page) {
            Some(line) => {
                self.chat_selected = line;
                match key {
                    Key::Char(c) => {
                        if c != 'g' && c != 'G' {
                            self.auto_scroll = false;
                        }
                    },
                    _ => {
                        self.auto_scroll = false;
                    },
                }
            },
            None => {},
        }
        Effect::Nothing
    }

    fn visual_key(&mut self, key: Key) -> (e: Effect)
        requires
            old(self).wf(),
        ensures
            final(self).wf(),
            visual_step(*old(self), key, *final(self), e),
    {
        match key {
            Key::Esc => {
                self.clear_visual_selection();
                return Effect::Nothing;
            },
            Key::Char(c) => {
                if c == 'q' {
                    self.clear_visual_selection();
                    return Effect::Nothing;
                } else if c == 'y' {
                    let text = self.get_selected_text();
                    self.clear_visual_selection();
                    return Effect::Copy(text);
                }
            },
            _ => {},
        }
        let total = self.count_lines();
        let page = self.terminal_height.saturating_sub(6) as usize;
        match visual_move(self.chat_selected, key, total, page) {
            Some(line) => {
                self.chat_selected = Some(line);
                self.update_visual_selection(line);
            },
            None => {},
        }
        Effect::Nothing
    }

    fn help_key(&mut self, key: Key) -> (e: Effect)
        ensures
            help_step(*old(self), key, *final(self), e),
    {
        match key {
            Key::Esc => {
                self.mode = AppMode::Normal;
            },
            Key::Char(c) => {
                if c == 'q' || c == '?' {
                    self.mode = AppMode::Normal;
                }
            },
            _ => {},
        }
        Effect::Nothing
    }

    fn insert_key(&mut self, key: Key) -> (e: Effect)
        requires
            old(self).wf(),
        ensures
            final(self).wf(),
            insert_step(*old(self), key, *final(self), e),
    {
        match key {
            Key::Esc => {
                self.mode = AppMode::Normal;
                Effect::Nothing
            },
            Key::Char(c) => {
                self.input.push(c);
                Effect::Nothing
            },
            Key::Backspace => {
                let _ = self.input.pop();
                Effect::Nothing
            },
            Key::Enter => {
                if self.input.as_str().unicode_len() > 0 && !self.is_loading {
                    let text = self.input.clone();
                    self.send(text);
                    Effect::SendChat(None)
                } else {
                    Effect::Nothing
                }
            },
            _ => Effect::Nothing,
        }
    }
}

/// The value of a decimal digit.
pub open spec fn digit_value(c: char) -> Option<nat> {
    if '0' <= c <= '9' {
        Some((c as u32 - '0' as u32) as nat)
    } else {
        None
    }
}

/// The number that a text of decimal digits writes; none for the empty text
/// and for a text that holds anything else.
pub open spec fn digits_value(s: Seq<char>) -> Option<nat>
    decreases s.len(),
{
    if s.len() == 0 {
        None
    } else if s.len() == 1 {
        digit_value(s[0])
    } else {
        match (digits_value(s.drop_last()), digit_value(s.last())) {
            (Some(high), Some(low)) => Some(10 * high + low),
            _ => None,
        }
    }
}

/// The number that a text writes as `usize`: decimal digits, with a plus sign
/// before them or not, that do not pass the greatest `usize`.
pub open spec fn parsed_index(s: Seq<char>) -> Option<usize> {
    let digits = if s.len() > 0 && s[0] == '+' {
        s.drop_first()
    } else {
        s
    };
    match digits_value(digits) {
        Some(v) => if v <= usize::MAX {
            Some(v as usize)
        } else {
            None
        },
        None => None,
    }
}

/// A text of digits is worth at least as much as each of its beginnings.
pub proof fn lemma_digits_prefix(s: Seq<char>, k: int)
    requires
        1 <= k <= s.len(),
        digits_value(s) is Some,
    ensures
        digits_value(s.take(k)) is Some,
        digits_value(s.take(k))->Some_0 <= digits_value(s)->Some_0,
    decreases s.len() - k,
{
    if k == s.len() {
        assert(s.take(k) == s);
    } else {
        assert(s.drop_last().take(k) == s.take(k));
        lemma_digits_prefix(s.drop_last(), k);
    }
}

/// The number that a text writes as `usize`.
pub fn parse_index(s: &Vec<char>) -> (r: Option<usize>)
    ensures
        r == parsed_index(s@),
{
    let start: usize = if s.len() > 0 && s[0] == '+' {
        1
    } else {
        0
    };
    let ghost digits = s@.subrange(start as int, s.len() as int);
    assert(digits == (if s@.len() > 0 && s@[0] == '+' {
        s@.drop_first()
    } else {
        s@
    }));
    if start >= s.len() {
        return None;
    }
    let mut value: usize = 0;
    let mut i: usize = start;
    while i < s.len()
        invariant
            start <= i <= s.len(),
            start < s.len(),
            digits == s@.subrange(start as int, s.len() as int),
            digits == (if s@.len() > 0 && s@[0] == '+' {
                s@.drop_first()
            } else {
                s@
            }),
            i > start ==> digits_value(digits.take(i - start)) == Some(value as nat),
            i == start ==> value == 0,
        decreases s.len() - i,
    {
        let c = s[i];
        assert(digits.take(i - start + 1).drop_last() == digits.take(i - start));
        assert(digits.take(i - start + 1).last() == c);
        let ghost head = digits.take(i - start + 1);
        assert(head.len() == i - start + 1);
        if !('0' <= c && c <= '9') {
            proof {
                assert(digit_value(c) is None);
                assert(digits_value(head) is None);
                if digits_value(digits) is Some {
                    lemma_digits_prefix(digits, i - start + 1);
                }
            }
            return None;
        }
        let d: usize = (c as u32 - '0' as u32) as usize;
        assert(digit_value(c) == Some(d as nat));
        assert(digits_value(head) == Some((10 * value + d) as nat)) by {
            if i == start {
                assert(head.len() == 1);
                assert(head[0] == c);
            }
        }
        if value > (usize::MAX - d) / 10 {
            proof {
                assert(10 * value + d > usize::MAX);
                if digits_value(digits) is Some {
                    lemma_digits_prefix(digits, i - start + 1);
                }
            }
            return None;
        }
        value = value * 10 + d;
        i += 1;
    }
    assert(digits.take(s.len() - start) == digits);
    Some(value)
}

/// The mode after a `:` command, given the mode before.
pub open spec fn vim_mode(command: Seq<char>, mode: AppMode) -> AppMode {
    if command == "m"@ {
        AppMode::ModelSelection
    } else if command == "s"@ {
        AppMode::SessionSelection
    } else if command == "a"@ {
        AppMode::Agent
    } else if command == "h"@ || command == "?"@ {
        AppMode::Help
    } else {
        mode
    }
}

/// What is asked for when the current session is to be deleted: the last
/// session of all is only emptied.
pub open spec fn deletion(o: AppState, e: Effect) -> bool {
    if o.sessions@.len() <= 1 {
        e is ClearSession && e->ClearSession_0 == o.sessions@[o.current_session_index as int].id
    } else {
        e is DeleteSession && e->DeleteSession_0 == o.sessions@[o.current_session_index as int].id
    }
}

/// What a `:` command does. `q` does nothing here; `w` and `wq` store the
/// session; `n`, `c` and `d` ask for a session to be made, emptied or deleted;
/// `m`, `s`, `a`, `h` and `?` change the mode; `dN` deletes and `bN` shows the
/// session with the number `N`; everything else is ignored.
pub open spec fn vim_step(o: AppState, command: Seq<char>, n: AppState, e: Effect) -> bool {
    if command == "q"@ {
        n == o && e is Nothing
    } else if command == "w"@ || command == "wq"@ {
        n == o && e is SaveSession
    } else if command == "n"@ {
        n == o && e is NewSession
    } else if command == "c"@ {
        n == o && e is ClearSession && e->ClearSession_0
            == o.sessions@[o.current_session_index as int].id
    } else if command == "m"@ {
        n == (AppState { mode: AppMode::ModelSelection, is_fetching_models: true, ..o })
            && e is FetchModels
    } else if command == "s"@ {
        n == (AppState {
            mode: AppMode::SessionSelection,
            session_selected: Some(o.current_session_index),
            ..o
        }) && e is Nothing
    } else if command == "a"@ {
        n == (AppState {
            mode: AppMode::Agent,
            agent_mode: true,
            status_message: n.status_message,
            ..o
        }) && n.status_message is Some && n.status_message->Some_0@
            == "Agent mode activated - AI has access to system tools"@ && e is Nothing
    } else if command == "h"@ || command == "?"@ {
        n == (AppState { mode: AppMode::Help, ..o }) && e is Nothing
    } else if has_prefix(command, "d"@) {
        if command == "d"@ {
            n == o && deletion(o, e)
        } else {
            match parsed_index(command.skip(1)) {
                Some(number) => if 0 < number <= o.sessions@.len() {
                    n == (AppState { current_session_index: (number - 1) as usize, ..o })
                        && deletion(n, e)
                } else {
                    n == o && e is Nothing
                },
                None => n == o && e is Nothing,
            }
        }
    } else if has_prefix(command, "b"@) {
        match parsed_index(command.skip(1)) {
            Some(number) => if 0 < number <= o.sessions@.len() {
                n == (AppState {
                    current_session_index: (number - 1) as usize,
                    session_selected: Some((number - 1) as usize),
                    chat_selected: None,
                    ..o
                }) && e is StoreSession && e->StoreSession_0 == o.sessions@[number - 1].id
            } else {
                n == o && e is Nothing
            },
            None => n == o && e is Nothing,
        }
    } else {
        n == o && e is Nothing
    }
}

/// A `:` command leaves the mode that `vim_mode` gives.
pub proof fn lemma_vim_mode(o: AppState, command: Seq<char>, n: AppState, e: Effect)
    requires
        vim_step(o, command, n, e),
    ensures
        n.mode == vim_mode(command, o.mode),
{
    reveal_strlit("q");
    reveal_strlit("w");
    reveal_strlit("wq");
    reveal_strlit("n");
    reveal_strlit("c");
    reveal_strlit("m");
    reveal_strlit("s");
    reveal_strlit("a");
    reveal_strlit("h");
    reveal_strlit("?");
    assert("q"@.len() == 1 && "q"@[0] == 'q');
    assert("w"@.len() == 1 && "w"@[0] == 'w');
    assert("wq"@.len() == 2);
    assert("n"@.len() == 1 && "n"@[0] == 'n');
    assert("c"@.len() == 1 && "c"@[0] == 'c');
    assert("m"@.len() == 1 && "m"@[0] == 'm');
    assert("s"@.len() == 1 && "s"@[0] == 's');
    assert("a"@.len() == 1 && "a"@[0] == 'a');
    assert("h"@.len() == 1 && "h"@[0] == 'h');
    assert("?"@.len() == 1 && "?"@[0] == '?');
}

/// The mode in which a `:` command leaves the application: the mode it
/// turned to, or normal mode.
pub open spec fn settled(mode: AppMode) -> AppMode {
    if mode == AppMode::SessionSelection || mode == AppMode::ModelSelection || mode
        == AppMode::Help || mode == AppMode::Agent {
        mode
    } else {
        AppMode::Normal
    }
}

/// What a key does in command mode.
pub open spec fn command_step(o: AppState, key: Key, n: AppState, e: Effect) -> bool {
    match key {
        Key::Esc => n == (AppState { mode: AppMode::Normal, vim_command: n.vim_command, ..o })
            && n.vim_command@.len() == 0 && e is Nothing,
        Key::Char(c) => n == (AppState { vim_command: n.vim_command, ..o }) && n.vim_command@
            == o.vim_command@.push(c) && e is Nothing,
        Key::Backspace => n == (AppState { vim_command: n.vim_command, ..o }) && n.vim_command@ == (
        if o.vim_command@.len() > 0 {
            o.vim_command@.drop_last()
        } else {
            o.vim_command@
        }) && e is Nothing,
        Key::Enter => {
            let typed = AppState { vim_command: n.vim_command, ..o };
            n.vim_command@.len() == 0 && (if o.vim_command@ == "q"@ || o.vim_command@ == "wq"@ {
                n == typed && e is Quit
            } else {
                vim_step(
                    typed,
                    o.vim_command@,
                    AppState { mode: vim_mode(o.vim_command@, o.mode), ..n },
                    e,
                ) && n.mode == settled(vim_mode(o.vim_command@, o.mode))
            })
        },
        _ => n == o && e is Nothing,
    }
}

/// What a key does while a model is chosen.
pub open spec fn model_step(o: AppState, key: Key, n: AppState, e: Effect) -> bool {
    if key == Key::Char('q') || key == Key::Esc {
        n == (AppState { mode: AppMode::Normal, ..o }) && e is Nothing
    } else if key == Key::Up || key == Key::Char('k') {
        e is Nothing && n == (if o.available_models@.len() > 0 {
            AppState {
                model_selected: Some(
                    crate::app::previous_index(o.model_selected, o.available_models@.len()),
                ),
                ..o
            }
        } else {
            o
        })
    } else if key == Key::Down || key == Key::Char('j') {
        e is Nothing && n == (if o.available_models@.len() > 0 {
            AppState {
                model_selected: Some(
                    crate::app::next_index(o.model_selected, o.available_models@.len()),
                ),
                ..o
            }
        } else {
            o
        })
    } else if key == Key::Enter {
        match o.model_selected {
            Some(selected) => if selected < o.available_models@.len() {
                n == (AppState { current_model: n.current_model, mode: AppMode::Normal, ..o })
                    && n.current_model@ == o.available_models@[selected as int]@ && e is StoreModel
                    && e->StoreModel_0@ == o.available_models@[selected as int]@
            } else {
                n == (AppState { mode: AppMode::Normal, ..o }) && e is Nothing
            },
            None => n == (AppState { mode: AppMode::Normal, ..o }) && e is Nothing,
        }
    } else {
        n == o && e is Nothing
    }
}

/// What a key does while a session is chosen.
pub open spec fn session_step(o: AppState, key: Key, n: AppState, e: Effect) -> bool {
    if key == Key::Char('q') || key == Key::Esc {
        n == (AppState { mode: AppMode::Normal, ..o }) && e is Nothing
    } else if key == Key::Up || key == Key::Char('k') {
        e is Nothing && n == (AppState {
            session_selected: Some(
                crate::app::previous_index(o.session_selected, o.sessions@.len()),
            ),
            ..o
        })
    } else if key == Key::Down || key == Key::Char('j') {
        e is Nothing && n == (AppState {
            session_selected: Some(crate::app::next_index(o.session_selected, o.sessions@.len())),
            ..o
        })
    } else if key == Key::Enter {
        match o.session_selected {
            Some(selected) => if selected < o.sessions@.len() {
                n == (AppState {
                    current_session_index: selected,
                    chat_selected: None,
                    mode: AppMode::Normal,
                    ..o
                }) && e is StoreSession && e->StoreSession_0 == o.sessions@[selected as int].id
            } else {
                n == (AppState { mode: AppMode::Normal, ..o }) && e is Nothing
            },
            None => n == (AppState { mode: AppMode::Normal, ..o }) && e is Nothing,
        }
    } else if key == Key::Delete || key == Key::Char('d') {
        n == o && deletion(o, e)
    } else {
        n == o && e is Nothing
    }
}

/// What a key does while the supervised agent is talked to.
pub open spec fn agent_step(o: AppState, key: Key, n: AppState, e: Effect) -> bool {
    if key == Key::Char('q') || key == Key::Esc {
        n == (AppState {
            mode: AppMode::Normal,
            agent_mode: false,
            approval: n.approval,
            command_approval_index: None,
            ..o
        }) && n.approval@.queue.len() == 0 && n.approval@.cursor is None && e is Nothing
    } else {
        match key {
            Key::Enter => if trimmed(o.input@).len() > 0 && !o.is_loading {
                sent(o, n, o.input@) && e is SendChat && e->SendChat_0 is Some
                    && e->SendChat_0->Some_0@ == o.agent_system_prompt@
            } else {
                n == o && e is Nothing
            },
            Key::Char(c) => n == (AppState { input: n.input, ..o }) && n.input@ == o.input@.push(c)
                && e is Nothing,
            Key::Backspace => n == (AppState { input: n.input, ..o }) && n.input@ == (
            if o.input@.len() > 0 {
                o.input@.drop_last()
            } else {
                o.input@
            }) && e is Nothing,
            _ => n == o && e is Nothing,
        }
    }
}

/// What a key does while the proposed commands are reviewed.
pub open spec fn approval_step(o: AppState, key: Key, n: AppState, e: Effect) -> bool {
    let same = n == (AppState { approval: n.approval, ..o });
    if key == Key::Char('q') || key == Key::Esc {
        n == (AppState {
            mode: AppMode::Agent,
            approval: n.approval,
            command_approval_index: None,
            ..o
        }) && n.approval@.queue.len() == 0 && n.approval@.cursor is None && e is Nothing
    } else if key == Key::Char('j') || key == Key::Down {
        same && n.approval@ == o.approval@.navigated(1) && e is Nothing
    } else if key == Key::Char('k') || key == Key::Up {
        same && n.approval@ == o.approval@.navigated(-1) && e is Nothing
    } else if key == Key::Char('y') {
        same && n.approval@ == o.approval@.approved_current() && e is Nothing
    } else if key == Key::Char('n') {
        same && n.approval@ == o.approval@.rejected_current() && e is Nothing
    } else if key == Key::Char('a') {
        same && n.approval@ == o.approval@.all_flagged(true) && e is Nothing
    } else if key == Key::Char('r') {
        same && n.approval@ == o.approval@.all_flagged(false) && e is Nothing
    } else if key == Key::Enter || key == Key::Char('x') {
        let batch = approved_batch(o.approval@.queue);
        n.approval@.queue.len() == 0 && n.approval@.cursor is None && (if batch.len() == 0 {
            n == (AppState {
                mode: AppMode::Agent,
                approval: n.approval,
                command_approval_index: None,
                status_message: n.status_message,
                ..o
            }) && n.status_message is Some && n.status_message->Some_0@
                == "No commands approved for execution"@ && e is Nothing
        } else {
            n == (AppState {
                mode: AppMode::Agent,
                approval: n.approval,
                command_approval_index: None,
                ..o
            }) && e is Execute && dispatch_views(e->Execute_0@) == batch
        })
    } else {
        n == o && e is Nothing
    }
}

/// What a key does while goals are given to the autonomous agent.
pub open spec fn autonomous_step(o: AppState, key: Key, n: AppState, e: Effect) -> bool {
    if key == Key::Char('q') || key == Key::Esc {
        with_current_messages(
            AppState { mode: AppMode::Normal, autonomous_agent: None, ..o },
            n,
            n.messages(),
        ) && appended(
            o.messages(),
            n.messages(),
            seq![(Role::Assistant, "\u{1F6D1} Autonomous mode stopped."@)],
        ) && e is Nothing
    } else {
        match key {
            Key::Enter => if trimmed(o.input@).len() > 0 && !o.is_loading {
                n.input@.len() == 0 && (match o.autonomous_agent {
                    Some(agent) => with_current_messages(
                        AppState {
                            input: n.input,
                            autonomous_agent: n.autonomous_agent,
                            is_loading: true,
                            auto_scroll: true,
                            ..o
                        },
                        n,
                        n.messages(),
                    ) && appended(
                        o.messages(),
                        n.messages(),
                        seq![
                            (Role::User, o.input@),
                            (
                                Role::Assistant,
                                "\u{1F50D} Analyzing goal and planning first step..."@,
                            ),
                        ],
                    ) && n.autonomous_agent is Some && n.autonomous_agent->Some_0@ == (AgentView {
                        state: AgentState::Reasoning,
                        goal: Some(o.input@),
                        current_step: 0,
                        in_flight: None,
                        ..agent@
                    }) && e is Reason && e->Reason_0@ == reasoning_prompt(
                        n.autonomous_agent->Some_0@,
                    ),
                    None => n == (AppState { input: n.input, ..o }) && e is Nothing,
                })
            } else {
                n == o && e is Nothing
            },
            Key::Backspace => n == (AppState { input: n.input, ..o }) && n.input@ == (
            if o.input@.len() > 0 {
                o.input@.drop_last()
            } else {
                o.input@
            }) && e is Nothing,
            Key::Char(c) => n == (AppState { input: n.input, ..o }) && n.input@ == o.input@.push(c)
                && e is Nothing,
            _ => n == o && e is Nothing,
        }
    }
}

/// What a key does, by the mode in which it is pressed.
pub open spec fn key_step(o: AppState, key: Key, n: AppState, e: Effect) -> bool {
    match o.mode {
        AppMode::Normal => normal_step(o, key, n, e),
        AppMode::Insert => insert_step(o, key, n, e),
        AppMode::Command => command_step(o, key, n, e),
        AppMode::Visual => visual_step(o, key, n, e),
        AppMode::ModelSelection => model_step(o, key, n, e),
        AppMode::SessionSelection => session_step(o, key, n, e),
        AppMode::Agent => agent_step(o, key, n, e),
        AppMode::AgentApproval => approval_step(o, key, n, e),
        AppMode::Autonomous => autonomous_step(o, key, n, e),
        AppMode::Help => help_step(o, key, n, e),
    }
}

impl AppState {
    fn delete_request(&self) -> (e: Effect)
        requires
            self.wf(),
        ensures
            deletion(*self, e),
    {
        if self.sessions.len() <= 1 {
            Effect::ClearSession(self.current_session_id())
        } else {
            Effect::DeleteSession(self.current_session_id())
        }
    }

    /// Carries out a `:` command, as far as it changes the state, and says
    /// what it asks for outside.
    pub fn execute_vim_command(&mut self, command: &str) -> (e: Effect)
        requires
            old(self).wf(),
        ensures
            final(self).wf(),
            vim_step(*old(self), command@, *final(self), e),
    {
        let text = to_chars(command);
        let d = to_chars("d");
        let b = to_chars("b");
        proof {
            reveal_strlit("d");
            reveal_strlit("b");
            reveal_strlit("q");
            reveal_strlit("w");
            reveal_strlit("wq");
            reveal_strlit("n");
            reveal_strlit("c");
            reveal_strlit("m");
            reveal_strlit("s");
            reveal_strlit("a");
            reveal_strlit("h");
            reveal_strlit("?");
        }
        if equal(command, "q") {
            Effect::Nothing
        } else if equal(command, "w") || equal(command, "wq") {
            Effect::SaveSession
        } else if equal(command, "n") {
            Effect::NewSession
        } else if equal(command, "c") {
            Effect::ClearSession(self.current_session_id())
        } else if equal(command, "m") {
            self.mode = AppMode::ModelSelection;
            self.is_fetching_models = true;
            Effect::FetchModels
        } else if equal(command, "s") {
            self.mode = AppMode::SessionSelection;
            self.session_selected = Some(self.current_session_index);
            Effect::Nothing
        } else if equal(command, "a") {
            self.enter_agent_mode();
            Effect::Nothing
        } else if equal(command, "h") || equal(command, "?") {
            self.mode = AppMode::Help;
            Effect::Nothing
        } else if starts_with(&text, &d) {
            if text.len() == 1 {
                assert(text@ == d@);
                self.delete_request()
            } else {
                assert(text@ != "d"@);
                let rest = slice(&text, 1, text.len());
                assert(text@.skip(1) == rest@);
                match parse_index(&rest) {
                    Some(number) => {
                        if number > 0 && number <= self.sessions.len() {
                            self.current_session_index = number - 1;
                            self.delete_request()
                        } else {
                            Effect::Nothing
                        }
                    },
                    None => Effect::Nothing,
                }
            }
        } else if starts_with(&text, &b) {
            let rest = slice(&text, 1, text.len());
            assert(text@.skip(1) == rest@);
            match parse_index(&rest) {
                Some(number) => match self.switch_to_session(number) {
                    Some(id) => Effect::StoreSession(id),
                    None => Effect::Nothing,
                },
                None => Effect::Nothing,
            }
        } else {
            Effect::Nothing
        }
    }

    /// Carries out a `:` command and gives what it asks for, as
    /// `execute_vim_command` does, and is known to leave the mode of `vim_mode`.
    fn run_vim_command(&mut self, command: &str) -> (e: Effect)
        requires
            old(self).wf(),
        ensures
            final(self).wf(),
            vim_step(*old(self), command@, *final(self), e),
            final(self).mode == vim_mode(command@, old(self).mode),
    {
        let e = self.execute_vim_command(command);
        proof {
            lemma_vim_mode(*old(self), command@, *self, e);
        }
        e
    }

    fn command_key(&mut self, key: Key) -> (e: Effect)
        requires
            old(self).wf(),
            old(self).mode == AppMode::Command,
        ensures
            final(self).wf(),
            command_step(*old(self), key, *final(self), e),
    {
        match key {
            Key::Esc => {
                self.mode = AppMode::Normal;
                self.vim_command = String::new();
                Effect::Nothing
            },
            Key::Char(c) => {
                self.vim_command.push(c);
                Effect::Nothing
            },
            Key::Backspace => {
                let _ = self.vim_command.pop();
                Effect::Nothing
            },
            Key::Enter => {
                let command = self.vim_command.clone();
                self.vim_command = String::new();
                if equal(command.as_str(), "q") || equal(command.as_str(), "wq") {
                    return Effect::Quit;
                }
                let e = self.run_vim_command(command.as_str());
                let ghost mid = *self;
                if !(self.mode == AppMode::SessionSelection || self.mode == AppMode::ModelSelection
                    || self.mode == AppMode::Help || self.mode == AppMode::Agent) {
                    self.mode = AppMode::Normal;
                }
                assert(mid == (AppState { mode: mid.mode, ..*self }));
                e
            },
            _ => Effect::Nothing,
        }
    }

    fn model_key(&mut self, key: Key) -> (e: Effect)
        ensures
            model_step(*old(self), key, *final(self), e),
            old(self).wf() ==> final(self).wf(),
    {
        let up = match key {
            Key::Up => true,
            Key::Char(c) => c == 'k',
            _ => false,
        };
        let down = match key {
            Key::Down => true,
            Key::Char(c) => c == 'j',
            _ => false,
        };
        let leave = match key {
            Key::Esc => true,
            Key::Char(c) => c == 'q',
            _ => false,
        };
        if leave {
            self.mode = AppMode::Normal;
            Effect::Nothing
        } else if up {
            if self.available_models.len() > 0 {
                self.previous_model();
            }
            Effect::Nothing
        } else if down {
            if self.available_models.len() > 0 {
                self.next_model();
            }
            Effect::Nothing
        } else {
            match key {
                Key::Enter => match self.confirm_model_selection() {
                    Some(name) => Effect::StoreModel(name),
                    None => Effect::Nothing,
                },
                _ => Effect::Nothing,
            }
        }
    }

    fn session_key(&mut self, key: Key) -> (e: Effect)
        requires
            old(self).wf(),
        ensures
            final(self).wf(),
            session_step(*old(self), key, *final(self), e),
    {
        let up = match key {
            Key::Up => true,
            Key::Char(c) => c == 'k',
            _ => false,
        };
        let down = match key {
            Key::Down => true,
            Key::Char(c) => c == 'j',
            _ => false,
        };
        let leave = match key {
            Key::Esc => true,
            Key::Char(c) => c == 'q',
            _ => false,
        };
        let delete = match key {
            Key::Delete => true,
            Key::Char(c) => c == 'd',
            _ => false,
        };
        if leave {
            self.mode = AppMode::Normal;
            Effect::Nothing
        } else if up {
            self.previous_session();
            Effect::Nothing
        } else if down {
            self.next_session();
            Effect::Nothing
        } else if delete {
            self.delete_request()
        } else {
            match key {
                Key::Enter => {
                    let id = self.switch_to_selected_session();
                    self.mode = AppMode::Normal;
                    match id {
                        Some(id) => Effect::StoreSession(id),
                        None => Effect::Nothing,
                    }
                },
                _ => Effect::Nothing,
            }
        }
    }

    fn agent_key(&mut self, key: Key) -> (e: Effect)
        requires
            old(self).wf(),
        ensures
            final(self).wf(),
            agent_step(*old(self), key, *final(self), e),
    {
        let leave = match key {
            Key::Esc => true,
            Key::Char(c) => c == 'q',
            _ => false,
        };
        if leave {
            self.mode = AppMode::Normal;
            self.agent_mode = false;
            self.approval.clear();
            self.command_approval_index = None;
            return Effect::Nothing;
        }
        match key {
            Key::Enter => {
                let typed = trim(&to_chars(self.input.as_str()));
                if typed.len() > 0 && !self.is_loading {
                    let text = self.input.clone();
                    let prompt = self.agent_system_prompt.clone();
                    self.send(text);
                    Effect::SendChat(Some(prompt))
                } else {
                    Effect::Nothing
                }
            },
            Key::Char(c) => {
                self.input.push(c);
                Effect::Nothing
            },
            Key::Backspace => {
                let _ = self.input.pop();
                Effect::Nothing
            },
            _ => Effect::Nothing,
        }
    }

    fn approval_key(&mut self, key: Key) -> (e: Effect)
        ensures
            approval_step(*old(self), key, *final(self), e),
            old(self).wf() ==> final(self).wf(),
    {
        let letter: char = match key {
            Key::Char(c) => c,
            Key::Esc => 'q',
            Key::Down => 'j',
            Key::Up => 'k',
            Key::Enter => 'x',
            _ => ' ',
        };
        if letter == 'q' {
            self.mode = AppMode::Agent;
            self.approval.clear();
            self.command_approval_index = None;
        } else if letter == 'j' {
            self.approval.navigate(1);
        } else if letter == 'k' {
            self.approval.navigate(-1);
        } else if letter == 'y' {
            self.approval.approve_current();
        } else if letter == 'n' {
            self.approval.reject_current();
        } else if letter == 'a' {
            self.approval.approve_all();
        } else if letter == 'r' {
            self.approval.reject_all();
        } else if letter == 'x' {
            let batch = self.approval.execute_approved();
            self.mode = AppMode::Agent;
            self.command_approval_index = None;
            if batch.len() == 0 {
                self.status_message = Some("No commands approved for execution".to_string());
            } else {
                return Effect::Execute(batch);
            }
        }
        Effect::Nothing
    }

    fn autonomous_key(&mut self, key: Key) -> (e: Effect)
        requires
            old(self).wf(),
        ensures
            final(self).wf(),
            autonomous_step(*old(self), key, *final(self), e),
    {
        let leave = match key {
            Key::Esc => true,
            Key::Char(c) => c == 'q',
            _ => false,
        };
        if leave {
            let ghost before = self.messages();
            self.mode = AppMode::Normal;
            self.autonomous_agent = None;
            self.push_message(Role::Assistant, "\u{1F6D1} Autonomous mode stopped.".to_string());
            assert(self.messages().take(before.len() as int) == before);
            assert(self.messages()[before.len() as int + 0].role == Role::Assistant);
            return Effect::Nothing;
        }
        match key {
            Key::Enter => {
                let typed = trim(&to_chars(self.input.as_str()));
                if typed.len() > 0 && !self.is_loading {
                    let goal = self.input.clone();
                    self.input = String::new();
                    match self.autonomous_agent.take() {
                        Some(agent) => {
                            let ghost before = self.messages();
                            let mut agent = agent;
                            agent.set_goal(goal.clone());
                            let prompt = agent.create_reasoning_prompt();
                            self.autonomous_agent = Some(agent);
                            self.push_message(Role::User, goal);
                            self.push_message(
                                Role::Assistant,
                                "\u{1F50D} Analyzing goal and planning first step...".to_string(),
                            );
                            self.is_loading = true;
                            self.auto_scroll = true;
                            assert(self.messages().take(before.len() as int) == before);
                            assert(self.messages()[before.len() as int + 0].role == Role::User);
                            assert(self.messages()[before.len() as int + 1].role == Role::Assistant);
                            Effect::Reason(prompt)
                        },
                        None => Effect::Nothing,
                    }
                } else {
                    Effect::Nothing
                }
            },
            Key::Backspace => {
                let _ = self.input.pop();
                Effect::Nothing
            },
            Key::Char(c) => {
                self.input.push(c);
                Effect::Nothing
            },
            _ => Effect::Nothing,
        }
    }
}

/// Takes a key: changes the state as the mode says, and names the work that
/// is left to do outside.
pub fn handle_key_event(key: Key, app: &mut AppState) -> (e: Effect)
    requires
        old(app).wf(),
    ensures
        final(app).wf(),
        key_step(*old(app), key, *final(app), e),
{
    match app.mode {
        AppMode::Normal => app.normal_key(key),
        AppMode::Insert => app.insert_key(key),
        AppMode::Command => app.command_key(key),
        AppMode::Visual => app.visual_key(key),
        AppMode::ModelSelection => app.model_key(key),
        AppMode::SessionSelection => app.session_key(key),
        AppMode::Agent => app.agent_key(key),
        AppMode::AgentApproval => app.approval_key(key),
        AppMode::Autonomous => app.autonomous_key(key),
        AppMode::Help => app.help_key(key),
    }
}

/// The chat message that reports how a command ended.
pub open spec fn execution_report(command: Seq<char>, result: Result<Seq<char>, Seq<char>>) -> Seq<
    char,
> {
    match result {
        Ok(output) => "Command executed successfully:\n```\n"@ + command
            + "\n```\n\nOutput:\n```\n"@ + output + "\n```"@,
        Err(error) => "Command failed:\n```\n"@ + command + "\n```\n\nError:\n```\n"@ + error
            + "\n```"@,
    }
}

/// The messages `before` with `text` added to the last one, where that is an
/// answer of the assistant.
pub open spec fn answer_extended(before: Seq<Message>, after: Seq<Message>, text: Seq<char>)
    -> bool {
    if before.len() > 0 && before.last().role == Role::Assistant {
        &&& after.len() == before.len()
        &&& after.drop_last() == before.drop_last()
        &&& after.last().role == Role::Assistant
        &&& after.last().content@ == before.last().content@ + text
    } else {
        after == before
    }
}

impl AppState {
    /// Adds `text` to the last message of the current session, where that is
    /// an answer of the assistant.
    fn extend_answer(&mut self, text: &str)
        requires
            old(self).wf(),
        ensures
            final(self).wf(),
            with_current_messages(*old(self), *final(self), final(self).messages()),
            answer_extended(old(self).messages(), final(self).messages(), text@),
    {
        let index = self.current_session_index;
        let ghost before = self.messages();
        let mut session = self.sessions.remove(index);
        match session.messages.pop() {
            Some(last) => {
                if last.role == Role::Assistant {
                    let mut content = last.content;
                    vstd::string::StringExecFns::append(&mut content, text);
                    session.messages.push(Message { role: Role::Assistant, content });
                    assert(session.messages@.drop_last() == before.drop_last());
                } else {
                    session.messages.push(last);
                    assert(session.messages@ == before);
                }
            },
            None => {
                assert(session.messages@ == before);
            },
        }
        self.sessions.insert(index, session);
        assert(self.sessions@.len() == old(self).sessions@.len());
    }

    /// Takes a piece of the answer that the model streams: it goes to the end
    /// of the answer, and the chat follows.
    pub fn on_chunk(&mut self, chunk: &str)
        requires
            old(self).wf(),
        ensures
            final(self).wf(),
            with_current_messages(
                AppState {
                    auto_scroll: old(self).auto_scroll || (old(self).messages().len() > 0 && old(
                        self,
                    ).messages().last().role == Role::Assistant),
                    ..*old(self)
                },
                *final(self),
                final(self).messages(),
            ),
            answer_extended(old(self).messages(), final(self).messages(), chunk@),
    {
        let answering = {
            let messages = self.current_messages();
            messages.len() > 0 && messages[messages.len() - 1].role == Role::Assistant
        };
        self.extend_answer(chunk);
        if answering {
            self.auto_scroll = true;
        }
    }

    /// Takes the failure of a stream: the answer ends with a note of it, and
    /// nothing is awaited any more.
    pub fn on_stream_error(&mut self, error: &str)
        requires
            old(self).wf(),
        ensures
            final(self).wf(),
            !final(self).is_loading,
            answer_extended(
                old(self).messages(),
                final(self).messages(),
                "\n[STREAM ERROR: "@ + error@ + "]"@,
            ),
            with_current_messages(
                AppState {
                    is_loading: false,
                    auto_scroll: final(self).auto_scroll,
                    chat_selected: final(self).chat_selected,
                    ..*old(self)
                },
                *final(self),
                final(self).messages(),
            ),
            final(self).auto_scroll == (old(self).auto_scroll || (old(self).messages().len() > 0
                && old(self).messages().last().role == Role::Assistant)),
            final(self).chat_selected == (if old(self).messages().len() > 0 && old(
                self,
            ).messages().last().role == Role::Assistant {
                bottom_selected(old(self).chat_selected, final(self).total_lines())
            } else {
                old(self).chat_selected
            }),
    {
        let answering = {
            let messages = self.current_messages();
            messages.len() > 0 && messages[messages.len() - 1].role == Role::Assistant
        };
        let mut note = String::new();
        vstd::string::StringExecFns::append(&mut note, "\n[STREAM ERROR: ");
        vstd::string::StringExecFns::append(&mut note, error);
        vstd::string::StringExecFns::append(&mut note, "]");
        self.extend_answer(note.as_str());
        if answering {
            self.auto_scroll = true;
            self.trigger_auto_scroll();
        }
        self.is_loading = false;
    }

    /// Takes the end of a stream: nothing is awaited any more, and the chat
    /// follows its end. Gives the commands that the answer proposes, where the
    /// supervised agent is on.
    pub fn on_stream_done(&mut self) -> (commands: Vec<crate::models::AgentCommand>)
        requires
            old(self).wf(),
        ensures
            final(self).wf(),
            *final(self) == (AppState {
                is_loading: false,
                chat_selected: if old(self).auto_scroll {
                    bottom_selected(old(self).chat_selected, old(self).total_lines())
                } else {
                    old(self).chat_selected
                },
                ..*old(self)
            }),
            crate::models::command_views(commands@) == (if old(self).agent_mode && old(
                self,
            ).messages().len() > 0 && old(self).messages().last().role == Role::Assistant {
                crate::agent::candidates(old(self).messages().last().content@)
            } else {
                Seq::empty()
            }),
    {
        self.is_loading = false;
        self.trigger_auto_scroll();
        let messages = self.current_messages();
        if self.agent_mode && messages.len() > 0 && messages[messages.len() - 1].role
            == Role::Assistant {
            crate::agent::Agent::parse_commands_from_response(
                messages[messages.len() - 1].content.as_str(),
            )
        } else {
            let none: Vec<crate::models::AgentCommand> = Vec::new();
            assert(crate::models::command_views(none@) == Seq::<
                crate::models::AgentCommandView,
            >::empty());
            none
        }
    }

    /// Takes the failure to fetch the models: the list is empty, and the chat
    /// says why.
    pub fn on_models_error(&mut self, error: &str)
        requires
            old(self).wf(),
        ensures
            final(self).wf(),
            with_current_messages(
                AppState {
                    is_fetching_models: false,
                    available_models: final(self).available_models,
                    ..*old(self)
                },
                *final(self),
                final(self).messages(),
            ),
            final(self).available_models@.len() == 0,
            appended(
                old(self).messages(),
                final(self).messages(),
                seq![
                    (
                        Role::Assistant,
                        "Error fetching models: "@ + error@ + ". Is Ollama running?"@,
                    ),
                ],
            ),
    {
        let ghost before = self.messages();
        self.is_fetching_models = false;
        self.available_models = Vec::new();
        let mut text = String::new();
        vstd::string::StringExecFns::append(&mut text, "Error fetching models: ");
        vstd::string::StringExecFns::append(&mut text, error);
        vstd::string::StringExecFns::append(&mut text, ". Is Ollama running?");
        self.push_message(Role::Assistant, text);
        assert(self.messages().take(before.len() as int) == before);
        assert(self.messages()[before.len() as int + 0].role == Role::Assistant);
    }

    /// Puts the commands that the agent proposed up for review.
    pub fn review_commands(&mut self, commands: Vec<crate::models::AgentCommand>)
        ensures
            *final(self) == (AppState {
                approval: final(self).approval,
                mode: if commands@.len() > 0 {
                    AppMode::AgentApproval
                } else {
                    old(self).mode
                },
                ..*old(self)
            }),
            final(self).approval@.queue == crate::models::command_views(commands@),
            final(self).approval@.cursor == (if commands@.len() > 0 {
                Some(0int)
            } else {
                None
            }),
            final(self).approval@.wf(),
            old(self).wf() ==> final(self).wf(),
    {
        if commands.len() > 0 {
            self.mode = AppMode::AgentApproval;
        }
        self.approval.replace(commands);
    }

    /// Says in the chat how a command ended.
    pub fn report_execution(&mut self, command: &str, result: &Result<String, String>)
        requires
            old(self).wf(),
        ensures
            final(self).wf(),
            with_current_messages(*old(self), *final(self), final(self).messages()),
            appended(
                old(self).messages(),
                final(self).messages(),
                seq![
                    (
                        Role::Assistant,
                        execution_report(
                            command@,
                            match *result {
                                Ok(s) => Ok(s@),
                                Err(s) => Err(s@),
                            },
                        ),
                    ),
                ],
            ),
    {
        let ghost before = self.messages();
        let mut text = String::new();
        match result {
            Ok(output) => {
                vstd::string::StringExecFns::append(
                    &mut text,
                    "Command executed successfully:\n```\n",
                );
                vstd::string::StringExecFns::append(&mut text, command);
                vstd::string::StringExecFns::append(&mut text, "\n```\n\nOutput:\n```\n");
                vstd::string::StringExecFns::append(&mut text, output.as_str());
                vstd::string::StringExecFns::append(&mut text, "\n```");
            },
            Err(error) => {
                vstd::string::StringExecFns::append(&mut text, "Command failed:\n```\n");
                vstd::string::StringExecFns::append(&mut text, command);
                vstd::string::StringExecFns::append(&mut text, "\n```\n\nError:\n```\n");
                vstd::string::StringExecFns::append(&mut text, error.as_str());
                vstd::string::StringExecFns::append(&mut text, "\n```");
            },
        }
        self.push_message(Role::Assistant, text);
        assert(self.messages().take(before.len() as int) == before);
        assert(self.messages()[before.len() as int + 0].role == Role::Assistant);
    }
}

} // verus!
