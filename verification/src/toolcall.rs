//! The tool-call tag protocol.
//!
//! A call is written as a line `<tool_call name="NAME">`, lines of
//! `key=value` pairs or free text, and a line `</tool_call>`. The misspelt
//! tags `<tool_ call ...>` and `</tool_ call>` are read like the right ones. A
//! call that is never closed runs to the end of the text.

use vstd::prelude::*;
use crate::models::{AgentCommand, AgentCommandView, CommandSource, fresh_command};
use crate::risk::{classify, lowercase_of, risk_of};
use crate::strmap::{distinct_keys, lookup, put, Pairs, StringMap};
use crate::text::{
    find_from, first_match, from_chars, has_prefix, join, joined, lines_of, matches_at, slice,
    split_lines,
    starts_with, strip, stripped, texts, to_chars, trim, trimmed,
};

verus! {

/// A named call with its arguments.
pub struct ToolCall {
    pub name: String,
    pub args: StringMap,
}

/// What a `ToolCall` holds, as mathematical values.
pub struct ToolCallView {
    pub name: Seq<char>,
    pub args: Pairs,
}

impl View for ToolCall {
    type V = ToolCallView;

    open spec fn view(&self) -> ToolCallView {
        ToolCallView { name: self.name@, args: self.args@ }
    }
}

/// The views of a sequence of calls.
pub open spec fn tool_call_views(calls: Seq<ToolCall>) -> Seq<ToolCallView> {
    Seq::new(calls.len(), |i: int| calls[i]@)
}

/// The description given to a call that brings none.
pub open spec fn default_description() -> Seq<char> {
    "AI agent tool execution"@
}

/// A trimmed line that begins like an opening tag.
pub open spec fn opens_tool_call(t: Seq<char>) -> bool {
    has_prefix(t, "<tool_call"@) || has_prefix(t, "<tool_ call"@)
}

/// A trimmed line that begins with a closing tag.
pub open spec fn closes_tool_call(t: Seq<char>) -> bool {
    has_prefix(t, "</tool_call>"@) || has_prefix(t, "</tool_ call>"@)
}

/// The text between `name="` and the next double quote.
pub open spec fn quoted_name(t: Seq<char>) -> Option<Seq<char>> {
    match first_match(t, "name=\""@, 0) {
        Some(i) => match first_match(t, "\""@, i + 6) {
            Some(j) => Some(t.subrange(i + 6, j)),
            None => None,
        },
        None => None,
    }
}

/// The name of the call that a line opens, if it opens one.
pub open spec fn call_name(line: Seq<char>) -> Option<Seq<char>> {
    let t = trimmed(line);
    if opens_tool_call(t) {
        quoted_name(t)
    } else {
        None
    }
}

/// What the lines of a body give: the pairs of its `key=value` lines, a later
/// value replacing an earlier one of the same key, and its other lines that
/// are not empty. Keys and values are trimmed, and a value loses the double
/// quotes around it.
pub open spec fn read_body(lines: Seq<Seq<char>>) -> (Pairs, Seq<Seq<char>>)
    decreases lines.len(),
{
    if lines.len() == 0 {
        (Pairs::empty(), Seq::empty())
    } else {
        let (args, content) = read_body(lines.drop_last());
        let t = trimmed(lines.last());
        match first_match(t, "="@, 0) {
            Some(e) => (
                put(args, trimmed(t.take(e)), stripped(trimmed(t.skip(e + 1)), '"')),
                content,
            ),
            None => if t.len() > 0 {
                (args, content.push(t))
            } else {
                (args, content)
            },
        }
    }
}

/// The arguments of a call, once its body is read: free text becomes the
/// `command` where none was given, and a call without `description` gets the
/// default one.
pub open spec fn finish_args(args: Pairs, content: Seq<Seq<char>>) -> Pairs {
    let with_command = if content.len() > 0 && lookup(args, "command"@) is None {
        put(args, "command"@, joined(content, "\n"@))
    } else {
        args
    };
    if lookup(with_command, "description"@) is None {
        put(with_command, "description"@, default_description())
    } else {
        with_command
    }
}

/// The index of the first closing tag at or after `from`, or the number of
/// lines where there is none.
pub open spec fn body_end(lines: Seq<Seq<char>>, from: int) -> int
    decreases lines.len() - from,
{
    if from < 0 || from >= lines.len() {
        lines.len() as int
    } else if closes_tool_call(trimmed(lines[from])) {
        from
    } else {
        body_end(lines, from + 1)
    }
}

/// A body ends at or after its first line.
pub proof fn lemma_body_end(lines: Seq<Seq<char>>, from: int)
    requires
        0 <= from <= lines.len(),
    ensures
        from <= body_end(lines, from) <= lines.len(),
    decreases lines.len() - from,
{
    if from < lines.len() && !closes_tool_call(trimmed(lines[from])) {
        lemma_body_end(lines, from + 1);
    }
}

/// The call that opens at line `i` with `name`, and the line after it.
pub open spec fn call_at(lines: Seq<Seq<char>>, i: int, name: Seq<char>) -> ToolCallView {
    let body = read_body(lines.subrange(i + 1, body_end(lines, i + 1)));
    ToolCallView { name, args: finish_args(body.0, body.1) }
}

/// The calls that open at or after line `i`, in the order of the text. The
/// lines of a call, its closing tag included, open no other call.
pub open spec fn calls_from(lines: Seq<Seq<char>>, i: int) -> Seq<ToolCallView>
    decreases lines.len() - i + 1,
    via calls_from_decreases
{
    if i < 0 || i >= lines.len() {
        Seq::empty()
    } else {
        match call_name(lines[i]) {
            Some(name) => seq![call_at(lines, i, name)] + calls_from(
                lines,
                body_end(lines, i + 1) + 1,
            ),
            None => calls_from(lines, i + 1),
        }
    }
}

#[via_fn]
proof fn calls_from_decreases(lines: Seq<Seq<char>>, i: int) {
    if 0 <= i < lines.len() {
        lemma_body_end(lines, i + 1);
    }
}

/// The tool calls of a text.
pub open spec fn tool_calls_of(s: Seq<char>) -> Seq<ToolCallView> {
    calls_from(lines_of(s), 0)
}

/// The command that a call asks to run: the value of its `command` argument,
/// described by its `description`.
pub open spec fn command_of_call(call: ToolCallView) -> Option<AgentCommandView> {
    match lookup(call.args, "command"@) {
        Some(c) => Some(
            fresh_command(
                c,
                match lookup(call.args, "description"@) {
                    Some(d) => d,
                    None => default_description(),
                },
                CommandSource::ToolCall,
                risk_of(lowercase_of(c)),
            ),
        ),
        None => None,
    }
}

fn line_opens(t: &Vec<char>) -> (b: bool)
    ensures
        b == opens_tool_call(t@),
{
    let right = to_chars("<tool_call");
    let stray = to_chars("<tool_ call");
    starts_with(t, &right) || starts_with(t, &stray)
}

fn line_closes(t: &Vec<char>) -> (b: bool)
    ensures
        b == closes_tool_call(t@),
{
    let right = to_chars("</tool_call>");
    let stray = to_chars("</tool_ call>");
    starts_with(t, &right) || starts_with(t, &stray)
}

fn name_in(t: &Vec<char>) -> (r: Option<Vec<char>>)
    ensures
        match r {
            Some(n) => quoted_name(t@) == Some(n@),
            None => quoted_name(t@) is None,
        },
{
    let key = to_chars("name=\"");
    let quote = to_chars("\"");
    proof {
        reveal_strlit("name=\"");
        reveal_strlit("\"");
    }
    match find_from(t, &key, 0) {
        Some(i) => {
            assert(matches_at(t@, key@, i as int));
            assert(i + 6 <= t.len());
            match find_from(t, &quote, i + 6) {
                Some(j) => Some(slice(t, i + 6, j)),
                None => None,
            }
        },
        None => None,
    }
}

fn name_of_line(line: &Vec<char>) -> (r: Option<Vec<char>>)
    ensures
        match r {
            Some(n) => call_name(line@) == Some(n@),
            None => call_name(line@) is None,
        },
{
    let t = trim(line);
    if line_opens(&t) {
        name_in(&t)
    } else {
        None
    }
}

fn find_body_end(lines: &Vec<Vec<char>>, from: usize) -> (r: usize)
    requires
        from <= lines.len(),
    ensures
        r == body_end(texts(lines@), from as int),
        from <= r <= lines.len(),
{
    let mut j: usize = from;
    while j < lines.len()
        invariant
            from <= j <= lines.len(),
            body_end(texts(lines@), from as int) == body_end(texts(lines@), j as int),
        decreases lines.len() - j,
    {
        let t = trim(&lines[j]);
        if line_closes(&t) {
            return j;
        }
        j += 1;
    }
    j
}

fn read_lines(lines: &Vec<Vec<char>>, from: usize, to: usize) -> (r: (StringMap, Vec<Vec<char>>))
    requires
        from <= to <= lines.len(),
    ensures
        (r.0@, texts(r.1@)) == read_body(texts(lines@).subrange(from as int, to as int)),
        distinct_keys(r.0@),
{
    let mut args = StringMap::new();
    let mut content: Vec<Vec<char>> = Vec::new();
    let equals = to_chars("=");
    proof {
        reveal_strlit("=");
    }
    let mut j: usize = from;
    assert(texts(content@) == Seq::<Seq<char>>::empty());
    while j < to
        invariant
            from <= j <= to <= lines.len(),
            equals@ == "="@,
            equals@.len() == 1,
            distinct_keys(args@),
            (args@, texts(content@)) == read_body(
                texts(lines@).subrange(from as int, j as int),
            ),
        decreases to - j,
    {
        assert(texts(lines@).subrange(from as int, j + 1).drop_last() == texts(lines@).subrange(
            from as int,
            j as int,
        ));
        assert(texts(lines@).subrange(from as int, j + 1).last() == lines@[j as int]@);
        let t = trim(&lines[j]);
        match find_from(&t, &equals, 0) {
            Some(e) => {
                let key = trim(&slice(&t, 0, e));
                let value = strip(&trim(&slice(&t, e + 1, t.len())), '"');
                assert(t@.take(e as int) == t@.subrange(0, e as int));
                assert(t@.skip(e + 1) == t@.subrange(e + 1, t.len() as int));
                args.insert(from_chars(&key), from_chars(&value));
            },
            None => {
                if t.len() > 0 {
                    let ghost before = content@;
                    content.push(t);
                    assert(texts(content@) == texts(before).push(t@));
                }
            },
        }
        j += 1;
    }
    (args, content)
}

fn finish(args: &mut StringMap, content: &Vec<Vec<char>>)
    requires
        distinct_keys(old(args)@),
    ensures
        final(args)@ == finish_args(old(args)@, texts(content@)),
        distinct_keys(final(args)@),
{
    if content.len() > 0 && !args.contains_key("command") {
        let newline = to_chars("\n");
        let command = join(content, &newline);
        args.insert("command".to_string(), from_chars(&command));
    }
    if !args.contains_key("description") {
        args.insert("description".to_string(), "AI agent tool execution".to_string());
    }
}

/// The tool calls of a text, in the order of the text.
pub fn parse_tool_calls(response: &str) -> (calls: Vec<ToolCall>)
    ensures
        tool_call_views(calls@) == tool_calls_of(response@),
        forall|i: int| 0 <= i < calls.len() ==> distinct_keys(#[trigger] calls@[i].args@),
{
    let v = to_chars(response);
    let lines = split_lines(&v);
    let mut calls: Vec<ToolCall> = Vec::new();
    let mut i: usize = 0;
    let ghost all = texts(lines@);
    assert(tool_call_views(calls@) + calls_from(all, 0) == calls_from(all, 0));
    while i < lines.len()
        invariant
            all == texts(lines@),
            all == lines_of(response@),
            tool_calls_of(response@) == tool_call_views(calls@) + calls_from(all, i as int),
            forall|k: int| 0 <= k < calls.len() ==> distinct_keys(#[trigger] calls@[k].args@),
        decreases lines.len() - i,
    {
        let mut next: usize = i + 1;
        match name_of_line(&lines[i]) {
            Some(name) => {
                let end = find_body_end(&lines, i + 1);
                let (mut args, content) = read_lines(&lines, i + 1, end);
                finish(&mut args, &content);
                let call = ToolCall { name: from_chars(&name), args };
                let ghost before = calls@;
                calls.push(call);
                assert(call@ == call_at(all, i as int, name@));
                assert(tool_call_views(calls@) == tool_call_views(before).push(call@));
                assert(tool_call_views(before) + (seq![call@] + calls_from(all, end + 1))
                    == tool_call_views(calls@) + calls_from(all, end + 1));
                if end < lines.len() {
                    next = end + 1;
                } else {
                    next = end;
                    assert(calls_from(all, end + 1) == calls_from(all, end as int));
                }
            },
            None => {},
        }
        i = next;
    }
    assert(tool_call_views(calls@) + calls_from(all, i as int) == tool_call_views(calls@));
    calls
}

impl ToolCall {
    /// The value of the argument `key`.
    pub fn arg(&self, key: &str) -> (r: Option<&String>)
        ensures
            match r {
                Some(v) => lookup(self@.args, key@) == Some(v@),
                None => lookup(self@.args, key@) is None,
            },
    {
        self.args.get(key)
    }

    /// The command that this call asks to run, as a candidate for review; none
    /// where the call has no `command` argument.
    pub fn to_command(&self) -> (r: Option<AgentCommand>)
        ensures
            match r {
                Some(c) => command_of_call(self@) == Some(c@),
                None => command_of_call(self@) is None,
            },
    {
        match self.args.get("command") {
            Some(c) => {
                let description = match self.args.get("description") {
                    Some(d) => d.clone(),
                    None => "AI agent tool execution".to_string(),
                };
                let risk_level = classify(c.as_str());
                Some(
                    AgentCommand {
                        command: c.clone(),
                        description,
                        source: CommandSource::ToolCall,
                        risk_level,
                        approved: false,
                        executed: false,
                        output: None,
                        error: None,
                    },
                )
            },
            None => None,
        }
    }
}

} // verus!
