//! The autonomous loop: reason, execute, analyse, remember, and again.
//!
//! The agent is a state machine. It talks to nobody: the caller sends the
//! prompts to the model and runs the commands, and hands what came back to
//! the transition that waits for it. A result that arrives in a state that
//! does not wait for it changes nothing.

use std::collections::VecDeque;
use vstd::prelude::*;
use vstd::string::StringExecFns;
use crate::agent::{context_block, push_context, SystemContext, SystemContextView};
use crate::json::{
    error_message, flag_member, json_document, json_span, locate_json, parse_document,
    text_member, JsonDocument, JsonDocumentView,
};
use crate::models::{copy_opt, opt_text};
use crate::text::{decimal, decimal_of, equal, from_chars, slice, to_chars};

verus! {

/// The state of the autonomous agent.
#[derive(Debug, Clone, Copy, PartialEq, Eq, Structural)]
pub enum AgentState {
    /// Waiting for a goal, or for the user's answer.
    Idle,
    /// Waiting for the model to decide the next action.
    Reasoning,
    /// Waiting for a command to finish.
    Executing,
    /// Waiting for the model to analyse what the command gave.
    AnalyzingOutput,
    /// The goal is reached.
    GoalAchieved,
    /// The step limit is used up.
    Failed,
}

/// One step of the loop: why a command was chosen, and what it gave.
#[derive(Debug)]
pub struct AgentStep {
    pub step_number: usize,
    pub reasoning: String,
    pub command: Option<String>,
    pub output: Option<String>,
    pub exit_code: Option<i32>,
    /// Milliseconds since the Unix epoch.
    pub timestamp: i64,
}

/// A finished step with the model's analysis of it.
#[derive(Debug)]
pub struct MemoryEntry {
    pub step: AgentStep,
    pub analysis: String,
}

/// The agent that pursues a goal step by step.
pub struct AutonomousAgent {
    /// Where the loop stands.
    pub state: AgentState,
    /// What the agent works toward.
    pub goal: Option<String>,
    /// The machine, as it was when the agent was made.
    pub context: SystemContext,
    /// The most recent finished steps, oldest first.
    pub memory: VecDeque<MemoryEntry>,
    /// The number of commands a goal may take.
    pub max_steps: usize,
    /// The number of commands the goal has taken.
    pub current_step: usize,
    /// The number of steps kept in memory.
    pub max_memory_size: usize,
    /// The step that is under way.
    pub in_flight: Option<AgentStep>,
}

/// What an `AgentStep` holds, as mathematical values.
pub struct AgentStepView {
    pub step_number: usize,
    pub reasoning: Seq<char>,
    pub command: Option<Seq<char>>,
    pub output: Option<Seq<char>>,
    pub exit_code: Option<i32>,
    pub timestamp: i64,
}

/// What a `MemoryEntry` holds.
pub struct MemoryEntryView {
    pub step: AgentStepView,
    pub analysis: Seq<char>,
}

/// What an `AutonomousAgent` holds.
pub struct AgentView {
    pub state: AgentState,
    pub goal: Option<Seq<char>>,
    pub context: SystemContextView,
    pub memory: Seq<MemoryEntryView>,
    pub max_steps: usize,
    pub current_step: usize,
    pub max_memory_size: usize,
    pub in_flight: Option<AgentStepView>,
}

impl View for AgentStep {
    type V = AgentStepView;

    open spec fn view(&self) -> AgentStepView {
        AgentStepView {
            step_number: self.step_number,
            reasoning: self.reasoning@,
            command: opt_text(self.command),
            output: opt_text(self.output),
            exit_code: self.exit_code,
            timestamp: self.timestamp,
        }
    }
}

impl View for MemoryEntry {
    type V = MemoryEntryView;

    open spec fn view(&self) -> MemoryEntryView {
        MemoryEntryView { step: self.step@, analysis: self.analysis@ }
    }
}

/// The views of the entries of a memory.
pub open spec fn memory_views(memory: Seq<MemoryEntry>) -> Seq<MemoryEntryView> {
    Seq::new(memory.len(), |i: int| memory[i]@)
}

/// The view of a step that may be absent.
pub open spec fn opt_step(step: Option<AgentStep>) -> Option<AgentStepView> {
    match step {
        Some(s) => Some(s@),
        None => None,
    }
}

impl View for AutonomousAgent {
    type V = AgentView;

    open spec fn view(&self) -> AgentView {
        AgentView {
            state: self.state,
            goal: opt_text(self.goal),
            context: self.context@,
            memory: memory_views(self.memory@),
            max_steps: self.max_steps,
            current_step: self.current_step,
            max_memory_size: self.max_memory_size,
            in_flight: opt_step(self.in_flight),
        }
    }
}

/// The number of commands a goal may take, unless the caller says otherwise.
pub const DEFAULT_MAX_STEPS: usize = 50;

/// The number of steps kept in memory, unless the caller says otherwise.
pub const DEFAULT_MAX_MEMORY_SIZE: usize = 100;

/// A memory after `entry` is appended under the limit `max`: the entry comes
/// last, and of what is then there only the newest `max` are kept.
pub open spec fn remembered(memory: Seq<MemoryEntryView>, entry: MemoryEntryView, max: nat) -> Seq<
    MemoryEntryView,
> {
    let all = memory.push(entry);
    if all.len() > max {
        all.skip(all.len() - max)
    } else {
        all
    }
}

/// A memory after all of `entries` are appended, one after the other.
pub open spec fn remembered_all(
    memory: Seq<MemoryEntryView>,
    entries: Seq<MemoryEntryView>,
    max: nat,
) -> Seq<MemoryEntryView>
    decreases entries.len(),
{
    if entries.len() == 0 {
        memory
    } else {
        remembered(remembered_all(memory, entries.drop_last(), max), entries.last(), max)
    }
}

/// A memory that is within its limit stays within it, whatever is appended
/// and how often; and after one append any memory is within its limit.
pub proof fn lemma_memory_bounded(
    memory: Seq<MemoryEntryView>,
    entries: Seq<MemoryEntryView>,
    max: nat,
)
    requires
        memory.len() <= max || entries.len() > 0,
    ensures
        remembered_all(memory, entries, max).len() <= max,
    decreases entries.len(),
{
    if entries.len() > 1 {
        lemma_memory_bounded(memory, entries.drop_last(), max);
    }
}

/// After appends, the memory ends with the newest of what was appended: the
/// last entry is the last one appended, unless the limit is zero.
pub proof fn lemma_memory_keeps_newest(
    memory: Seq<MemoryEntryView>,
    entry: MemoryEntryView,
    max: nat,
)
    requires
        max > 0,
    ensures
        remembered(memory, entry, max).len() > 0,
        remembered(memory, entry, max).last() == entry,
{
}

/// A copy of a step.
pub fn copy_step(step: &AgentStep) -> (r: AgentStep)
    ensures
        r@ == step@,
{
    AgentStep {
        step_number: step.step_number,
        reasoning: step.reasoning.clone(),
        command: copy_opt(&step.command),
        output: copy_opt(&step.output),
        exit_code: step.exit_code,
        timestamp: step.timestamp,
    }
}

impl AutonomousAgent {
    /// The limits are respected: the memory is within its size.
    pub open spec fn wf(&self) -> bool {
        self@.memory.len() <= self@.max_memory_size
    }

    /// An idle agent on the machine `context`, with the default limits.
    pub fn new(context: SystemContext) -> (agent: AutonomousAgent)
        ensures
            agent@.state == AgentState::Idle,
            agent@.goal is None,
            agent@.context == context@,
            agent@.memory.len() == 0,
            agent@.max_steps == DEFAULT_MAX_STEPS,
            agent@.current_step == 0,
            agent@.max_memory_size == DEFAULT_MAX_MEMORY_SIZE,
            agent@.in_flight is None,
            agent.wf(),
    {
        AutonomousAgent::with_limits(context, DEFAULT_MAX_STEPS, DEFAULT_MAX_MEMORY_SIZE)
    }

    /// An idle agent on the machine `context`, with the limits given.
    pub fn with_limits(context: SystemContext, max_steps: usize, max_memory_size: usize) -> (agent:
        AutonomousAgent)
        ensures
            agent@.state == AgentState::Idle,
            agent@.goal is None,
            agent@.context == context@,
            agent@.memory.len() == 0,
            agent@.max_steps == max_steps,
            agent@.current_step == 0,
            agent@.max_memory_size == max_memory_size,
            agent@.in_flight is None,
            agent.wf(),
    {
        AutonomousAgent {
            state: AgentState::Idle,
            goal: None,
            context,
            memory: VecDeque::new(),
            max_steps,
            current_step: 0,
            max_memory_size,
            in_flight: None,
        }
    }

    /// Takes up a new goal: the step count starts again and the agent waits
    /// for the model's first decision. A step that was under way is dropped;
    /// the memory stays.
    pub fn set_goal(&mut self, goal: String)
        ensures
            final(self)@ == (AgentView {
                state: AgentState::Reasoning,
                goal: Some(goal@),
                current_step: 0,
                in_flight: None,
                ..old(self)@
            }),
    {
        self.goal = Some(goal);
        self.state = AgentState::Reasoning;
        self.current_step = 0;
        self.in_flight = None;
    }

    /// Takes up a new goal on the machine as `context` describes it at this
    /// moment.
    pub fn set_goal_in(&mut self, goal: String, context: SystemContext)
        ensures
            final(self)@ == (AgentView {
                state: AgentState::Reasoning,
                goal: Some(goal@),
                context: context@,
                current_step: 0,
                in_flight: None,
                ..old(self)@
            }),
    {
        self.context = context;
        self.set_goal(goal);
    }

    /// Appends a finished step to the memory and drops the oldest entries
    /// beyond the limit.
    pub fn add_to_memory(&mut self, step: AgentStep, analysis: String)
        ensures
            final(self)@ == (AgentView {
                memory: remembered(
                    old(self)@.memory,
                    MemoryEntryView { step: step@, analysis: analysis@ },
                    old(self)@.max_memory_size as nat,
                ),
                ..old(self)@
            }),
            final(self)@.memory.len() <= final(self)@.max_memory_size,
            final(self).wf(),
    {
        let ghost entry = MemoryEntryView { step: step@, analysis: analysis@ };
        let ghost all = old(self)@.memory.push(entry);
        self.memory.push_back(MemoryEntry { step, analysis });
        assert(memory_views(self.memory@) == all);
        assert(all.skip(0) == all);
        while self.memory.len() > self.max_memory_size
            invariant
                self.memory@.len() <= all.len(),
                self.memory@.len() == all.len() || self.memory@.len() >= self.max_memory_size,
                memory_views(self.memory@) == all.skip(all.len() - self.memory@.len()),
                self.state == old(self).state,
                self.goal == old(self).goal,
                self.context == old(self).context,
                self.max_steps == old(self).max_steps,
                self.current_step == old(self).current_step,
                self.max_memory_size == old(self).max_memory_size,
                self.in_flight == old(self).in_flight,
            decreases self.memory@.len(),
        {
            let ghost before = self.memory@;
            self.memory.pop_front();
            assert(memory_views(self.memory@) == memory_views(before).skip(1));
            assert(all.skip(all.len() - before.len()).skip(1) == all.skip(
                all.len() - self.memory@.len(),
            ));
        }
    }

    /// Whether the step limit is used up.
    pub fn should_stop(&self) -> (stop: bool)
        ensures
            stop == (self@.current_step >= self@.max_steps),
    {
        self.current_step >= self.max_steps
    }

    /// Gives up the goal and goes idle. The memory stays.
    pub fn reset(&mut self)
        ensures
            final(self)@ == (AgentView {
                state: AgentState::Idle,
                goal: None,
                current_step: 0,
                in_flight: None,
                ..old(self)@
            }),
    {
        self.state = AgentState::Idle;
        self.goal = None;
        self.current_step = 0;
        self.in_flight = None;
    }
}

/// How much of a step's output the reasoning prompt shows.
pub const OUTPUT_SHOWN: usize = 200;

/// How much of a step's analysis the reasoning prompt shows.
pub const ANALYSIS_SHOWN: usize = 100;

/// How many steps of the memory the reasoning prompt shows.
pub const STEPS_SHOWN: usize = 10;

/// How much of a command's output the analysis prompt shows.
pub const ANALYSED_OUTPUT: usize = 1000;

/// `s` cut to `limit` characters, with `mark` in place of what was cut off.
pub open spec fn clipped(s: Seq<char>, limit: nat, mark: Seq<char>) -> Seq<char> {
    if s.len() > limit {
        s.take(limit as int) + mark
    } else {
        s
    }
}

/// How the reasoning prompt shows a remembered step under its number.
pub open spec fn memory_entry_text(number: nat, e: MemoryEntryView) -> Seq<char> {
    "\n"@ + decimal_of(number) + ". "@ + e.step.reasoning + "\n   Command: "@ + (match e.step.command {
        Some(c) => c,
        None => "none"@,
    }) + "\n   Output: "@ + (match e.step.output {
        Some(o) => clipped(o, OUTPUT_SHOWN as nat, "..."@),
        None => "no output"@,
    }) + "\n   Analysis: "@ + clipped(e.analysis, ANALYSIS_SHOWN as nat, "..."@) + "\n"@
}

/// The newest `shown` steps of a memory, newest first, each under its place
/// in the memory counted from one.
pub open spec fn recent_steps_text(memory: Seq<MemoryEntryView>, shown: nat) -> Seq<char>
    decreases shown,
{
    if shown == 0 || shown > memory.len() {
        Seq::empty()
    } else {
        recent_steps_text(memory, (shown - 1) as nat) + memory_entry_text(
            (memory.len() - shown + 1) as nat,
            memory[memory.len() - shown],
        )
    }
}

/// What the reasoning prompt says of the past: at most `STEPS_SHOWN` steps.
pub open spec fn memory_context(memory: Seq<MemoryEntryView>) -> Seq<char> {
    if memory.len() == 0 {
        "No previous steps taken yet."@
    } else {
        "Previous steps:\n"@ + recent_steps_text(
            memory,
            if memory.len() < STEPS_SHOWN {
                memory.len()
            } else {
                STEPS_SHOWN as nat
            },
        )
    }
}

/// The goal as the prompts write it.
pub open spec fn goal_text(goal: Option<Seq<char>>) -> Seq<char> {
    match goal {
        Some(g) => g,
        None => "No goal set"@,
    }
}

/// The prompt that asks the model for the next action.
pub open spec fn reasoning_prompt(a: AgentView) -> Seq<char> {
    "You are an AUTONOMOUS AGENT working to achieve a goal. You operate in a continuous loop:\n1. Analyze the current situation\n2. Decide the next command to run\n3. Execute it (I will do this for you)\n4. Analyze the output\n5. Repeat until goal is achieved\n\n"@
        + context_block(a.context) + "\nCURRENT GOAL:\n"@ + goal_text(a.goal) + "\n\n"@
        + memory_context(a.memory) + "\n\nCURRENT STEP: "@ + decimal_of((a.current_step + 1) as nat)
        + "/"@ + decimal_of(a.max_steps as nat)
        + "\n\nYOUR TASK:\nAnalyze the situation and decide the NEXT action. Respond in this EXACT JSON format:\n\n```json\n{\n  \"reasoning\": \"Your analysis of the current situation and why you're taking this action\",\n  \"action\": \"execute\" or \"goal_achieved\" or \"need_info\",\n  \"command\": \"the shell command to run (if action is 'execute', otherwise null)\",\n  \"expected_outcome\": \"what you expect this command to produce\"\n}\n```\n\nRULES:\n1. ONLY suggest ONE command at a time\n2. Use the output from previous commands to inform your next step\n3. If the goal is achieved, set action to \"goal_achieved\"\n4. If you need more information from the user, set action to \"need_info\"\n5. Keep commands safe and read-only when possible\n6. Use the system context (you're in directory: "@
        + a.context.current_dir
        + ")\n7. Build upon previous steps - don't repeat unnecessarily\n8. If you're stuck after 3 similar commands, try a different approach\n\nRespond with ONLY the JSON object, no other text."@
}

/// An exit code in decimal, with its sign.
pub open spec fn exit_code_text(code: i32) -> Seq<char> {
    if code < 0 {
        "-"@ + decimal_of((-(code as int)) as nat)
    } else {
        decimal_of(code as nat)
    }
}

/// The prompt that asks the model what a command's result means.
pub open spec fn analysis_prompt(
    goal: Option<Seq<char>>,
    command: Seq<char>,
    output: Seq<char>,
    exit_code: i32,
) -> Seq<char> {
    "You are analyzing the result of a command execution in an autonomous agent loop.\n\nGOAL: "@
        + goal_text(goal) + "\n\nCOMMAND EXECUTED:\n"@ + command + "\n\nEXIT CODE: "@
        + exit_code_text(exit_code) + "\n\nOUTPUT:\n"@ + clipped(
        output,
        ANALYSED_OUTPUT as nat,
        "... (truncated)"@,
    )
        + "\n\nYOUR TASK:\nAnalyze this output and provide insights in this EXACT JSON format:\n\n```json\n{\n  \"success\": true or false,\n  \"analysis\": \"Your detailed analysis of what happened and what it means\",\n  \"progress\": \"What progress was made toward the goal\",\n  \"learned\": \"Any important information learned from this output\",\n  \"next_suggestion\": \"Brief suggestion for what to do next\"\n}\n```\n\nRespond with ONLY the JSON object, no other text."@
}

/// A state's name.
pub open spec fn state_name(state: AgentState) -> Seq<char> {
    match state {
        AgentState::Idle => "Idle"@,
        AgentState::Reasoning => "Reasoning"@,
        AgentState::Executing => "Executing"@,
        AgentState::AnalyzingOutput => "AnalyzingOutput"@,
        AgentState::GoalAchieved => "GoalAchieved"@,
        AgentState::Failed => "Failed"@,
    }
}

/// A short report of where the agent stands.
pub open spec fn progress_summary(a: AgentView) -> Seq<char> {
    "🎯 Goal: "@ + (match a.goal {
        Some(g) => g,
        None => "None"@,
    }) + "\n📊 Progress: Step "@ + decimal_of(a.current_step as nat) + "/"@ + decimal_of(
        a.max_steps as nat,
    ) + "\n💾 Memory: "@ + decimal_of(a.memory.len()) + " entries\n🤖 State: "@
        + state_name(a.state)
}

/// Appends `s` cut to `limit` characters, with `mark` where it was cut.
fn push_clipped(out: &mut String, s: &str, limit: usize, mark: &str)
    ensures
        final(out)@ == old(out)@ + clipped(s@, limit as nat, mark@),
{
    let v = to_chars(s);
    if v.len() > limit {
        let head = from_chars(&slice(&v, 0, limit));
        assert(v@.subrange(0, limit as int) == v@.take(limit as int));
        let mut cut = String::new();
        cut.append(head.as_str());
        cut.append(mark);
        assert(cut@ == clipped(s@, limit as nat, mark@));
        out.append(cut.as_str());
    } else {
        out.append(s);
    }
}

/// Appends `n` in decimal.
fn push_number(out: &mut String, n: usize)
    ensures
        final(out)@ == old(out)@ + decimal_of(n as nat),
{
    let digits = from_chars(&decimal(n as u128));
    out.append(digits.as_str());
}

/// Appends how the reasoning prompt shows a remembered step.
fn push_memory_entry(out: &mut String, number: usize, entry: &MemoryEntry)
    ensures
        final(out)@ == old(out)@ + memory_entry_text(number as nat, entry@),
{
    let mut text = String::new();
    text.append("\n");
    push_number(&mut text, number);
    text.append(". ");
    text.append(entry.step.reasoning.as_str());
    text.append("\n   Command: ");
    match &entry.step.command {
        Some(c) => {
            text.append(c.as_str());
        },
        None => {
            text.append("none");
        },
    }
    text.append("\n   Output: ");
    match &entry.step.output {
        Some(o) => {
            push_clipped(&mut text, o.as_str(), OUTPUT_SHOWN, "...");
        },
        None => {
            text.append("no output");
        },
    }
    text.append("\n   Analysis: ");
    push_clipped(&mut text, entry.analysis.as_str(), ANALYSIS_SHOWN, "...");
    text.append("\n");
    assert(text@ == memory_entry_text(number as nat, entry@));
    out.append(text.as_str());
}

impl AutonomousAgent {
    /// Appends what the reasoning prompt says of the past.
    fn push_memory_context(&self, out: &mut String)
        ensures
            final(out)@ == old(out)@ + memory_context(self@.memory),
    {
        let len = self.memory.len();
        if len == 0 {
            out.append("No previous steps taken yet.");
        } else {
            let shown: usize = if len < STEPS_SHOWN {
                len
            } else {
                STEPS_SHOWN
            };
            let mut text = String::new();
            text.append("Previous steps:\n");
            let mut k: usize = 0;
            assert(text@ == "Previous steps:\n"@ + recent_steps_text(self@.memory, 0));
            while k < shown
                invariant
                    k <= shown <= len,
                    len == self.memory@.len(),
                    text@ == "Previous steps:\n"@ + recent_steps_text(self@.memory, k as nat),
                decreases shown - k,
            {
                k += 1;
                let ghost before = text@;
                push_memory_entry(&mut text, len - k + 1, &self.memory[len - k]);
                assert(self@.memory[len - k] == self.memory@[len - k]@);
                assert(text@ == "Previous steps:\n"@ + (recent_steps_text(
                    self@.memory,
                    (k - 1) as nat,
                ) + memory_entry_text((len - k + 1) as nat, self@.memory[len - k])));
            }
            out.append(text.as_str());
        }
    }

    /// The prompt that asks the model for the next action: the machine, the
    /// goal, the newest steps of the memory, and the number of the step that
    /// comes next beside the limit.
    pub fn create_reasoning_prompt(&self) -> (prompt: String)
        ensures
            prompt@ == reasoning_prompt(self@),
    {
        let mut out = String::new();
        out.append(
            "You are an AUTONOMOUS AGENT working to achieve a goal. You operate in a continuous loop:\n1. Analyze the current situation\n2. Decide the next command to run\n3. Execute it (I will do this for you)\n4. Analyze the output\n5. Repeat until goal is achieved\n\n",
        );
        push_context(&mut out, &self.context);
        out.append("\nCURRENT GOAL:\n");
        match &self.goal {
            Some(g) => {
                out.append(g.as_str());
            },
            None => {
                out.append("No goal set");
            },
        }
        out.append("\n\n");
        self.push_memory_context(&mut out);
        out.append("\n\nCURRENT STEP: ");
        let next = from_chars(&decimal(self.current_step as u128 + 1));
        out.append(next.as_str());
        out.append("/");
        push_number(&mut out, self.max_steps);
        out.append(
            "\n\nYOUR TASK:\nAnalyze the situation and decide the NEXT action. Respond in this EXACT JSON format:\n\n```json\n{\n  \"reasoning\": \"Your analysis of the current situation and why you're taking this action\",\n  \"action\": \"execute\" or \"goal_achieved\" or \"need_info\",\n  \"command\": \"the shell command to run (if action is 'execute', otherwise null)\",\n  \"expected_outcome\": \"what you expect this command to produce\"\n}\n```\n\nRULES:\n1. ONLY suggest ONE command at a time\n2. Use the output from previous commands to inform your next step\n3. If the goal is achieved, set action to \"goal_achieved\"\n4. If you need more information from the user, set action to \"need_info\"\n5. Keep commands safe and read-only when possible\n6. Use the system context (you're in directory: ",
        );
        out.append(self.context.current_dir.as_str());
        out.append(
            ")\n7. Build upon previous steps - don't repeat unnecessarily\n8. If you're stuck after 3 similar commands, try a different approach\n\nRespond with ONLY the JSON object, no other text.",
        );
        out
    }

    /// The prompt that asks the model what the result of `command` means: the
    /// goal, the command, its exit code, and the first `ANALYSED_OUTPUT`
    /// characters of its output.
    pub fn create_analysis_prompt(&self, command: &str, output: &str, exit_code: i32) -> (prompt:
        String)
        ensures
            prompt@ == analysis_prompt(self@.goal, command@, output@, exit_code),
    {
        let mut out = String::new();
        out.append(
            "You are analyzing the result of a command execution in an autonomous agent loop.\n\nGOAL: ",
        );
        match &self.goal {
            Some(g) => {
                out.append(g.as_str());
            },
            None => {
                out.append("No goal set");
            },
        }
        out.append("\n\nCOMMAND EXECUTED:\n");
        out.append(command);
        out.append("\n\nEXIT CODE: ");
        let mut code = String::new();
        if exit_code < 0 {
            code.append("-");
            let digits = from_chars(&decimal((-(exit_code as i64)) as u128));
            code.append(digits.as_str());
        } else {
            let digits = from_chars(&decimal(exit_code as u128));
            code.append(digits.as_str());
        }
        assert(code@ == exit_code_text(exit_code));
        out.append(code.as_str());
        out.append("\n\nOUTPUT:\n");
        push_clipped(&mut out, output, ANALYSED_OUTPUT, "... (truncated)");
        out.append(
            "\n\nYOUR TASK:\nAnalyze this output and provide insights in this EXACT JSON format:\n\n```json\n{\n  \"success\": true or false,\n  \"analysis\": \"Your detailed analysis of what happened and what it means\",\n  \"progress\": \"What progress was made toward the goal\",\n  \"learned\": \"Any important information learned from this output\",\n  \"next_suggestion\": \"Brief suggestion for what to do next\"\n}\n```\n\nRespond with ONLY the JSON object, no other text.",
        );
        out
    }

    /// A short report of where the agent stands.
    pub fn get_progress_summary(&self) -> (summary: String)
        ensures
            summary@ == progress_summary(self@),
    {
        let mut out = String::new();
        out.append("🎯 Goal: ");
        match &self.goal {
            Some(g) => {
                out.append(g.as_str());
            },
            None => {
                out.append("None");
            },
        }
        out.append("\n📊 Progress: Step ");
        push_number(&mut out, self.current_step);
        out.append("/");
        push_number(&mut out, self.max_steps);
        out.append("\n💾 Memory: ");
        push_number(&mut out, self.memory.len());
        out.append(" entries\n🤖 State: ");
        match self.state {
            AgentState::Idle => {
                out.append("Idle");
            },
            AgentState::Reasoning => {
                out.append("Reasoning");
            },
            AgentState::Executing => {
                out.append("Executing");
            },
            AgentState::AnalyzingOutput => {
                out.append("AnalyzingOutput");
            },
            AgentState::GoalAchieved => {
                out.append("GoalAchieved");
            },
            AgentState::Failed => {
                out.append("Failed");
            },
        }
        out
    }
}

/// What the model answered when asked for the next action.
#[derive(Debug)]
pub struct ReasoningResponse {
    pub reasoning: String,
    /// `execute`, `goal_achieved` or `need_info`.
    pub action: String,
    pub command: Option<String>,
    pub expected_outcome: Option<String>,
}

/// What the model answered when asked what a result means.
#[derive(Debug)]
pub struct AnalysisResponse {
    pub success: bool,
    pub analysis: String,
    pub progress: String,
    pub learned: String,
    pub next_suggestion: String,
}

/// What a `ReasoningResponse` holds.
pub struct ReasoningView {
    pub reasoning: Seq<char>,
    pub action: Seq<char>,
    pub command: Option<Seq<char>>,
    pub expected_outcome: Option<Seq<char>>,
}

/// What an `AnalysisResponse` holds.
pub struct AnalysisView {
    pub success: bool,
    pub analysis: Seq<char>,
    pub progress: Seq<char>,
    pub learned: Seq<char>,
    pub next_suggestion: Seq<char>,
}

impl View for ReasoningResponse {
    type V = ReasoningView;

    open spec fn view(&self) -> ReasoningView {
        ReasoningView {
            reasoning: self.reasoning@,
            action: self.action@,
            command: opt_text(self.command),
            expected_outcome: opt_text(self.expected_outcome),
        }
    }
}

impl View for AnalysisResponse {
    type V = AnalysisView;

    open spec fn view(&self) -> AnalysisView {
        AnalysisView {
            success: self.success,
            analysis: self.analysis@,
            progress: self.progress@,
            learned: self.learned@,
            next_suggestion: self.next_suggestion@,
        }
    }
}

/// `value`, or `fallback` where there is none.
pub open spec fn or_text(value: Option<Seq<char>>, fallback: Seq<char>) -> Seq<char> {
    match value {
        Some(v) => v,
        None => fallback,
    }
}

/// The reasoning answer that a JSON document gives. A document without a
/// string `reasoning` is taken to give none, one without a string `action` to
/// ask for `execute`; `command` and `expected_outcome` are there only as
/// strings.
pub open spec fn reasoning_of(doc: JsonDocumentView) -> ReasoningView {
    ReasoningView {
        reasoning: or_text(text_member(doc, "reasoning"@), "No reasoning provided"@),
        action: or_text(text_member(doc, "action"@), "execute"@),
        command: text_member(doc, "command"@),
        expected_outcome: text_member(doc, "expected_outcome"@),
    }
}

/// The analysis answer that a JSON document gives. What is missing or of
/// another type is taken as no success, no analysis, and empty texts.
pub open spec fn analysis_of(doc: JsonDocumentView) -> AnalysisView {
    AnalysisView {
        success: match flag_member(doc, "success"@) {
            Some(b) => b,
            None => false,
        },
        analysis: or_text(text_member(doc, "analysis"@), "No analysis provided"@),
        progress: or_text(text_member(doc, "progress"@), Seq::empty()),
        learned: or_text(text_member(doc, "learned"@), Seq::empty()),
        next_suggestion: or_text(text_member(doc, "next_suggestion"@), Seq::empty()),
    }
}

fn text_or(doc: &JsonDocument, key: &str, fallback: &str) -> (r: String)
    ensures
        r@ == or_text(text_member(doc@, key@), fallback@),
{
    match doc.text(key) {
        Some(s) => s,
        None => fallback.to_string(),
    }
}

fn empty_text() -> (r: &'static str)
    ensures
        r@ == Seq::<char>::empty(),
{
    let r = "";
    proof {
        reveal_strlit("");
        assert(r@ =~= Seq::<char>::empty());
    }
    r
}

impl ReasoningResponse {
    /// The reasoning answer that a JSON document gives.
    pub fn from_document(doc: &JsonDocument) -> (r: ReasoningResponse)
        ensures
            r@ == reasoning_of(doc@),
    {
        ReasoningResponse {
            reasoning: text_or(doc, "reasoning", "No reasoning provided"),
            action: text_or(doc, "action", "execute"),
            command: doc.text("command"),
            expected_outcome: doc.text("expected_outcome"),
        }
    }
}

impl AnalysisResponse {
    /// The analysis answer that a JSON document gives.
    pub fn from_document(doc: &JsonDocument) -> (r: AnalysisResponse)
        ensures
            r@ == analysis_of(doc@),
    {
        let success = match doc.flag("success") {
            Some(b) => b,
            None => false,
        };
        AnalysisResponse {
            success,
            analysis: text_or(doc, "analysis", "No analysis provided"),
            progress: text_or(doc, "progress", empty_text()),
            learned: text_or(doc, "learned", empty_text()),
            next_suggestion: text_or(doc, "next_suggestion", empty_text()),
        }
    }
}

/// What the agent does next.
#[derive(Debug)]
pub enum Decision {
    /// Run this command; the agent is now executing.
    Execute(String),
    /// The goal is reached; the loop ends.
    GoalAchieved,
    /// The model needs to hear from the user; the agent is idle.
    NeedInfo,
}

/// Why the loop does not go on by itself.
#[derive(Debug)]
pub enum LoopError {
    /// The answer holds no JSON that can be read; the text says why.
    JsonParse(String),
    /// The model asked to execute and named no command.
    ContractViolation,
    /// The model asked for an action that does not exist.
    UnknownAction(String),
    /// The step limit, given here, is used up; the goal has failed.
    SafetyLimitExceeded(usize),
    /// The agent was not waiting for this.
    Stale,
}

/// What a `Decision` holds.
pub enum DecisionView {
    Execute(Seq<char>),
    GoalAchieved,
    NeedInfo,
}

/// What a `LoopError` holds; of a JSON error, only that it is one.
pub enum LoopErrorView {
    JsonParse,
    ContractViolation,
    UnknownAction(Seq<char>),
    SafetyLimitExceeded(usize),
    Stale,
}

impl View for Decision {
    type V = DecisionView;

    open spec fn view(&self) -> DecisionView {
        match self {
            Decision::Execute(c) => DecisionView::Execute(c@),
            Decision::GoalAchieved => DecisionView::GoalAchieved,
            Decision::NeedInfo => DecisionView::NeedInfo,
        }
    }
}

impl View for LoopError {
    type V = LoopErrorView;

    open spec fn view(&self) -> LoopErrorView {
        match self {
            LoopError::JsonParse(_) => LoopErrorView::JsonParse,
            LoopError::ContractViolation => LoopErrorView::ContractViolation,
            LoopError::UnknownAction(a) => LoopErrorView::UnknownAction(a@),
            LoopError::SafetyLimitExceeded(n) => LoopErrorView::SafetyLimitExceeded(*n),
            LoopError::Stale => LoopErrorView::Stale,
        }
    }
}

/// The view of a decision or of the error in its place.
pub open spec fn outcome_view(r: Result<Decision, LoopError>) -> Result<DecisionView, LoopErrorView> {
    match r {
        Ok(d) => Ok(d@),
        Err(e) => Err(e@),
    }
}

/// What follows from a reasoning answer. Only an agent that is reasoning
/// takes one. `goal_achieved` and `need_info` are taken as they are. For
/// `execute` a command must be named, and a step must be left.
pub open spec fn reasoning_outcome(a: AgentView, r: ReasoningView) -> Result<
    DecisionView,
    LoopErrorView,
> {
    if a.state != AgentState::Reasoning {
        Err(LoopErrorView::Stale)
    } else if r.action == "goal_achieved"@ {
        Ok(DecisionView::GoalAchieved)
    } else if r.action == "need_info"@ {
        Ok(DecisionView::NeedInfo)
    } else if r.action == "execute"@ {
        match r.command {
            Some(c) => if a.current_step >= a.max_steps {
                Err(LoopErrorView::SafetyLimitExceeded(a.max_steps))
            } else {
                Ok(DecisionView::Execute(c))
            },
            None => Err(LoopErrorView::ContractViolation),
        }
    } else {
        Err(LoopErrorView::UnknownAction(r.action))
    }
}

/// The agent after a reasoning answer at the time `now`: executing the next
/// step, at its goal, idle, or failed at the step limit; and as it was after
/// every other error.
pub open spec fn after_reasoning(a: AgentView, r: ReasoningView, now: i64) -> AgentView {
    match reasoning_outcome(a, r) {
        Ok(DecisionView::Execute(c)) => AgentView {
            state: AgentState::Executing,
            current_step: (a.current_step + 1) as usize,
            in_flight: Some(
                AgentStepView {
                    step_number: (a.current_step + 1) as usize,
                    reasoning: r.reasoning,
                    command: Some(c),
                    output: None,
                    exit_code: None,
                    timestamp: now,
                },
            ),
            ..a
        },
        Ok(DecisionView::GoalAchieved) => AgentView { state: AgentState::GoalAchieved, ..a },
        Ok(DecisionView::NeedInfo) => AgentView { state: AgentState::Idle, ..a },
        Err(LoopErrorView::SafetyLimitExceeded(_)) => AgentView { state: AgentState::Failed, ..a },
        Err(_) => a,
    }
}

/// Whether the agent waits for a command to finish.
pub open spec fn awaits_command(a: AgentView) -> bool {
    a.state == AgentState::Executing && a.in_flight is Some && a.in_flight->Some_0.command is Some
}

/// The agent after its command finished with `output` and `exit_code`.
pub open spec fn after_command(a: AgentView, output: Seq<char>, exit_code: i32) -> AgentView {
    if awaits_command(a) {
        AgentView {
            state: AgentState::AnalyzingOutput,
            in_flight: Some(
                AgentStepView {
                    output: Some(output),
                    exit_code: Some(exit_code),
                    ..a.in_flight->Some_0
                },
            ),
            ..a
        }
    } else {
        a
    }
}

/// Whether the agent waits for an analysis.
pub open spec fn awaits_analysis(a: AgentView) -> bool {
    a.state == AgentState::AnalyzingOutput && a.in_flight is Some
}

/// The agent after the analysis of its step came: the step is in the memory
/// with its analysis, and the agent reasons again.
pub open spec fn after_analysis(a: AgentView, analysis: AnalysisView) -> AgentView {
    if awaits_analysis(a) {
        AgentView {
            state: AgentState::Reasoning,
            memory: remembered(
                a.memory,
                MemoryEntryView { step: a.in_flight->Some_0, analysis: analysis.analysis },
                a.max_memory_size as nat,
            ),
            in_flight: None,
            ..a
        }
    } else {
        a
    }
}

impl AutonomousAgent {
    /// Reads the model's answer to a reasoning prompt. The answer is read as
    /// JSON between its first `{` and its last `}`.
    pub fn read_reasoning(response: &str) -> (r: Result<ReasoningResponse, LoopError>)
        ensures
            match json_document(json_span(response@)) {
                Some(doc) => r is Ok && r->Ok_0@ == reasoning_of(doc),
                None => r is Err && r->Err_0@ == LoopErrorView::JsonParse,
            },
    {
        let json = locate_json(response);
        match parse_document(json.as_str()) {
            Ok(doc) => Ok(ReasoningResponse::from_document(&doc)),
            Err(e) => Err(LoopError::JsonParse(error_message(&e))),
        }
    }

    /// Reads the model's answer to an analysis prompt, in the same way.
    pub fn read_analysis(response: &str) -> (r: Result<AnalysisResponse, LoopError>)
        ensures
            match json_document(json_span(response@)) {
                Some(doc) => r is Ok && r->Ok_0@ == analysis_of(doc),
                None => r is Err && r->Err_0@ == LoopErrorView::JsonParse,
            },
    {
        let json = locate_json(response);
        match parse_document(json.as_str()) {
            Ok(doc) => Ok(AnalysisResponse::from_document(&doc)),
            Err(e) => Err(LoopError::JsonParse(error_message(&e))),
        }
    }

    /// Takes a reasoning answer at the time `now` and says what to do next.
    /// A command is handed out only while a step is left: the step count goes
    /// up by one with it and never passes the limit. At the limit the goal
    /// fails and nothing is handed out.
    pub fn apply_reasoning(&mut self, answer: &ReasoningResponse, now: i64) -> (r: Result<
        Decision,
        LoopError,
    >)
        ensures
            outcome_view(r) == reasoning_outcome(old(self)@, answer@),
            final(self)@ == after_reasoning(old(self)@, answer@, now),
            r is Ok && r->Ok_0 is Execute ==> old(self)@.current_step < old(self)@.max_steps
                && final(self)@.current_step == old(self)@.current_step + 1
                && final(self)@.current_step <= final(self)@.max_steps,
            old(self).wf() ==> final(self).wf(),
    {
        if self.state != AgentState::Reasoning {
            return Err(LoopError::Stale);
        }
        if equal(answer.action.as_str(), "goal_achieved") {
            self.state = AgentState::GoalAchieved;
            Ok(Decision::GoalAchieved)
        } else if equal(answer.action.as_str(), "need_info") {
            self.state = AgentState::Idle;
            Ok(Decision::NeedInfo)
        } else if equal(answer.action.as_str(), "execute") {
            match &answer.command {
                Some(c) => {
                    if self.should_stop() {
                        self.state = AgentState::Failed;
                        Err(LoopError::SafetyLimitExceeded(self.max_steps))
                    } else {
                        self.current_step = self.current_step + 1;
                        self.state = AgentState::Executing;
                        self.in_flight = Some(
                            AgentStep {
                                step_number: self.current_step,
                                reasoning: answer.reasoning.clone(),
                                command: Some(c.clone()),
                                output: None,
                                exit_code: None,
                                timestamp: now,
                            },
                        );
                        Ok(Decision::Execute(c.clone()))
                    }
                },
                None => Err(LoopError::ContractViolation),
            }
        } else {
            Err(LoopError::UnknownAction(answer.action.clone()))
        }
    }

    /// Reads the model's answer to a reasoning prompt and takes it. An answer
    /// that cannot be read leaves the agent as it was.
    pub fn on_reasoning_response(&mut self, response: &str, now: i64) -> (r: Result<
        Decision,
        LoopError,
    >)
        ensures
            match json_document(json_span(response@)) {
                Some(doc) => outcome_view(r) == reasoning_outcome(old(self)@, reasoning_of(doc))
                    && final(self)@ == after_reasoning(old(self)@, reasoning_of(doc), now),
                None => outcome_view(r) == Err::<DecisionView, LoopErrorView>(
                    LoopErrorView::JsonParse,
                ) && final(self)@ == old(self)@,
            },
            old(self).wf() ==> final(self).wf(),
    {
        match AutonomousAgent::read_reasoning(response) {
            Ok(answer) => self.apply_reasoning(&answer, now),
            Err(e) => Err(e),
        }
    }

    /// Takes the result of the command under way, and gives the prompt that
    /// asks the model to analyse it; gives nothing, and changes nothing,
    /// where no command is under way.
    pub fn on_command_finished(&mut self, output: String, exit_code: i32) -> (prompt: Option<String>)
        ensures
            final(self)@ == after_command(old(self)@, output@, exit_code),
            match prompt {
                Some(p) => awaits_command(old(self)@) && p@ == analysis_prompt(
                    old(self)@.goal,
                    old(self)@.in_flight->Some_0.command->Some_0,
                    output@,
                    exit_code,
                ),
                None => !awaits_command(old(self)@),
            },
            old(self).wf() ==> final(self).wf(),
    {
        if self.state != AgentState::Executing {
            return None;
        }
        let step = match &self.in_flight {
            Some(step) => copy_step(step),
            None => {
                return None;
            },
        };
        match &step.command {
            Some(command) => {
                let prompt = self.create_analysis_prompt(command.as_str(), output.as_str(), exit_code);
                self.in_flight = Some(
                    AgentStep {
                        step_number: step.step_number,
                        reasoning: step.reasoning.clone(),
                        command: Some(command.clone()),
                        output: Some(output),
                        exit_code: Some(exit_code),
                        timestamp: step.timestamp,
                    },
                );
                self.state = AgentState::AnalyzingOutput;
                Some(prompt)
            },
            None => None,
        }
    }

    /// Takes the analysis of the step under way: the step goes into the memory
    /// with it, exactly once, and the agent reasons again. Gives the next
    /// reasoning prompt; gives nothing, and changes nothing, where no step
    /// waits for its analysis.
    pub fn apply_analysis(&mut self, analysis: &AnalysisResponse) -> (prompt: Option<String>)
        ensures
            final(self)@ == after_analysis(old(self)@, analysis@),
            match prompt {
                Some(p) => awaits_analysis(old(self)@) && p@ == reasoning_prompt(final(self)@),
                None => !awaits_analysis(old(self)@),
            },
            awaits_analysis(old(self)@) ==> final(self).wf(),
            old(self).wf() ==> final(self).wf(),
    {
        if self.state != AgentState::AnalyzingOutput {
            return None;
        }
        let step = match &self.in_flight {
            Some(step) => copy_step(step),
            None => {
                return None;
            },
        };
        self.in_flight = None;
        self.state = AgentState::Reasoning;
        self.add_to_memory(step, analysis.analysis.clone());
        Some(self.create_reasoning_prompt())
    }

    /// Reads the model's answer to an analysis prompt and takes it. An answer
    /// that cannot be read leaves the agent as it was, still waiting.
    pub fn on_analysis_response(&mut self, response: &str) -> (r: Result<Option<String>, LoopError>)
        ensures
            match json_document(json_span(response@)) {
                Some(doc) => r is Ok && final(self)@ == after_analysis(
                    old(self)@,
                    analysis_of(doc),
                ) && match r->Ok_0 {
                    Some(p) => awaits_analysis(old(self)@) && p@ == reasoning_prompt(final(self)@),
                    None => !awaits_analysis(old(self)@),
                },
                None => r is Err && r->Err_0@ == LoopErrorView::JsonParse && final(self)@ == old(
                    self,
                )@,
            },
            old(self).wf() ==> final(self).wf(),
    {
        match AutonomousAgent::read_analysis(response) {
            Ok(analysis) => Ok(self.apply_analysis(&analysis)),
            Err(e) => Err(e),
        }
    }
}

} // verus!
