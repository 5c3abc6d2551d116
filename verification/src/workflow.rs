//! Workflows: named lists of commands with variables.

use vstd::prelude::*;
use crate::models::{
    command_views, fresh_command, opt_text, AgentCommand, AgentCommandView, CommandSource,
};
use crate::risk::{classify, lowercase_of, risk_of};
use crate::strmap::{distinct_keys, put, Pairs, StringMap};
use crate::text::{extend, from_chars, match_at, matches_at, same, to_chars};

verus! {

/// What `chrono` makes of the present moment in a strftime format.
/// `chrono::Utc::now` reads the clock and `DateTime::format` writes the
/// moment out; the text changes from call to call, and nothing is claimed of
/// it. The one format that is handed on is made of the specifiers `%Y`, `%m`,
/// `%d`, `%H`, `%M`, `%S` and an underscore.
#[verifier::external_body]
pub(crate) fn utc_now_text(format: &str) -> (text: String)
    requires
        format@ == "%Y%m%d_%H%M%S"@,
{
    chrono::Utc::now().format(format).to_string()
}

/// One command of a workflow.
#[derive(Debug)]
pub struct WorkflowStep {
    pub name: String,
    pub command: String,
    pub condition: Option<String>,
    pub retry_count: u32,
    pub timeout_secs: u64,
    pub continue_on_error: bool,
}

/// What starts a workflow.
#[derive(Debug)]
pub enum WorkflowTrigger {
    Manual,
    FileChange(String),
    /// In cron format.
    Schedule(String),
    AfterCommand(String),
}

/// A named list of commands, with the variables that its commands may use.
pub struct Workflow {
    pub name: String,
    pub description: String,
    pub steps: Vec<WorkflowStep>,
    pub triggers: Vec<WorkflowTrigger>,
    pub variables: StringMap,
}

/// What a `WorkflowStep` holds, as mathematical values.
pub struct WorkflowStepView {
    pub name: Seq<char>,
    pub command: Seq<char>,
    pub condition: Option<Seq<char>>,
    pub retry_count: u32,
    pub timeout_secs: u64,
    pub continue_on_error: bool,
}

/// What a `WorkflowTrigger` holds.
pub enum WorkflowTriggerView {
    Manual,
    FileChange(Seq<char>),
    Schedule(Seq<char>),
    AfterCommand(Seq<char>),
}

/// What a `Workflow` holds.
pub struct WorkflowView {
    pub name: Seq<char>,
    pub description: Seq<char>,
    pub steps: Seq<WorkflowStepView>,
    pub triggers: Seq<WorkflowTriggerView>,
    pub variables: Pairs,
}

impl View for WorkflowStep {
    type V = WorkflowStepView;

    open spec fn view(&self) -> WorkflowStepView {
        WorkflowStepView {
            name: self.name@,
            command: self.command@,
            condition: opt_text(self.condition),
            retry_count: self.retry_count,
            timeout_secs: self.timeout_secs,
            continue_on_error: self.continue_on_error,
        }
    }
}

impl View for WorkflowTrigger {
    type V = WorkflowTriggerView;

    open spec fn view(&self) -> WorkflowTriggerView {
        match self {
            WorkflowTrigger::Manual => WorkflowTriggerView::Manual,
            WorkflowTrigger::FileChange(s) => WorkflowTriggerView::FileChange(s@),
            WorkflowTrigger::Schedule(s) => WorkflowTriggerView::Schedule(s@),
            WorkflowTrigger::AfterCommand(s) => WorkflowTriggerView::AfterCommand(s@),
        }
    }
}

impl View for Workflow {
    type V = WorkflowView;

    open spec fn view(&self) -> WorkflowView {
        WorkflowView {
            name: self.name@,
            description: self.description@,
            steps: Seq::new(self.steps@.len(), |i: int| self.steps@[i]@),
            triggers: Seq::new(self.triggers@.len(), |i: int| self.triggers@[i]@),
            variables: self.variables@,
        }
    }
}

/// `s` from index `pos` on, with `to` in place of every occurrence of `from`,
/// the occurrences taken from left to right and not overlapping. An empty
/// `from` occurs nowhere.
pub open spec fn replaced_from(s: Seq<char>, from: Seq<char>, to: Seq<char>, pos: int) -> Seq<char>
    decreases s.len() - pos + 1,
{
    if pos < 0 || pos >= s.len() {
        Seq::empty()
    } else if from.len() > 0 && matches_at(s, from, pos) {
        to + replaced_from(s, from, to, pos + from.len())
    } else {
        seq![s[pos]] + replaced_from(s, from, to, pos + 1)
    }
}

/// `s` with `to` in place of every occurrence of `from`.
pub open spec fn replaced(s: Seq<char>, from: Seq<char>, to: Seq<char>) -> Seq<char> {
    replaced_from(s, from, to, 0)
}

/// How a command names the variable `key`.
pub open spec fn placeholder(key: Seq<char>) -> Seq<char> {
    "${"@ + key + "}"@
}

/// `s` after the variables are put in, one variable after the other in the
/// order of `vars`: each takes the place of all its placeholders in what the
/// variables before it have left.
pub open spec fn substituted(s: Seq<char>, vars: Pairs) -> Seq<char>
    decreases vars.len(),
{
    if vars.len() == 0 {
        s
    } else {
        replaced(substituted(s, vars.drop_last()), placeholder(vars.last().0), vars.last().1)
    }
}

/// The candidate commands of a workflow: one for each step, in order, the
/// variables put into its command, described by the step's name, and
/// classified by the command as the step states it.
pub open spec fn workflow_commands(w: WorkflowView) -> Seq<AgentCommandView> {
    Seq::new(
        w.steps.len(),
        |i: int|
            fresh_command(
                substituted(w.steps[i].command, w.variables),
                w.steps[i].name,
                CommandSource::Workflow,
                risk_of(lowercase_of(w.steps[i].command)),
            ),
    )
}

/// `s` with `to` in place of every occurrence of `from`.
pub fn replace_all(s: &Vec<char>, from: &Vec<char>, to: &Vec<char>) -> (r: Vec<char>)
    ensures
        r@ == replaced(s@, from@, to@),
{
    let mut out: Vec<char> = Vec::new();
    let mut pos: usize = 0;
    assert(out@ + replaced_from(s@, from@, to@, 0) == replaced(s@, from@, to@));
    while pos < s.len()
        invariant
            replaced(s@, from@, to@) == out@ + replaced_from(s@, from@, to@, pos as int),
        decreases s.len() - pos,
    {
        let ghost before = out@;
        if from.len() > 0 && match_at(s, from, pos) {
            extend(&mut out, to);
            assert(before + (to@ + replaced_from(s@, from@, to@, pos + from.len())) == out@
                + replaced_from(s@, from@, to@, pos + from.len()));
            pos = pos + from.len();
        } else {
            out.push(s[pos]);
            assert(before + (seq![s@[pos as int]] + replaced_from(s@, from@, to@, pos + 1)) == out@
                + replaced_from(s@, from@, to@, pos + 1));
            pos = pos + 1;
        }
    }
    assert(out@ + replaced_from(s@, from@, to@, pos as int) == out@);
    out
}

impl Workflow {
    /// A workflow without steps, triggers and variables.
    pub fn new(name: String, description: String) -> (w: Workflow)
        ensures
            w@ == (WorkflowView {
                name: name@,
                description: description@,
                steps: Seq::empty(),
                triggers: Seq::empty(),
                variables: Pairs::empty(),
            }),
            distinct_keys(w@.variables),
    {
        let w = Workflow {
            name,
            description,
            steps: Vec::new(),
            triggers: Vec::new(),
            variables: StringMap::new(),
        };
        assert(w@.steps == Seq::<WorkflowStepView>::empty());
        assert(w@.triggers == Seq::<WorkflowTriggerView>::empty());
        w
    }

    /// Appends a step.
    pub fn add_step(&mut self, step: WorkflowStep)
        ensures
            final(self)@ == (WorkflowView { steps: old(self)@.steps.push(step@), ..old(self)@ }),
    {
        self.steps.push(step);
        assert(self@.steps == old(self)@.steps.push(step@));
    }

    /// Sets the variable `key` to `value`.
    pub fn add_variable(&mut self, key: String, value: String)
        ensures
            final(self)@ == (WorkflowView {
                variables: put(old(self)@.variables, key@, value@),
                ..old(self)@
            }),
            distinct_keys(old(self)@.variables) ==> distinct_keys(final(self)@.variables),
    {
        self.variables.insert(key, value);
    }

    /// `command` with the value of each variable in place of its placeholder
    /// `${NAME}`.
    pub fn substitute_variables(&self, command: &str) -> (r: String)
        ensures
            r@ == substituted(command@, self@.variables),
    {
        let mut text = to_chars(command);
        let mut i: usize = 0;
        let ghost vars = self.variables@;
        assert(vars.take(0) == Pairs::empty());
        while i < self.variables.len()
            invariant
                i <= vars.len(),
                vars == self.variables@,
                text@ == substituted(command@, vars.take(i as int)),
            decreases vars.len() - i,
        {
            assert(vars.take(i + 1).drop_last() == vars.take(i as int));
            let (key, value) = self.variables.entry(i);
            let mut pattern = to_chars("${");
            extend(&mut pattern, &to_chars(key.as_str()));
            extend(&mut pattern, &to_chars("}"));
            text = replace_all(&text, &pattern, &to_chars(value.as_str()));
            i += 1;
        }
        assert(vars.take(vars.len() as int) == vars);
        from_chars(&text)
    }

    /// The candidate commands of this workflow.
    pub fn commands(&self) -> (r: Vec<AgentCommand>)
        ensures
            command_views(r@) == workflow_commands(self@),
    {
        let mut out: Vec<AgentCommand> = Vec::new();
        let mut i: usize = 0;
        while i < self.steps.len()
            invariant
                i <= self.steps.len(),
                out.len() == i,
                forall|k: int| 0 <= k < i ==> (#[trigger] out@[k])@ == workflow_commands(self@)[k],
            decreases self.steps.len() - i,
        {
            let step = &self.steps[i];
            let risk_level = classify(step.command.as_str());
            out.push(
                AgentCommand {
                    command: self.substitute_variables(step.command.as_str()),
                    description: step.name.clone(),
                    source: CommandSource::Workflow,
                    risk_level,
                    approved: false,
                    executed: false,
                    output: None,
                    error: None,
                },
            );
            i += 1;
        }
        assert(command_views(out@) == workflow_commands(self@));
        out
    }
}

/// Why a workflow gives no commands.
#[derive(Debug)]
pub enum WorkflowError {
    /// No workflow has this name.
    NotFound(String),
}

/// The index of the workflow called `name`.
pub open spec fn workflow_index(ws: Seq<WorkflowView>, name: Seq<char>) -> Option<int>
    decreases ws.len(),
{
    if ws.len() == 0 {
        None
    } else if ws.last().name == name {
        Some(ws.len() - 1)
    } else {
        workflow_index(ws.drop_last(), name)
    }
}

/// No name occurs twice among `ws`.
pub open spec fn distinct_names(ws: Seq<WorkflowView>) -> bool {
    forall|i: int, j: int| 0 <= i < j < ws.len() ==> ws[i].name != ws[j].name
}

/// `ws` after `w` is stored: in place of the workflow of the same name, or as
/// a new last one.
pub open spec fn with_workflow(ws: Seq<WorkflowView>, w: WorkflowView) -> Seq<WorkflowView> {
    match workflow_index(ws, w.name) {
        Some(i) => ws.update(i, w),
        None => ws.push(w),
    }
}

/// What `workflow_index` finds has the name, and it finds none only where
/// none has it.
pub proof fn lemma_workflow_index(ws: Seq<WorkflowView>, name: Seq<char>)
    ensures
        workflow_index(ws, name) matches Some(i) ==> 0 <= i < ws.len() && ws[i].name == name,
        workflow_index(ws, name) is None ==> forall|j: int|
            0 <= j < ws.len() ==> (#[trigger] ws[j]).name != name,
    decreases ws.len(),
{
    if ws.len() > 0 && ws.last().name != name {
        let q = ws.drop_last();
        lemma_workflow_index(q, name);
        assert forall|j: int| 0 <= j < q.len() implies q[j] == #[trigger] ws[j] by {}
    }
}

/// The workflow "rust-ci": format check, lints, build and tests.
pub open spec fn rust_ci() -> WorkflowView {
    WorkflowView {
        name: "rust-ci"@,
        description: "Standard Rust CI pipeline"@,
        steps: seq![
            plain_step("Format Check"@, "cargo fmt --check"@, None, 0, 30, false),
            plain_step("Clippy Lints"@, "cargo clippy -- -D warnings"@, None, 1, 60, false),
            plain_step("Build"@, "cargo build"@, None, 1, 300, false),
            plain_step("Test"@, "cargo test"@, None, 1, 300, false),
        ],
        triggers: Seq::empty(),
        variables: Pairs::empty(),
    }
}

/// The workflow "project-backup", with the variable `timestamp` set to the
/// text given.
pub open spec fn project_backup(timestamp: Seq<char>) -> WorkflowView {
    WorkflowView {
        name: "project-backup"@,
        description: "Create project backup"@,
        steps: seq![
            plain_step(
                "Create Backup Directory"@,
                "mkdir -p ${backup_dir}/${timestamp}"@,
                None,
                0,
                10,
                false,
            ),
            plain_step(
                "Copy Source Files"@,
                "cp -r src ${backup_dir}/${timestamp}/"@,
                Some("test -d src"@),
                0,
                60,
                true,
            ),
            plain_step(
                "Copy Config Files"@,
                "cp *.toml *.json *.yaml ${backup_dir}/${timestamp}/ 2>/dev/null || true"@,
                None,
                0,
                30,
                true,
            ),
        ],
        triggers: Seq::empty(),
        variables: put(
            put(Pairs::empty(), "backup_dir"@, "backups"@),
            "timestamp"@,
            timestamp,
        ),
    }
}

/// A step's view from its parts.
pub open spec fn plain_step(
    name: Seq<char>,
    command: Seq<char>,
    condition: Option<Seq<char>>,
    retry_count: u32,
    timeout_secs: u64,
    continue_on_error: bool,
) -> WorkflowStepView {
    WorkflowStepView { name, command, condition, retry_count, timeout_secs, continue_on_error }
}

fn step(
    name: &str,
    command: &str,
    condition: Option<&str>,
    retry_count: u32,
    timeout_secs: u64,
    continue_on_error: bool,
) -> (r: WorkflowStep)
    ensures
        r@ == plain_step(
            name@,
            command@,
            match condition {
                Some(c) => Some(c@),
                None => None,
            },
            retry_count,
            timeout_secs,
            continue_on_error,
        ),
{
    WorkflowStep {
        name: name.to_string(),
        command: command.to_string(),
        condition: match condition {
            Some(c) => Some(c.to_string()),
            None => None,
        },
        retry_count,
        timeout_secs,
        continue_on_error,
    }
}

/// The workflows that are kept, by name.
pub struct WorkflowManager {
    workflows: Vec<Workflow>,
}

impl View for WorkflowManager {
    type V = Seq<WorkflowView>;

    closed spec fn view(&self) -> Seq<WorkflowView> {
        Seq::new(self.workflows@.len(), |i: int| self.workflows@[i]@)
    }
}

impl WorkflowManager {
    /// A manager without workflows.
    pub fn new() -> (m: WorkflowManager)
        ensures
            m@ == Seq::<WorkflowView>::empty(),
    {
        let m = WorkflowManager { workflows: Vec::new() };
        assert(m@ == Seq::<WorkflowView>::empty());
        m
    }

    fn position(&self, name: &Vec<char>) -> (r: Option<usize>)
        ensures
            match r {
                Some(i) => workflow_index(self@, name@) == Some(i as int) && i
                    < self.workflows@.len(),
                None => workflow_index(self@, name@) is None,
            },
    {
        let mut i: usize = self.workflows.len();
        assert(self@.take(i as int) == self@);
        while i > 0
            invariant
                i <= self.workflows@.len(),
                workflow_index(self@, name@) == workflow_index(self@.take(i as int), name@),
            decreases i,
        {
            let n = to_chars(self.workflows[i - 1].name.as_str());
            assert(self@.take(i as int).last().name == n@);
            if same(&n, name) {
                return Some(i - 1);
            }
            assert(self@.take(i as int).drop_last() == self@.take(i - 1));
            i -= 1;
        }
        None
    }

    /// Stores a workflow under its name, in place of the one that had it.
    pub fn add_workflow(&mut self, workflow: Workflow)
        ensures
            final(self)@ == with_workflow(old(self)@, workflow@),
            distinct_names(old(self)@) ==> distinct_names(final(self)@),
    {
        let name = to_chars(workflow.name.as_str());
        let ghost before = self@;
        proof {
            lemma_workflow_index(before, workflow@.name);
        }
        match self.position(&name) {
            Some(i) => {
                self.workflows.set(i, workflow);
                assert(self@ == before.update(i as int, workflow@));
            },
            None => {
                self.workflows.push(workflow);
                assert(self@ == before.push(workflow@));
            },
        }
    }

    /// The workflow called `name`.
    pub fn get_workflow(&self, name: &str) -> (r: Option<&Workflow>)
        ensures
            match r {
                Some(w) => workflow_index(self@, name@) is Some && w@ == self@[workflow_index(
                    self@,
                    name@,
                )->Some_0],
                None => workflow_index(self@, name@) is None,
            },
    {
        let n = to_chars(name);
        match self.position(&n) {
            Some(i) => Some(&self.workflows[i]),
            None => None,
        }
    }

    /// All the workflows, in the order in which their names first came.
    pub fn list_workflows(&self) -> (r: Vec<&Workflow>)
        ensures
            r.len() == self@.len(),
            forall|i: int| 0 <= i < r.len() ==> (#[trigger] r@[i])@ == self@[i],
    {
        let mut out: Vec<&Workflow> = Vec::new();
        let mut i: usize = 0;
        while i < self.workflows.len()
            invariant
                i <= self.workflows@.len(),
                out.len() == i,
                forall|k: int| 0 <= k < i ==> (#[trigger] out@[k])@ == self@[k],
            decreases self.workflows.len() - i,
        {
            out.push(&self.workflows[i]);
            i += 1;
        }
        out
    }

    /// Stores the two common workflows, the backup one with `timestamp` as
    /// its moment.
    pub fn add_common_workflows(&mut self, timestamp: String)
        ensures
            final(self)@ == with_workflow(
                with_workflow(old(self)@, rust_ci()),
                project_backup(timestamp@),
            ),
    {
        let mut ci = Workflow::new("rust-ci".to_string(), "Standard Rust CI pipeline".to_string());
        ci.add_step(step("Format Check", "cargo fmt --check", None, 0, 30, false));
        ci.add_step(step("Clippy Lints", "cargo clippy -- -D warnings", None, 1, 60, false));
        ci.add_step(step("Build", "cargo build", None, 1, 300, false));
        ci.add_step(step("Test", "cargo test", None, 1, 300, false));
        assert(ci@.steps == rust_ci().steps);
        self.add_workflow(ci);
        let mut backup = Workflow::new(
            "project-backup".to_string(),
            "Create project backup".to_string(),
        );
        backup.add_variable("backup_dir".to_string(), "backups".to_string());
        backup.add_variable("timestamp".to_string(), timestamp);
        backup.add_step(
            step(
                "Create Backup Directory",
                "mkdir -p ${backup_dir}/${timestamp}",
                None,
                0,
                10,
                false,
            ),
        );
        backup.add_step(
            step(
                "Copy Source Files",
                "cp -r src ${backup_dir}/${timestamp}/",
                Some("test -d src"),
                0,
                60,
                true,
            ),
        );
        backup.add_step(
            step(
                "Copy Config Files",
                "cp *.toml *.json *.yaml ${backup_dir}/${timestamp}/ 2>/dev/null || true",
                None,
                0,
                30,
                true,
            ),
        );
        assert(backup@.steps == project_backup(timestamp@).steps);
        self.add_workflow(backup);
    }

    /// Stores the two common workflows, the backup one with the present
    /// moment, written as year, month, day, an underscore, hour, minute and
    /// second, as its `timestamp`.
    pub fn create_common_workflows(&mut self)
        ensures
            exists|timestamp: Seq<char>|
                final(self)@ == with_workflow(
                    with_workflow(old(self)@, rust_ci()),
                    #[trigger] project_backup(timestamp),
                ),
    {
        let timestamp = utc_now_text("%Y%m%d_%H%M%S");
        self.add_common_workflows(timestamp);
    }

    /// The candidate commands of the workflow called `name`.
    pub fn execute_workflow(&self, name: &str) -> (r: Result<Vec<AgentCommand>, WorkflowError>)
        ensures
            match workflow_index(self@, name@) {
                Some(i) => r is Ok && command_views(r->Ok_0@) == workflow_commands(self@[i]),
                None => r is Err && r->Err_0->NotFound_0@ == name@,
            },
    {
        match self.get_workflow(name) {
            Some(w) => Ok(w.commands()),
            None => Err(WorkflowError::NotFound(name.to_string())),
        }
    }
}

} // verus!
