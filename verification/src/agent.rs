//! The supervised agent: what it reads out of a model's answer, and what it
//! tells the model about the machine.

use vstd::prelude::*;
use vstd::string::StringExecFns;
use crate::extract::{command_texts, extracted_commands, found_views};
use crate::models::{
    command_views, fresh_command, opt_text, AgentCommand, AgentCommandView, RiskLevel,
};
use crate::risk::{classify, lowercase_of, risk_of};
use crate::text::{from_chars, to_chars};
use crate::toolcall::{parse_tool_calls, tool_call_views, tool_calls_of, ToolCall};
use crate::strmap::distinct_keys;

verus! {

/// The entry points of the supervised agent.
pub struct Agent;

/// What the agent knows about the machine it runs on.
#[derive(Debug)]
pub struct SystemContext {
    pub current_dir: String,
    pub is_git_repo: bool,
    pub git_branch: Option<String>,
    pub shell: String,
    pub os: String,
    pub home_dir: Option<String>,
}

/// What a `SystemContext` holds, as mathematical values.
pub struct SystemContextView {
    pub current_dir: Seq<char>,
    pub is_git_repo: bool,
    pub git_branch: Option<Seq<char>>,
    pub shell: Seq<char>,
    pub os: Seq<char>,
    pub home_dir: Option<Seq<char>>,
}

impl View for SystemContext {
    type V = SystemContextView;

    open spec fn view(&self) -> SystemContextView {
        SystemContextView {
            current_dir: self.current_dir@,
            is_git_repo: self.is_git_repo,
            git_branch: opt_text(self.git_branch),
            shell: self.shell@,
            os: self.os@,
            home_dir: opt_text(self.home_dir),
        }
    }
}

/// The candidates that a model's answer proposes: every extracted command
/// in the order of the text, marked with the rule that found it and
/// classified by its own text.
pub open spec fn candidates(s: Seq<char>) -> Seq<AgentCommandView> {
    let all = extracted_commands(s);
    Seq::new(
        all.len(),
        |i: int| fresh_command(all[i].0, Seq::empty(), all[i].1, risk_of(lowercase_of(all[i].0))),
    )
}

/// The lines that tell the model about the machine.
pub open spec fn context_block(c: SystemContextView) -> Seq<char> {
    "SYSTEM CONTEXT:\n- Operating System: "@ + c.os + "\n- Shell: "@ + c.shell
        + "\n- Current Directory: "@ + c.current_dir + "\n- Git Repository: "@ + (if c.is_git_repo {
        "Yes"@
    } else {
        "No"@
    }) + (match c.git_branch {
        Some(b) => " (branch: "@ + b + ")"@,
        None => Seq::empty(),
    }) + "\n- Home Directory: "@ + (match c.home_dir {
        Some(h) => h,
        None => "unknown"@,
    }) + "\n"@
}

/// The system prompt of the supervised agent for a machine.
pub open spec fn agent_system_prompt(c: SystemContextView) -> Seq<char> {
    "You are an AI assistant in AGENT MODE. You can suggest shell commands to help the user.\n\n"@
        + context_block(c)
        + "\nIMPORTANT INSTRUCTIONS:\n1. When suggesting commands, you MUST use this EXACT format:\n   \n   ```bash\n   command here\n   ```\n\n2. Each command must be in a separate bash code block\n3. Use 'bash', 'sh', or 'shell' as the language tag\n4. Do NOT use other language tags (python, javascript, etc.) for shell commands\n5. Each line in a code block becomes a separate command\n6. Comments (lines starting with #) are ignored\n7. The user will review and approve commands before execution\n\nCOMMAND GUIDELINES:\n- Suggest safe, read-only commands when possible\n- Explain what each command does\n- Consider the current directory context\n- For git repos, you can suggest git commands\n- Use appropriate commands for "@
        + c.os
        + "\n- Commands run independently (no state between commands)\n- Avoid commands that require user interaction\n- Use absolute paths or be aware of current directory: "@
        + c.current_dir
        + "\n\nEXAMPLE RESPONSE:\n\"To list all Rust files in the current directory:\n\n```bash\nfind . -name \"*.rs\" -type f\n```\n\nThis will recursively search for all .rs files.\"\n\nRemember: Commands will be extracted from ```bash blocks and shown to the user for approval before execution."@
}

/// What a finished process is reported as: on success its standard output
/// and its standard error, on separate lines where both are present, or a
/// note that there was none; on failure its standard error, or its status
/// where that is empty.
pub open spec fn command_report(
    success: bool,
    stdout: Seq<char>,
    stderr: Seq<char>,
    status: Seq<char>,
) -> Result<Seq<char>, Seq<char>> {
    if success {
        if stdout.len() == 0 && stderr.len() == 0 {
            Ok("[Command executed successfully with no output]"@)
        } else if stdout.len() > 0 && stderr.len() > 0 {
            Ok(stdout + "\n"@ + stderr)
        } else {
            Ok(stdout + stderr)
        }
    } else {
        if stderr.len() == 0 {
            Err("Command failed with exit code: "@ + status)
        } else {
            Err(stderr)
        }
    }
}

/// The text of a report, on either side.
pub open spec fn report_text(r: Result<String, String>) -> Result<Seq<char>, Seq<char>> {
    match r {
        Ok(s) => Ok(s@),
        Err(s) => Err(s@),
    }
}

/// Appends the lines that tell the model about the machine.
pub fn push_context(out: &mut String, context: &SystemContext)
    ensures
        final(out)@ == old(out)@ + context_block(context@),
{
    let ghost c = context@;
    let ghost start = out@;
    let mut block = String::new();
    block.append("SYSTEM CONTEXT:\n- Operating System: ");
    block.append(context.os.as_str());
    block.append("\n- Shell: ");
    block.append(context.shell.as_str());
    block.append("\n- Current Directory: ");
    block.append(context.current_dir.as_str());
    block.append("\n- Git Repository: ");
    if context.is_git_repo {
        block.append("Yes");
    } else {
        block.append("No");
    }
    match &context.git_branch {
        Some(b) => {
            let mut branch = String::new();
            branch.append(" (branch: ");
            branch.append(b.as_str());
            branch.append(")");
            assert(branch@ == " (branch: "@ + b@ + ")"@);
            block.append(branch.as_str());
        },
        None => {
            assert(block@ + Seq::<char>::empty() == block@);
        },
    }
    block.append("\n- Home Directory: ");
    match &context.home_dir {
        Some(h) => {
            block.append(h.as_str());
        },
        None => {
            block.append("unknown");
        },
    }
    block.append("\n");
    assert(block@ == context_block(c));
    out.append(block.as_str());
}

impl Agent {
    /// The risk tier of a command.
    pub fn assess_risk_level(command: &str) -> (r: RiskLevel)
        ensures
            r == risk_of(lowercase_of(command@)),
    {
        classify(command)
    }

    /// The commands that a model's answer proposes, in the order of the text:
    /// those of its fenced shell blocks, and those of its `$ text` lines that
    /// were not found before.
    pub fn parse_commands_from_response(response: &str) -> (commands: Vec<AgentCommand>)
        ensures
            command_views(commands@) == candidates(response@),
    {
        let v = to_chars(response);
        let found = command_texts(&v);
        let mut commands: Vec<AgentCommand> = Vec::new();
        let mut i: usize = 0;
        while i < found.len()
            invariant
                i <= found.len(),
                found_views(found@) == extracted_commands(response@),
                commands.len() == i,
                forall|k: int| 0 <= k < i ==> (#[trigger] commands@[k])@ == candidates(response@)[k],
            decreases found.len() - i,
        {
            assert(found_views(found@)[i as int] == (found@[i as int].0@, found@[i as int].1));
            let command = AgentCommand::new(from_chars(&found[i].0), found[i].1);
            commands.push(command);
            i += 1;
        }
        assert(command_views(commands@) == candidates(response@));
        commands
    }

    /// The tool calls that a model's answer holds, in the order of the text.
    pub fn parse_tool_calls(response: &str) -> (calls: Vec<ToolCall>)
        ensures
            tool_call_views(calls@) == tool_calls_of(response@),
            forall|i: int| 0 <= i < calls.len() ==> distinct_keys(#[trigger] calls@[i].args@),
    {
        parse_tool_calls(response)
    }

    /// The system prompt of the supervised agent for the machine `context`.
    pub fn create_agent_system_prompt(context: &SystemContext) -> (prompt: String)
        ensures
            prompt@ == agent_system_prompt(context@),
    {
        let mut out = String::new();
        out.append(
            "You are an AI assistant in AGENT MODE. You can suggest shell commands to help the user.\n\n",
        );
        push_context(&mut out, context);
        out.append(
            "\nIMPORTANT INSTRUCTIONS:\n1. When suggesting commands, you MUST use this EXACT format:\n   \n   ```bash\n   command here\n   ```\n\n2. Each command must be in a separate bash code block\n3. Use 'bash', 'sh', or 'shell' as the language tag\n4. Do NOT use other language tags (python, javascript, etc.) for shell commands\n5. Each line in a code block becomes a separate command\n6. Comments (lines starting with #) are ignored\n7. The user will review and approve commands before execution\n\nCOMMAND GUIDELINES:\n- Suggest safe, read-only commands when possible\n- Explain what each command does\n- Consider the current directory context\n- For git repos, you can suggest git commands\n- Use appropriate commands for ",
        );
        out.append(context.os.as_str());
        out.append(
            "\n- Commands run independently (no state between commands)\n- Avoid commands that require user interaction\n- Use absolute paths or be aware of current directory: ",
        );
        out.append(context.current_dir.as_str());
        out.append(
            "\n\nEXAMPLE RESPONSE:\n\"To list all Rust files in the current directory:\n\n```bash\nfind . -name \"*.rs\" -type f\n```\n\nThis will recursively search for all .rs files.\"\n\nRemember: Commands will be extracted from ```bash blocks and shown to the user for approval before execution.",
        );
        out
    }

    /// What a finished process is reported as. `success` says whether it exited
    /// with success, `status` is the text of its exit status.
    pub fn command_outcome(success: bool, stdout: &str, stderr: &str, status: &str) -> (r: Result<
        String,
        String,
    >)
        ensures
            report_text(r) == command_report(success, stdout@, stderr@, status@),
    {
        let out_len = stdout.unicode_len();
        let err_len = stderr.unicode_len();
        if success {
            let mut result = String::new();
            if out_len == 0 && err_len == 0 {
                result.append("[Command executed successfully with no output]");
            } else if out_len > 0 && err_len > 0 {
                result.append(stdout);
                result.append("\n");
                result.append(stderr);
            } else {
                result.append(stdout);
                result.append(stderr);
            }
            Ok(result)
        } else {
            let mut result = String::new();
            if err_len == 0 {
                result.append("Command failed with exit code: ");
                result.append(status);
            } else {
                result.append(stderr);
            }
            Err(result)
        }
    }
}

} // verus!
