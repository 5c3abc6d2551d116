//! The plain data that the rest of the crate passes around.

use vstd::prelude::*;
use vstd::string::StringExecFns;
use crate::risk::{classify, lowercase_of, risk_of};
use crate::text::{equal, from_chars, signed_decimal, signed_decimal_of, to_chars};

verus! {

/// How dangerous a shell command looks.
#[derive(Debug, Clone, Copy, PartialEq, Eq, Structural)]
pub enum RiskLevel {
    /// Listing, reading, status.
    Safe,
    /// Files and directories are created, copied or changed.
    Moderate,
    /// System services, accounts, network scripts.
    High,
    /// Data or devices may be destroyed.
    Critical,
}

/// Which rule of the extractor found a command.
#[derive(Debug, Clone, Copy, PartialEq, Eq, Structural)]
pub enum CommandSource {
    /// A line of a fenced shell block.
    Fenced,
    /// A `$ command` line.
    Inline,
    /// A tool-call tag.
    ToolCall,
    /// A step of a workflow.
    Workflow,
}

/// A shell command proposed by the model, with its review state.
#[derive(Debug, Clone)]
pub struct AgentCommand {
    pub command: String,
    pub description: String,
    pub source: CommandSource,
    pub risk_level: RiskLevel,
    pub approved: bool,
    pub executed: bool,
    pub output: Option<String>,
    pub error: Option<String>,
}

/// What an `AgentCommand` holds, as mathematical values.
pub struct AgentCommandView {
    pub command: Seq<char>,
    pub description: Seq<char>,
    pub source: CommandSource,
    pub risk_level: RiskLevel,
    pub approved: bool,
    pub executed: bool,
    pub output: Option<Seq<char>>,
    pub error: Option<Seq<char>>,
}

/// The text of an optional string.
pub open spec fn opt_text(o: Option<String>) -> Option<Seq<char>> {
    match o {
        Some(s) => Some(s@),
        None => None,
    }
}

impl View for AgentCommand {
    type V = AgentCommandView;

    open spec fn view(&self) -> AgentCommandView {
        AgentCommandView {
            command: self.command@,
            description: self.description@,
            source: self.source,
            risk_level: self.risk_level,
            approved: self.approved,
            executed: self.executed,
            output: opt_text(self.output),
            error: opt_text(self.error),
        }
    }
}

/// The views of a sequence of commands.
pub open spec fn command_views(cmds: Seq<AgentCommand>) -> Seq<AgentCommandView> {
    Seq::new(cmds.len(), |i: int| cmds[i]@)
}

/// A command as the extractor first sees it: not approved, not executed,
/// nothing captured.
pub open spec fn fresh_command(
    command: Seq<char>,
    description: Seq<char>,
    source: CommandSource,
    risk_level: RiskLevel,
) -> AgentCommandView {
    AgentCommandView {
        command,
        description,
        source,
        risk_level,
        approved: false,
        executed: false,
        output: None,
        error: None,
    }
}

/// A copy of an optional string.
pub fn copy_opt(o: &Option<String>) -> (r: Option<String>)
    ensures
        opt_text(r) == opt_text(*o),
{
    match o {
        Some(s) => Some(s.clone()),
        None => None,
    }
}

impl AgentCommand {
    /// A candidate for `command`, found by the rule `source`: classified, not
    /// described, not approved, not executed.
    pub fn new(command: String, source: CommandSource) -> (r: AgentCommand)
        ensures
            r@ == fresh_command(
                command@,
                Seq::empty(),
                source,
                risk_of(lowercase_of(command@)),
            ),
    {
        let risk_level = classify(command.as_str());
        AgentCommand {
            command,
            description: String::new(),
            source,
            risk_level,
            approved: false,
            executed: false,
            output: None,
            error: None,
        }
    }

    /// A copy that holds the same values.
    pub fn duplicate(&self) -> (r: AgentCommand)
        ensures
            r@ == self@,
    {
        AgentCommand {
            command: self.command.clone(),
            description: self.description.clone(),
            source: self.source,
            risk_level: self.risk_level,
            approved: self.approved,
            executed: self.executed,
            output: copy_opt(&self.output),
            error: copy_opt(&self.error),
        }
    }
}

/// Who wrote a message.
#[derive(Debug, Clone, Copy, PartialEq, Eq, Structural)]
pub enum Role {
    User,
    Assistant,
}

/// One message of a chat.
#[derive(Debug, Clone)]
pub struct Message {
    pub role: Role,
    pub content: String,
}

/// A chat with its messages.
#[derive(Debug, Clone)]
pub struct ChatSession {
    pub id: i64,
    pub name: String,
    pub messages: Vec<Message>,
    /// Milliseconds since the Unix epoch.
    pub created_at: i64,
}

/// How the client proves who it is.
#[derive(Debug, Clone)]
pub enum AuthMethod {
    Basic { username: String, password: String },
    Bearer { token: String },
}

/// The colours of the interface, by name or as `#RRGGBB`.
#[derive(Debug, Clone)]
pub struct Theme {
    pub chat_border_color: String,
    pub sessions_border_color: String,
    pub user_message_color: String,
    pub assistant_message_color: String,
    pub highlight_color: String,
    pub highlight_bg_color: String,
    pub status_bar_color: String,
    pub popup_border_color: String,
}

/// Where the model server is, where the chats are kept, and how things look.
#[derive(Debug)]
pub struct Config {
    pub ollama_host: String,
    pub ollama_port: u16,
    pub db_filename: String,
    pub auth_enabled: bool,
    pub auth_method: Option<AuthMethod>,
    pub theme: Theme,
}

/// One model that the server offers.
#[derive(Debug, Clone)]
pub struct ModelDetails {
    pub name: String,
}

/// The server's list of models.
#[derive(Debug)]
pub struct ModelsResponse {
    pub models: Vec<ModelDetails>,
}

/// A request for a chat completion.
#[derive(Debug)]
pub struct ChatRequest<'a> {
    pub model: &'a str,
    pub messages: &'a [Message],
    pub stream: bool,
}

/// One piece of a streamed chat completion.
#[derive(Debug)]
pub struct StreamChatResponse {
    pub message: Message,
    pub done: bool,
}

/// A colour of the terminal.
#[derive(Debug, Clone, Copy, PartialEq, Eq, Structural)]
pub enum ThemeColor {
    Black,
    Red,
    Green,
    Yellow,
    Blue,
    Magenta,
    Cyan,
    Gray,
    DarkGray,
    LightRed,
    LightGreen,
    LightYellow,
    LightBlue,
    LightMagenta,
    LightCyan,
    White,
    Rgb(u8, u8, u8),
}

/// What a `Theme` holds, as mathematical values.
pub struct ThemeView {
    pub chat_border_color: Seq<char>,
    pub sessions_border_color: Seq<char>,
    pub user_message_color: Seq<char>,
    pub assistant_message_color: Seq<char>,
    pub highlight_color: Seq<char>,
    pub highlight_bg_color: Seq<char>,
    pub status_bar_color: Seq<char>,
    pub popup_border_color: Seq<char>,
}

impl View for Theme {
    type V = ThemeView;

    open spec fn view(&self) -> ThemeView {
        ThemeView {
            chat_border_color: self.chat_border_color@,
            sessions_border_color: self.sessions_border_color@,
            user_message_color: self.user_message_color@,
            assistant_message_color: self.assistant_message_color@,
            highlight_color: self.highlight_color@,
            highlight_bg_color: self.highlight_bg_color@,
            status_bar_color: self.status_bar_color@,
            popup_border_color: self.popup_border_color@,
        }
    }
}

/// The theme that is used where none is configured.
pub open spec fn default_theme() -> ThemeView {
    ThemeView {
        chat_border_color: "yellow"@,
        sessions_border_color: "yellow"@,
        user_message_color: "cyan"@,
        assistant_message_color: "light_green"@,
        highlight_color: "black"@,
        highlight_bg_color: "light_green"@,
        status_bar_color: "dark_gray"@,
        popup_border_color: "yellow"@,
    }
}

/// The colour of the border of the chat, where none is configured.
pub fn default_chat_border_color() -> (c: String)
    ensures
        c@ == "yellow"@,
{
    "yellow".to_string()
}

/// The colour of the border of the session list, where none is configured.
pub fn default_sessions_border_color() -> (c: String)
    ensures
        c@ == "yellow"@,
{
    "yellow".to_string()
}

/// The colour of the user's messages, where none is configured.
pub fn default_user_message_color() -> (c: String)
    ensures
        c@ == "cyan"@,
{
    "cyan".to_string()
}

/// The colour of the assistant's messages, where none is configured.
pub fn default_assistant_message_color() -> (c: String)
    ensures
        c@ == "light_green"@,
{
    "light_green".to_string()
}

/// The colour of highlighted text, where none is configured.
pub fn default_highlight_color() -> (c: String)
    ensures
        c@ == "black"@,
{
    "black".to_string()
}

/// The colour behind highlighted text, where none is configured.
pub fn default_highlight_bg_color() -> (c: String)
    ensures
        c@ == "light_green"@,
{
    "light_green".to_string()
}

/// The colour of the status bar, where none is configured.
pub fn default_status_bar_color() -> (c: String)
    ensures
        c@ == "dark_gray"@,
{
    "dark_gray".to_string()
}

/// The colour of the border of a popup, where none is configured.
pub fn default_popup_border_color() -> (c: String)
    ensures
        c@ == "yellow"@,
{
    "yellow".to_string()
}

impl Default for Theme {
    fn default() -> (theme: Theme)
        ensures
            theme@ == default_theme(),
    {
        Theme {
            chat_border_color: default_chat_border_color(),
            sessions_border_color: default_sessions_border_color(),
            user_message_color: default_user_message_color(),
            assistant_message_color: default_assistant_message_color(),
            highlight_color: default_highlight_color(),
            highlight_bg_color: default_highlight_bg_color(),
            status_bar_color: default_status_bar_color(),
            popup_border_color: default_popup_border_color(),
        }
    }
}

/// The value of a hexadecimal digit.
pub open spec fn hex_value(c: char) -> Option<int> {
    if '0' <= c <= '9' {
        Some(c as int - '0' as int)
    } else if 'a' <= c <= 'f' {
        Some(c as int - 'a' as int + 10)
    } else if 'A' <= c <= 'F' {
        Some(c as int - 'A' as int + 10)
    } else {
        None
    }
}

/// The number that the two characters `a`, `b` write in base 16: two digits,
/// or a plus sign and one digit.
pub open spec fn hex_pair(a: char, b: char) -> Option<int> {
    if a == '+' {
        hex_value(b)
    } else {
        match (hex_value(a), hex_value(b)) {
            (Some(x), Some(y)) => Some(16 * x + y),
            _ => None,
        }
    }
}

/// The colour that a lowercase name stands for.
pub open spec fn named_color(l: Seq<char>) -> Option<ThemeColor> {
    if l == "black"@ {
        Some(ThemeColor::Black)
    } else if l == "red"@ {
        Some(ThemeColor::Red)
    } else if l == "green"@ {
        Some(ThemeColor::Green)
    } else if l == "yellow"@ {
        Some(ThemeColor::Yellow)
    } else if l == "blue"@ {
        Some(ThemeColor::Blue)
    } else if l == "magenta"@ {
        Some(ThemeColor::Magenta)
    } else if l == "cyan"@ {
        Some(ThemeColor::Cyan)
    } else if l == "gray"@ || l == "grey"@ {
        Some(ThemeColor::Gray)
    } else if l == "dark_gray"@ || l == "dark_grey"@ {
        Some(ThemeColor::DarkGray)
    } else if l == "light_red"@ {
        Some(ThemeColor::LightRed)
    } else if l == "light_green"@ {
        Some(ThemeColor::LightGreen)
    } else if l == "light_yellow"@ {
        Some(ThemeColor::LightYellow)
    } else if l == "light_blue"@ {
        Some(ThemeColor::LightBlue)
    } else if l == "light_magenta"@ {
        Some(ThemeColor::LightMagenta)
    } else if l == "light_cyan"@ {
        Some(ThemeColor::LightCyan)
    } else if l == "white"@ {
        Some(ThemeColor::White)
    } else {
        None
    }
}

/// The colour that `#RRGGBB` stands for.
pub open spec fn hex_color(l: Seq<char>) -> Option<ThemeColor> {
    if l.len() == 7 && l[0] == '#' {
        match (hex_pair(l[1], l[2]), hex_pair(l[3], l[4]), hex_pair(l[5], l[6])) {
            (Some(r), Some(g), Some(b)) => Some(ThemeColor::Rgb(r as u8, g as u8, b as u8)),
            _ => None,
        }
    } else {
        None
    }
}

/// The colour that a lowercase text stands for: a named colour, a colour in
/// hexadecimal, and white for everything else.
pub open spec fn color_of(l: Seq<char>) -> ThemeColor {
    match named_color(l) {
        Some(c) => c,
        None => match hex_color(l) {
            Some(c) => c,
            None => ThemeColor::White,
        },
    }
}

fn hex_digit(c: char) -> (r: Option<u8>)
    ensures
        match r {
            Some(v) => hex_value(c) == Some(v as int) && v < 16,
            None => hex_value(c) is None,
        },
{
    if '0' <= c && c <= '9' {
        Some((c as u32 - '0' as u32) as u8)
    } else if 'a' <= c && c <= 'f' {
        Some((c as u32 - 'a' as u32 + 10) as u8)
    } else if 'A' <= c && c <= 'F' {
        Some((c as u32 - 'A' as u32 + 10) as u8)
    } else {
        None
    }
}

fn hex_byte(a: char, b: char) -> (r: Option<u8>)
    ensures
        match r {
            Some(v) => hex_pair(a, b) == Some(v as int),
            None => hex_pair(a, b) is None,
        },
{
    if a == '+' {
        hex_digit(b)
    } else {
        match (hex_digit(a), hex_digit(b)) {
            (Some(x), Some(y)) => Some(16 * x + y),
            _ => None,
        }
    }
}

fn color_by_name(name: &str) -> (r: Option<ThemeColor>)
    ensures
        r == named_color(name@),
{
    if equal(name, "black") {
        Some(ThemeColor::Black)
    } else if equal(name, "red") {
        Some(ThemeColor::Red)
    } else if equal(name, "green") {
        Some(ThemeColor::Green)
    } else if equal(name, "yellow") {
        Some(ThemeColor::Yellow)
    } else if equal(name, "blue") {
        Some(ThemeColor::Blue)
    } else if equal(name, "magenta") {
        Some(ThemeColor::Magenta)
    } else if equal(name, "cyan") {
        Some(ThemeColor::Cyan)
    } else if equal(name, "gray") || equal(name, "grey") {
        Some(ThemeColor::Gray)
    } else if equal(name, "dark_gray") || equal(name, "dark_grey") {
        Some(ThemeColor::DarkGray)
    } else if equal(name, "light_red") {
        Some(ThemeColor::LightRed)
    } else if equal(name, "light_green") {
        Some(ThemeColor::LightGreen)
    } else if equal(name, "light_yellow") {
        Some(ThemeColor::LightYellow)
    } else if equal(name, "light_blue") {
        Some(ThemeColor::LightBlue)
    } else if equal(name, "light_magenta") {
        Some(ThemeColor::LightMagenta)
    } else if equal(name, "light_cyan") {
        Some(ThemeColor::LightCyan)
    } else if equal(name, "white") {
        Some(ThemeColor::White)
    } else {
        None
    }
}

fn color_by_hex(name: &str) -> (r: Option<ThemeColor>)
    ensures
        r == hex_color(name@),
{
    let v = to_chars(name);
    if v.len() == 7 && v[0] == '#' {
        match (hex_byte(v[1], v[2]), hex_byte(v[3], v[4]), hex_byte(v[5], v[6])) {
            (Some(r), Some(g), Some(b)) => Some(ThemeColor::Rgb(r, g, b)),
            _ => None,
        }
    } else {
        None
    }
}

/// The colour that a text in lowercase stands for.
pub fn color_of_lowercase(name: &str) -> (c: ThemeColor)
    ensures
        c == color_of(name@),
{
    match color_by_name(name) {
        Some(c) => c,
        None => match color_by_hex(name) {
            Some(c) => c,
            None => ThemeColor::White,
        },
    }
}

impl Theme {
    /// The colour that `color_str` stands for, whatever its letter case.
    pub fn parse_color(&self, color_str: &str) -> (c: ThemeColor)
        ensures
            c == color_of(lowercase_of(color_str@)),
    {
        let lowered = color_str.to_lowercase();
        color_of_lowercase(lowered.as_str())
    }
}

/// The greeting that opens a new chat.
pub open spec fn greeting() -> Seq<char> {
    "New chat started. Ask me anything!"@
}

impl ChatSession {
    /// A chat that is not stored yet: called after its `number`, opened by
    /// the assistant's greeting, made at the moment `created_at`.
    pub fn new(number: i64, created_at: i64) -> (session: ChatSession)
        ensures
            session.id == 0,
            session.name@ == "Chat "@ + signed_decimal_of(number as int),
            session.messages@.len() == 1,
            session.messages@[0].role == Role::Assistant,
            session.messages@[0].content@ == greeting(),
            session.created_at == created_at,
    {
        let mut name = String::new();
        name.append("Chat ");
        let digits = from_chars(&signed_decimal(number));
        name.append(digits.as_str());
        let mut messages: Vec<Message> = Vec::new();
        messages.push(
            Message {
                role: Role::Assistant,
                content: "New chat started. Ask me anything!".to_string(),
            },
        );
        ChatSession { id: 0, name, messages, created_at }
    }
}

impl ModelsResponse {
    /// The names of the models, in the order of the list.
    pub fn names(&self) -> (r: Vec<String>)
        ensures
            r.len() == self.models.len(),
            forall|i: int| 0 <= i < r.len() ==> (#[trigger] r@[i])@ == self.models@[i].name@,
    {
        let mut out: Vec<String> = Vec::new();
        let mut i: usize = 0;
        while i < self.models.len()
            invariant
                i <= self.models.len(),
                out.len() == i,
                forall|k: int| 0 <= k < i ==> (#[trigger] out@[k])@ == self.models@[k].name@,
            decreases self.models.len() - i,
        {
            out.push(self.models[i].name.clone());
            i += 1;
        }
        out
    }
}

} // verus!
