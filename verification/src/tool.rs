//! Tool calls: which of them are gated, the safety filter that no approval
//! overrides, and the text that each kind of tool reports back to the model.

use vstd::prelude::*;
use crate::text::{
    contains, contains_str, decimal, decimal_nat, equals_str, from_chars, prefix,
    push_chars, push_decimal, push_signed_decimal, push_str, take_chars, to_chars,
};

verus! {

/// The name of the tool that stores a fact.
pub const REMEMBER_FACT_TOOL_NAME: &'static str = "remember_fact";

/// The name of the tool that runs a shell command.
pub const EXEC_TOOL_NAME: &'static str = "exec";

/// The name of the tool that searches the web.
pub const WEB_SEARCH_TOOL_NAME: &'static str = "web_search";

/// The name of the tool that fetches a page.
pub const WEB_FETCH_TOOL_NAME: &'static str = "web_fetch";

/// The number of characters of a report above which it is cut.
pub const MAX_OUTPUT_CHARS: usize = 4000;

/// The number of search results asked for where the call names none.
pub const DEFAULT_MAX_RESULTS: u64 = 5;

/// The largest number of search results that can be asked for.
pub const MAX_MAX_RESULTS: u64 = 20;

/// The seconds that a command gets where the call names none.
pub const DEFAULT_TIMEOUT_SECS: u64 = 30;

/// The most seconds that a command can get.
pub const MAX_TIMEOUT_SECS: u64 = 300;

/// The characters of a fetched page that are reported where the call names
/// no number.
pub const DEFAULT_FETCH_MAX_CHARS: u64 = 4000;

/// The seconds that a fetch gets.
pub const FETCH_TIMEOUT_SECS: u64 = 30;

/// `serde_json::Value`, any JSON value: carried through as it is. What the
/// library reads of it, it reads through `string_members`.
#[verifier::external_type_specification]
#[verifier::external_body]
pub struct ExJsonValue(serde_json::Value);

/// `Clone::clone` of `serde_json::Value`: the copy is the same JSON value.
pub assume_specification[ <serde_json::Value as Clone>::clone ](
    v: &serde_json::Value,
) -> (out: serde_json::Value)
    ensures
        out == *v,
;

/// The members of the JSON object `v` whose values are strings, by key. A
/// value that is no object has none.
pub uninterp spec fn string_members(v: serde_json::Value) -> Map<Seq<char>, Seq<char>>;

/// `serde_json::Value::get` with a string key, followed by
/// `serde_json::Value::as_str`: the member of the object `v` under `key`,
/// where `v` is an object that has such a member and the member is a string.
#[verifier::external_body]
fn string_member(v: &serde_json::Value, key: &str) -> (out: Option<String>)
    ensures
        out is Some <==> string_members(*v).contains_key(key@),
        out is Some ==> out->0@ == string_members(*v)[key@],
{
    v.get(key).and_then(serde_json::Value::as_str).map(String::from)
}

/// A request of the model to run one tool.
#[derive(Debug, Clone)]
pub struct ToolCall {
    pub id: String,
    pub name: String,
    pub input: serde_json::Value,
}

/// What was decided on a gated tool call.
#[derive(Debug, Clone, PartialEq, Eq)]
pub enum ApprovalDecision {
    AllowOnce,
    AllowAlways { pattern: String },
    Deny,
    AutoApproved,
}

/// The approver of contexts without a human to ask: it approves every call.
pub struct CliApprover;

impl CliApprover {
    /// Approves `tool_call`, whatever it is.
    pub fn request_approval(&self, tool_call: &ToolCall) -> (decision: Result<
        ApprovalDecision,
        crate::error::Error,
    >)
        ensures
            decision == Ok::<ApprovalDecision, crate::error::Error>(ApprovalDecision::AutoApproved),
    {
        Ok(ApprovalDecision::AutoApproved)
    }
}

/// The kinds of tool that the model can call.
#[derive(Debug, Clone, Copy, PartialEq, Eq, Structural)]
pub enum ToolKind {
    RememberFact,
    Exec,
    WebSearch,
    WebFetch,
    Unknown,
}

/// The kind of the tool called `name`.
pub open spec fn kind_of(name: Seq<char>) -> ToolKind {
    if name == "remember_fact"@ {
        ToolKind::RememberFact
    } else if name == "exec"@ {
        ToolKind::Exec
    } else if name == "web_search"@ {
        ToolKind::WebSearch
    } else if name == "web_fetch"@ {
        ToolKind::WebFetch
    } else {
        ToolKind::Unknown
    }
}

/// The kind of the tool called `name`.
pub fn tool_kind(name: &str) -> (kind: ToolKind)
    ensures
        kind == kind_of(name@),
{
    let n = to_chars(name);
    if equals_str(&n, REMEMBER_FACT_TOOL_NAME) {
        ToolKind::RememberFact
    } else if equals_str(&n, EXEC_TOOL_NAME) {
        ToolKind::Exec
    } else if equals_str(&n, WEB_SEARCH_TOOL_NAME) {
        ToolKind::WebSearch
    } else if equals_str(&n, WEB_FETCH_TOOL_NAME) {
        ToolKind::WebFetch
    } else {
        ToolKind::Unknown
    }
}

/// Whether a call of the tool called `name` is gated: the tool that runs
/// shell commands is, no other.
pub open spec fn is_gated(name: Seq<char>) -> bool {
    name == "exec"@
}

/// Whether a call of the tool called `name` has to be approved before it
/// runs.
pub fn gated_tool(name: &str) -> (r: bool)
    ensures
        r == is_gated(name@),
{
    equals_str(&to_chars(name), EXEC_TOOL_NAME)
}

/// Whether `tool_call` has to be approved before it runs.
pub fn requires_approval(tool_call: &ToolCall) -> (r: bool)
    ensures
        r == is_gated(tool_call.name@),
{
    gated_tool(tool_call.name.as_str())
}

/// The command that `input` asks to run: its string member `command`, or a
/// placeholder where it has none.
pub open spec fn command_of(input: serde_json::Value) -> Seq<char> {
    if string_members(input).contains_key("command"@) {
        string_members(input)["command"@]
    } else {
        "<unknown command>"@
    }
}

/// The command that `tool_call` asks to run.
pub fn command_text(tool_call: &ToolCall) -> (command: String)
    ensures
        command@ == command_of(tool_call.input),
{
    match string_member(&tool_call.input, "command") {
        Some(c) => c,
        None => "<unknown command>".to_owned(),
    }
}

/// Whether the safety filter blocks `command`: it holds one of the texts of
/// the deny-list (the deletion of the root directory, the making of a file
/// system, a raw write to a block device, a fork bomb).
pub open spec fn is_blocked(command: Seq<char>) -> bool {
    ||| contains(command, "rm -rf /"@)
    ||| contains(command, "rm -rf /*"@)
    ||| contains(command, "mkfs"@)
    ||| contains(command, "dd if="@)
    ||| contains(command, "> /dev/sd"@)
    ||| contains(command, ":(){ :|:& };:"@)
    ||| contains(command, ".fork"@)
}

/// The reason that the safety filter gives for every command it blocks.
pub open spec fn block_reason() -> Seq<char> {
    "command blocked: matches safety filter"@
}

/// The safety filter: the reason for which `command` may not run, or `None`
/// where it may.
pub fn check_safety_filter(command: &str) -> (reason: Option<&'static str>)
    ensures
        reason is Some <==> is_blocked(command@),
        reason is Some ==> reason->0@ == block_reason(),
{
    let c = to_chars(command);
    if contains_str(&c, "rm -rf /") || contains_str(&c, "rm -rf /*") || contains_str(&c, "mkfs")
        || contains_str(&c, "dd if=") || contains_str(&c, "> /dev/sd") || contains_str(
        &c,
        ":(){ :|:& };:",
    ) || contains_str(&c, ".fork") {
        Some("command blocked: matches safety filter")
    } else {
        None
    }
}

/// Whether `command` names an environment variable that holds a credential.
pub open spec fn is_sensitive(command: Seq<char>) -> bool {
    contains(command, "ANTHROPIC_API_KEY"@) || contains(command, "TELOXIDE_TOKEN"@)
}

/// Whether `command` names an environment variable that holds a credential.
pub fn references_sensitive_env(command: &str) -> (r: bool)
    ensures
        r == is_sensitive(command@),
{
    let c = to_chars(command);
    contains_str(&c, "ANTHROPIC_API_KEY") || contains_str(&c, "TELOXIDE_TOKEN")
}

/// `text` where it has at most `max` characters; else its first `max`
/// characters, followed by `marker`.
pub open spec fn cut(text: Seq<char>, max: nat, marker: Seq<char>) -> Seq<char> {
    if text.len() <= max {
        text
    } else {
        prefix(text, max) + marker
    }
}

fn cut_text(text: &str, max: usize, marker: &str) -> (out: String)
    ensures
        out@ == cut(text@, max as nat, marker@),
{
    let chars = to_chars(text);
    if chars.len() <= max {
        return text.to_owned();
    }
    let mut buf = take_chars(&chars, max);
    push_str(&mut buf, marker);
    from_chars(&buf)
}

/// What is reported of a tool's output: the output itself where it has at
/// most 4000 characters, else its first 4000 characters and a marker.
pub open spec fn truncated_output(output: Seq<char>) -> Seq<char> {
    cut(output, 4000, "\n... (output truncated)"@)
}

/// What is reported of the output `output` of a tool.
pub fn truncate_output(output: &str) -> (out: String)
    ensures
        out@ == truncated_output(output@),
{
    cut_text(output, MAX_OUTPUT_CHARS, "\n... (output truncated)")
}

/// `text` where it has at most `max` characters; else its first `max`
/// characters and a mark that the rest was left out.
pub fn truncate_to_chars(text: &str, max: usize) -> (out: String)
    ensures
        out@ == cut(text@, max as nat, "\n... (content truncated)"@),
{
    cut_text(text, max, "\n... (content truncated)")
}

/// The number of seconds that a command gets: what was asked for, 30 where
/// nothing was, and never more than 300.
pub open spec fn timeout_of(asked: Option<u64>) -> u64 {
    let t = match asked {
        Some(t) => t,
        None => 30,
    };
    if t <= 300 {
        t
    } else {
        300
    }
}

/// The number of seconds that a command gets, where the call asks for
/// `timeout_secs`.
pub fn effective_timeout(timeout_secs: Option<u64>) -> (t: u64)
    ensures
        t == timeout_of(timeout_secs),
{
    let t = match timeout_secs {
        Some(t) => t,
        None => DEFAULT_TIMEOUT_SECS,
    };
    if t <= MAX_TIMEOUT_SECS {
        t
    } else {
        MAX_TIMEOUT_SECS
    }
}

/// The number of search results to ask for: what was asked for, 5 where
/// nothing was, and never more than 20.
pub open spec fn result_count_of(asked: Option<u64>) -> u64 {
    let n = match asked {
        Some(n) => n,
        None => 5,
    };
    if n <= 20 {
        n
    } else {
        20
    }
}

/// The number of search results to ask for, where the call asks for
/// `max_results`.
pub fn effective_max_results(max_results: Option<u64>) -> (n: u64)
    ensures
        n == result_count_of(max_results),
{
    let n = match max_results {
        Some(n) => n,
        None => DEFAULT_MAX_RESULTS,
    };
    if n <= MAX_MAX_RESULTS {
        n
    } else {
        MAX_MAX_RESULTS
    }
}

/// What is to be done with a shell command.
#[derive(Debug, Clone, PartialEq, Eq)]
pub enum ExecPlan {
    /// The safety filter blocks it: `reason` is the result, and nothing runs.
    Blocked { reason: String },
    /// It runs, for at most `timeout_secs` seconds.
    Run { timeout_secs: u64 },
}

/// What is to be done with `command`: the safety filter comes first.
pub fn plan_command(command: &str, timeout_secs: Option<u64>) -> (plan: ExecPlan)
    ensures
        (match plan {
            ExecPlan::Blocked { reason } => is_blocked(command@) && reason@ == block_reason(),
            ExecPlan::Run { timeout_secs: t } => !is_blocked(command@) && t == timeout_of(
                timeout_secs,
            ),
        }),
{
    match check_safety_filter(command) {
        Some(reason) => ExecPlan::Blocked { reason: reason.to_owned() },
        None => ExecPlan::Run { timeout_secs: effective_timeout(timeout_secs) },
    }
}

/// The report of a command that ran to its end, before it is cut: the exit
/// code, then each of the two streams that is not empty, under its heading.
pub open spec fn exit_report(code: int, stdout: Seq<char>, stderr: Seq<char>) -> Seq<char> {
    "exit code: "@ + decimal(code) + (if stdout.len() > 0 {
        "\nstdout:\n"@ + stdout
    } else {
        Seq::empty()
    }) + (if stderr.len() > 0 {
        "\nstderr:\n"@ + stderr
    } else {
        Seq::empty()
    }) + (if stdout.len() == 0 && stderr.len() == 0 {
        "\n(no output)"@
    } else {
        Seq::empty()
    })
}

/// The result of a command that ran to its end with exit code `code` and
/// wrote `stdout` and `stderr`.
pub fn command_report(code: i32, stdout: &str, stderr: &str) -> (out: String)
    ensures
        out@ == truncated_output(exit_report(code as int, stdout@, stderr@)),
{
    let out_chars = to_chars(stdout);
    let err_chars = to_chars(stderr);
    let mut buf: Vec<char> = Vec::new();
    push_str(&mut buf, "exit code: ");
    push_signed_decimal(&mut buf, code as i64);
    if out_chars.len() > 0 {
        push_str(&mut buf, "\nstdout:\n");
        push_chars(&mut buf, &out_chars);
    }
    if err_chars.len() > 0 {
        push_str(&mut buf, "\nstderr:\n");
        push_chars(&mut buf, &err_chars);
    }
    if out_chars.len() == 0 && err_chars.len() == 0 {
        push_str(&mut buf, "\n(no output)");
    }
    assert(buf@ =~= exit_report(code as int, stdout@, stderr@));
    let report = from_chars(&buf);
    truncate_output(report.as_str())
}

/// The result of a command that did not end within `timeout_secs` seconds.
pub fn timeout_report(timeout_secs: u64) -> (out: String)
    ensures
        out@ == "command timed out after "@ + decimal_nat(timeout_secs as nat) + "s"@,
{
    let mut buf: Vec<char> = Vec::new();
    push_str(&mut buf, "command timed out after ");
    push_decimal(&mut buf, timeout_secs);
    push_str(&mut buf, "s");
    from_chars(&buf)
}

/// `head` followed by `tail`.
pub fn join(head: &str, tail: &str) -> (out: String)
    ensures
        out@ == head@ + tail@,
{
    let mut buf = to_chars(head);
    push_str(&mut buf, tail);
    from_chars(&buf)
}

/// The result of a command that could not be started, for the reason
/// `error`.
pub fn spawn_failure_report(error: &str) -> (out: String)
    ensures
        out@ == "failed to execute command: "@ + error@,
{
    join("failed to execute command: ", error)
}

/// The result of a call whose input does not fit its tool, for the reason
/// `error`.
pub fn invalid_input_report(error: &str) -> (out: String)
    ensures
        out@ == "invalid input: "@ + error@,
{
    join("invalid input: ", error)
}

/// The result of a call of the tool `name`, which does not exist.
pub fn unknown_tool_report(name: &str) -> (out: String)
    ensures
        out@ == "unknown tool: "@ + name@,
{
    join("unknown tool: ", name)
}

} // verus!
