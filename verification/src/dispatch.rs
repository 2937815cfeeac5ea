//! From a tool call to what is done for it: every failure becomes a text
//! for the model, never an error.

use vstd::prelude::*;
use crate::tool::{
    block_reason, invalid_input_report, is_blocked, kind_of, plan_command, result_count_of,
    effective_max_results, timeout_of, tool_kind, unknown_tool_report, ExecPlan, ToolKind,
};
use crate::web::{fetch_limit_of, lowercase, plan_fetch, url_rejection, FetchPlan};

verus! {

/// The input of a tool call, read as what its tool takes.
#[derive(Debug, Clone, PartialEq, Eq)]
pub enum ToolInput {
    RememberFact { category: String, key: String, value: String },
    Exec { command: String, timeout_secs: Option<u64> },
    WebSearch { query: String, max_results: Option<u64> },
    WebFetch { url: String, max_chars: Option<u64> },
}

/// What is done for a tool call.
#[derive(Debug, Clone, PartialEq, Eq)]
pub enum ToolAction {
    /// Nothing runs: `content` is the result.
    Reply { content: String },
    /// The fact is stored.
    RememberFact { category: String, key: String, value: String },
    /// The command runs in a shell, for at most `timeout_secs` seconds.
    RunCommand { command: String, timeout_secs: u64 },
    /// The web is searched for `query`, for at most `count` results.
    Search { query: String, count: u64 },
    /// The page is fetched from `reader_url`, and at most `max_chars` of its
    /// characters are reported.
    Fetch { reader_url: String, max_chars: usize },
}

/// The kind of tool that takes the input `input`.
pub open spec fn input_kind(input: ToolInput) -> ToolKind {
    match input {
        ToolInput::RememberFact { .. } => ToolKind::RememberFact,
        ToolInput::Exec { .. } => ToolKind::Exec,
        ToolInput::WebSearch { .. } => ToolKind::WebSearch,
        ToolInput::WebFetch { .. } => ToolKind::WebFetch,
    }
}

/// The kind of tool that takes the input `input`.
pub fn kind_of_input(input: &ToolInput) -> (kind: ToolKind)
    ensures
        kind == input_kind(*input),
{
    match input {
        ToolInput::RememberFact { .. } => ToolKind::RememberFact,
        ToolInput::Exec { .. } => ToolKind::Exec,
        ToolInput::WebSearch { .. } => ToolKind::WebSearch,
        ToolInput::WebFetch { .. } => ToolKind::WebFetch,
    }
}

/// Why an input that was read as that of another tool is refused.
pub open spec fn wrong_input_reason() -> Seq<char> {
    "the input is that of another tool"@
}

/// What is done for a call of the tool `name`, whose input was read as
/// `decoded` (or could not be read, for the reason given). An unknown tool
/// and an unreadable input are answered with a text that says so; so are an
/// input that was read as that of another tool, a command that the safety
/// filter blocks and an address that may not be fetched.
pub fn plan_tool_call(name: &str, decoded: Result<ToolInput, String>) -> (action: ToolAction)
    ensures
        kind_of(name@) == ToolKind::Unknown ==> (action matches ToolAction::Reply { content }
            && content@ == "unknown tool: "@ + name@),
        kind_of(name@) != ToolKind::Unknown ==> (match decoded {
            Err(reason) => (action matches ToolAction::Reply { content } && content@
                == "invalid input: "@ + reason@),
            Ok(input) => if input_kind(input) != kind_of(name@) {
                (action matches ToolAction::Reply { content } && content@ == "invalid input: "@
                    + wrong_input_reason())
            } else {
                match input {
                    ToolInput::RememberFact { category, key, value } => (action
                        matches ToolAction::RememberFact { category: c, key: k, value: v } && c@
                        == category@ && k@ == key@ && v@ == value@),
                    ToolInput::Exec { command, timeout_secs } => if is_blocked(command@) {
                        (action matches ToolAction::Reply { content } && content@
                            == block_reason())
                    } else {
                        (action matches ToolAction::RunCommand { command: c, timeout_secs: t }
                            && c@ == command@ && t == timeout_of(timeout_secs))
                    },
                    ToolInput::WebSearch { query, max_results } => (action
                        matches ToolAction::Search { query: q, count } && q@ == query@ && count
                        == result_count_of(max_results)),
                    ToolInput::WebFetch { url, max_chars } => match url_rejection(
                        lowercase(url@),
                    ) {
                        Some(reason) => (action matches ToolAction::Reply { content } && content@
                            == "invalid URL: "@ + reason),
                        None => (action matches ToolAction::Fetch { reader_url, max_chars: n }
                            && reader_url@ == "https://r.jina.ai/"@ + url@ && n
                            == fetch_limit_of(max_chars)),
                    },
                }
            },
        }),
{
    let kind = tool_kind(name);
    match kind {
        ToolKind::Unknown => {
            return ToolAction::Reply { content: unknown_tool_report(name) };
        },
        _ => {},
    }
    let input = match decoded {
        Err(reason) => {
            return ToolAction::Reply { content: invalid_input_report(reason.as_str()) };
        },
        Ok(input) => input,
    };
    if kind_of_input(&input) != kind {
        return ToolAction::Reply {
            content: invalid_input_report("the input is that of another tool"),
        };
    }
    match input {
        ToolInput::RememberFact { category, key, value } => ToolAction::RememberFact {
            category,
            key,
            value,
        },
        ToolInput::Exec { command, timeout_secs } => match plan_command(
            command.as_str(),
            timeout_secs,
        ) {
            ExecPlan::Blocked { reason } => ToolAction::Reply { content: reason },
            ExecPlan::Run { timeout_secs: t } => ToolAction::RunCommand { command, timeout_secs: t },
        },
        ToolInput::WebSearch { query, max_results } => ToolAction::Search {
            query,
            count: effective_max_results(max_results),
        },
        ToolInput::WebFetch { url, max_chars } => match plan_fetch(url.as_str(), max_chars) {
            FetchPlan::Refused { report } => ToolAction::Reply { content: report },
            FetchPlan::Fetch { reader_url, max_chars: n } => ToolAction::Fetch {
                reader_url,
                max_chars: n,
            },
        },
    }
}

} // verus!
