//! The loop that alternates between the model and its tools: what is sent to
//! the model, what a tool call has to pass before it runs, and when the loop
//! ends.

use vstd::prelude::*;
use crate::error::Error;
use crate::message::{
    content_views, message_views, ContentView, InboundMessage, Message, MessageContent,
    MessageView, OutboundMessage, Role,
};
use crate::pattern::same_chars;
use crate::provider::{call_views, ProviderResponse, ToolCallView, DEFAULT_SYSTEM_PROMPT};
use crate::rules::{find_matching_rule, first_match, ApprovalRule, Fact};
use crate::text::{from_chars, prefix, push_chars, push_str, take_chars, to_chars};
use crate::tool::{
    block_reason, check_safety_filter, command_of, command_text, gated_tool, is_blocked,
    is_gated, ApprovalDecision, ToolCall,
};

verus! {

/// The number of characters of a fact's value that are shown to the model.
pub const MAX_FACT_VALUE_CHARS: usize = 500;

/// The number of rounds of tool calls that one turn may take.
pub const MAX_TOOL_ROUNDS: u32 = 5;

/// The first `max_chars` characters of `value`.
pub fn truncate_chars(value: &str, max_chars: usize) -> (out: String)
    ensures
        out@ == prefix(value@, max_chars as nat),
{
    from_chars(&take_chars(&to_chars(value), max_chars))
}

/// The categories of `facts`, each once, in the order in which they first
/// occur.
pub open spec fn categories(facts: Seq<Fact>) -> Seq<Seq<char>>
    decreases facts.len(),
{
    if facts.len() == 0 {
        Seq::empty()
    } else {
        let before = categories(facts.drop_last());
        if before.contains(facts.last().category@) {
            before
        } else {
            before.push(facts.last().category@)
        }
    }
}

/// The line that shows `fact`, with its line break before it.
pub open spec fn fact_line(fact: Fact) -> Seq<char> {
    "\n- "@ + fact.key@ + ": "@ + prefix(fact.value@, 500)
}

/// The lines of those of `facts` that are of the category `category`, in
/// their order.
pub open spec fn category_lines(facts: Seq<Fact>, category: Seq<char>) -> Seq<char>
    decreases facts.len(),
{
    if facts.len() == 0 {
        Seq::empty()
    } else {
        category_lines(facts.drop_last(), category) + (if facts.last().category@ == category {
            fact_line(facts.last())
        } else {
            Seq::empty()
        })
    }
}

/// The sections of the categories `cats`: for each its heading and the lines
/// of its facts.
pub open spec fn sections(facts: Seq<Fact>, cats: Seq<Seq<char>>) -> Seq<char>
    decreases cats.len(),
{
    if cats.len() == 0 {
        Seq::empty()
    } else {
        sections(facts, cats.drop_last()) + "\n\n### "@ + cats.last() + category_lines(
            facts,
            cats.last(),
        )
    }
}

/// What the model is told of `facts`: a heading, then one section for each
/// category.
pub open spec fn known_facts_text(facts: Seq<Fact>) -> Seq<char> {
    "## known facts"@ + sections(facts, categories(facts))
}

/// Whether `cats` holds the category `category`.
fn has_category(cats: &Vec<Vec<char>>, category: &Vec<char>) -> (r: bool)
    ensures
        r == crate::pattern::views(cats@).contains(category@),
{
    let ghost cs = crate::pattern::views(cats@);
    let mut i: usize = 0;
    while i < cats.len()
        invariant
            i <= cats.len(),
            cs == crate::pattern::views(cats@),
            forall|j: int| 0 <= j < i ==> cs[j] != category@,
        decreases cats.len() - i,
    {
        if same_chars(&cats[i], category) {
            assert(cs[i as int] == category@);
            return true;
        }
        i += 1;
    }
    false
}

/// The text that tells the model what is known of the user.
pub fn format_known_facts(facts: &Vec<Fact>) -> (out: String)
    ensures
        out@ == known_facts_text(facts@),
{
    let mut cats: Vec<Vec<char>> = Vec::new();
    let mut i: usize = 0;
    while i < facts.len()
        invariant
            i <= facts.len(),
            crate::pattern::views(cats@) == categories(facts@.take(i as int)),
        decreases facts.len() - i,
    {
        proof {
            let next = facts@.take(i + 1);
            assert(next.drop_last() =~= facts@.take(i as int));
        }
        let category = to_chars(facts[i].category.as_str());
        if !has_category(&cats, &category) {
            let ghost before = cats@;
            cats.push(category);
            assert(crate::pattern::views(cats@) =~= crate::pattern::views(before).push(
                category@,
            ));
        }
        i += 1;
    }
    assert(facts@.take(facts@.len() as int) =~= facts@);
    let ghost cs = categories(facts@);
    let mut buf: Vec<char> = to_chars("## known facts");
    let mut c: usize = 0;
    while c < cats.len()
        invariant
            c <= cats.len(),
            cs == crate::pattern::views(cats@),
            buf@ == "## known facts"@ + sections(facts@, cs.take(c as int)),
        decreases cats.len() - c,
    {
        let ghost cat = cats@[c as int]@;
        proof {
            let next = cs.take(c + 1);
            assert(next.drop_last() =~= cs.take(c as int));
        }
        push_str(&mut buf, "\n\n### ");
        push_chars(&mut buf, &cats[c]);
        let ghost head = buf@;
        let mut k: usize = 0;
        while k < facts.len()
            invariant
                k <= facts.len(),
                c < cats.len(),
                cat == cats@[c as int]@,
                buf@ == head + category_lines(facts@.take(k as int), cat),
            decreases facts.len() - k,
        {
            proof {
                let next = facts@.take(k + 1);
                assert(next.drop_last() =~= facts@.take(k as int));
            }
            let fact = &facts[k];
            if same_chars(&to_chars(fact.category.as_str()), &cats[c]) {
                push_str(&mut buf, "\n- ");
                push_str(&mut buf, fact.key.as_str());
                push_str(&mut buf, ": ");
                let shown = take_chars(&to_chars(fact.value.as_str()), MAX_FACT_VALUE_CHARS);
                push_chars(&mut buf, &shown);
            }
            k += 1;
        }
        assert(facts@.take(facts@.len() as int) =~= facts@);
        c += 1;
    }
    assert(cs.take(cs.len() as int) =~= cs);
    from_chars(&buf)
}

/// The instructions that open a conversation: the standing instructions,
/// and below them what is known of the user, where anything is.
pub open spec fn system_prompt_text(facts: Seq<Fact>) -> Seq<char> {
    if facts.len() == 0 {
        DEFAULT_SYSTEM_PROMPT@
    } else {
        DEFAULT_SYSTEM_PROMPT@ + "\n\n"@ + known_facts_text(facts)
    }
}

/// The instructions that open a conversation in which `facts` are known.
pub fn system_prompt(facts: &Vec<Fact>) -> (out: String)
    ensures
        out@ == system_prompt_text(facts@),
{
    if facts.len() == 0 {
        return DEFAULT_SYSTEM_PROMPT.to_owned();
    }
    let mut buf = to_chars(DEFAULT_SYSTEM_PROMPT);
    push_str(&mut buf, "\n\n");
    let known = format_known_facts(facts);
    push_str(&mut buf, known.as_str());
    from_chars(&buf)
}

/// What a tool call has to pass before it runs.
#[derive(Debug, Clone, Copy, PartialEq, Eq, Structural)]
pub enum Gate {
    /// The tool is not gated: the call runs.
    Open,
    /// The safety filter blocks the command: the call is answered with the
    /// filter's reason, and nobody is asked.
    Blocked,
    /// The stored rule `rule_id` matches the command: the call runs, and
    /// nobody is asked.
    PreApproved { rule_id: i64 },
    /// The approver decides.
    AskApprover,
}

/// What a call of the tool `name` with the command `command` has to pass
/// while `rules` are stored: the safety filter comes first, then the stored
/// rules, then the approver.
pub open spec fn gate_of(name: Seq<char>, command: Seq<char>, rules: Seq<ApprovalRule>) -> Gate {
    if !is_gated(name) {
        Gate::Open
    } else if is_blocked(command) {
        Gate::Blocked
    } else {
        match first_match(rules, command) {
            Some(rule_id) => Gate::PreApproved { rule_id },
            None => Gate::AskApprover,
        }
    }
}

/// What a call of the tool `name` with the command `command` has to pass
/// before it runs, while `rules` are stored.
pub fn gate_command(name: &str, command: &str, rules: &Vec<ApprovalRule>) -> (g: Gate)
    ensures
        g == gate_of(name@, command@, rules@),
{
    if !gated_tool(name) {
        return Gate::Open;
    }
    if check_safety_filter(command).is_some() {
        return Gate::Blocked;
    }
    match find_matching_rule(rules, command) {
        Some(rule_id) => Gate::PreApproved { rule_id },
        None => Gate::AskApprover,
    }
}

/// What `call` has to pass before it runs, while `rules` are stored.
pub fn gate(call: &ToolCall, rules: &Vec<ApprovalRule>) -> (g: Gate)
    ensures
        g == gate_of(call.name@, command_of(call.input), rules@),
{
    let command = command_text(call);
    gate_command(call.name.as_str(), command.as_str(), rules)
}

/// A gated command that the safety filter blocks is never put to the
/// approver and never runs on a stored rule, whatever rules are stored.
pub proof fn lemma_blocked_before_approval(
    name: Seq<char>,
    command: Seq<char>,
    rules: Seq<ApprovalRule>,
)
    requires
        is_gated(name),
        is_blocked(command),
    ensures
        gate_of(name, command, rules) == Gate::Blocked,
{
}

/// The command that deletes the root directory is blocked, whatever rules are
/// stored.
pub proof fn lemma_root_deletion_blocked(rules: Seq<ApprovalRule>)
    ensures
        is_blocked("rm -rf /"@),
        gate_of("exec"@, "rm -rf /"@, rules) == Gate::Blocked,
{
    let c = "rm -rf /"@;
    assert(c.subrange(0, c.len() as int) =~= c);
    assert(crate::text::has_at(c, c, 0));
}

/// The answer to a call that the safety filter blocked.
pub fn blocked_result(call: &ToolCall) -> (out: MessageContent)
    ensures
        out@ == (ContentView::ToolResult { tool_use_id: call.id@, content: block_reason() }),
{
    MessageContent::tool_result(call.id.as_str(), "command blocked: matches safety filter")
}

/// The answer to a call that the user denied.
pub fn denied_result(call: &ToolCall) -> (out: MessageContent)
    ensures
        out@ == (ContentView::ToolResult {
            tool_use_id: call.id@,
            content: "command denied by user"@,
        }),
{
    MessageContent::tool_result(call.id.as_str(), "command denied by user")
}

/// What follows from the approver's decision.
#[derive(Debug, Clone, PartialEq, Eq)]
pub enum Clearance {
    /// The call runs.
    Execute,
    /// `pattern` is stored as a rule, then the call runs.
    SaveRuleThenExecute { pattern: String },
    /// The call does not run, and is answered as denied.
    Denied,
}

/// What follows from `decision`: only a denial keeps the call from running,
/// and only "allow always" stores a rule.
pub fn apply_decision(decision: &ApprovalDecision) -> (c: Clearance)
    ensures
        (match *decision {
            ApprovalDecision::AllowOnce => c is Execute,
            ApprovalDecision::AutoApproved => c is Execute,
            ApprovalDecision::AllowAlways { pattern } => c is SaveRuleThenExecute
                && c->pattern@ == pattern@,
            ApprovalDecision::Deny => c is Denied,
        }),
{
    match decision {
        ApprovalDecision::AllowOnce => Clearance::Execute,
        ApprovalDecision::AutoApproved => Clearance::Execute,
        ApprovalDecision::AllowAlways { pattern } => Clearance::SaveRuleThenExecute {
            pattern: pattern.clone(),
        },
        ApprovalDecision::Deny => Clearance::Denied,
    }
}

/// The part of a message that records that the model asked for `call`.
pub fn tool_use_content(call: &ToolCall) -> (out: MessageContent)
    ensures
        out@ == (ContentView::ToolUse { id: call.id@, name: call.name@, input: call.input }),
{
    MessageContent::tool_use(call.id.as_str(), call.name.as_str(), call.input.clone())
}

/// The parts of a message that record that the model asked for `calls`, one
/// for each call, in their order.
pub open spec fn call_parts(calls: Seq<ToolCallView>) -> Seq<ContentView> {
    Seq::new(
        calls.len(),
        |i: int|
            ContentView::ToolUse { id: calls[i].id, name: calls[i].name, input: calls[i].input },
    )
}

/// The parts of the message that records an answer of the model with the
/// text `content` and the tool calls `calls`: the text, where there is any,
/// then one part for each call.
pub open spec fn assistant_parts(content: Seq<char>, calls: Seq<ToolCallView>) -> Seq<
    ContentView,
> {
    (if content.len() > 0 {
        seq![ContentView::Text { text: content }]
    } else {
        Seq::empty()
    }) + call_parts(calls)
}

/// Where the loop of one turn stands.
pub enum LoopState {
    /// It waits for the model, after `rounds` rounds of tool calls.
    Running { rounds: nat },
    /// The model answered without asking for a tool.
    Finished,
    /// The model asked for tools once more than it may.
    Aborted,
}

/// Where the loop stands after an answer of the model that asks for
/// `requested` tools: without any the turn is finished; after five rounds
/// one more is refused.
pub open spec fn step(state: LoopState, requested: nat) -> LoopState {
    match state {
        LoopState::Running { rounds } => if requested == 0 {
            LoopState::Finished
        } else if rounds >= 5 {
            LoopState::Aborted
        } else {
            LoopState::Running { rounds: rounds + 1 }
        },
        _ => state,
    }
}

/// Where the loop stands after the answers `requests`, each given by the
/// number of tools it asks for.
pub open spec fn run(state: LoopState, requests: Seq<nat>) -> LoopState
    decreases requests.len(),
{
    if requests.len() == 0 {
        state
    } else {
        step(run(state, requests.drop_last()), requests.last())
    }
}

/// While every answer asks for tools, the loop runs on for five answers and
/// is aborted at the sixth.
pub proof fn lemma_round_limit(requests: Seq<nat>)
    requires
        requests.len() <= 6,
        forall|i: int| 0 <= i < requests.len() ==> requests[i] > 0,
    ensures
        requests.len() <= 5 ==> run(LoopState::Running { rounds: 0 }, requests)
            == (LoopState::Running { rounds: requests.len() }),
        requests.len() == 6 ==> run(LoopState::Running { rounds: 0 }, requests)
            == LoopState::Aborted,
    decreases requests.len(),
{
    if requests.len() > 0 {
        lemma_round_limit(requests.drop_last());
    }
}

/// Once the loop has ended, no further answer starts it again.
pub proof fn lemma_loop_stays_ended(state: LoopState, requests: Seq<nat>)
    requires
        !(state is Running),
    ensures
        run(state, requests) == state,
    decreases requests.len(),
{
    if requests.len() > 0 {
        lemma_loop_stays_ended(state, requests.drop_last());
    }
}

/// What the loop does after an answer of the model.
#[derive(Debug, Clone)]
pub enum Turn {
    /// The turn is over: this is the assistant's answer.
    Reply(OutboundMessage),
    /// The answer's tool calls are to be run, and their results handed back.
    RunTools,
    /// The turn is over with an error.
    Abort(Error),
}

/// The state of one turn: the conversation so far, and the number of rounds
/// of tool calls that were begun.
#[derive(Debug, Clone)]
pub struct Conversation {
    pub messages: Vec<Message>,
    pub tool_rounds: u32,
}

impl Conversation {
    /// The conversation that `inbound` opens.
    pub fn start(inbound: &InboundMessage) -> (out: Conversation)
        ensures
            out.tool_rounds == 0,
            message_views(out.messages@) == seq![
                MessageView {
                    role: Role::User,
                    content: seq![ContentView::Text { text: inbound.content@ }],
                },
            ],
    {
        let mut messages: Vec<Message> = Vec::new();
        messages.push(Message::user(inbound.content.as_str()));
        assert(message_views(messages@) =~= seq![
            MessageView {
                role: Role::User,
                content: seq![ContentView::Text { text: inbound.content@ }],
            },
        ]);
        Conversation { messages, tool_rounds: 0 }
    }

    /// Takes in an answer of the model. An answer without tool calls ends
    /// the turn. One with tool calls begins a round: it is recorded in the
    /// conversation, and its calls are to be run; but after five rounds it
    /// ends the turn with an error, and nothing is recorded.
    pub fn on_response(&mut self, response: &ProviderResponse) -> (turn: Turn)
        ensures
            (match turn {
                Turn::Reply(out) => {
                    &&& step(
                        LoopState::Running { rounds: old(self).tool_rounds as nat },
                        response.tool_calls@.len(),
                    ) == LoopState::Finished
                    &&& out.content@ == response.content@
                    &&& *final(self) == *old(self)
                },
                Turn::Abort(e) => {
                    &&& step(
                        LoopState::Running { rounds: old(self).tool_rounds as nat },
                        response.tool_calls@.len(),
                    ) == LoopState::Aborted
                    &&& e matches Error::Provider(m)
                    &&& m@ == "tool loop exceeded"@
                    &&& *final(self) == *old(self)
                },
                Turn::RunTools => {
                    &&& step(
                        LoopState::Running { rounds: old(self).tool_rounds as nat },
                        response.tool_calls@.len(),
                    ) == (LoopState::Running { rounds: final(self).tool_rounds as nat })
                    &&& message_views(final(self).messages@) == message_views(
                        old(self).messages@,
                    ).push(
                        MessageView {
                            role: Role::Assistant,
                            content: assistant_parts(
                                response.content@,
                                call_views(response.tool_calls@),
                            ),
                        },
                    )
                },
            }),
    {
        if response.tool_calls.len() == 0 {
            return Turn::Reply(OutboundMessage { content: response.content.clone() });
        }
        if self.tool_rounds >= MAX_TOOL_ROUNDS {
            return Turn::Abort(Error::Provider("tool loop exceeded".to_owned()));
        }
        self.tool_rounds = self.tool_rounds + 1;
        let mut blocks: Vec<MessageContent> = Vec::new();
        if response.content.as_str().as_bytes().len() > 0 {
            blocks.push(MessageContent::text(response.content.as_str()));
        }
        proof {
            crate::text::lemma_byte_len_zero(response.content@);
        }
        let ghost head = content_views(blocks@);
        let ghost calls = call_views(response.tool_calls@);
        assert(head =~= if response.content@.len() > 0 {
            seq![ContentView::Text { text: response.content@ }]
        } else {
            Seq::<ContentView>::empty()
        });
        let mut i: usize = 0;
        assert(content_views(blocks@) =~= head + call_parts(calls.take(0)));
        while i < response.tool_calls.len()
            invariant
                i <= response.tool_calls.len(),
                calls == call_views(response.tool_calls@),
                content_views(blocks@) == head + call_parts(calls.take(i as int)),
            decreases response.tool_calls.len() - i,
        {
            let ghost before = blocks@;
            let part = tool_use_content(&response.tool_calls[i]);
            blocks.push(part);
            assert(content_views(blocks@) =~= content_views(before).push(part@));
            assert(call_parts(calls.take(i + 1)) =~= call_parts(calls.take(i as int)).push(part@));
            i += 1;
        }
        assert(calls.take(calls.len() as int) =~= calls);
        let message = Message::assistant_with_content(blocks);
        self.messages.push(message);
        Turn::RunTools
    }

    /// Takes in the results of the tool calls of the last answer, in the
    /// order of the calls: they are recorded as one message of the user.
    pub fn on_tool_results(&mut self, results: Vec<MessageContent>)
        ensures
            final(self).tool_rounds == old(self).tool_rounds,
            message_views(final(self).messages@) == message_views(old(self).messages@).push(
                MessageView { role: Role::User, content: content_views(results@) },
            ),
    {
        let message = Message::user_with_content(results);
        self.messages.push(message);
    }
}

} // verus!
