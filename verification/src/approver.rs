//! Approval by a human over a chat: the request that is shown, the table of
//! requests that wait for an answer, and how an answer finds its request.

use vstd::prelude::*;
use crate::error::Error;
use crate::pattern::{generate_pattern, pattern_for};
use crate::telegram::{InlineKeyboardButton, InlineKeyboardMarkup};
use crate::text::{equals_str, from_chars, push_str, to_chars};
use crate::tool::{is_sensitive, references_sensitive_env, ApprovalDecision};

verus! {

/// The number of seconds that a request waits for its answer.
pub const APPROVAL_TIMEOUT_SECS: u64 = 300;

/// `tokio::sync::oneshot::Sender`, the sending half of a channel that takes
/// one value: carried through as it is, nothing is known of what it holds.
#[verifier::external_type_specification]
#[verifier::external_body]
#[verifier::reject_recursive_types(T)]
pub struct ExSender<T>(tokio::sync::oneshot::Sender<T>);

/// A decision on its way to the request that waits for it: `decision` is
/// what is sent, and `sender` is where it goes.
#[derive(Debug)]
pub struct Delivery {
    pub sender: tokio::sync::oneshot::Sender<ApprovalDecision>,
    pub decision: ApprovalDecision,
}

/// `tokio::sync::oneshot::Sender::send`: hands the decision of `delivery` to
/// the receiving half of its sender's channel. Whether anyone is still there
/// to take it is not known here, so nothing is claimed of the result.
#[verifier::external_body]
fn deliver(delivery: Delivery) -> (delivered: bool) {
    delivery.sender.send(delivery.decision).is_ok()
}

impl Delivery {
    /// Sends the decision to the one who waits for it. Returns whether it
    /// was taken: it is not where the wait has ended already.
    pub fn send(self) -> (delivered: bool) {
        deliver(self)
    }
}

/// What a decision holds.
pub enum DecisionView {
    AllowOnce,
    AllowAlways { pattern: Seq<char> },
    Deny,
    AutoApproved,
}

impl View for ApprovalDecision {
    type V = DecisionView;

    open spec fn view(&self) -> DecisionView {
        match *self {
            ApprovalDecision::AllowOnce => DecisionView::AllowOnce,
            ApprovalDecision::AllowAlways { pattern } => DecisionView::AllowAlways {
                pattern: pattern@,
            },
            ApprovalDecision::Deny => DecisionView::Deny,
            ApprovalDecision::AutoApproved => DecisionView::AutoApproved,
        }
    }
}

/// A request that waits for its answer.
pub struct PendingApproval {
    pub nonce: String,
    pub sender: tokio::sync::oneshot::Sender<ApprovalDecision>,
    pub message_id: i64,
}

/// What the table holds of a waiting request: where its answer goes, and
/// the chat message that shows it.
pub struct Waiting {
    pub sender: tokio::sync::oneshot::Sender<ApprovalDecision>,
    pub message_id: i64,
}

/// What the table holds of the request `entry`.
pub open spec fn waiting_of(entry: PendingApproval) -> Waiting {
    Waiting { sender: entry.sender, message_id: entry.message_id }
}

/// The requests `entries`, by nonce.
pub open spec fn waiting_requests(entries: Seq<PendingApproval>) -> Map<Seq<char>, Waiting>
    decreases entries.len(),
{
    if entries.len() == 0 {
        Map::empty()
    } else {
        waiting_requests(entries.drop_last()).insert(entries.last().nonce@, waiting_of(entries.last()))
    }
}

/// Whether no two of `entries` have the same nonce.
pub open spec fn distinct_nonces(entries: Seq<PendingApproval>) -> bool {
    forall|i: int, j: int|
        0 <= i < j < entries.len() ==> entries[i].nonce@ != entries[j].nonce@
}

proof fn lemma_waiting_domain(entries: Seq<PendingApproval>, nonce: Seq<char>)
    ensures
        waiting_requests(entries).contains_key(nonce) <==> exists|i: int|
            0 <= i < entries.len() && entries[i].nonce@ == nonce,
    decreases entries.len(),
{
    if entries.len() > 0 {
        let front = entries.drop_last();
        lemma_waiting_domain(front, nonce);
        if exists|i: int| 0 <= i < entries.len() && entries[i].nonce@ == nonce {
            let i = choose|i: int| 0 <= i < entries.len() && entries[i].nonce@ == nonce;
            if i < entries.len() - 1 {
                assert(front[i].nonce@ == nonce);
            }
        }
    }
}

proof fn lemma_distinct_front(entries: Seq<PendingApproval>)
    requires
        distinct_nonces(entries),
        entries.len() > 0,
    ensures
        distinct_nonces(entries.drop_last()),
{
    let front = entries.drop_last();
    assert forall|i: int, j: int| 0 <= i < j < front.len() implies front[i].nonce@
        != front[j].nonce@ by {
        assert(front[i] == entries[i] && front[j] == entries[j]);
    }
}

proof fn lemma_waiting_at(entries: Seq<PendingApproval>, k: int)
    requires
        distinct_nonces(entries),
        0 <= k < entries.len(),
    ensures
        waiting_requests(entries).contains_key(entries[k].nonce@),
        waiting_requests(entries)[entries[k].nonce@] == waiting_of(entries[k]),
    decreases entries.len(),
{
    let front = entries.drop_last();
    if k < entries.len() - 1 {
        lemma_distinct_front(entries);
        lemma_waiting_at(front, k);
    }
}

proof fn lemma_waiting_remove(entries: Seq<PendingApproval>, k: int)
    requires
        distinct_nonces(entries),
        0 <= k < entries.len(),
    ensures
        distinct_nonces(entries.remove(k)),
        waiting_requests(entries.remove(k)) == waiting_requests(entries).remove(entries[k].nonce@),
    decreases entries.len(),
{
    let rest = entries.remove(k);
    let front = entries.drop_last();
    let nonce = entries[k].nonce@;
    assert(distinct_nonces(rest));
    if k == entries.len() - 1 {
        lemma_waiting_domain(front, nonce);
    } else {
        lemma_distinct_front(entries);
        lemma_waiting_remove(front, k);
        assert(rest.drop_last() =~= front.remove(k));
    }
}

/// The requests that wait for an answer, each under its nonce.
pub struct PendingApprovals {
    entries: Vec<PendingApproval>,
}

impl View for PendingApprovals {
    type V = Map<Seq<char>, Waiting>;

    /// The waiting requests, by nonce.
    closed spec fn view(&self) -> Map<Seq<char>, Waiting> {
        waiting_requests(self.entries@)
    }
}

impl PendingApprovals {
    /// Whether the table is in order: no nonce is held twice.
    pub closed spec fn wf(&self) -> bool {
        distinct_nonces(self.entries@)
    }

    /// The table without any request.
    pub fn new() -> (out: PendingApprovals)
        ensures
            out.wf(),
            out@ == Map::<Seq<char>, Waiting>::empty(),
    {
        PendingApprovals { entries: Vec::new() }
    }

    fn position(&self, nonce: &Vec<char>) -> (found: Option<usize>)
        ensures
            found is Some <==> self@.contains_key(nonce@),
            found is Some ==> found->0 < self.entries@.len() && self.entries@[found->0 as int].nonce@
                == nonce@,
    {
        proof {
            lemma_waiting_domain(self.entries@, nonce@);
        }
        let mut i: usize = 0;
        while i < self.entries.len()
            invariant
                i <= self.entries.len(),
                forall|j: int| 0 <= j < i ==> self.entries@[j].nonce@ != nonce@,
            decreases self.entries.len() - i,
        {
            if equals_str(nonce, self.entries[i].nonce.as_str()) {
                proof {
                    lemma_waiting_domain(self.entries@, nonce@);
                }
                return Some(i);
            }
            i += 1;
        }
        None
    }

    /// Whether a request waits under `nonce`.
    pub fn contains(&self, nonce: &str) -> (r: bool)
        ensures
            r == self@.contains_key(nonce@),
    {
        self.position(&to_chars(nonce)).is_some()
    }

    /// The number of requests that wait.
    pub fn len(&self) -> (n: usize)
        requires
            self.wf(),
        ensures
            n == self@.dom().len(),
            self@.dom().finite(),
    {
        proof {
            lemma_waiting_len(self.entries@);
        }
        self.entries.len()
    }

    /// Puts a request under `nonce`: `sender` is where its answer goes, and
    /// `message_id` is the chat message that shows it. A request that waited
    /// under the same nonce is dropped.
    pub fn register(
        &mut self,
        nonce: &str,
        sender: tokio::sync::oneshot::Sender<ApprovalDecision>,
        message_id: i64,
    )
        requires
            old(self).wf(),
        ensures
            final(self).wf(),
            final(self)@ == old(self)@.insert(nonce@, Waiting { sender, message_id }),
    {
        let n = to_chars(nonce);
        match self.position(&n) {
            Some(k) => {
                proof {
                    lemma_waiting_remove(self.entries@, k as int);
                }
                let _ = self.entries.remove(k);
            },
            None => {},
        }
        let ghost before = self.entries@;
        proof {
            lemma_waiting_domain(before, nonce@);
        }
        let entry = PendingApproval { nonce: from_chars(&n), sender, message_id };
        self.entries.push(entry);
        assert(self.entries@.drop_last() =~= before);
        assert(distinct_nonces(self.entries@));
    }

    /// Takes the request that waits under `nonce` out of the table.
    pub fn take(&mut self, nonce: &str) -> (entry: Option<PendingApproval>)
        requires
            old(self).wf(),
        ensures
            final(self).wf(),
            final(self)@ == old(self)@.remove(nonce@),
            entry is Some <==> old(self)@.contains_key(nonce@),
            entry is Some ==> entry->0.nonce@ == nonce@ && waiting_of(entry->0) == old(
                self,
            )@[nonce@],
    {
        let n = to_chars(nonce);
        match self.position(&n) {
            Some(k) => {
                proof {
                    lemma_waiting_remove(self.entries@, k as int);
                    lemma_waiting_at(self.entries@, k as int);
                }
                Some(self.entries.remove(k))
            },
            None => {
                None
            },
        }
    }

    /// Answers the request that waits under `nonce` with `decision`: the
    /// request leaves the table, and the decision is handed back together
    /// with the request's sender, for the caller to send. Where no request
    /// waits under `nonce` nothing happens, and nothing is handed back.
    pub fn resolve(&mut self, nonce: &str, decision: ApprovalDecision) -> (delivery: Option<
        Delivery,
    >)
        requires
            old(self).wf(),
        ensures
            final(self).wf(),
            delivery is Some <==> old(self)@.contains_key(nonce@),
            final(self)@ == old(self)@.remove(nonce@),
            delivery is Some ==> delivery->0.sender == old(self)@[nonce@].sender
                && delivery->0.decision == decision,
    {
        match self.take(nonce) {
            Some(entry) => Some(Delivery { sender: entry.sender, decision }),
            None => None,
        }
    }

    /// Drops the request that waits under `nonce`, without an answer.
    /// Returns whether such a request waited.
    pub fn expire(&mut self, nonce: &str) -> (expired: bool)
        requires
            old(self).wf(),
        ensures
            final(self).wf(),
            expired == old(self)@.contains_key(nonce@),
            final(self)@ == old(self)@.remove(nonce@),
    {
        self.take(nonce).is_some()
    }
}

proof fn lemma_waiting_len(entries: Seq<PendingApproval>)
    requires
        distinct_nonces(entries),
    ensures
        waiting_requests(entries).dom().finite(),
        waiting_requests(entries).dom().len() == entries.len(),
    decreases entries.len(),
{
    if entries.len() > 0 {
        let front = entries.drop_last();
        lemma_distinct_front(entries);
        lemma_waiting_len(front);
        let nonce = entries.last().nonce@;
        lemma_waiting_domain(front, nonce);
    }
}

/// A request is answered at most once: after an answer, or after it was
/// dropped, nothing waits under its nonce, so a second answer finds nothing
/// and changes nothing.
pub proof fn lemma_resolved_once(table: Map<Seq<char>, Waiting>, nonce: Seq<char>)
    ensures
        !table.remove(nonce).contains_key(nonce),
        table.remove(nonce).remove(nonce) == table.remove(nonce),
        !table.contains_key(nonce) ==> table.remove(nonce) == table,
{
}

/// The number of characters of `s` before its first `:`.
pub open spec fn field_len(s: Seq<char>) -> nat
    decreases s.len(),
{
    if s.len() == 0 || s[0] == ':' {
        0
    } else {
        1 + field_len(s.drop_first())
    }
}

/// The nonce and the action that a payload names.
pub struct CallbackFields {
    pub nonce: Seq<char>,
    pub action: Seq<char>,
}

/// The nonce and the action that the payload `data` of a pressed button
/// names. A payload has three fields with a `:` between them: the word
/// `exec`, the nonce, and the action, which is all that follows the second
/// `:`. Anything else is no answer to a request.
pub open spec fn parse_callback(data: Seq<char>) -> Option<CallbackFields> {
    let a = field_len(data) as int;
    if a >= data.len() {
        None
    } else {
        let rest = data.skip(a + 1);
        let b = field_len(rest) as int;
        if b >= rest.len() {
            None
        } else if data.subrange(0, a) != "exec"@ {
            None
        } else {
            Some(CallbackFields { nonce: rest.subrange(0, b), action: rest.skip(b + 1) })
        }
    }
}

/// The position of the first `:` of `s` at or after `from`, or the length of
/// `s` where there is none.
fn field_end(s: &Vec<char>, from: usize) -> (end: usize)
    requires
        from <= s.len(),
    ensures
        from <= end <= s.len(),
        end - from == field_len(s@.skip(from as int)),
{
    let mut i: usize = from;
    while i < s.len() && s[i] != ':'
        invariant
            from <= i <= s.len(),
            field_len(s@.skip(from as int)) == (i - from) + field_len(s@.skip(i as int)),
        decreases s.len() - i,
    {
        assert(s@.skip(i as int).drop_first() =~= s@.skip(i + 1));
        i += 1;
    }
    i
}

/// The characters of `s` from `from` up to `to`.
fn slice(s: &Vec<char>, from: usize, to: usize) -> (out: Vec<char>)
    requires
        from <= to <= s.len(),
    ensures
        out@ == s@.subrange(from as int, to as int),
{
    let mut out: Vec<char> = Vec::new();
    let mut i: usize = from;
    while i < to
        invariant
            from <= i <= to <= s.len(),
            out@ == s@.subrange(from as int, i as int),
        decreases to - i,
    {
        out.push(s[i]);
        assert(s@.subrange(from as int, i + 1) =~= s@.subrange(from as int, i as int).push(
            s@[i as int],
        ));
        i += 1;
    }
    out
}

/// The nonce and the action that the payload `data` names.
pub fn parse_callback_data(data: &str) -> (parsed: Option<(String, String)>)
    ensures
        (match parsed {
            Some((nonce, action)) => parse_callback(data@) == Some(
                CallbackFields { nonce: nonce@, action: action@ },
            ),
            None => parse_callback(data@) is None,
        }),
{
    let d = to_chars(data);
    assert(d@.skip(0) =~= d@);
    let a = field_end(&d, 0);
    if a >= d.len() {
        return None;
    }
    let b = field_end(&d, a + 1);
    let ghost rest = d@.skip(a + 1);
    if b >= d.len() {
        return None;
    }
    let head = slice(&d, 0, a);
    if !equals_str(&head, "exec") {
        return None;
    }
    let nonce = slice(&d, a + 1, b);
    let action = slice(&d, b + 1, d.len());
    assert(nonce@ =~= rest.subrange(0, b - (a + 1)));
    assert(action@ =~= rest.skip(b - (a + 1) + 1));
    Some((from_chars(&nonce), from_chars(&action)))
}

/// The decision that the action `action` of a pressed button stands for.
/// The pattern of "allow always" is left empty: it is made from the command
/// where the decision is received, never taken from the button.
pub open spec fn action_decision(action: Seq<char>) -> Option<DecisionView> {
    if action == "allow_once"@ {
        Some(DecisionView::AllowOnce)
    } else if action == "allow_always"@ {
        Some(DecisionView::AllowAlways { pattern: Seq::empty() })
    } else if action == "deny"@ {
        Some(DecisionView::Deny)
    } else {
        None
    }
}

/// The decision that the action `action` of a pressed button stands for.
pub fn decision_for_action(action: &str) -> (decision: Option<ApprovalDecision>)
    ensures
        (match decision {
            Some(d) => action_decision(action@) == Some(d@),
            None => action_decision(action@) is None,
        }),
{
    let a = to_chars(action);
    if equals_str(&a, "allow_once") {
        Some(ApprovalDecision::AllowOnce)
    } else if equals_str(&a, "allow_always") {
        Some(ApprovalDecision::AllowAlways { pattern: String::new() })
    } else if equals_str(&a, "deny") {
        Some(ApprovalDecision::Deny)
    } else {
        None
    }
}

/// How `decision` is shown to the user.
pub open spec fn decision_words(decision: DecisionView) -> Seq<char> {
    match decision {
        DecisionView::AllowOnce => "approved (once)"@,
        DecisionView::AllowAlways { .. } => "approved (always)"@,
        DecisionView::Deny => "denied"@,
        DecisionView::AutoApproved => "auto-approved"@,
    }
}

/// How `decision` is shown to the user.
pub fn decision_text(decision: &ApprovalDecision) -> (text: &'static str)
    ensures
        text@ == decision_words(decision@),
{
    match decision {
        ApprovalDecision::AllowOnce => "approved (once)",
        ApprovalDecision::AllowAlways { .. } => "approved (always)",
        ApprovalDecision::Deny => "denied",
        ApprovalDecision::AutoApproved => "auto-approved",
    }
}

/// What became of a pressed button.
#[derive(Debug)]
pub enum CallbackOutcome {
    /// Its payload is no answer to a request.
    Ignored,
    /// No request waits under its nonce.
    Expired,
    /// Its action is none of the three: the request goes on waiting.
    UnknownAction,
    /// The request was answered: `delivery` is to be sent, and the chat
    /// message `message_id` is to show `note`.
    Resolved { message_id: i64, note: String, delivery: Delivery },
}

/// What became of a pressed button, as a contract speaks of it.
pub enum CallbackView {
    Ignored,
    Expired,
    UnknownAction,
    Resolved {
        message_id: i64,
        note: Seq<char>,
        sender: tokio::sync::oneshot::Sender<ApprovalDecision>,
        decision: DecisionView,
    },
}

impl View for CallbackOutcome {
    type V = CallbackView;

    open spec fn view(&self) -> CallbackView {
        match *self {
            CallbackOutcome::Ignored => CallbackView::Ignored,
            CallbackOutcome::Expired => CallbackView::Expired,
            CallbackOutcome::UnknownAction => CallbackView::UnknownAction,
            CallbackOutcome::Resolved { message_id, note, delivery } => CallbackView::Resolved {
                message_id,
                note: note@,
                sender: delivery.sender,
                decision: delivery.decision@,
            },
        }
    }
}

/// What becomes of a button pressed with the payload `data` while the
/// requests `table` wait. A payload that names no request is passed over,
/// and so is one whose request does not wait any more. An action that is
/// none of the three is told so. Any other answers the request: its
/// decision goes to the request's sender.
pub open spec fn callback_result(table: Map<Seq<char>, Waiting>, data: Seq<char>) -> CallbackView {
    match parse_callback(data) {
        None => CallbackView::Ignored,
        Some(fields) => if !table.contains_key(fields.nonce) {
            CallbackView::Expired
        } else {
            match action_decision(fields.action) {
                None => CallbackView::UnknownAction,
                Some(decision) => CallbackView::Resolved {
                    message_id: table[fields.nonce].message_id,
                    note: "-> "@ + decision_words(decision),
                    sender: table[fields.nonce].sender,
                    decision,
                },
            }
        },
    }
}

/// The requests that wait after a button was pressed with the payload `data`
/// while the requests `table` waited: the one that was answered has left,
/// and every other is as it was.
pub open spec fn table_after(table: Map<Seq<char>, Waiting>, data: Seq<char>) -> Map<
    Seq<char>,
    Waiting,
> {
    match callback_result(table, data) {
        CallbackView::Resolved { .. } => table.remove(parse_callback(data)->0.nonce),
        _ => table,
    }
}

/// Routes the press of a button with the payload `data` to the request that
/// waits for it. Only an answer takes the request out of the table; the
/// decision and the request's sender are handed back for the caller to send.
pub fn handle_callback(pending: &mut PendingApprovals, data: &str) -> (outcome: CallbackOutcome)
    requires
        old(pending).wf(),
    ensures
        final(pending).wf(),
        final(pending)@ == table_after(old(pending)@, data@),
        outcome@ == callback_result(old(pending)@, data@),
{
    let (nonce, action) = match parse_callback_data(data) {
        Some(parsed) => parsed,
        None => {
            return CallbackOutcome::Ignored;
        },
    };
    if !pending.contains(nonce.as_str()) {
        return CallbackOutcome::Expired;
    }
    let decision = match decision_for_action(action.as_str()) {
        Some(decision) => decision,
        None => {
            return CallbackOutcome::UnknownAction;
        },
    };
    let mut note = to_chars("-> ");
    push_str(&mut note, decision_text(&decision));
    match pending.take(nonce.as_str()) {
        Some(entry) => CallbackOutcome::Resolved {
            message_id: entry.message_id,
            note: from_chars(&note),
            delivery: Delivery { sender: entry.sender, decision },
        },
        None => CallbackOutcome::Expired,
    }
}

/// Whether the press of the button was an answer to a request, whether or
/// not the request still waited.
pub fn callback_handled(outcome: &CallbackOutcome) -> (handled: bool)
    ensures
        handled == !(outcome is Ignored),
{
    match outcome {
        CallbackOutcome::Ignored => false,
        _ => true,
    }
}

/// What the user who pressed the button is told, if anything.
pub fn callback_answer(outcome: &CallbackOutcome) -> (answer: Option<&'static str>)
    ensures
        (match *outcome {
            CallbackOutcome::Expired => answer is Some && answer->0@
                == "this approval request has expired"@,
            CallbackOutcome::UnknownAction => answer is Some && answer->0@ == "unknown action"@,
            _ => answer is None,
        }),
{
    match outcome {
        CallbackOutcome::Expired => Some("this approval request has expired"),
        CallbackOutcome::UnknownAction => Some("unknown action"),
        _ => None,
    }
}

/// The character that stands for the hexadecimal digit `d`.
pub open spec fn hex_digit(d: nat) -> char {
    if d < 10 {
        ((48 + d) as u8) as char
    } else {
        ((87 + d) as u8) as char
    }
}

/// The last `width` hexadecimal digits of `n`, with leading zeros.
pub open spec fn hex_digits(n: nat, width: nat) -> Seq<char>
    decreases width,
{
    if width == 0 {
        Seq::empty()
    } else {
        hex_digits(n / 16, (width - 1) as nat).push(hex_digit(n % 16))
    }
}

fn push_hex(buf: &mut Vec<char>, n: u32, width: u8)
    ensures
        final(buf)@ == old(buf)@ + hex_digits(n as nat, width as nat),
    decreases width,
{
    if width > 0 {
        push_hex(buf, n / 16, width - 1);
        let d: u8 = (n % 16) as u8;
        let c: char = if d < 10 {
            (48u8 + d) as char
        } else {
            (87u8 + d) as char
        };
        buf.push(c);
    }
}

/// The nonce made of the number `n`: its eight hexadecimal digits.
pub fn format_nonce(n: u32) -> (nonce: String)
    ensures
        nonce@ == hex_digits(n as nat, 8),
{
    let mut buf: Vec<char> = Vec::new();
    push_hex(&mut buf, n, 8);
    from_chars(&buf)
}

/// The payload of the button that answers the request `nonce` with `action`.
pub open spec fn callback_data(nonce: Seq<char>, action: Seq<char>) -> Seq<char> {
    "exec:"@ + nonce + ":"@ + action
}

/// The text that asks the user about `command`, with a warning where the
/// command names a credential.
pub open spec fn prompt_text(command: Seq<char>) -> Seq<char> {
    "command: "@ + command + (if is_sensitive(command) {
        "\n\u{26a0} references sensitive environment variables"@
    } else {
        Seq::empty()
    })
}

/// The buttons below the request `nonce` about `command`, each by what it
/// shows and its payload: allow once, allow always, deny. A command that
/// names a credential cannot be allowed for always.
pub open spec fn prompt_buttons(command: Seq<char>, nonce: Seq<char>) -> Seq<
    (Seq<char>, Seq<char>),
> {
    seq![("allow once"@, callback_data(nonce, "allow_once"@))] + (if is_sensitive(command) {
        Seq::empty()
    } else {
        seq![("allow always"@, callback_data(nonce, "allow_always"@))]
    }) + seq![("deny"@, callback_data(nonce, "deny"@))]
}

/// What the buttons `buttons` show, and their payloads.
pub open spec fn button_views(buttons: Seq<InlineKeyboardButton>) -> Seq<(Seq<char>, Seq<char>)> {
    Seq::new(buttons.len(), |i: int| (buttons[i].text@, buttons[i].callback_data@))
}

/// What is shown to the user to ask for a decision.
#[derive(Debug, Clone, PartialEq, Eq)]
pub struct ApprovalPrompt {
    pub text: String,
    pub keyboard: InlineKeyboardMarkup,
}

fn button(label: &str, nonce: &str, action: &str) -> (b: InlineKeyboardButton)
    ensures
        b.text@ == label@,
        b.callback_data@ == callback_data(nonce@, action@),
{
    let mut data = to_chars("exec:");
    push_str(&mut data, nonce);
    push_str(&mut data, ":");
    push_str(&mut data, action);
    InlineKeyboardButton { text: label.to_owned(), callback_data: from_chars(&data) }
}

/// What is shown to the user to ask whether `command` may run, for the
/// request `nonce`.
pub fn approval_prompt(command: &str, nonce: &str) -> (prompt: ApprovalPrompt)
    ensures
        prompt.text@ == prompt_text(command@),
        prompt.keyboard.inline_keyboard@.len() == 1,
        button_views(prompt.keyboard.inline_keyboard@[0]@) == prompt_buttons(command@, nonce@),
{
    let sensitive = references_sensitive_env(command);
    let mut buttons: Vec<InlineKeyboardButton> = Vec::new();
    buttons.push(button("allow once", nonce, "allow_once"));
    if !sensitive {
        buttons.push(button("allow always", nonce, "allow_always"));
    }
    buttons.push(button("deny", nonce, "deny"));
    let mut text = to_chars("command: ");
    push_str(&mut text, command);
    if sensitive {
        push_str(&mut text, "\n\u{26a0} references sensitive environment variables");
    }
    let mut rows: Vec<Vec<InlineKeyboardButton>> = Vec::new();
    rows.push(buttons);
    ApprovalPrompt {
        text: from_chars(&text),
        keyboard: InlineKeyboardMarkup { inline_keyboard: rows },
    }
}

/// How the wait for an answer ended.
#[derive(Debug, Clone, PartialEq, Eq)]
pub enum WaitOutcome {
    /// The answer came.
    Decided(ApprovalDecision),
    /// The sender was dropped without an answer.
    Dropped,
    /// No answer came in time.
    TimedOut,
}

/// How a wait ended that gave `reply`: nothing where the time ran out
/// first, else what came through the channel, which is nothing where the
/// sender was dropped.
pub fn wait_outcome(reply: Option<Option<ApprovalDecision>>) -> (outcome: WaitOutcome)
    ensures
        (match reply {
            None => outcome is TimedOut,
            Some(None) => outcome is Dropped,
            Some(Some(d)) => outcome == WaitOutcome::Decided(d),
        }),
{
    match reply {
        None => WaitOutcome::TimedOut,
        Some(None) => WaitOutcome::Dropped,
        Some(Some(d)) => WaitOutcome::Decided(d),
    }
}

/// The decision on `command` that the answer `decision` makes: "allow
/// always" gets the rule made from the command, whatever pattern it came
/// with.
pub open spec fn settled(decision: DecisionView, command: Seq<char>) -> DecisionView {
    match decision {
        DecisionView::AllowAlways { .. } => DecisionView::AllowAlways {
            pattern: pattern_for(command),
        },
        _ => decision,
    }
}

/// Ends the wait for the answer to the request `nonce` about `command`. An
/// answer gives the decision. Without an answer in time the request leaves
/// the table and the call fails as timed out; a dropped sender fails in the
/// same way.
pub fn conclude_wait(
    pending: &mut PendingApprovals,
    nonce: &str,
    command: &str,
    outcome: WaitOutcome,
) -> (r: Result<ApprovalDecision, Error>)
    requires
        old(pending).wf(),
    ensures
        final(pending).wf(),
        (match outcome {
            WaitOutcome::Decided(d) => {
                &&& r is Ok
                &&& r->Ok_0@ == settled(d@, command@)
                &&& final(pending)@ == old(pending)@
            },
            WaitOutcome::Dropped => r == Err::<ApprovalDecision, Error>(Error::ApprovalTimeout)
                && final(pending)@ == old(pending)@,
            WaitOutcome::TimedOut => r == Err::<ApprovalDecision, Error>(Error::ApprovalTimeout)
                && final(pending)@ == old(pending)@.remove(nonce@),
        }),
{
    match outcome {
        WaitOutcome::Decided(decision) => match decision {
            ApprovalDecision::AllowAlways { .. } => Ok(
                ApprovalDecision::AllowAlways { pattern: generate_pattern(command) },
            ),
            other => Ok(other),
        },
        WaitOutcome::Dropped => Err(Error::ApprovalTimeout),
        WaitOutcome::TimedOut => {
            let _ = pending.expire(nonce);
            Err(Error::ApprovalTimeout)
        },
    }
}

proof fn lemma_field_len_concat(w: Seq<char>, rest: Seq<char>)
    requires
        forall|i: int| 0 <= i < w.len() ==> #[trigger] w[i] != ':',
        rest.len() == 0 || rest[0] == ':',
    ensures
        field_len(w + rest) == w.len(),
    decreases w.len(),
{
    let s = w + rest;
    if w.len() > 0 {
        assert(s.drop_first() =~= w.drop_first() + rest);
        assert forall|i: int| 0 <= i < w.drop_first().len() implies #[trigger] w.drop_first()[i]
            != ':' by {
            assert(w.drop_first()[i] == w[i + 1]);
        }
        lemma_field_len_concat(w.drop_first(), rest);
    }
}

/// The payload of a button names the nonce and the action that it was made
/// of, as long as the nonce holds no `:`.
pub proof fn lemma_callback_round_trip(nonce: Seq<char>, action: Seq<char>)
    requires
        forall|i: int| 0 <= i < nonce.len() ==> #[trigger] nonce[i] != ':',
    ensures
        parse_callback(callback_data(nonce, action)) == Some(CallbackFields { nonce, action }),
{
    reveal_strlit("exec:");
    reveal_strlit("exec");
    reveal_strlit(":");
    let data = callback_data(nonce, action);
    let word = "exec"@;
    let colon = ":"@;
    let tail = colon + action;
    let after = colon + nonce + tail;
    assert(data =~= word + after);
    lemma_field_len_concat(word, after);
    let rest = data.skip(5);
    assert(rest =~= nonce + tail);
    lemma_field_len_concat(nonce, tail);
    assert(data.subrange(0, 4) =~= word);
    assert(rest.subrange(0, nonce.len() as int) =~= nonce);
    assert(rest.skip(nonce.len() as int + 1) =~= action);
}

/// A nonce made of a number holds eight characters, none of them a `:`.
pub proof fn lemma_nonce_shape(n: nat, width: nat)
    ensures
        hex_digits(n, width).len() == width,
        forall|i: int| 0 <= i < width ==> #[trigger] hex_digits(n, width)[i] != ':',
    decreases width,
{
    if width > 0 {
        lemma_nonce_shape(n / 16, (width - 1) as nat);
        let d = n % 16;
        assert(hex_digit(d) != ':');
    }
}

/// An action that is none of the three leaves every waiting request where
/// it is, and so does a payload that names no request or one that does not
/// wait.
pub proof fn lemma_unanswered_callback_changes_nothing(
    table: Map<Seq<char>, Waiting>,
    data: Seq<char>,
)
    requires
        !(callback_result(table, data) is Resolved),
    ensures
        table_after(table, data) == table,
{
}

/// A press of a button changes nothing for the requests that it does not
/// name.
pub proof fn lemma_callback_leaves_others(
    table: Map<Seq<char>, Waiting>,
    data: Seq<char>,
    other: Seq<char>,
)
    requires
        parse_callback(data) is None || parse_callback(data)->0.nonce != other,
    ensures
        table_after(table, data).contains_key(other) == table.contains_key(other),
        table.contains_key(other) ==> table_after(table, data)[other] == table[other],
{
}

/// After the wait for the request `nonce` has timed out, the request is
/// gone and every other request waits as before; a button of that request
/// that is pressed late finds nothing, hands no decision to anyone, and
/// changes nothing.
pub proof fn lemma_timed_out_request_is_gone(
    table: Map<Seq<char>, Waiting>,
    nonce: Seq<char>,
    action: Seq<char>,
    other: Seq<char>,
)
    requires
        forall|i: int| 0 <= i < nonce.len() ==> #[trigger] nonce[i] != ':',
        other != nonce,
    ensures
        !table.remove(nonce).contains_key(nonce),
        table.remove(nonce).contains_key(other) == table.contains_key(other),
        table.contains_key(other) ==> table.remove(nonce)[other] == table[other],
        callback_result(table.remove(nonce), callback_data(nonce, action)) == CallbackView::Expired,
        table_after(table.remove(nonce), callback_data(nonce, action)) == table.remove(nonce),
{
    lemma_callback_round_trip(nonce, action);
}

} // verus!
