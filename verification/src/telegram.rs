//! What is exchanged with the chat service: the values it sends and takes,
//! and how its answers are read.

use vstd::prelude::*;
use crate::error::Error;
use crate::pattern::{is_space, is_whitespace};
use crate::text::{from_chars, push_str, to_chars};

verus! {

/// The buttons below a message, row by row.
#[derive(Debug, Clone, PartialEq, Eq)]
pub struct InlineKeyboardMarkup {
    pub inline_keyboard: Vec<Vec<InlineKeyboardButton>>,
}

/// One button: what it shows, and what is sent back when it is pressed.
#[derive(Debug, Clone, PartialEq, Eq)]
pub struct InlineKeyboardButton {
    pub text: String,
    pub callback_data: String,
}

/// What the chat service tells of a message that it sent.
#[derive(Debug, Clone, Copy, PartialEq, Eq, Structural)]
pub struct SentMessage {
    pub message_id: i64,
}

/// A user of the chat service.
#[derive(Debug, Clone, Copy, PartialEq, Eq, Structural)]
pub struct User {
    pub id: i64,
}

/// A chat of the chat service.
#[derive(Debug, Clone, Copy, PartialEq, Eq, Structural)]
pub struct Chat {
    pub id: i64,
}

/// A message that a user wrote in a chat.
#[derive(Debug, Clone, PartialEq, Eq)]
pub struct Message {
    pub message_id: i64,
    pub from: Option<User>,
    pub chat: Chat,
    pub text: Option<String>,
}

/// The press of a button below a message.
#[derive(Debug, Clone, PartialEq, Eq)]
pub struct CallbackQuery {
    pub id: String,
    pub from: User,
    pub message: Option<Message>,
    pub data: Option<String>,
}

/// One event that the chat service reports.
#[derive(Debug, Clone, PartialEq, Eq)]
pub struct Update {
    pub update_id: i64,
    pub message: Option<Message>,
    pub callback_query: Option<CallbackQuery>,
}

/// The address of the method `method` of the chat service, for the bot with
/// the token `token`.
pub fn api_url(token: &str, method: &str) -> (out: String)
    ensures
        out@ == "https://api.telegram.org/bot"@ + token@ + "/"@ + method@,
{
    let mut buf = to_chars("https://api.telegram.org/bot");
    push_str(&mut buf, token);
    push_str(&mut buf, "/");
    push_str(&mut buf, method);
    from_chars(&buf)
}

/// How an answer of the chat service is read: it either says that the call
/// went well, or why it did not.
pub fn api_outcome(ok: bool, description: Option<String>) -> (r: Result<(), Error>)
    ensures
        ok <==> r is Ok,
        !ok ==> (r->Err_0 matches Error::Telegram(m) && m@ == (match description {
            Some(d) => d@,
            None => "unknown error"@,
        })),
{
    if ok {
        Ok(())
    } else {
        match description {
            Some(d) => Err(Error::Telegram(d)),
            None => Err(Error::Telegram("unknown error".to_owned())),
        }
    }
}

/// Whether the user `user_id` is one of `allowed`. A message without a
/// sender is from nobody who is allowed.
pub fn is_allowed(user_id: Option<i64>, allowed: &Vec<i64>) -> (r: bool)
    ensures
        r == (user_id is Some && allowed@.contains(user_id->0)),
{
    match user_id {
        None => false,
        Some(id) => {
            let mut i: usize = 0;
            while i < allowed.len()
                invariant
                    i <= allowed.len(),
                    user_id == Some(id),
                    forall|j: int| 0 <= j < i ==> allowed@[j] != id,
                decreases allowed.len() - i,
            {
                if allowed[i] == id {
                    return true;
                }
                i += 1;
            }
            false
        },
    }
}

/// What `c` is written as in the chat service's HTML.
pub open spec fn escaped_char(c: char) -> Seq<char> {
    if c == '&' {
        "&amp;"@
    } else if c == '<' {
        "&lt;"@
    } else if c == '>' {
        "&gt;"@
    } else {
        seq![c]
    }
}

/// `text` with each of its characters written for the chat service's HTML.
pub open spec fn escaped(text: Seq<char>) -> Seq<char>
    decreases text.len(),
{
    if text.len() == 0 {
        Seq::empty()
    } else {
        escaped(text.drop_last()) + escaped_char(text.last())
    }
}

/// `text` for the chat service's HTML: `&`, `<` and `>` are written as
/// `&amp;`, `&lt;` and `&gt;`.
pub fn escape_html(text: &str) -> (out: String)
    ensures
        out@ == escaped(text@),
{
    let t = to_chars(text);
    let mut buf: Vec<char> = Vec::new();
    let mut i: usize = 0;
    while i < t.len()
        invariant
            i <= t.len(),
            buf@ == escaped(t@.take(i as int)),
        decreases t.len() - i,
    {
        proof {
            let next = t@.take(i + 1);
            assert(next.drop_last() =~= t@.take(i as int));
        }
        let c = t[i];
        if c == '&' {
            push_str(&mut buf, "&amp;");
        } else if c == '<' {
            push_str(&mut buf, "&lt;");
        } else if c == '>' {
            push_str(&mut buf, "&gt;");
        } else {
            buf.push(c);
        }
        i += 1;
    }
    assert(t@.take(t@.len() as int) =~= t@);
    from_chars(&buf)
}

/// The number of characters of `s` before its first `,`.
pub open spec fn item_len(s: Seq<char>) -> nat
    decreases s.len(),
{
    if s.len() == 0 || s[0] == ',' {
        0
    } else {
        1 + item_len(s.drop_first())
    }
}

/// The items of the list `s`: the texts between its commas. A list without
/// a comma is one item, also where it is empty.
pub open spec fn items(s: Seq<char>) -> Seq<Seq<char>>
    decreases s.len(),
    via items_decreases
{
    let n = item_len(s) as int;
    if n >= s.len() {
        seq![s]
    } else {
        seq![s.subrange(0, n)] + items(s.skip(n + 1))
    }
}

#[via_fn]
proof fn items_decreases(s: Seq<char>) {
}

/// The number of white-space characters at the start of `s`.
pub open spec fn leading_spaces(s: Seq<char>) -> nat
    decreases s.len(),
{
    if s.len() == 0 || !is_space(s[0]) {
        0
    } else {
        1 + leading_spaces(s.drop_first())
    }
}

/// The number of white-space characters at the end of `s`.
pub open spec fn trailing_spaces(s: Seq<char>) -> nat
    decreases s.len(),
{
    if s.len() == 0 || !is_space(s.last()) {
        0
    } else {
        1 + trailing_spaces(s.drop_last())
    }
}

/// `s` without the white space at its start and at its end.
pub open spec fn trimmed(s: Seq<char>) -> Seq<char> {
    if leading_spaces(s) + trailing_spaces(s) >= s.len() {
        Seq::empty()
    } else {
        s.subrange(leading_spaces(s) as int, s.len() - trailing_spaces(s))
    }
}

/// Whether `s` is made of decimal digits, and of at least one.
pub open spec fn is_number(s: Seq<char>) -> bool {
    s.len() > 0 && forall|i: int| 0 <= i < s.len() ==> '0' <= #[trigger] s[i] <= '9'
}

/// The number that the decimal digits `s` stand for.
pub open spec fn number_value(s: Seq<char>) -> nat
    decreases s.len(),
{
    if s.len() == 0 {
        0
    } else {
        number_value(s.drop_last()) * 10 + ((s.last() as u32 - 48) as nat)
    }
}

/// The integer that `s` is the decimal form of: an optional sign, then
/// digits and nothing else, for a number that fits in 64 bits.
pub open spec fn integer_of(s: Seq<char>) -> Option<i64> {
    let signed = s.len() > 0 && (s[0] == '-' || s[0] == '+');
    let digits = if signed {
        s.drop_first()
    } else {
        s
    };
    if !is_number(digits) {
        None
    } else if s[0] == '-' {
        if number_value(digits) <= 0x8000_0000_0000_0000 {
            Some((-(number_value(digits) as int)) as i64)
        } else {
            None
        }
    } else if number_value(digits) <= 0x7fff_ffff_ffff_ffff {
        Some(number_value(digits) as i64)
    } else {
        None
    }
}

/// Digits that begin a number stand for no more than the whole number.
proof fn lemma_number_value_grows(s: Seq<char>, i: int)
    requires
        0 <= i <= s.len(),
    ensures
        number_value(s.take(i)) <= number_value(s),
    decreases s.len(),
{
    if i < s.len() {
        assert(s.drop_last().take(i) =~= s.take(i));
        lemma_number_value_grows(s.drop_last(), i);
    } else {
        assert(s.take(i) =~= s);
    }
}

/// The integer that `s` is the decimal form of.
pub fn parse_integer(s: &Vec<char>) -> (out: Option<i64>)
    ensures
        out == integer_of(s@),
{
    let negative = s.len() > 0 && s[0] == '-';
    let first: usize = if s.len() > 0 && (s[0] == '-' || s[0] == '+') {
        1
    } else {
        0
    };
    let ghost digits = s@.skip(first as int);
    assert(first == 1 ==> digits =~= s@.drop_first());
    assert(first == 0 ==> digits =~= s@);
    if first == s.len() {
        return None;
    }
    let limit: u64 = if negative {
        0x8000_0000_0000_0000
    } else {
        0x7fff_ffff_ffff_ffff
    };
    let mut value: u64 = 0;
    let mut i: usize = first;
    while i < s.len()
        invariant
            first <= i <= s.len(),
            first < s.len(),
            negative == (s@[0] == '-'),
            (first == 1) == (s@[0] == '-' || s@[0] == '+'),
            digits == if first == 1 {
                s@.drop_first()
            } else {
                s@
            },
            digits == s@.skip(first as int),
            forall|j: int| 0 <= j < i - first ==> '0' <= #[trigger] digits[j] <= '9',
            value == number_value(digits.take(i - first)),
            limit == if negative {
                0x8000_0000_0000_0000u64
            } else {
                0x7fff_ffff_ffff_ffffu64
            },
            value <= limit,
        decreases s.len() - i,
    {
        let c = s[i];
        if c < '0' || c > '9' {
            assert(digits[i - first] == c);
            return None;
        }
        let d: u64 = (c as u32 - 48) as u64;
        proof {
            let next = digits.take(i + 1 - first);
            assert(next.drop_last() =~= digits.take(i - first));
            assert(next.last() == c);
            lemma_number_value_grows(digits, i + 1 - first);
        }
        if value > (limit - d) / 10 {
            return None;
        }
        value = value * 10 + d;
        i += 1;
    }
    assert(digits.take(digits.len() as int) =~= digits);
    if negative {
        if value == 0x8000_0000_0000_0000 {
            Some(i64::MIN)
        } else {
            Some(-(value as i64))
        }
    } else {
        Some(value as i64)
    }
}

/// The identifiers that the items `list` stand for: each item is trimmed,
/// and those that are no integer are left out.
pub open spec fn ids_of(list: Seq<Seq<char>>) -> Seq<i64>
    decreases list.len(),
{
    if list.len() == 0 {
        Seq::empty()
    } else {
        let before = ids_of(list.drop_last());
        match integer_of(trimmed(list.last())) {
            Some(id) => before.push(id),
            None => before,
        }
    }
}

/// `s` without the white space at its start and at its end.
pub fn trim(s: &Vec<char>) -> (out: Vec<char>)
    ensures
        out@ == trimmed(s@),
{
    let mut a: usize = 0;
    assert(s@.skip(0) =~= s@);
    while a < s.len() && is_whitespace(s[a])
        invariant
            a <= s.len(),
            leading_spaces(s@) == a + leading_spaces(s@.skip(a as int)),
        decreases s.len() - a,
    {
        assert(s@.skip(a as int).drop_first() =~= s@.skip(a + 1));
        a += 1;
    }
    let mut out: Vec<char> = Vec::new();
    if a == s.len() {
        return out;
    }
    let mut b: usize = s.len();
    while is_whitespace(s[b - 1])
        invariant
            a < b <= s.len(),
            !is_space(s@[a as int]),
            trailing_spaces(s@) == (s.len() - b) + trailing_spaces(s@.take(b as int)),
        decreases b,
    {
        assert(s@.take(b as int).drop_last() =~= s@.take(b - 1));
        b -= 1;
    }
    let mut i: usize = a;
    while i < b
        invariant
            a <= i <= b <= s.len(),
            out@ == s@.subrange(a as int, i as int),
        decreases b - i,
    {
        out.push(s[i]);
        i += 1;
    }
    out
}

/// The identifiers of the users that may talk to the bot, as the list
/// `text` names them: integers with commas between them. Items that are no
/// integer are passed over.
pub fn parse_allowed_ids(text: &str) -> (ids: Vec<i64>)
    ensures
        ids@ == ids_of(items(text@)),
{
    let t = to_chars(text);
    let mut ids: Vec<i64> = Vec::new();
    let mut cur: Vec<char> = Vec::new();
    let ghost mut done: Seq<Seq<char>> = Seq::empty();
    let mut i: usize = 0;
    let mut start: usize = 0;
    assert(t@.skip(0) =~= t@);
    while i < t.len()
        invariant
            start <= i <= t.len(),
            items(t@) == done + items(t@.skip(start as int)),
            ids@ == ids_of(done),
            cur@ == t@.subrange(start as int, i as int),
            item_len(t@.skip(start as int)) == (i - start) + item_len(t@.skip(i as int)),
        decreases t.len() - i,
    {
        let ghost from = t@.skip(start as int);
        assert(t@.skip(i as int).drop_first() =~= t@.skip(i + 1));
        if t[i] == ',' {
            proof {
                assert(from.subrange(0, i - start) =~= cur@);
                assert(from.skip(i - start + 1) =~= t@.skip(i + 1));
                assert(done.push(cur@).drop_last() =~= done);
            }
            match parse_integer(&trim(&cur)) {
                Some(id) => ids.push(id),
                None => {},
            }
            proof {
                done = done.push(cur@);
            }
            cur = Vec::new();
            i += 1;
            start = i;
        } else {
            cur.push(t[i]);
            i += 1;
        }
    }
    proof {
        assert(items(t@) =~= done.push(cur@));
        assert(done.push(cur@).drop_last() =~= done);
    }
    match parse_integer(&trim(&cur)) {
        Some(id) => ids.push(id),
        None => {},
    }
    ids
}


/// How the text of a message is to be read by the chat service.
#[derive(Debug, Clone, Copy, PartialEq, Eq, Structural)]
pub enum ParseMode {
    Html,
    Plain,
}

/// The name under which the chat service knows the parse mode `mode`; plain
/// text has none.
pub fn parse_mode_name(mode: ParseMode) -> (name: Option<&'static str>)
    ensures
        mode == ParseMode::Plain <==> name is None,
        mode == ParseMode::Html ==> name->0@ == "HTML"@,
{
    match mode {
        ParseMode::Html => Some("HTML"),
        ParseMode::Plain => None,
    }
}

/// What follows an attempt to send a message.
#[derive(Debug, Clone, PartialEq, Eq)]
pub enum SendStep {
    /// The message was sent.
    Done,
    /// The message is to be sent once more, as plain text.
    RetryPlain,
    /// The message could not be sent.
    Fail(Error),
}

/// What follows an attempt to send a message in the mode `mode`, which the
/// chat service answered with `ok` and `description`: a message that was
/// refused as HTML is sent once more as plain text, and a refusal of plain
/// text is final.
pub fn after_send(mode: ParseMode, ok: bool, description: Option<String>) -> (step: SendStep)
    ensures
        ok <==> step is Done,
        !ok && mode == ParseMode::Html <==> step is RetryPlain,
        !ok && mode == ParseMode::Plain ==> (step matches SendStep::Fail(Error::Telegram(m)) && m@
            == (match description {
            Some(d) => d@,
            None => "unknown error"@,
        })),
{
    if ok {
        return SendStep::Done;
    }
    match mode {
        ParseMode::Html => SendStep::RetryPlain,
        ParseMode::Plain => match api_outcome(ok, description) {
            Err(e) => SendStep::Fail(e),
            Ok(_) => SendStep::Done,
        },
    }
}

/// What is to be done with an event of the chat service.
#[derive(Debug, Clone, PartialEq, Eq)]
pub enum Route {
    /// Nothing: it is neither a pressed button nor a message with a text.
    Skip,
    /// Nothing: its sender is not allowed to talk to the bot.
    Unauthorized { user_id: Option<i64> },
    /// It is the press of a button: the answer to a request, perhaps.
    Callback { query_id: String, data: String, chat_id: i64 },
    /// It is a message for the assistant.
    Chat { chat_id: i64, text: String },
}

/// What a route holds.
pub enum RouteView {
    Skip,
    Unauthorized { user_id: Option<i64> },
    Callback { query_id: Seq<char>, data: Seq<char>, chat_id: i64 },
    Chat { chat_id: i64, text: Seq<char> },
}

impl View for Route {
    type V = RouteView;

    open spec fn view(&self) -> RouteView {
        match *self {
            Route::Skip => RouteView::Skip,
            Route::Unauthorized { user_id } => RouteView::Unauthorized { user_id },
            Route::Callback { query_id, data, chat_id } => RouteView::Callback {
                query_id: query_id@,
                data: data@,
                chat_id,
            },
            Route::Chat { chat_id, text } => RouteView::Chat { chat_id, text: text@ },
        }
    }
}

/// What is to be done with the pressed button `query`, while the users
/// `allowed` may talk to the bot. A button without a payload has the empty
/// one, and one without a message belongs to the chat 0.
pub open spec fn callback_route(query: CallbackQuery, allowed: Seq<i64>) -> RouteView {
    if !allowed.contains(query.from.id) {
        RouteView::Unauthorized { user_id: Some(query.from.id) }
    } else {
        RouteView::Callback {
            query_id: query.id@,
            data: match query.data {
                Some(d) => d@,
                None => Seq::empty(),
            },
            chat_id: match query.message {
                Some(m) => m.chat.id,
                None => 0,
            },
        }
    }
}

/// What is to be done with the message `message`, while the users `allowed`
/// may talk to the bot.
pub open spec fn message_route(message: Message, allowed: Seq<i64>) -> RouteView {
    match message.text {
        None => RouteView::Skip,
        Some(text) => match message.from {
            Some(user) => if allowed.contains(user.id) {
                RouteView::Chat { chat_id: message.chat.id, text: text@ }
            } else {
                RouteView::Unauthorized { user_id: Some(user.id) }
            },
            None => RouteView::Unauthorized { user_id: None },
        },
    }
}

/// What is to be done with the event `update`, while the users `allowed`
/// may talk to the bot: a pressed button comes before a message.
pub open spec fn route_of(update: Update, allowed: Seq<i64>) -> RouteView {
    match update.callback_query {
        Some(query) => callback_route(query, allowed),
        None => match update.message {
            Some(message) => message_route(message, allowed),
            None => RouteView::Skip,
        },
    }
}

/// What is to be done with the event `update`, while the users `allowed`
/// may talk to the bot.
pub fn route_update(update: &Update, allowed: &Vec<i64>) -> (route: Route)
    ensures
        route@ == route_of(*update, allowed@),
{
    match &update.callback_query {
        Some(query) => {
            if !is_allowed(Some(query.from.id), allowed) {
                return Route::Unauthorized { user_id: Some(query.from.id) };
            }
            let data = match &query.data {
                Some(d) => d.clone(),
                None => String::new(),
            };
            let chat_id = match &query.message {
                Some(m) => m.chat.id,
                None => 0,
            };
            Route::Callback { query_id: query.id.clone(), data, chat_id }
        },
        None => match &update.message {
            None => Route::Skip,
            Some(message) => match &message.text {
                None => Route::Skip,
                Some(text) => match message.from {
                    None => Route::Unauthorized { user_id: None },
                    Some(user) => if is_allowed(Some(user.id), allowed) {
                        Route::Chat { chat_id: message.chat.id, text: text.clone() }
                    } else {
                        Route::Unauthorized { user_id: Some(user.id) }
                    },
                },
            },
        },
    }
}

/// The position from which the next events are asked for, after the event
/// `update_id` was taken in.
pub fn next_offset(update_id: i64) -> (offset: i64)
    ensures
        update_id < i64::MAX ==> offset == update_id + 1,
        update_id == i64::MAX ==> offset == update_id,
{
    if update_id < i64::MAX {
        update_id + 1
    } else {
        update_id
    }
}

} // verus!
