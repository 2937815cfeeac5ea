//! The web tools: which addresses may be fetched, and how search results
//! and fetched pages are reported.

use vstd::prelude::*;
use crate::pattern::{is_space, is_whitespace};
use crate::text::{
    decimal_nat, ends_with, ends_with_str, equals_str, from_chars, push_decimal, push_str,
    starts_with, starts_with_str, to_chars,
};
use crate::tool::{
    cut, join, truncate_output, truncate_to_chars, truncated_output, DEFAULT_FETCH_MAX_CHARS,
};

verus! {

/// `s` in lower case, as `str::to_lowercase` gives it.
pub uninterp spec fn lowercase(s: Seq<char>) -> Seq<char>;

/// `str::to_lowercase`: the lower-case form of `s`.
#[verifier::external_body]
fn to_lowercase(s: &str) -> (out: String)
    ensures
        out@ == lowercase(s@),
{
    s.to_lowercase()
}

/// The number of characters of `s` before its first `/` or `:`.
pub open spec fn name_len(s: Seq<char>) -> nat
    decreases s.len(),
{
    if s.len() == 0 || s[0] == '/' || s[0] == ':' {
        0
    } else {
        1 + name_len(s.drop_first())
    }
}

/// The number of characters of `s` up to its first `]`, that one counted;
/// where a `/` or the end of `s` comes first, the number of characters
/// before that.
pub open spec fn bracket_len(s: Seq<char>) -> nat
    decreases s.len(),
{
    if s.len() == 0 || s[0] == '/' {
        0
    } else if s[0] == ']' {
        1
    } else {
        1 + bracket_len(s.drop_first())
    }
}

/// The number of characters of the host that begins `s`. A host that begins
/// with `[`, as an IPv6 address does, runs to its `]`, colons included; any
/// other ends before the first `/` or `:`.
pub open spec fn host_len(s: Seq<char>) -> nat {
    if s.len() > 0 && s[0] == '[' {
        bracket_len(s)
    } else {
        name_len(s)
    }
}

/// Whether the lower-case address `lower` has one of the two schemes that
/// may be fetched.
pub open spec fn has_web_scheme(lower: Seq<char>) -> bool {
    starts_with(lower, "http://"@) || starts_with(lower, "https://"@)
}

/// What follows the scheme in the lower-case address `lower`.
pub open spec fn after_scheme(lower: Seq<char>) -> Seq<char> {
    if starts_with(lower, "https://"@) {
        lower.skip("https://"@.len() as int)
    } else {
        lower.skip("http://"@.len() as int)
    }
}

/// The host of the lower-case address `lower`: what follows the scheme, as
/// far as `host_len` says.
pub open spec fn host_of(lower: Seq<char>) -> Seq<char> {
    let rest = after_scheme(lower);
    rest.subrange(0, host_len(rest) as int)
}

/// Whether `host` names this machine or a private network.
pub open spec fn is_internal_host(host: Seq<char>) -> bool {
    ||| host == "localhost"@
    ||| host == "127.0.0.1"@
    ||| host == "[::1]"@
    ||| ends_with(host, ".local"@)
    ||| starts_with(host, "10."@)
    ||| starts_with(host, "192.168."@)
    ||| starts_with(host, "172.16."@)
    ||| starts_with(host, "169.254."@)
}

/// Why the lower-case address `lower` may not be fetched, or `None` where
/// it may.
pub open spec fn url_rejection(lower: Seq<char>) -> Option<Seq<char>> {
    if !has_web_scheme(lower) {
        Some("only http and https URLs are supported"@)
    } else if is_internal_host(host_of(lower)) {
        Some("fetching local/internal URLs is not allowed"@)
    } else {
        None
    }
}

/// Whether the address `lower`, which is in lower case, may be fetched.
pub fn check_lowercase_url(lower: &str) -> (r: Result<(), &'static str>)
    ensures
        (match r {
            Ok(_) => url_rejection(lower@) is None,
            Err(reason) => url_rejection(lower@) == Some(reason@),
        }),
{
    let l = to_chars(lower);
    let secure = starts_with_str(&l, "https://");
    if !secure && !starts_with_str(&l, "http://") {
        return Err("only http and https URLs are supported");
    }
    let skip: usize = if secure {
        to_chars("https://").len()
    } else {
        to_chars("http://").len()
    };
    let ghost rest = after_scheme(l@);
    assert(rest == l@.skip(skip as int));
    let mut host: Vec<char> = Vec::new();
    let mut i: usize = skip;
    assert(l@.skip(skip as int).len() > 0 ==> rest[0] == l@[skip as int]);
    if i < l.len() && l[i] == '[' {
        let mut closed = false;
        while !closed && i < l.len() && l[i] != '/'
            invariant
                skip <= i <= l.len(),
                rest == l@.skip(skip as int),
                host@ == rest.subrange(0, i - skip),
                bracket_len(rest) == (i - skip) + if closed {
                    0
                } else {
                    bracket_len(l@.skip(i as int))
                },
            decreases l.len() - i,
        {
            let c = l[i];
            host.push(c);
            assert(l@.skip(i as int).drop_first() =~= l@.skip(i + 1));
            i += 1;
            if c == ']' {
                closed = true;
            }
        }
    } else {
        while i < l.len() && l[i] != '/' && l[i] != ':'
            invariant
                skip <= i <= l.len(),
                rest == l@.skip(skip as int),
                host@ == rest.subrange(0, i - skip),
                name_len(rest) == (i - skip) + name_len(l@.skip(i as int)),
            decreases l.len() - i,
        {
            host.push(l[i]);
            assert(l@.skip(i as int).drop_first() =~= l@.skip(i + 1));
            i += 1;
        }
    }
    assert(host@ == host_of(l@));
    if equals_str(&host, "localhost") || equals_str(&host, "127.0.0.1") || equals_str(
        &host,
        "[::1]",
    ) || ends_with_str(&host, ".local") || starts_with_str(&host, "10.") || starts_with_str(
        &host,
        "192.168.",
    ) || starts_with_str(&host, "172.16.") || starts_with_str(&host, "169.254.") {
        return Err("fetching local/internal URLs is not allowed");
    }
    Ok(())
}

/// Whether `url` may be fetched: it is put in lower case, must begin with
/// `http://` or `https://`, and its host may not be this machine or a
/// private network.
pub fn validate_fetch_url(url: &str) -> (r: Result<(), &'static str>)
    ensures
        (match r {
            Ok(_) => url_rejection(lowercase(url@)) is None,
            Err(reason) => url_rejection(lowercase(url@)) == Some(reason@),
        }),
{
    let lower = to_lowercase(url);
    check_lowercase_url(lower.as_str())
}

/// The address under which the reader service hands out the page at `url`.
pub fn reader_url(url: &str) -> (out: String)
    ensures
        out@ == "https://r.jina.ai/"@ + url@,
{
    join("https://r.jina.ai/", url)
}

/// The number of characters of a fetched page that are reported: what was
/// asked for, and 4000 where nothing was.
pub open spec fn fetch_limit_of(asked: Option<u64>) -> usize {
    (match asked {
        Some(n) => n,
        None => 4000u64,
    }) as usize
}

/// The number of characters of a fetched page that are reported, where the
/// call asks for `max_chars`.
pub fn fetch_limit(max_chars: Option<u64>) -> (n: usize)
    ensures
        n == fetch_limit_of(max_chars),
{
    let n: u64 = match max_chars {
        Some(n) => n,
        None => DEFAULT_FETCH_MAX_CHARS,
    };
    n as usize
}

/// What is to be done with a request to fetch a page.
#[derive(Debug, Clone, PartialEq, Eq)]
pub enum FetchPlan {
    /// The address may not be fetched: `report` is the result.
    Refused { report: String },
    /// The page is fetched from `reader_url`, and at most `max_chars` of its
    /// characters are reported.
    Fetch { reader_url: String, max_chars: usize },
}

/// What is to be done with a request to fetch `url`.
pub fn plan_fetch(url: &str, max_chars: Option<u64>) -> (plan: FetchPlan)
    ensures
        (match plan {
            FetchPlan::Refused { report } => url_rejection(lowercase(url@)) is Some && report@
                == "invalid URL: "@ + url_rejection(lowercase(url@))->0,
            FetchPlan::Fetch { reader_url, max_chars: n } => url_rejection(lowercase(url@))
                is None && reader_url@ == "https://r.jina.ai/"@ + url@ && n == fetch_limit_of(
                max_chars,
            ),
        }),
{
    match validate_fetch_url(url) {
        Err(reason) => FetchPlan::Refused { report: join("invalid URL: ", reason) },
        Ok(_) => FetchPlan::Fetch { reader_url: reader_url(url), max_chars: fetch_limit(max_chars) },
    }
}

/// Whether `s` holds nothing but white space.
pub open spec fn is_blank(s: Seq<char>) -> bool {
    forall|i: int| 0 <= i < s.len() ==> is_space(#[trigger] s[i])
}

/// Whether `s` holds nothing but white space.
pub fn blank(s: &Vec<char>) -> (r: bool)
    ensures
        r == is_blank(s@),
{
    let mut i: usize = 0;
    while i < s.len()
        invariant
            i <= s.len(),
            forall|j: int| 0 <= j < i ==> is_space(#[trigger] s@[j]),
        decreases s.len() - i,
    {
        if !is_whitespace(s[i]) {
            return false;
        }
        i += 1;
    }
    true
}

/// What is reported of a fetched page with the text `body`.
pub open spec fn page_report(body: Seq<char>, max: nat) -> Seq<char> {
    if is_blank(body) {
        "(no content)"@
    } else {
        cut(body, max, "\n... (content truncated)"@)
    }
}

/// The result of a fetch that gave the text `body`, of which at most `max`
/// characters are reported.
pub fn fetch_report(body: &str, max: usize) -> (out: String)
    ensures
        out@ == page_report(body@, max as nat),
{
    if blank(&to_chars(body)) {
        "(no content)".to_owned()
    } else {
        truncate_to_chars(body, max)
    }
}

/// The result of a fetch that failed before any answer, for the reason
/// `error`.
pub fn fetch_failure_report(error: &str) -> (out: String)
    ensures
        out@ == "failed to fetch URL: "@ + error@,
{
    join("failed to fetch URL: ", error)
}

/// The result of a fetch that was answered with the failing status `status`.
pub fn fetch_status_report(status: &str) -> (out: String)
    ensures
        out@ == "failed to fetch URL (HTTP "@ + status@ + ")"@,
{
    let mut buf = to_chars("failed to fetch URL (HTTP ");
    push_str(&mut buf, status);
    push_str(&mut buf, ")");
    from_chars(&buf)
}

/// The result of a fetch whose answer could not be read, for the reason
/// `error`.
pub fn fetch_read_failure_report(error: &str) -> (out: String)
    ensures
        out@ == "failed to read response: "@ + error@,
{
    join("failed to read response: ", error)
}

/// The result of a fetch that did not end within `timeout_secs` seconds.
pub fn fetch_timeout_report(timeout_secs: u64) -> (out: String)
    ensures
        out@ == "fetch timed out after "@ + decimal_nat(timeout_secs as nat) + "s"@,
{
    let mut buf = to_chars("fetch timed out after ");
    push_decimal(&mut buf, timeout_secs);
    push_str(&mut buf, "s");
    from_chars(&buf)
}

/// One result of a web search.
#[derive(Debug, Clone, PartialEq, Eq)]
pub struct SearchResult {
    pub title: String,
    pub url: String,
    pub description: Option<String>,
}

/// The lines of the search result `r`, which is the one at position `index`:
/// its number and title, its address, and its description where it has one
/// that is not empty.
pub open spec fn result_entry(index: nat, r: SearchResult) -> Seq<char> {
    decimal_nat(index + 1) + ". "@ + r.title@ + "\n   "@ + r.url@ + (match r.description {
        Some(d) => if d@.len() > 0 {
            "\n   "@ + d@
        } else {
            Seq::empty()
        },
        None => Seq::empty(),
    })
}

/// The entries of `results`, one after the other, with a line break between
/// two of them.
pub open spec fn results_text(results: Seq<SearchResult>) -> Seq<char>
    decreases results.len(),
{
    if results.len() == 0 {
        Seq::empty()
    } else if results.len() == 1 {
        result_entry(0, results[0])
    } else {
        results_text(results.drop_last()) + seq!['\n'] + result_entry(
            (results.len() - 1) as nat,
            results.last(),
        )
    }
}

/// What is reported of a search for `query` that gave `results`.
pub open spec fn search_report(query: Seq<char>, results: Seq<SearchResult>) -> Seq<char> {
    if results.len() == 0 {
        "no results found for: "@ + query
    } else {
        truncated_output(results_text(results))
    }
}

/// The result of a search for `query` that gave `results`.
pub fn format_search_results(query: &str, results: &Vec<SearchResult>) -> (out: String)
    ensures
        out@ == search_report(query@, results@),
{
    if results.len() == 0 {
        return join("no results found for: ", query);
    }
    let mut buf: Vec<char> = Vec::new();
    let mut i: usize = 0;
    while i < results.len()
        invariant
            i <= results.len(),
            buf@ == results_text(results@.take(i as int)),
        decreases results.len() - i,
    {
        if i > 0 {
            buf.push('\n');
        }
        let r = &results[i];
        push_decimal(&mut buf, (i + 1) as u64);
        push_str(&mut buf, ". ");
        push_str(&mut buf, r.title.as_str());
        push_str(&mut buf, "\n   ");
        push_str(&mut buf, r.url.as_str());
        match &r.description {
            Some(d) => {
                if d.as_str().as_bytes().len() > 0 {
                    push_str(&mut buf, "\n   ");
                    push_str(&mut buf, d.as_str());
                }
            },
            None => {},
        }
        proof {
            let next = results@.take(i + 1);
            assert(next.drop_last() =~= results@.take(i as int));
            assert(next.last() == results@[i as int]);
            if r.description is Some {
                crate::text::lemma_byte_len_zero(r.description->0@);
            }
        }
        i += 1;
    }
    assert(results@.take(results@.len() as int) =~= results@);
    let text = from_chars(&buf);
    truncate_output(text.as_str())
}

/// The result of a search without the key that the search service asks for.
pub fn search_unavailable_report() -> (out: String)
    ensures
        out@ == "web search unavailable: BRAVE_SEARCH_API_KEY not set"@,
{
    "web search unavailable: BRAVE_SEARCH_API_KEY not set".to_owned()
}

/// The result of a search that failed before any answer, for the reason
/// `error`.
pub fn search_failure_report(error: &str) -> (out: String)
    ensures
        out@ == "web search failed: "@ + error@,
{
    join("web search failed: ", error)
}

/// The result of a search that was answered with the failing status `status`
/// and the text `body`.
pub fn search_status_report(status: &str, body: &str) -> (out: String)
    ensures
        out@ == "web search failed (HTTP "@ + status@ + "): "@ + body@,
{
    let mut buf = to_chars("web search failed (HTTP ");
    push_str(&mut buf, status);
    push_str(&mut buf, "): ");
    push_str(&mut buf, body);
    from_chars(&buf)
}

/// The result of a search whose answer could not be read, for the reason
/// `error`.
pub fn search_parse_failure_report(error: &str) -> (out: String)
    ensures
        out@ == "failed to parse search results: "@ + error@,
{
    join("failed to parse search results: ", error)
}

} // verus!
