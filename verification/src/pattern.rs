//! Permission rules: matching a command line against a stored pattern.
//!
//! A command is cut into sub-commands at the shell's chain and pipe
//! separators, each sub-command and the pattern are cut into
//! whitespace-delimited tokens, and the pattern has to match every
//! sub-command.

use vstd::prelude::*;
use crate::text::{from_chars, to_chars};

verus! {

/// Whether `c` is white space (the Unicode property `White_Space`).
pub open spec fn is_space(c: char) -> bool {
    let u = c as u32;
    (0x09 <= u <= 0x0D) || u == 0x20 || u == 0x85 || u == 0xA0 || u == 0x1680 || (0x2000 <= u
        <= 0x200A) || u == 0x2028 || u == 0x2029 || u == 0x202F || u == 0x205F || u == 0x3000
}

/// The token that stands for a wildcard in a pattern.
pub open spec fn star() -> Seq<char> {
    seq!['*']
}

/// The number of characters at the start of `s` that are no white space.
pub open spec fn word_len(s: Seq<char>) -> nat
    decreases s.len(),
{
    if s.len() == 0 || is_space(s[0]) {
        0
    } else {
        1 + word_len(s.drop_first())
    }
}

/// The maximal runs of characters of `s` that hold no white space, in order.
pub open spec fn tokens(s: Seq<char>) -> Seq<Seq<char>>
    decreases s.len(),
    via tokens_decreases
{
    if s.len() == 0 {
        Seq::empty()
    } else if is_space(s[0]) {
        tokens(s.drop_first())
    } else {
        let n = word_len(s) as int;
        seq![s.take(n)] + tokens(s.skip(n))
    }
}

#[via_fn]
proof fn tokens_decreases(s: Seq<char>) {
    lemma_word_len_bound(s);
}

/// The length of the separator that starts at position `i` of `s`: 2 for
/// `||` and `&&`, 1 for `|` and `;`, and 0 where no separator starts.
pub open spec fn sep_len(s: Seq<char>, i: int) -> nat {
    if !(0 <= i < s.len()) {
        0
    } else if s[i] == '|' {
        if i + 1 < s.len() && s[i + 1] == '|' {
            2
        } else {
            1
        }
    } else if s[i] == '&' && i + 1 < s.len() && s[i + 1] == '&' {
        2
    } else if s[i] == ';' {
        1
    } else {
        0
    }
}

/// The number of characters of `s` before its first separator.
pub open spec fn segment_len(s: Seq<char>) -> nat
    decreases s.len(),
{
    if s.len() == 0 || sep_len(s, 0) > 0 {
        0
    } else {
        1 + segment_len(s.drop_first())
    }
}

/// Whether `s` holds no separator.
pub open spec fn is_single(s: Seq<char>) -> bool {
    segment_len(s) == s.len()
}

/// The sub-commands that the text `s` holds, where `s` begins a command or
/// follows a separator: the text up to each separator, and what follows the
/// last one if that is not empty.
pub open spec fn segments_from(s: Seq<char>) -> Seq<Seq<char>>
    decreases s.len(),
    via segments_decreases
{
    let n = segment_len(s) as int;
    if n >= s.len() {
        if s.len() == 0 {
            Seq::empty()
        } else {
            seq![s]
        }
    } else {
        seq![s.take(n)] + segments_from(s.skip(n + sep_len(s, n)))
    }
}

/// The sub-commands of the command `s`: the text between its separators. A
/// command without a separator is one sub-command, the empty command too;
/// after the last separator of a command only text that is not empty is a
/// sub-command.
pub open spec fn segments(s: Seq<char>) -> Seq<Seq<char>> {
    if s.len() == 0 {
        seq![s]
    } else {
        segments_from(s)
    }
}

#[via_fn]
proof fn segments_decreases(s: Seq<char>) {
    lemma_segment_len_bound(s);
}

/// Whether the pattern tokens `p` match the command tokens `c`. A wildcard
/// that ends the pattern takes all that is left of the command; any other
/// wildcard takes exactly one token; every other token must be equal to the
/// command's token at its position.
pub open spec fn tokens_match(p: Seq<Seq<char>>, c: Seq<Seq<char>>) -> bool {
    if p.len() == 0 {
        c.len() == 0
    } else if p.last() == star() {
        &&& c.len() >= p.len() - 1
        &&& forall|i: int| 0 <= i < p.len() - 1 ==> p[i] == star() || p[i] == c[i]
    } else {
        &&& c.len() == p.len()
        &&& forall|i: int| 0 <= i < p.len() ==> p[i] == star() || p[i] == c[i]
    }
}

/// Whether `pattern` matches the one sub-command `segment`.
pub open spec fn segment_matches(pattern: Seq<char>, segment: Seq<char>) -> bool {
    tokens_match(tokens(pattern), tokens(segment))
}

/// Whether `pattern` matches `command`: it matches every sub-command.
pub open spec fn rule_matches(pattern: Seq<char>, command: Seq<char>) -> bool {
    forall|i: int|
        0 <= i < segments(command).len() ==> segment_matches(
            pattern,
            #[trigger] segments(command)[i],
        )
}

/// The rule that an "allow always" decision on `command` stands for: the
/// command's first token, or the command itself where it has no token,
/// followed by a blank and a wildcard.
pub open spec fn pattern_for(command: Seq<char>) -> Seq<char> {
    let t = tokens(command);
    (if t.len() > 0 {
        t[0]
    } else {
        command
    }) + seq![' ', '*']
}

/// The views of the elements of `v`.
pub open spec fn views(v: Seq<Vec<char>>) -> Seq<Seq<char>> {
    Seq::new(v.len(), |i: int| v[i]@)
}

/// The views of the strings of `v`.
pub open spec fn string_views(v: Seq<String>) -> Seq<Seq<char>> {
    Seq::new(v.len(), |i: int| v[i]@)
}

/// The first word of `s` lies within `s`, holds no white space, and ends at
/// white space or at the end of `s`.
pub proof fn lemma_word_len_bound(s: Seq<char>)
    ensures
        word_len(s) <= s.len(),
        word_len(s) < s.len() ==> is_space(s[word_len(s) as int]),
        forall|i: int| 0 <= i < word_len(s) ==> !is_space(#[trigger] s[i]),
    decreases s.len(),
{
    if s.len() > 0 && !is_space(s[0]) {
        lemma_word_len_bound(s.drop_first());
        assert forall|i: int| 0 <= i < word_len(s) implies !is_space(#[trigger] s[i]) by {
            if i > 0 {
                assert(s[i] == s.drop_first()[i - 1]);
            }
        }
    }
}

/// The first sub-command of `s` lies within `s`, holds no separator, and ends
/// at a separator or at the end of `s`.
pub proof fn lemma_segment_len_bound(s: Seq<char>)
    ensures
        segment_len(s) <= s.len(),
        segment_len(s) < s.len() ==> sep_len(s, segment_len(s) as int) > 0,
        forall|i: int| 0 <= i < segment_len(s) ==> sep_len(s, i) == 0,
    decreases s.len(),
{
    if s.len() > 0 && sep_len(s, 0) == 0 {
        let t = s.drop_first();
        lemma_segment_len_bound(t);
        assert forall|i: int| 0 <= i < t.len() implies sep_len(t, i) == sep_len(s, i + 1) by {
            assert(t[i] == s[i + 1]);
        }
        assert forall|i: int| 0 <= i < segment_len(s) implies sep_len(s, i) == 0 by {
            if i > 0 {
                assert(sep_len(t, i - 1) == sep_len(s, i));
            }
        }
    }
}

/// Whether `c` is white space.
pub fn is_whitespace(c: char) -> (r: bool)
    ensures
        r == is_space(c),
{
    let u: u32 = c as u32;
    (0x09 <= u && u <= 0x0D) || u == 0x20 || u == 0x85 || u == 0xA0 || u == 0x1680 || (0x2000 <= u
        && u <= 0x200A) || u == 0x2028 || u == 0x2029 || u == 0x202F || u == 0x205F || u
        == 0x3000
}

/// The tokens of `s`.
pub fn tokenize(s: &Vec<char>) -> (out: Vec<Vec<char>>)
    ensures
        views(out@) == tokens(s@),
{
    let mut out: Vec<Vec<char>> = Vec::new();
    let mut cur: Vec<char> = Vec::new();
    let mut i: usize = 0;
    let ghost mut start: int = 0;
    assert(s@.skip(0) =~= s@);
    while i < s.len()
        invariant
            0 <= start <= i <= s.len(),
            tokens(s@) == views(out@) + tokens(s@.skip(start)),
            cur@ == s@.subrange(start, i as int),
            word_len(s@.skip(start)) == (i - start) + word_len(s@.skip(i as int)),
            start < i ==> !is_space(s@[start]),
        decreases s.len() - i,
    {
        let c = s[i];
        let ghost rest = s@.skip(i as int);
        assert(rest.drop_first() =~= s@.skip(i + 1));
        if is_whitespace(c) {
            if cur.len() > 0 {
                proof {
                    let from = s@.skip(start);
                    assert(from.take(i - start) =~= cur@);
                    assert(from.skip(i - start) =~= rest);
                    assert(tokens(from) == seq![cur@] + tokens(rest));
                }
                out.push(cur);
                cur = Vec::new();
            }
            proof {
                start = i + 1;
            }
        } else {
            cur.push(c);
        }
        i += 1;
    }
    if cur.len() > 0 {
        proof {
            let from = s@.skip(start);
            assert(from.take(i - start) =~= cur@);
            assert(from.skip(i - start) =~= s@.skip(i as int));
            assert(tokens(from) == seq![cur@] + tokens(s@.skip(i as int)));
        }
        out.push(cur);
    }
    out
}

/// The length of the separator that starts at position `i` of `s`.
pub fn separator_len(s: &Vec<char>, i: usize) -> (k: usize)
    requires
        i < s.len(),
    ensures
        k == sep_len(s@, i as int),
        k <= 2,
        i + k <= s.len(),
{
    let c = s[i];
    if c == '|' {
        if i + 1 < s.len() && s[i + 1] == '|' {
            2
        } else {
            1
        }
    } else if c == '&' && i + 1 < s.len() && s[i + 1] == '&' {
        2
    } else if c == ';' {
        1
    } else {
        0
    }
}

proof fn lemma_sep_len_skip(s: Seq<char>, from: int, i: int)
    requires
        0 <= from <= i <= s.len(),
    ensures
        sep_len(s.skip(from), i - from) == sep_len(s, i),
{
}

/// The sub-commands of `s`.
pub fn split_chars(s: &Vec<char>) -> (out: Vec<Vec<char>>)
    ensures
        views(out@) == segments(s@),
{
    let mut out: Vec<Vec<char>> = Vec::new();
    let mut cur: Vec<char> = Vec::new();
    let mut i: usize = 0;
    let mut start: usize = 0;
    assert(s@.skip(0) =~= s@);
    while i < s.len()
        invariant
            0 <= start <= i <= s.len(),
            segments_from(s@) == views(out@) + segments_from(s@.skip(start as int)),
            cur@ == s@.subrange(start as int, i as int),
            segment_len(s@.skip(start as int)) == (i - start) + segment_len(s@.skip(i as int)),
        decreases s.len() - i,
    {
        let k = separator_len(s, i);
        let ghost rest = s@.skip(i as int);
        let ghost from = s@.skip(start as int);
        proof {
            lemma_sep_len_skip(s@, i as int, i as int);
            lemma_sep_len_skip(s@, start as int, i as int);
            assert(rest.drop_first() =~= s@.skip(i + 1));
        }
        if k == 0 {
            cur.push(s[i]);
            i += 1;
        } else {
            proof {
                assert(from.take(i - start) =~= cur@);
                assert(from.skip(i - start + k) =~= s@.skip(i + k));
            }
            out.push(cur);
            cur = Vec::new();
            i += k;
            start = i;
        }
    }
    if start < s.len() || s.len() == 0 {
        assert(s.len() == 0 ==> views(out@.push(cur)) =~= seq![s@]);
        out.push(cur);
    }
    out
}

/// Whether the characters of `a` and `b` are the same.
pub fn same_chars(a: &Vec<char>, b: &Vec<char>) -> (r: bool)
    ensures
        r == (a@ == b@),
{
    if a.len() != b.len() {
        return false;
    }
    let mut i: usize = 0;
    while i < a.len()
        invariant
            i <= a.len(),
            a.len() == b.len(),
            a@.take(i as int) == b@.take(i as int),
        decreases a.len() - i,
    {
        if a[i] != b[i] {
            return false;
        }
        i += 1;
    }
    assert(a@.take(a@.len() as int) =~= a@);
    assert(b@.take(b@.len() as int) =~= b@);
    true
}

/// Whether `t` is the wildcard token.
pub fn is_wildcard(t: &Vec<char>) -> (r: bool)
    ensures
        r == (t@ == star()),
{
    let r = t.len() == 1 && t[0] == '*';
    assert(r ==> t@ =~= star());
    r
}

/// Whether the pattern tokens `p` match the command tokens `c`.
pub fn match_tokens(p: &Vec<Vec<char>>, c: &Vec<Vec<char>>) -> (r: bool)
    ensures
        r == tokens_match(views(p@), views(c@)),
{
    let ghost ps = views(p@);
    let ghost cs = views(c@);
    if p.len() == 0 {
        return c.len() == 0;
    }
    let last = p.len() - 1;
    let mut i: usize = 0;
    while i < last
        invariant
            i <= last,
            last == p.len() - 1,
            ps == views(p@),
            cs == views(c@),
            i <= c.len(),
            forall|j: int| 0 <= j < i ==> ps[j] == star() || ps[j] == cs[j],
        decreases last - i,
    {
        if i >= c.len() {
            return false;
        }
        if !is_wildcard(&p[i]) && !same_chars(&p[i], &c[i]) {
            assert(!(ps[i as int] == star() || ps[i as int] == cs[i as int]));
            return false;
        }
        i += 1;
    }
    if is_wildcard(&p[last]) {
        true
    } else if c.len() != p.len() {
        false
    } else {
        let r = same_chars(&p[last], &c[last]);
        r
    }
}

/// Whether `pattern` matches the one sub-command `command`, token by token.
pub fn matches_single(pattern: &str, command: &str) -> (r: bool)
    ensures
        r == segment_matches(pattern@, command@),
{
    let p = tokenize(&to_chars(pattern));
    let c = tokenize(&to_chars(command));
    match_tokens(&p, &c)
}

/// The sub-commands of `command`: the text between the separators `|`, `||`,
/// `&&` and `;`.
pub fn split_subcommands(command: &str) -> (out: Vec<String>)
    ensures
        string_views(out@) == segments(command@),
{
    let parts = split_chars(&to_chars(command));
    let mut out: Vec<String> = Vec::new();
    let mut i: usize = 0;
    while i < parts.len()
        invariant
            i <= parts.len(),
            out.len() == i,
            forall|j: int| 0 <= j < i ==> out@[j]@ == parts@[j]@,
        decreases parts.len() - i,
    {
        out.push(from_chars(&parts[i]));
        i += 1;
    }
    out
}

/// Whether `pattern` matches `command`: the command is cut into its
/// sub-commands, and the pattern has to match each of them.
pub fn matches_rule(pattern: &str, command: &str) -> (r: bool)
    ensures
        r == rule_matches(pattern@, command@),
{
    let p = tokenize(&to_chars(pattern));
    let parts = split_chars(&to_chars(command));
    let mut i: usize = 0;
    while i < parts.len()
        invariant
            i <= parts.len(),
            views(p@) == tokens(pattern@),
            views(parts@) == segments(command@),
            forall|j: int|
                0 <= j < i ==> segment_matches(pattern@, #[trigger] segments(command@)[j]),
        decreases parts.len() - i,
    {
        let c = tokenize(&parts[i]);
        assert(views(parts@)[i as int] == parts@[i as int]@);
        if !match_tokens(&p, &c) {
            return false;
        }
        i += 1;
    }
    true
}

/// The rule that an "allow always" decision on `command` is stored as: the
/// command's first token and a trailing wildcard.
pub fn generate_pattern(command: &str) -> (pattern: String)
    ensures
        pattern@ == pattern_for(command@),
{
    let chars = to_chars(command);
    let toks = tokenize(&chars);
    let mut out: Vec<char> = Vec::new();
    let head: &Vec<char> = if toks.len() > 0 {
        &toks[0]
    } else {
        &chars
    };
    let mut i: usize = 0;
    while i < head.len()
        invariant
            i <= head.len(),
            out@ == head@.take(i as int),
        decreases head.len() - i,
    {
        out.push(head[i]);
        i += 1;
    }
    out.push(' ');
    out.push('*');
    from_chars(&out)
}

} // verus!
