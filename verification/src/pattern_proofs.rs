//! What holds of rule matching on every pattern and command.

use vstd::prelude::*;
use crate::pattern::{
    is_single, is_space, lemma_word_len_bound, pattern_for, rule_matches, segment_matches,
    segments, star, tokens, word_len,
};

verus! {

/// A command without a separator is its own single sub-command, and a
/// pattern matches it exactly when it matches that sub-command.
pub proof fn lemma_single_segments(c: Seq<char>)
    requires
        is_single(c),
    ensures
        segments(c) == seq![c],
        forall|p: Seq<char>| rule_matches(p, c) <==> #[trigger] segment_matches(p, c),
{
    assert(segments(c)[0] == c);
}

/// A pattern that ends in a wildcard matches every command without a
/// separator that has a token for each token of the pattern before that
/// wildcard, the same one wherever the pattern's token is no wildcard itself,
/// whatever follows them.
pub proof fn lemma_trailing_wildcard_matches(p: Seq<char>, c: Seq<char>)
    requires
        is_single(c),
        tokens(p).len() > 0,
        tokens(p).last() == star(),
        tokens(c).len() >= tokens(p).len() - 1,
        forall|i: int|
            0 <= i < tokens(p).len() - 1 ==> tokens(p)[i] == star() || tokens(c)[i] == tokens(
                p,
            )[i],
    ensures
        rule_matches(p, c),
{
    lemma_single_segments(c);
}

/// A pattern that does not end in a wildcard matches a command without a
/// separator exactly when both have the same number of tokens and each
/// token of the pattern is a wildcard or the command's token at its place.
/// Without any wildcard that is: when their tokens are the same.
pub proof fn lemma_exact_match(p: Seq<char>, c: Seq<char>)
    requires
        is_single(c),
        tokens(p).len() == 0 || tokens(p).last() != star(),
    ensures
        rule_matches(p, c) <==> {
            &&& tokens(c).len() == tokens(p).len()
            &&& forall|i: int|
                0 <= i < tokens(p).len() ==> tokens(p)[i] == star() || tokens(p)[i] == tokens(
                    c,
                )[i]
        },
        (forall|i: int| 0 <= i < tokens(p).len() ==> tokens(p)[i] != star()) ==> (rule_matches(
            p,
            c,
        ) <==> tokens(p) == tokens(c)),
{
    lemma_single_segments(c);
    assert(rule_matches(p, c) <==> segment_matches(p, c));
    if forall|i: int| 0 <= i < tokens(p).len() ==> tokens(p)[i] != star() {
        if rule_matches(p, c) {
            assert(tokens(p) =~= tokens(c));
        }
    }
}

/// The first token of a text is not empty and holds no white space.
pub proof fn lemma_first_token(s: Seq<char>)
    requires
        tokens(s).len() > 0,
    ensures
        tokens(s)[0].len() > 0,
        forall|i: int| 0 <= i < tokens(s)[0].len() ==> !is_space(#[trigger] tokens(s)[0][i]),
    decreases s.len(),
{
    if s.len() > 0 && is_space(s[0]) {
        lemma_first_token(s.drop_first());
    } else {
        lemma_word_len_bound(s);
    }
}

/// A word before white space, or before the end, is the first token.
pub proof fn lemma_tokens_after_word(w: Seq<char>, rest: Seq<char>)
    requires
        w.len() > 0,
        forall|i: int| 0 <= i < w.len() ==> !is_space(#[trigger] w[i]),
        rest.len() == 0 || is_space(rest[0]),
    ensures
        tokens(w + rest) == seq![w] + tokens(rest),
{
    lemma_word_len_concat(w, rest);
    let s = w + rest;
    assert(s.take(w.len() as int) =~= w);
    assert(s.skip(w.len() as int) =~= rest);
}

proof fn lemma_word_len_concat(w: Seq<char>, rest: Seq<char>)
    requires
        forall|i: int| 0 <= i < w.len() ==> !is_space(#[trigger] w[i]),
        rest.len() == 0 || is_space(rest[0]),
    ensures
        word_len(w + rest) == w.len(),
    decreases w.len(),
{
    let s = w + rest;
    if w.len() > 0 {
        assert(s.drop_first() =~= w.drop_first() + rest);
        assert forall|i: int| 0 <= i < w.drop_first().len() implies !is_space(
            #[trigger] w.drop_first()[i],
        ) by {
            assert(w.drop_first()[i] == w[i + 1]);
        }
        lemma_word_len_concat(w.drop_first(), rest);
    }
}

/// Text without a token adds none to what follows it.
pub proof fn lemma_tokens_after_blank(s: Seq<char>, rest: Seq<char>)
    requires
        tokens(s).len() == 0,
    ensures
        tokens(s + rest) == tokens(rest),
    decreases s.len(),
{
    if s.len() == 0 {
        assert(s + rest =~= rest);
    } else if is_space(s[0]) {
        assert((s + rest).drop_first() =~= s.drop_first() + rest);
        lemma_tokens_after_blank(s.drop_first(), rest);
    } else {
        lemma_word_len_bound(s);
    }
}

/// The tokens of a blank and a wildcard: the wildcard alone.
pub proof fn lemma_tokens_of_wildcard_suffix()
    ensures
        tokens(seq![' ', '*']) == seq![star()],
{
    let s = seq![' ', '*'];
    assert(s.drop_first() =~= star());
    assert(star().drop_first() =~= Seq::<char>::empty());
    assert(word_len(star().drop_first()) == 0);
    assert(star().take(1) =~= star());
    assert(tokens(Seq::<char>::empty()) =~= Seq::<Seq<char>>::empty());
    assert(tokens(star()) =~= seq![star()]);
}

/// The rule generated from a command has the command's first token and a
/// wildcard as its tokens, or the wildcard alone where the command has no
/// token.
pub proof fn lemma_generated_pattern_tokens(c: Seq<char>)
    ensures
        tokens(pattern_for(c)) == if tokens(c).len() > 0 {
            seq![tokens(c)[0], star()]
        } else {
            seq![star()]
        },
{
    let tail = seq![' ', '*'];
    lemma_tokens_of_wildcard_suffix();
    if tokens(c).len() > 0 {
        lemma_first_token(c);
        lemma_tokens_after_word(tokens(c)[0], tail);
    } else {
        lemma_tokens_after_blank(c, tail);
    }
}

/// The rule generated from a text matches that text, taken as one
/// sub-command.
pub proof fn lemma_generated_pattern_matches_segment(c: Seq<char>)
    ensures
        segment_matches(pattern_for(c), c),
{
    lemma_generated_pattern_tokens(c);
}

/// The rule generated from a command without a separator matches that
/// command.
pub proof fn lemma_generated_pattern_matches(c: Seq<char>)
    requires
        is_single(c),
    ensures
        rule_matches(pattern_for(c), c),
{
    lemma_single_segments(c);
    lemma_generated_pattern_matches_segment(c);
}

/// When the rule generated from a command matches that command: always
/// where the command has no token; otherwise exactly when every sub-command
/// begins with a token, and with the command's first token unless that is a
/// wildcard itself.
pub proof fn lemma_generated_pattern_matches_iff(c: Seq<char>)
    ensures
        rule_matches(pattern_for(c), c) <==> (tokens(c).len() == 0 || forall|i: int|
            0 <= i < segments(c).len() ==> tokens(#[trigger] segments(c)[i]).len() > 0 && (tokens(
                c,
            )[0] == star() || tokens(segments(c)[i])[0] == tokens(c)[0])),
{
    lemma_generated_pattern_tokens(c);
    let p = pattern_for(c);
    assert forall|seg: Seq<char>|
        #[trigger] segment_matches(p, seg) <==> (tokens(c).len() == 0 || (tokens(seg).len() > 0
            && (tokens(c)[0] == star() || tokens(seg)[0] == tokens(c)[0]))) by {
        if tokens(c).len() > 0 {
            assert(tokens(p).last() == star());
            assert(tokens(p)[0] == tokens(c)[0]);
        } else {
            assert(tokens(p).last() == star());
        }
    }
}

} // verus!
