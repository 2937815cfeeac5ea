//! The rows of the two tables that the gating logic reads: remembered facts
//! and the rules granted by "allow always" decisions.

use vstd::prelude::*;
use crate::pattern::{matches_rule, rule_matches};
use crate::text::{equals_str, from_chars, to_chars};

verus! {

/// Something remembered about the user, unique by category and key.
#[derive(Debug, Clone, PartialEq, Eq)]
pub struct Fact {
    pub category: String,
    pub key: String,
    pub value: String,
}

/// A stored permission: commands that `pattern` matches run without asking.
#[derive(Debug, Clone, PartialEq, Eq)]
pub struct ApprovalRule {
    pub id: i64,
    pub pattern: String,
}

/// The identifier of the first of `rules`, in their order, whose pattern
/// matches `command`.
pub open spec fn first_match(rules: Seq<ApprovalRule>, command: Seq<char>) -> Option<i64>
    decreases rules.len(),
{
    if rules.len() == 0 {
        None
    } else if rule_matches(rules[0].pattern@, command) {
        Some(rules[0].id)
    } else {
        first_match(rules.drop_first(), command)
    }
}

/// No rule before the one that `first_match` finds matches the command, and
/// the one it finds does; where it finds none, no rule matches.
pub proof fn lemma_first_match(rules: Seq<ApprovalRule>, command: Seq<char>)
    ensures
        first_match(rules, command) is None <==> forall|k: int|
            0 <= k < rules.len() ==> !rule_matches(#[trigger] rules[k].pattern@, command),
        first_match(rules, command) is Some ==> exists|k: int|
            0 <= k < rules.len() && rules[k].id == first_match(rules, command)->0 && rule_matches(
                rules[k].pattern@,
                command,
            ) && forall|j: int| 0 <= j < k ==> !rule_matches(#[trigger] rules[j].pattern@, command),
    decreases rules.len(),
{
    if rules.len() == 0 {
    } else if rule_matches(rules[0].pattern@, command) {
    } else {
        let rest = rules.drop_first();
        lemma_first_match(rest, command);
        assert forall|k: int| 0 <= k < rest.len() implies rest[k] == rules[k + 1] by {}
        if first_match(rest, command) is Some {
            let k = choose|k: int|
                0 <= k < rest.len() && rest[k].id == first_match(rest, command)->0 && rule_matches(
                    rest[k].pattern@,
                    command,
                ) && forall|j: int|
                    0 <= j < k ==> !rule_matches(#[trigger] rest[j].pattern@, command);
            assert forall|j: int| 0 <= j < k + 1 implies !rule_matches(
                #[trigger] rules[j].pattern@,
                command,
            ) by {
                if j > 0 {
                    assert(rest[j - 1] == rules[j]);
                }
            }
        } else {
            assert forall|k: int| 0 <= k < rules.len() implies !rule_matches(
                #[trigger] rules[k].pattern@,
                command,
            ) by {
                if k > 0 {
                    assert(rest[k - 1] == rules[k]);
                }
            }
        }
    }
}

/// The rule that lets `command` run without asking: the first of `rules`
/// whose pattern matches it.
pub fn find_matching_rule(rules: &Vec<ApprovalRule>, command: &str) -> (found: Option<i64>)
    ensures
        found == first_match(rules@, command@),
{
    let mut i: usize = 0;
    assert(rules@.skip(0) =~= rules@);
    while i < rules.len()
        invariant
            i <= rules.len(),
            first_match(rules@, command@) == first_match(rules@.skip(i as int), command@),
        decreases rules.len() - i,
    {
        assert(rules@.skip(i as int).drop_first() =~= rules@.skip(i + 1));
        if matches_rule(rules[i].pattern.as_str(), command) {
            return Some(rules[i].id);
        }
        i += 1;
    }
    None
}


/// Whether one of `rules` has the pattern `pattern`.
pub open spec fn has_pattern(rules: Seq<ApprovalRule>, pattern: Seq<char>) -> bool {
    exists|i: int| 0 <= i < rules.len() && rules[i].pattern@ == pattern
}

/// Whether one of `rules` has the identifier `id`.
pub open spec fn has_id(rules: Seq<ApprovalRule>, id: i64) -> bool {
    exists|i: int| 0 <= i < rules.len() && rules[i].id == id
}

/// Whether `rules` are as a store holds them: in the order of their
/// identifiers, which grow, and with no pattern twice.
pub open spec fn well_stored(rules: Seq<ApprovalRule>) -> bool {
    &&& forall|i: int, j: int| 0 <= i < j < rules.len() ==> rules[i].id < rules[j].id
    &&& forall|i: int, j: int| 0 <= i < j < rules.len() ==> rules[i].pattern@ != rules[j].pattern@
}

/// The identifier that the next rule stored after `rules` gets: one more
/// than the last.
pub open spec fn next_id(rules: Seq<ApprovalRule>) -> int {
    if rules.len() == 0 {
        1
    } else {
        rules.last().id + 1
    }
}

/// The stored rules, in the order in which they were stored.
pub struct RuleStore {
    rules: Vec<ApprovalRule>,
}

impl RuleStore {
    /// The rules that the store holds, in their order.
    pub closed spec fn rows(&self) -> Seq<ApprovalRule> {
        self.rules@
    }

    /// Whether the store is in order.
    pub closed spec fn wf(&self) -> bool {
        well_stored(self.rules@)
    }

    /// What holds of the rows of a store that is in order.
    pub proof fn lemma_rows_well_stored(&self)
        requires
            self.wf(),
        ensures
            well_stored(self.rows()),
    {
    }

    /// The store without any rule.
    pub fn new() -> (out: RuleStore)
        ensures
            out.wf(),
            out.rows().len() == 0,
    {
        RuleStore { rules: Vec::new() }
    }

    fn position_of_pattern(&self, pattern: &Vec<char>) -> (found: Option<usize>)
        ensures
            found is Some <==> has_pattern(self.rows(), pattern@),
            found is Some ==> found->0 < self.rows().len() && self.rows()[found->0 as int].pattern@
                == pattern@,
    {
        let mut i: usize = 0;
        while i < self.rules.len()
            invariant
                i <= self.rules.len(),
                forall|j: int| 0 <= j < i ==> self.rules@[j].pattern@ != pattern@,
            decreases self.rules.len() - i,
        {
            if equals_str(pattern, self.rules[i].pattern.as_str()) {
                assert(self.rules@[i as int].pattern@ == pattern@);
                return Some(i);
            }
            i += 1;
        }
        None
    }

    /// Stores the rule `pattern`. A pattern that is stored already is not
    /// stored again; nor is one stored when the identifiers have run out.
    /// Returns the identifier of the rule that was added, if one was.
    pub fn save(&mut self, pattern: &str) -> (added: Option<i64>)
        requires
            old(self).wf(),
        ensures
            final(self).wf(),
            added is None <==> has_pattern(old(self).rows(), pattern@) || next_id(old(self).rows())
                > i64::MAX,
            added is None ==> final(self).rows() == old(self).rows(),
            added is Some ==> has_pattern(final(self).rows(), pattern@),
            added is Some ==> {
                &&& added->0 == next_id(old(self).rows())
                &&& final(self).rows().len() == old(self).rows().len() + 1
                &&& final(self).rows().drop_last() == old(self).rows()
                &&& final(self).rows().last().id == added->0
                &&& final(self).rows().last().pattern@ == pattern@
            },
    {
        let p = to_chars(pattern);
        if self.position_of_pattern(&p).is_some() {
            return None;
        }
        let n = self.rules.len();
        let id: i64 = if n == 0 {
            1
        } else if self.rules[n - 1].id < i64::MAX {
            self.rules[n - 1].id + 1
        } else {
            return None;
        };
        let ghost before = self.rules@;
        self.rules.push(ApprovalRule { id, pattern: from_chars(&p) });
        assert(self.rules@.drop_last() =~= before);
        assert(self.rules@[n as int].pattern@ == pattern@);
        assert(well_stored(self.rules@)) by {
            assert forall|i: int, j: int| 0 <= i < j < self.rules@.len() implies self.rules@[i].id
                < self.rules@[j].id && self.rules@[i].pattern@ != self.rules@[j].pattern@ by {
                assert(self.rules@[i] == before[i]);
                if j < before.len() {
                    assert(self.rules@[j] == before[j]);
                } else if i < before.len() - 1 {
                    assert(before[i].id < before[before.len() - 1].id);
                }
            }
        }
        Some(id)
    }

    /// Puts back the rule `rule`, which was stored before, behind the rules
    /// that the store holds. A rule that does not fit there is left out: one
    /// whose identifier is not above theirs, or whose pattern they have.
    /// Returns whether the rule was put back.
    pub fn restore(&mut self, rule: ApprovalRule) -> (restored: bool)
        requires
            old(self).wf(),
        ensures
            final(self).wf(),
            restored == (!has_pattern(old(self).rows(), rule.pattern@) && (old(self).rows().len()
                == 0 || old(self).rows().last().id < rule.id)),
            restored ==> final(self).rows() == old(self).rows().push(rule),
            !restored ==> final(self).rows() == old(self).rows(),
    {
        let n = self.rules.len();
        if n > 0 && self.rules[n - 1].id >= rule.id {
            return false;
        }
        if self.position_of_pattern(&to_chars(rule.pattern.as_str())).is_some() {
            return false;
        }
        let ghost before = self.rules@;
        self.rules.push(rule);
        assert(well_stored(self.rules@)) by {
            assert forall|i: int, j: int| 0 <= i < j < self.rules@.len() implies self.rules@[i].id
                < self.rules@[j].id && self.rules@[i].pattern@ != self.rules@[j].pattern@ by {
                assert(self.rules@[i] == before[i]);
                if j < before.len() {
                    assert(self.rules@[j] == before[j]);
                } else if i < before.len() - 1 {
                    assert(before[i].id < before[before.len() - 1].id);
                }
            }
        }
        true
    }

    /// The stored rules, in the order in which they were stored.
    pub fn list(&self) -> (out: &Vec<ApprovalRule>)
        ensures
            out@ == self.rows(),
    {
        &self.rules
    }

    /// Takes the rule `id` out of the store. Returns whether it was there.
    pub fn delete(&mut self, id: i64) -> (deleted: bool)
        requires
            old(self).wf(),
        ensures
            final(self).wf(),
            deleted == has_id(old(self).rows(), id),
            !has_id(final(self).rows(), id),
            !deleted ==> final(self).rows() == old(self).rows(),
            deleted ==> exists|k: int|
                0 <= k < old(self).rows().len() && old(self).rows()[k].id == id
                    && final(self).rows() == old(self).rows().remove(k),
    {
        let mut i: usize = 0;
        while i < self.rules.len()
            invariant
                i <= self.rules.len(),
                self.rules@ == old(self).rules@,
                well_stored(self.rules@),
                forall|j: int| 0 <= j < i ==> self.rules@[j].id != id,
            decreases self.rules.len() - i,
        {
            if self.rules[i].id == id {
                let ghost before = self.rules@;
                let _ = self.rules.remove(i);
                proof {
                    let after = self.rules@;
                    assert forall|a: int| 0 <= a < after.len() implies after[a].id != id by {
                        if a >= i {
                            assert(after[a] == before[a + 1]);
                            assert(before[i as int].id < before[a + 1].id);
                        }
                    }
                    let k = i as int;
                    assert(before == old(self).rows());
                    assert(after == self.rows());
                    assert(0 <= k < old(self).rows().len() && old(self).rows()[k].id == id
                        && self.rows() == old(self).rows().remove(k));
                    assert(has_id(before, id));
                    assert(well_stored(after));
                }
                return true;
            }
            i += 1;
        }
        false
    }

    /// The rule that lets `command` run without asking: the first stored
    /// rule whose pattern matches it.
    pub fn find_matching(&self, command: &str) -> (found: Option<i64>)
        ensures
            found == first_match(self.rows(), command@),
    {
        find_matching_rule(&self.rules, command)
    }
}

} // verus!
