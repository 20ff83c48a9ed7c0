//! The action sets of a configuration, by authority pattern, and the lookup
//! of the sets under the most specific pattern that matches a request's
//! authority.

use crate::authority::{
    chars_of, is_wildcard, lemma_exact_pattern_wins, lemma_no_ties, matches_authority,
    pattern_matches, pattern_specificity, specificity,
};
use crate::runtime_action_set::RuntimeActionSet;
use std::rc::Rc;
use vstd::prelude::*;

verus! {

/// The action sets configured under one pattern.
#[derive(Debug)]
struct IndexEntry {
    pattern: String,
    chars: Vec<char>,
    action_sets: Vec<Rc<RuntimeActionSet>>,
}

/// Whether the pattern at `at` matches the authority and no pattern that
/// matches it is more specific.
pub open spec fn is_longest_match(patterns: Seq<Seq<char>>, authority: Seq<char>, at: int) -> bool {
    &&& 0 <= at < patterns.len()
    &&& pattern_matches(patterns[at], authority)
    &&& forall|j: int|
        0 <= j < patterns.len() && pattern_matches(#[trigger] patterns[j], authority)
            ==> specificity(patterns[j]) <= specificity(patterns[at])
}

/// Whether some pattern matches the authority.
pub open spec fn some_match(patterns: Seq<Seq<char>>, authority: Seq<char>) -> bool {
    exists|j: int| 0 <= j < patterns.len() && pattern_matches(#[trigger] patterns[j], authority)
}

/// The position of the most specific pattern that matches the authority.
pub open spec fn longest_match(patterns: Seq<Seq<char>>, authority: Seq<char>) -> Option<int> {
    if exists|at: int| is_longest_match(patterns, authority, at) {
        Some(choose|at: int| is_longest_match(patterns, authority, at))
    } else {
        None
    }
}

/// The position of `pattern` among the patterns, if it is one of them.
pub open spec fn position_of(patterns: Seq<Seq<char>>, pattern: Seq<char>) -> Option<int> {
    if exists|at: int| 0 <= at < patterns.len() && #[trigger] patterns[at] == pattern {
        Some(choose|at: int| 0 <= at < patterns.len() && #[trigger] patterns[at] == pattern)
    } else {
        None
    }
}

/// No pattern occurs twice.
pub open spec fn unique_patterns(patterns: Seq<Seq<char>>) -> bool {
    forall|i: int, j: int|
        0 <= i < j < patterns.len() ==> #[trigger] patterns[i] != #[trigger] patterns[j]
}

/// Among patterns that occur once each, at most one is the longest match.
pub proof fn lemma_longest_match_unique(
    patterns: Seq<Seq<char>>,
    authority: Seq<char>,
    first: int,
    second: int,
)
    requires
        unique_patterns(patterns),
        is_longest_match(patterns, authority, first),
        is_longest_match(patterns, authority, second),
    ensures
        first == second,
{
    if first != second {
        if first < second {
            assert(patterns[first] != patterns[second]);
        } else {
            assert(patterns[second] != patterns[first]);
        }
        lemma_no_ties(patterns[first], patterns[second], authority);
    }
}

/// Where no pattern matches the authority there is no longest match, and
/// where one matches there is one.
pub proof fn lemma_longest_match_exists(patterns: Seq<Seq<char>>, authority: Seq<char>)
    ensures
        longest_match(patterns, authority) is Some <==> some_match(patterns, authority),
        longest_match(patterns, authority) matches Some(at) ==> is_longest_match(
            patterns,
            authority,
            at,
        ),
    decreases patterns.len(),
{
    if some_match(patterns, authority) {
        let at = lemma_best_of_prefix(patterns, authority, patterns.len() as int);
        assert(is_longest_match(patterns, authority, at));
    } else {
        assert forall|at: int| !is_longest_match(patterns, authority, at) by {
            if is_longest_match(patterns, authority, at) {
                assert(pattern_matches(patterns[at], authority));
            }
        }
    }
}

/// A most specific match among the first `upto` patterns, where one of them
/// matches.
proof fn lemma_best_of_prefix(patterns: Seq<Seq<char>>, authority: Seq<char>, upto: int) -> (at:
    int)
    requires
        0 <= upto <= patterns.len(),
        exists|j: int| 0 <= j < upto && pattern_matches(#[trigger] patterns[j], authority),
    ensures
        0 <= at < upto,
        pattern_matches(patterns[at], authority),
        forall|j: int|
            0 <= j < upto && pattern_matches(#[trigger] patterns[j], authority) ==> specificity(
                patterns[j],
            ) <= specificity(patterns[at]),
    decreases upto,
{
    let last = upto - 1;
    if exists|j: int| 0 <= j < last && pattern_matches(#[trigger] patterns[j], authority) {
        let before = lemma_best_of_prefix(patterns, authority, last);
        if pattern_matches(patterns[last], authority) && specificity(patterns[last]) > specificity(
            patterns[before],
        ) {
            last
        } else {
            before
        }
    } else {
        let witness = choose|j: int|
            0 <= j < upto && pattern_matches(#[trigger] patterns[j], authority);
        assert(witness == last);
        last
    }
}

/// The action sets of a configuration, by authority pattern.
#[derive(Debug)]
pub struct ActionSetIndex {
    entries: Vec<IndexEntry>,
}

impl ActionSetIndex {
    /// The patterns of the index, in the order in which they came.
    pub closed spec fn patterns(&self) -> Seq<Seq<char>> {
        Seq::new(self.entries.len() as nat, |i: int| self.entries[i].pattern@)
    }

    /// The action sets under the pattern at `at`, in the order in which they
    /// came.
    pub closed spec fn action_sets(&self, at: int) -> Seq<Rc<RuntimeActionSet>> {
        self.entries[at].action_sets@
    }

    /// No pattern occurs twice, and every pattern has at least one set.
    pub closed spec fn wf(&self) -> bool {
        &&& unique_patterns(self.patterns())
        &&& forall|i: int|
            0 <= i < self.entries.len() ==> (#[trigger] self.entries[i]).chars@
                == self.entries[i].pattern@ && self.entries[i].action_sets.len() > 0
    }

    /// The action sets that a request with the given authority selects from:
    /// those under the most specific pattern that matches it.
    pub open spec fn selected(&self, authority: Seq<char>) -> Option<Seq<Rc<RuntimeActionSet>>> {
        match longest_match(self.patterns(), authority) {
            Some(at) => Some(self.action_sets(at)),
            None => None,
        }
    }

    /// Every pattern of a well-formed index occurs once and has sets.
    pub proof fn lemma_wf(&self)
        requires
            self.wf(),
        ensures
            unique_patterns(self.patterns()),
            forall|i: int|
                0 <= i < self.patterns().len() ==> #[trigger] self.action_sets(i).len() > 0,
    {
        assert forall|i: int| 0 <= i < self.patterns().len() implies #[trigger] self.action_sets(
            i,
        ).len() > 0 by {
            assert(self.entries[i].action_sets.len() > 0);
        }
    }

    /// Where the authority itself is one of the patterns, its action sets
    /// are the ones selected, whatever wildcards match the authority too.
    pub proof fn lemma_exact_pattern_is_selected(&self, at: int, authority: Seq<char>)
        requires
            self.wf(),
            0 <= at < self.patterns().len(),
            self.patterns()[at] == authority,
            !is_wildcard(authority),
        ensures
            self.selected(authority) == Some(self.action_sets(at)),
    {
        let patterns = self.patterns();
        assert forall|j: int|
            0 <= j < patterns.len() && pattern_matches(
                #[trigger] patterns[j],
                authority,
            ) implies specificity(patterns[j]) <= specificity(patterns[at]) by {
            if patterns[j] != authority {
                lemma_exact_pattern_wins(authority, patterns[j]);
            }
        }
        assert(is_longest_match(patterns, authority, at));
        lemma_longest_match_exists(patterns, authority);
        lemma_longest_match_unique(patterns, authority, at, longest_match(patterns, authority)->0);
    }

    /// An index without patterns.
    pub fn new() -> (index: Self)
        ensures
            index.wf(),
            index.patterns() == Seq::<Seq<char>>::empty(),
    {
        let index = ActionSetIndex { entries: Vec::new() };
        assert(index.patterns() =~= Seq::empty());
        index
    }

    /// The position of `pattern` among the patterns.
    fn position(&self, pattern: &String) -> (found: Option<usize>)
        ensures
            match found {
                Some(at) => at < self.patterns().len() && self.patterns()[at as int] == pattern@,
                None => forall|j: int|
                    0 <= j < self.patterns().len() ==> self.patterns()[j] != pattern@,
            },
    {
        let mut i: usize = 0;
        while i < self.entries.len()
            invariant
                i <= self.entries.len(),
                forall|j: int| 0 <= j < i ==> self.patterns()[j] != pattern@,
            decreases self.entries.len() - i,
        {
            if self.entries[i].pattern == *pattern {
                return Some(i);
            }
            i += 1;
        }
        None
    }

    /// Puts `action_set` under `pattern`, after the sets that the pattern
    /// has already.
    pub fn insert(&mut self, pattern: &str, action_set: Rc<RuntimeActionSet>)
        requires
            old(self).wf(),
        ensures
            final(self).wf(),
            match position_of(old(self).patterns(), pattern@) {
                Some(at) => {
                    &&& final(self).patterns() == old(self).patterns()
                    &&& final(self).action_sets(at) == old(self).action_sets(at).push(action_set)
                    &&& forall|i: int|
                        0 <= i < old(self).patterns().len() && i != at
                            ==> final(self).action_sets(i) == old(self).action_sets(i)
                },
                None => {
                    &&& final(self).patterns() == old(self).patterns().push(pattern@)
                    &&& final(self).action_sets(old(self).patterns().len() as int)
                        == seq![action_set]
                    &&& forall|i: int|
                        0 <= i < old(self).patterns().len()
                            ==> final(self).action_sets(i) == old(self).action_sets(i)
                },
            },
    {
        let ghost before = *self;
        let owned = pattern.to_owned();
        match self.position(&owned) {
            Some(at) => {
                proof {
                    let chosen = position_of(before.patterns(), pattern@)->0;
                    assert(before.patterns()[at as int] == pattern@);
                    if chosen != at as int {
                        if chosen < at {
                            assert(before.patterns()[chosen] != before.patterns()[at as int]);
                        } else {
                            assert(before.patterns()[at as int] != before.patterns()[chosen]);
                        }
                    }
                }
                let mut entry = self.entries.remove(at);
                entry.action_sets.push(action_set);
                self.entries.insert(at, entry);
                assert(self.patterns() =~= before.patterns());
                assert forall|i: int| 0 <= i < self.entries.len() implies (
                #[trigger] self.entries[i]).chars@ == self.entries[i].pattern@
                    && self.entries[i].action_sets.len() > 0 by {
                    if i != at {
                        assert(self.entries[i] == before.entries[i]);
                    }
                }
                assert forall|i: int|
                    0 <= i < before.patterns().len() && i != at implies self.action_sets(i)
                    == before.action_sets(i) by {
                    assert(self.entries[i] == before.entries[i]);
                }
            },
            None => {
                let chars = chars_of(pattern);
                let mut action_sets: Vec<Rc<RuntimeActionSet>> = Vec::new();
                action_sets.push(action_set);
                self.entries.push(IndexEntry { pattern: owned, chars, action_sets });
                assert(self.patterns() =~= before.patterns().push(pattern@));
                assert forall|i: int| 0 <= i < before.patterns().len() implies self.action_sets(i)
                    == before.action_sets(i) by {
                    assert(self.entries[i] == before.entries[i]);
                }
                assert forall|i: int| 0 <= i < self.entries.len() implies (
                #[trigger] self.entries[i]).chars@ == self.entries[i].pattern@
                    && self.entries[i].action_sets.len() > 0 by {
                    if i < before.entries.len() {
                        assert(self.entries[i] == before.entries[i]);
                    }
                }
                assert(unique_patterns(self.patterns())) by {
                    assert forall|i: int, j: int| 0 <= i < j < self.patterns().len() implies 
                        #[trigger] self.patterns()[i] != #[trigger] self.patterns()[j] by {
                        if j < before.patterns().len() {
                            assert(before.patterns()[i] != before.patterns()[j]);
                        } else {
                            assert(before.patterns()[i] != pattern@);
                        }
                    }
                }
                assert(self.action_sets(before.patterns().len() as int) =~= seq![action_set]);
            },
        }
    }

    /// The action sets under the most specific pattern that matches
    /// `authority`; `None` where no pattern matches.
    pub fn get_longest_match_action_sets(&self, authority: &str) -> (action_sets: Option<
        &Vec<Rc<RuntimeActionSet>>,
    >)
        requires
            self.wf(),
        ensures
            match action_sets {
                Some(sets) => self.selected(authority@) == Some(sets@) && sets.len() > 0,
                None => self.selected(authority@) is None,
            },
            action_sets is Some <==> some_match(self.patterns(), authority@),
    {
        let chars = chars_of(authority);
        let mut best: Option<(usize, u128)> = None;
        let mut i: usize = 0;
        while i < self.entries.len()
            invariant
                i <= self.entries.len(),
                self.wf(),
                chars@ == authority@,
                match best {
                    Some((at, rank)) => {
                        &&& at < i
                        &&& rank == specificity(self.patterns()[at as int])
                        &&& pattern_matches(self.patterns()[at as int], authority@)
                        &&& forall|j: int|
                            0 <= j < i && pattern_matches(#[trigger] self.patterns()[j], authority@)
                                ==> specificity(self.patterns()[j]) <= rank
                    },
                    None => forall|j: int|
                        0 <= j < i ==> !pattern_matches(#[trigger] self.patterns()[j], authority@),
                },
            decreases self.entries.len() - i,
        {
            let entry = &self.entries[i];
            assert(entry.chars@ == self.patterns()[i as int]);
            if matches_authority(&entry.chars, &chars) {
                let rank = pattern_specificity(&entry.chars);
                let better = match best {
                    Some((_, top)) => rank > top,
                    None => true,
                };
                if better {
                    best = Some((i, rank));
                }
            }
            i += 1;
        }
        proof {
            lemma_longest_match_exists(self.patterns(), authority@);
        }
        match best {
            Some((at, _)) => {
                proof {
                    assert(is_longest_match(self.patterns(), authority@, at as int));
                    let chosen = longest_match(self.patterns(), authority@)->0;
                    lemma_longest_match_unique(self.patterns(), authority@, at as int, chosen);
                }
                Some(&self.entries[at].action_sets)
            },
            None => {
                assert(!some_match(self.patterns(), authority@));
                None
            },
        }
    }
}

} // verus!
