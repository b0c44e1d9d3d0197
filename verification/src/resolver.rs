//! From a label to the directory that entries with that label are moved to.
//!
//! The rules are tried in their order and the first whose label matches
//! wins. A label that no rule matches is an error, and one that ends the run.

use crate::config::Classification;
use vstd::prelude::*;
use vstd::string::*;

verus! {

/// Why a label could not be resolved.
#[derive(Debug, Clone, Copy, PartialEq, Eq, Structural)]
pub enum ResolveError {
    /// No rule has the label.
    UnknownLabel,
}

/// The index of the first rule at or after `from` whose label is `label`.
pub open spec fn first_rule(rules: Seq<Classification>, label: Seq<char>, from: int) -> Option<int>
    decreases rules.len() - from,
{
    if from < 0 || from >= rules.len() {
        None
    } else if rules[from].prompt@ == label {
        Some(from)
    } else {
        first_rule(rules, label, from + 1)
    }
}

/// The index of the rule that decides where `label` goes.
pub open spec fn deciding_rule(rules: Seq<Classification>, label: Seq<char>) -> Option<int> {
    first_rule(rules, label, 0)
}

/// `res` is the directory of rule `expected`, or the error where there is
/// none.
pub open spec fn destination_matches(
    res: Result<String, ResolveError>,
    rules: Seq<Classification>,
    expected: Option<int>,
) -> bool {
    match res {
        Ok(dir) => expected is Some && dir@ == rules[expected->0].dir@,
        Err(e) => expected is None && e == ResolveError::UnknownLabel,
    }
}

/// The directory of the first rule whose label is `label`. Fails with
/// `UnknownLabel` exactly when no rule has that label.
pub fn resolve(label: &str, classifications: &Vec<Classification>) -> (res: Result<
    String,
    ResolveError,
>)
    ensures
        destination_matches(res, classifications@, deciding_rule(classifications@, label@)),
{
    let wanted = String::from_str(label);
    let mut i: usize = 0;
    while i < classifications.len()
        invariant
            i <= classifications.len(),
            wanted@ == label@,
            deciding_rule(classifications@, label@) == first_rule(
                classifications@,
                label@,
                i as int,
            ),
        decreases classifications.len() - i,
    {
        if classifications[i].prompt == wanted {
            return Ok(classifications[i].dir.clone());
        }
        i = i + 1;
    }
    Err(ResolveError::UnknownLabel)
}

/// What [`first_rule`] finds is a rule at or after `from` with the label, and
/// no rule between `from` and it has the label; where it finds none, no rule
/// from `from` on has it.
pub proof fn first_rule_is_first(rules: Seq<Classification>, label: Seq<char>, from: int)
    requires
        0 <= from,
    ensures
        match first_rule(rules, label, from) {
            Some(i) => {
                &&& from <= i < rules.len()
                &&& rules[i].prompt@ == label
                &&& forall|j: int| from <= j < i ==> (#[trigger] rules[j]).prompt@ != label
            },
            None => forall|j: int| from <= j < rules.len() ==> (#[trigger] rules[j]).prompt@ != label,
        },
    decreases rules.len() - from,
{
    if from < rules.len() && rules[from].prompt@ != label {
        first_rule_is_first(rules, label, from + 1);
    }
}

/// The first match wins: a label goes to the directory of the earliest rule
/// that has it, whatever rules follow, and is unknown only where no rule has
/// it.
pub proof fn first_match_wins(rules: Seq<Classification>, label: Seq<char>)
    ensures
        match deciding_rule(rules, label) {
            Some(i) => {
                &&& 0 <= i < rules.len()
                &&& rules[i].prompt@ == label
                &&& forall|j: int| 0 <= j < i ==> (#[trigger] rules[j]).prompt@ != label
            },
            None => forall|j: int| 0 <= j < rules.len() ==> (#[trigger] rules[j]).prompt@ != label,
        },
{
    first_rule_is_first(rules, label, 0);
}

} // verus!
