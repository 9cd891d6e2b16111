//! The rule engine: a registry of policy checks and named rule sets, with
//! two evaluation modes. `validate` runs every registered rule; the rule-set
//! mode runs only the rules a named set lists, in declared order. A rule
//! whose evaluation fails contributes one synthetic `Critical` violation and
//! never aborts the evaluation of the remaining rules.

use vstd::prelude::*;

use crate::event::LedgerEvent;
use crate::event::LedgerEventView;
use crate::rules::Rule;
use crate::rules::RuleSeverity;
use crate::rules::ValidationContext;
use crate::rules::Violation;
use crate::rules::ViolationView;
use crate::rules::rule_outcome;
use crate::rules::spec_evaluate;
use crate::rules::spec_rule_id;
use crate::rules::synthetic_violation;
use crate::strutil::str_eq;
use vstd::pervasive::VecAdditionalExecFns;

verus! {

/// The error a validator reports.
#[derive(Clone, Copy, Debug, PartialEq, Eq, Structural)]
pub enum ValidatorError {
    /// The requested rule-set name is not registered.
    RuleSetNotFound,
}

/// A named, ordered grouping of rule identifiers.
#[derive(Debug)]
pub struct RuleSet {
    pub name: String,
    pub rule_ids: Vec<String>,
}

/// A registry of rules keyed by their stable identifiers, and of named rule
/// sets. Registries are explicitly constructed and owned, never process-wide,
/// so independently configured validators can coexist.
#[derive(Debug)]
pub struct ComplianceValidator {
    pub rules: Vec<Rule>,
    pub rule_sets: Vec<RuleSet>,
}

/// No two registered rules share an identifier.
pub open spec fn unique_rule_ids(rules: Seq<Rule>) -> bool {
    forall|i: int, j: int|
        0 <= i < j < rules.len() ==> spec_rule_id(rules[i]) != spec_rule_id(rules[j])
}

/// No two registered rule sets share a name.
pub open spec fn unique_set_names(sets: Seq<RuleSet>) -> bool {
    forall|i: int, j: int| 0 <= i < j < sets.len() ==> sets[i].name@ != sets[j].name@
}

/// The violations aggregated by running every rule of `rules` in order.
pub open spec fn outcomes(rules: Seq<Rule>, e: LedgerEventView) -> Seq<ViolationView>
    decreases rules.len(),
{
    if rules.len() == 0 {
        Seq::empty()
    } else {
        outcomes(rules.drop_last(), e) + rule_outcome(rules.last(), e)
    }
}

/// What one listed rule identifier contributes in rule-set evaluation: the
/// outcome of the registered rule with that identifier, or nothing when the
/// identifier is not registered.
pub open spec fn id_outcome(rules: Seq<Rule>, id: Seq<char>, e: LedgerEventView) -> Seq<
    ViolationView,
> {
    if exists|j: int| 0 <= j < rules.len() && spec_rule_id(rules[j]) == id {
        rule_outcome(
            rules[choose|j: int| 0 <= j < rules.len() && spec_rule_id(rules[j]) == id],
            e,
        )
    } else {
        Seq::empty()
    }
}

/// The violations aggregated by running, in declared order, the rules named
/// by `ids`.
pub open spec fn set_outcomes(rules: Seq<Rule>, ids: Seq<Seq<char>>, e: LedgerEventView) -> Seq<
    ViolationView,
>
    decreases ids.len(),
{
    if ids.len() == 0 {
        Seq::empty()
    } else {
        set_outcomes(rules, ids.drop_last(), e) + id_outcome(rules, ids.last(), e)
    }
}

/// Two registered rules with the same identifier stand at the same index.
pub proof fn lemma_unique_rule_index(rules: Seq<Rule>, i: int, j: int)
    requires
        unique_rule_ids(rules),
        0 <= i < rules.len(),
        0 <= j < rules.len(),
        spec_rule_id(rules[i]) == spec_rule_id(rules[j]),
    ensures
        i == j,
{
    if i < j {
        assert(spec_rule_id(rules[i]) != spec_rule_id(rules[j]));
    } else if j < i {
        assert(spec_rule_id(rules[j]) != spec_rule_id(rules[i]));
    }
}

/// Two rule sets with the same name stand at the same index.
pub proof fn lemma_unique_set_index(sets: Seq<RuleSet>, i: int, j: int)
    requires
        unique_set_names(sets),
        0 <= i < sets.len(),
        0 <= j < sets.len(),
        sets[i].name@ == sets[j].name@,
    ensures
        i == j,
{
    if i < j {
        assert(sets[i].name@ != sets[j].name@);
    } else if j < i {
        assert(sets[j].name@ != sets[i].name@);
    }
}

/// Aggregated evaluation splits at any point: the rules before it
/// contribute their outcomes first, then the rules after it.
pub proof fn lemma_outcomes_split(rules: Seq<Rule>, e: LedgerEventView, k: int)
    requires
        0 <= k <= rules.len(),
    ensures
        outcomes(rules, e) == outcomes(rules.take(k), e) + outcomes(rules.skip(k), e),
    decreases rules.len(),
{
    if k == rules.len() {
        assert(rules.take(k) =~= rules);
        assert(rules.skip(k) =~= Seq::empty());
        assert(outcomes(rules, e) =~= outcomes(rules.take(k), e) + outcomes(rules.skip(k), e));
    } else {
        lemma_outcomes_split(rules.drop_last(), e, k);
        assert(rules.drop_last().take(k) =~= rules.take(k));
        assert(rules.skip(k).drop_last() =~= rules.drop_last().skip(k));
        assert(rules.skip(k).last() == rules.last());
        assert(outcomes(rules, e) =~= outcomes(rules.take(k), e) + outcomes(rules.skip(k), e));
    }
}

/// Failure isolation: when the evaluation of one rule fails with an
/// internal error, the aggregate holds exactly one synthetic `Critical`
/// violation for that rule, between the untouched outcomes of the rules
/// before and after it.
pub proof fn lemma_rule_failure_isolated(rules: Seq<Rule>, e: LedgerEventView, k: int)
    requires
        0 <= k < rules.len(),
        spec_evaluate(rules[k], e) is Err,
    ensures
        outcomes(rules, e) == outcomes(rules.take(k), e) + seq![
            synthetic_violation(spec_rule_id(rules[k]), spec_evaluate(rules[k], e)->Err_0),
        ] + outcomes(rules.skip(k + 1), e),
{
    lemma_outcomes_split(rules, e, k);
    let tail = rules.skip(k);
    assert(tail.len() == rules.len() - k);
    lemma_outcomes_split(tail, e, 1);
    assert(tail.take(1).drop_last() =~= Seq::<Rule>::empty());
    assert(tail.take(1).last() == rules[k]);
    assert(outcomes(Seq::<Rule>::empty(), e) =~= Seq::<ViolationView>::empty());
    assert(outcomes(tail.take(1), e) == outcomes(tail.take(1).drop_last(), e) + rule_outcome(
        tail.take(1).last(),
        e,
    ));
    assert(outcomes(tail.take(1), e) =~= rule_outcome(rules[k], e));
    assert(tail.skip(1) =~= rules.skip(k + 1));
    assert(rule_outcome(rules[k], e) =~= seq![
        synthetic_violation(spec_rule_id(rules[k]), spec_evaluate(rules[k], e)->Err_0),
    ]);
    assert(outcomes(rules, e) =~= outcomes(rules.take(k), e) + seq![
        synthetic_violation(spec_rule_id(rules[k]), spec_evaluate(rules[k], e)->Err_0),
    ] + outcomes(rules.skip(k + 1), e));
}

/// Rule-set evaluation runs the listed identifiers in declared order: each
/// listed identifier appends exactly its own contribution to what the
/// identifiers before it produced.
pub proof fn lemma_rule_set_order(rules: Seq<Rule>, ids: Seq<Seq<char>>, e: LedgerEventView, i: int)
    requires
        0 <= i < ids.len(),
    ensures
        set_outcomes(rules, ids.take(i + 1), e) == set_outcomes(rules, ids.take(i), e)
            + id_outcome(rules, ids[i], e),
{
    assert(ids.take(i + 1).drop_last() =~= ids.take(i));
    assert(ids.take(i + 1).last() == ids[i]);
}

impl ComplianceValidator {
    /// Well-formedness: rule identifiers and rule-set names are unique.
    pub open spec fn wf(&self) -> bool {
        unique_rule_ids(self.rules@) && unique_set_names(self.rule_sets@)
    }

    /// An empty registry.
    pub fn new() -> (r: Self)
        ensures
            r.wf(),
            r.rules@ == Seq::<Rule>::empty(),
            r.rule_sets@ == Seq::<RuleSet>::empty(),
    {
        let r = ComplianceValidator { rules: Vec::new(), rule_sets: Vec::new() };
        proof {
            assert(r.rules@ =~= Seq::<Rule>::empty());
            assert(r.rule_sets@ =~= Seq::<RuleSet>::empty());
        }
        r
    }

    /// The index of the registered rule with this identifier, if any.
    fn find_rule(&self, id: &str) -> (r: Option<usize>)
        ensures
            match r {
                Some(j) => j < self.rules@.len() && spec_rule_id(self.rules@[j as int]) == id@,
                None => forall|j: int|
                    0 <= j < self.rules@.len() ==> spec_rule_id(self.rules@[j]) != id@,
            },
    {
        let mut i: usize = 0;
        while i < self.rules.len()
            invariant
                i <= self.rules@.len(),
                forall|j: int| 0 <= j < i ==> spec_rule_id(self.rules@[j]) != id@,
            decreases self.rules@.len() - i,
        {
            if str_eq(self.rules[i].get_rule_id(), id) {
                return Some(i);
            }
            i += 1;
        }
        None
    }

    /// The index of the rule set with this name, if any.
    fn find_rule_set(&self, name: &str) -> (r: Option<usize>)
        ensures
            match r {
                Some(k) => k < self.rule_sets@.len() && self.rule_sets@[k as int].name@ == name@,
                None => forall|k: int|
                    0 <= k < self.rule_sets@.len() ==> self.rule_sets@[k].name@ != name@,
            },
    {
        let mut i: usize = 0;
        while i < self.rule_sets.len()
            invariant
                i <= self.rule_sets@.len(),
                forall|k: int| 0 <= k < i ==> self.rule_sets@[k].name@ != name@,
            decreases self.rule_sets@.len() - i,
        {
            if str_eq(self.rule_sets[i].name.as_str(), name) {
                return Some(i);
            }
            i += 1;
        }
        None
    }

    /// Registers a rule under its stable identifier; registering a second
    /// rule with an identifier already present replaces the prior rule.
    pub fn add_rule(&mut self, rule: Rule)
        requires
            old(self).wf(),
        ensures
            final(self).wf(),
            final(self).rule_sets@ == old(self).rule_sets@,
            forall|i: int|
                0 <= i < old(self).rules@.len() && spec_rule_id(old(self).rules@[i])
                    == spec_rule_id(rule) ==> final(self).rules@ == old(self).rules@.update(
                    i,
                    rule,
                ),
            (forall|i: int|
                0 <= i < old(self).rules@.len() ==> spec_rule_id(old(self).rules@[i])
                    != spec_rule_id(rule)) ==> final(self).rules@ == old(self).rules@.push(rule),
    {
        let found = self.find_rule(rule.get_rule_id());
        match found {
            Some(i) => {
                proof {
                    let ghost rules = self.rules@;
                    assert forall|j: int|
                        0 <= j < rules.len() && spec_rule_id(rules[j]) == spec_rule_id(
                            rule,
                        ) implies rules.update(i as int, rule) == rules.update(j, rule) by {
                        lemma_unique_rule_index(rules, i as int, j);
                    }
                }
                self.rules.set(i, rule);
            },
            None => {
                self.rules.push(rule);
            },
        }
    }

    /// Registers (or replaces) a named, ordered rule set.
    pub fn create_rule_set(&mut self, name: &str, rule_ids: Vec<&str>)
        requires
            old(self).wf(),
        ensures
            final(self).wf(),
            final(self).rules@ == old(self).rules@,
            forall|k: int|
                0 <= k < old(self).rule_sets@.len() && old(self).rule_sets@[k].name@ == name@
                    ==> {
                    &&& final(self).rule_sets@.len() == old(self).rule_sets@.len()
                    &&& final(self).rule_sets@[k].name@ == name@
                    &&& final(self).rule_sets@[k].rule_ids.deep_view() == rule_ids.deep_view()
                    &&& forall|j: int|
                        0 <= j < final(self).rule_sets@.len() && j != k ==> final(self).rule_sets@[j]
                            == old(self).rule_sets@[j]
                },
            (forall|k: int|
                0 <= k < old(self).rule_sets@.len() ==> old(self).rule_sets@[k].name@ != name@)
                ==> {
                &&& final(self).rule_sets@.len() == old(self).rule_sets@.len() + 1
                &&& final(self).rule_sets@.take(old(self).rule_sets@.len() as int) == old(
                    self,
                ).rule_sets@
                &&& final(self).rule_sets@.last().name@ == name@
                &&& final(self).rule_sets@.last().rule_ids.deep_view() == rule_ids.deep_view()
            },
    {
        let mut owned: Vec<String> = Vec::new();
        let mut i: usize = 0;
        while i < rule_ids.len()
            invariant
                i <= rule_ids.len(),
                owned@.len() == i,
                forall|j: int| 0 <= j < i ==> owned@[j]@ == rule_ids@[j]@,
            decreases rule_ids.len() - i,
        {
            owned.push(rule_ids[i].to_owned());
            i += 1;
        }
        let set = RuleSet { name: name.to_owned(), rule_ids: owned };
        proof {
            assert(set.rule_ids.deep_view() =~= rule_ids.deep_view());
        }
        let found = self.find_rule_set(name);
        match found {
            Some(k) => {
                proof {
                    let ghost sets = self.rule_sets@;
                    assert forall|j: int|
                        0 <= j < sets.len() && sets[j].name@ == name@ implies j == k as int by {
                        lemma_unique_set_index(sets, k as int, j);
                    }
                }
                self.rule_sets.set(k, set);
            },
            None => {
                self.rule_sets.push(set);
            },
        }
    }

    /// Runs every registered rule, in registration order, against the event
    /// and aggregates all violations. A rule whose evaluation fails
    /// contributes one synthetic `Critical` violation in its place; the
    /// remaining rules still run.
    pub fn validate(&self, event: &LedgerEvent) -> (r: Vec<Violation>)
        ensures
            r.deep_view() == outcomes(self.rules@, event.deep_view()),
    {
        let context = ValidationContext::new();
        let mut violations: Vec<Violation> = Vec::new();
        proof {
            assert(self.rules@.take(0) =~= Seq::<Rule>::empty());
            assert(violations.deep_view() =~= outcomes(self.rules@.take(0), event.deep_view()));
        }
        let mut i: usize = 0;
        while i < self.rules.len()
            invariant
                i <= self.rules@.len(),
                violations.deep_view() == outcomes(self.rules@.take(i as int), event.deep_view()),
            decreases self.rules@.len() - i,
        {
            let ghost pre = violations.deep_view();
            let rule = &self.rules[i];
            match rule.evaluate(event, &context) {
                Ok(mut vs) => {
                    let ghost contributed = vs.deep_view();
                    violations.append(&mut vs);
                    proof {
                        assert(violations.deep_view() =~= pre + contributed);
                    }
                },
                Err(msg) => {
                    let rule_id = rule.get_rule_id().to_owned();
                    let evidence = msg.clone();
                    violations.push(
                        Violation {
                            rule_id,
                            severity: RuleSeverity::Critical,
                            message: msg,
                            evidence,
                        },
                    );
                    proof {
                        assert(violations.deep_view() =~= pre + seq![
                            synthetic_violation(
                                spec_rule_id(self.rules@[i as int]),
                                spec_evaluate(self.rules@[i as int], event.deep_view())->Err_0,
                            ),
                        ]);
                    }
                },
            }
            proof {
                assert(self.rules@.take(i + 1).drop_last() =~= self.rules@.take(i as int));
                assert(self.rules@.take(i + 1).last() == self.rules@[i as int]);
                assert(violations.deep_view() =~= outcomes(
                    self.rules@.take(i + 1),
                    event.deep_view(),
                ));
            }
            i += 1;
        }
        proof {
            assert(self.rules@.take(self.rules@.len() as int) =~= self.rules@);
        }
        violations
    }

    /// Runs only the rules named by the given rule set, in declared order,
    /// against the event. Fails with [`ValidatorError::RuleSetNotFound`]
    /// exactly when no set of that name is registered; listed identifiers
    /// with no registered rule contribute nothing.
    pub fn validate_with_rule_set(&self, event: &LedgerEvent, rule_set_name: &str) -> (r: Result<
        Vec<Violation>,
        ValidatorError,
    >)
        requires
            self.wf(),
        ensures
            r is Err <==> (forall|k: int|
                0 <= k < self.rule_sets@.len() ==> self.rule_sets@[k].name@ != rule_set_name@),
            r matches Err(e) ==> e == ValidatorError::RuleSetNotFound,
            r matches Ok(vs) ==> forall|k: int|
                0 <= k < self.rule_sets@.len() && self.rule_sets@[k].name@ == rule_set_name@
                    ==> vs.deep_view() == set_outcomes(
                    self.rules@,
                    #[trigger] self.rule_sets@[k].rule_ids.deep_view(),
                    event.deep_view(),
                ),
    {
        let found = self.find_rule_set(rule_set_name);
        let k = match found {
            None => {
                return Err(ValidatorError::RuleSetNotFound);
            },
            Some(k) => k,
        };
        let context = ValidationContext::new();
        let set = &self.rule_sets[k];
        let ghost ids = set.rule_ids.deep_view();
        let mut violations: Vec<Violation> = Vec::new();
        proof {
            assert(ids.take(0) =~= Seq::<Seq<char>>::empty());
            assert(violations.deep_view() =~= set_outcomes(
                self.rules@,
                ids.take(0),
                event.deep_view(),
            ));
        }
        let mut j: usize = 0;
        while j < set.rule_ids.len()
            invariant
                j <= set.rule_ids@.len(),
                ids == set.rule_ids.deep_view(),
                violations.deep_view() == set_outcomes(
                    self.rules@,
                    ids.take(j as int),
                    event.deep_view(),
                ),
                self.wf(),
            decreases set.rule_ids@.len() - j,
        {
            let ghost pre = violations.deep_view();
            let rule_id = &set.rule_ids[j];
            match self.find_rule(rule_id.as_str()) {
                Some(ri) => {
                    let rule = &self.rules[ri];
                    proof {
                        let w = choose|w: int|
                            0 <= w < self.rules@.len() && spec_rule_id(self.rules@[w]) == ids[
                                j as int
                            ];
                        lemma_unique_rule_index(self.rules@, w, ri as int);
                        assert(id_outcome(self.rules@, ids[j as int], event.deep_view())
                            == rule_outcome(self.rules@[ri as int], event.deep_view()));
                    }
                    match rule.evaluate(event, &context) {
                        Ok(mut vs) => {
                            let ghost contributed = vs.deep_view();
                            violations.append(&mut vs);
                            proof {
                                assert(violations.deep_view() =~= pre + contributed);
                            }
                        },
                        Err(msg) => {
                            let listed = rule_id.clone();
                            let evidence = msg.clone();
                            violations.push(
                                Violation {
                                    rule_id: listed,
                                    severity: RuleSeverity::Critical,
                                    message: msg,
                                    evidence,
                                },
                            );
                            proof {
                                assert(violations.deep_view() =~= pre + seq![
                                    synthetic_violation(
                                        spec_rule_id(self.rules@[ri as int]),
                                        spec_evaluate(
                                            self.rules@[ri as int],
                                            event.deep_view(),
                                        )->Err_0,
                                    ),
                                ]);
                            }
                        },
                    }
                },
                None => {
                    proof {
                        assert(id_outcome(self.rules@, ids[j as int], event.deep_view())
                            =~= Seq::<ViolationView>::empty());
                        assert(violations.deep_view() =~= pre + Seq::<ViolationView>::empty());
                    }
                },
            }
            proof {
                assert(ids.take(j + 1).drop_last() =~= ids.take(j as int));
                assert(ids.take(j + 1).last() == ids[j as int]);
                assert(violations.deep_view() =~= set_outcomes(
                    self.rules@,
                    ids.take(j + 1),
                    event.deep_view(),
                ));
            }
            j += 1;
        }
        proof {
            assert(ids.take(set.rule_ids@.len() as int) =~= ids);
            assert forall|k2: int|
                0 <= k2 < self.rule_sets@.len() && self.rule_sets@[k2].name@ == rule_set_name@
                    implies violations.deep_view() == set_outcomes(
                    self.rules@,
                    #[trigger] self.rule_sets@[k2].rule_ids.deep_view(),
                    event.deep_view(),
                ) by {
                lemma_unique_set_index(self.rule_sets@, k as int, k2);
            }
        }
        Ok(violations)
    }
}

} // verus!
