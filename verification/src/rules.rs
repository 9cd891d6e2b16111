//! The policy checks a validator can register: each rule inspects one event
//! and emits zero or more violations, carries a stable identifier and a
//! declared severity, and may fail with an internal error instead of
//! returning findings. Rules are a closed set of variants dispatched by an
//! exhaustive match, so every evaluation has an exact specification.

use vstd::prelude::*;

verus! {

/// Severity of a violation, totally ordered by [`severity_rank`]:
/// `Warning < Error < Critical`.
#[derive(Clone, Copy, Debug, PartialEq, Eq, Structural)]
pub enum RuleSeverity {
    Warning,
    Error,
    Critical,
}

/// The rank that orders severities.
pub open spec fn severity_rank(s: RuleSeverity) -> int {
    match s {
        RuleSeverity::Warning => 0,
        RuleSeverity::Error => 1,
        RuleSeverity::Critical => 2,
    }
}

/// Decides the total order on severities: whether `a` is at least as severe
/// as `b`.
pub fn severity_at_least(a: RuleSeverity, b: RuleSeverity) -> (r: bool)
    ensures
        r == (severity_rank(a) >= severity_rank(b)),
{
    let ra: u8 = match a {
        RuleSeverity::Warning => 0,
        RuleSeverity::Error => 1,
        RuleSeverity::Critical => 2,
    };
    let rb: u8 = match b {
        RuleSeverity::Warning => 0,
        RuleSeverity::Error => 1,
        RuleSeverity::Critical => 2,
    };
    ra >= rb
}

/// An immutable finding produced by one rule evaluation against one event.
/// Violations cause no side effects themselves; whether they block admission
/// is decided against a severity threshold by the ledger core.
#[derive(Debug)]
pub struct Violation {
    pub rule_id: String,
    pub severity: RuleSeverity,
    pub message: String,
    pub evidence: String,
}

/// Mathematical content of a [`Violation`].
pub struct ViolationView {
    pub rule_id: Seq<char>,
    pub severity: RuleSeverity,
    pub message: Seq<char>,
    pub evidence: Seq<char>,
}

impl DeepView for Violation {
    type V = ViolationView;

    open spec fn deep_view(&self) -> ViolationView {
        ViolationView {
            rule_id: self.rule_id@,
            severity: self.severity,
            message: self.message@,
            evidence: self.evidence@,
        }
    }
}

impl Clone for Violation {
    fn clone(&self) -> (r: Self)
        ensures
            r.deep_view() == self.deep_view(),
    {
        Violation {
            rule_id: self.rule_id.clone(),
            severity: self.severity,
            message: self.message.clone(),
            evidence: self.evidence.clone(),
        }
    }
}

/// Extra data supplied per evaluation call, keyed by string. Rules may read
/// it but never write it.
#[derive(Debug)]
pub struct ValidationContext {
    pub additional_data: Vec<(String, String)>,
}

impl ValidationContext {
    /// An empty context.
    pub fn new() -> (r: Self)
        ensures
            r.additional_data.deep_view() == Seq::<(Seq<char>, Seq<char>)>::empty(),
    {
        let r = ValidationContext { additional_data: Vec::new() };
        proof {
            assert(r.additional_data.deep_view() =~= Seq::<(Seq<char>, Seq<char>)>::empty());
        }
        r
    }

    /// The same context with one more key/value entry.
    pub fn with_data(self, key: &str, value: String) -> (r: Self)
        ensures
            r.additional_data.deep_view() == self.additional_data.deep_view().push(
                (key@, value@),
            ),
    {
        let ghost orig = self.additional_data.deep_view();
        let mut data = self.additional_data;
        data.push((key.to_owned(), value));
        proof {
            assert(data.deep_view() =~= orig.push((key@, value@)));
        }
        ValidationContext { additional_data: data }
    }
}

/// Flags financial transactions in one currency whose amount exceeds a
/// limit, both in minor units.
#[derive(Debug)]
pub struct AmountLimitRule {
    pub limit: i64,
    pub currency: String,
}

impl AmountLimitRule {
    pub fn new(limit: i64, currency: &str) -> (r: Self)
        ensures
            r.limit == limit,
            r.currency@ == currency@,
    {
        AmountLimitRule { limit, currency: currency.to_owned() }
    }
}

/// Screens events against a list of sanctioned countries. The country data
/// this check needs comes from the validation context; with none supplied it
/// reports no violations.
#[derive(Debug)]
pub struct SanctionedCountriesRule {
    pub sanctioned_countries: Vec<String>,
}

impl SanctionedCountriesRule {
    pub fn new(countries: Vec<&str>) -> (r: Self)
        ensures
            r.sanctioned_countries.deep_view() == countries.deep_view(),
    {
        let mut owned: Vec<String> = Vec::new();
        let mut i: usize = 0;
        while i < countries.len()
            invariant
                i <= countries.len(),
                owned@.len() == i,
                forall|j: int| 0 <= j < i ==> owned@[j]@ == countries@[j]@,
            decreases countries.len() - i,
        {
            owned.push(countries[i].to_owned());
            i += 1;
        }
        let r = SanctionedCountriesRule { sanctioned_countries: owned };
        proof {
            assert(r.sanctioned_countries.deep_view() =~= countries.deep_view());
        }
        r
    }
}

/// A rule whose evaluation always fails with an internal error. It stands in
/// for checks whose backing data source is unavailable, and exercises the
/// validator's failure isolation.
#[derive(Debug)]
pub struct FailingRule {
    pub rule_id: String,
    pub message: String,
}

impl FailingRule {
    pub fn new(rule_id: &str, message: &str) -> (r: Self)
        ensures
            r.rule_id@ == rule_id@,
            r.message@ == message@,
    {
        FailingRule { rule_id: rule_id.to_owned(), message: message.to_owned() }
    }
}

/// The closed set of policy checks a validator can register.
#[derive(Debug)]
pub enum Rule {
    AmountLimit(AmountLimitRule),
    SanctionedCountries(SanctionedCountriesRule),
    Failing(FailingRule),
}

/// The stable, unique identifier of a rule.
pub open spec fn spec_rule_id(r: Rule) -> Seq<char> {
    match r {
        Rule::AmountLimit(_) => "AMOUNT_LIMIT"@,
        Rule::SanctionedCountries(_) => "SANCTIONED_COUNTRIES"@,
        Rule::Failing(f) => f.rule_id@,
    }
}

/// The declared severity a rule attaches to its findings.
pub open spec fn spec_severity(r: Rule) -> RuleSeverity {
    match r {
        Rule::AmountLimit(_) => RuleSeverity::Error,
        Rule::SanctionedCountries(_) => RuleSeverity::Critical,
        Rule::Failing(_) => RuleSeverity::Critical,
    }
}

/// The violations an amount-limit rule reports: exactly one, against a
/// financial transaction in the rule's currency whose amount exceeds the
/// limit; none otherwise.
pub open spec fn amount_limit_violations(
    rule: AmountLimitRule,
    e: crate::event::LedgerEventView,
) -> Seq<ViolationView> {
    if e matches crate::event::LedgerEventView::FinancialTransaction(tx) && tx.currency
        == rule.currency@ && tx.amount.amount > rule.limit {
        seq![
            ViolationView {
                rule_id: "AMOUNT_LIMIT"@,
                severity: RuleSeverity::Error,
                message: "transaction amount exceeds limit"@,
                evidence: e->FinancialTransaction_0.transaction_id,
            },
        ]
    } else {
        Seq::empty()
    }
}

/// What evaluating a rule against an event returns: the violations it
/// reports, or the text of its internal error.
pub open spec fn spec_evaluate(r: Rule, e: crate::event::LedgerEventView) -> Result<
    Seq<ViolationView>,
    Seq<char>,
> {
    match r {
        Rule::AmountLimit(rule) => Ok(amount_limit_violations(rule, e)),
        Rule::SanctionedCountries(_) => Ok(Seq::empty()),
        Rule::Failing(f) => Err(f.message@),
    }
}

/// The synthetic finding a validator records when a rule's evaluation
/// itself fails: a single `Critical` violation carrying the rule id and the
/// error text.
pub open spec fn synthetic_violation(rule_id: Seq<char>, err: Seq<char>) -> ViolationView {
    ViolationView { rule_id: rule_id, severity: RuleSeverity::Critical, message: err, evidence: err }
}

/// What one rule contributes to an aggregated evaluation: its own findings,
/// or one synthetic `Critical` violation if its evaluation failed.
pub open spec fn rule_outcome(r: Rule, e: crate::event::LedgerEventView) -> Seq<ViolationView> {
    match spec_evaluate(r, e) {
        Ok(vs) => vs,
        Err(m) => seq![synthetic_violation(spec_rule_id(r), m)],
    }
}

impl Rule {
    /// The stable, unique identifier of this rule.
    pub fn get_rule_id(&self) -> (r: &str)
        ensures
            r@ == spec_rule_id(*self),
    {
        match self {
            Rule::AmountLimit(_) => "AMOUNT_LIMIT",
            Rule::SanctionedCountries(_) => "SANCTIONED_COUNTRIES",
            Rule::Failing(f) => f.rule_id.as_str(),
        }
    }

    /// The declared severity of this rule.
    pub fn get_severity(&self) -> (r: RuleSeverity)
        ensures
            r == spec_severity(*self),
    {
        match self {
            Rule::AmountLimit(_) => RuleSeverity::Error,
            Rule::SanctionedCountries(_) => RuleSeverity::Critical,
            Rule::Failing(_) => RuleSeverity::Critical,
        }
    }

    /// Evaluates this rule against one event. Side-effect free: the rule
    /// reads the event and the context and reports findings, or fails with
    /// the text of its internal error.
    pub fn evaluate(&self, event: &crate::event::LedgerEvent, context: &ValidationContext) -> (r:
        Result<Vec<Violation>, String>)
        ensures
            ({
                let s = spec_evaluate(*self, event.deep_view());
                match r {
                    Ok(vs) => s matches Ok(sv) && vs.deep_view() == sv,
                    Err(m) => s matches Err(sm) && m@ == sm,
                }
            }),
    {
        match self {
            Rule::AmountLimit(rule) => {
                let mut violations: Vec<Violation> = Vec::new();
                if let crate::event::LedgerEvent::FinancialTransaction(tx) = event {
                    if crate::strutil::str_eq(tx.currency.as_str(), rule.currency.as_str())
                        && tx.amount.amount > rule.limit {
                        violations.push(
                            Violation {
                                rule_id: "AMOUNT_LIMIT".to_owned(),
                                severity: RuleSeverity::Error,
                                message: "transaction amount exceeds limit".to_owned(),
                                evidence: tx.transaction_id.clone(),
                            },
                        );
                    }
                }
                proof {
                    assert(violations.deep_view() =~= amount_limit_violations(
                        (*self)->AmountLimit_0,
                        event.deep_view(),
                    ));
                }
                Ok(violations)
            },
            Rule::SanctionedCountries(_) => {
                let violations: Vec<Violation> = Vec::new();
                proof {
                    assert(violations.deep_view() =~= Seq::<ViolationView>::empty());
                }
                Ok(violations)
            },
            Rule::Failing(f) => Err(f.message.clone()),
        }
    }
}

} // verus!
