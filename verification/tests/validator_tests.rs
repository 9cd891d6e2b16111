use digital_ledger::event::FinancialTransaction;
use digital_ledger::event::LedgerEvent;
use digital_ledger::event::Money;
use digital_ledger::rules::AmountLimitRule;
use digital_ledger::rules::FailingRule;
use digital_ledger::rules::Rule;
use digital_ledger::rules::RuleSeverity;
use digital_ledger::rules::SanctionedCountriesRule;
use digital_ledger::rules::ValidationContext;
use digital_ledger::validator::ComplianceValidator;
use digital_ledger::validator::ValidatorError;

fn transaction(amount: i64, currency: &str) -> LedgerEvent {
    LedgerEvent::FinancialTransaction(FinancialTransaction {
        transaction_id: "tx-1".to_string(),
        from_account: "acct-a".to_string(),
        to_account: "acct-b".to_string(),
        amount: Money { amount, currency_code: currency.to_string(), precision: 2 },
        currency: currency.to_string(),
        description: "wire".to_string(),
        metadata: String::new(),
        timestamp: 1_700_000_000_000,
        tags: Vec::new(),
    })
}

#[test]
fn amount_limit_rule_flags_only_matching_currency_over_limit() {
    let rule = Rule::AmountLimit(AmountLimitRule::new(1000, "USD"));
    let ctx = ValidationContext::new();

    let over = rule.evaluate(&transaction(1500, "USD"), &ctx).unwrap();
    assert_eq!(over.len(), 1);
    assert_eq!(over[0].rule_id, "AMOUNT_LIMIT");
    assert!(matches!(over[0].severity, RuleSeverity::Error));

    let under = rule.evaluate(&transaction(500, "USD"), &ctx).unwrap();
    assert_eq!(under.len(), 0);

    let other_currency = rule.evaluate(&transaction(1500, "EUR"), &ctx).unwrap();
    assert_eq!(other_currency.len(), 0);
}

#[test]
fn rule_ids_and_severities_are_stable() {
    let amount = Rule::AmountLimit(AmountLimitRule::new(1, "USD"));
    assert_eq!(amount.get_rule_id(), "AMOUNT_LIMIT");
    assert!(matches!(amount.get_severity(), RuleSeverity::Error));

    let sanctions = Rule::SanctionedCountries(SanctionedCountriesRule::new(vec!["AA", "BB"]));
    assert_eq!(sanctions.get_rule_id(), "SANCTIONED_COUNTRIES");
    assert!(matches!(sanctions.get_severity(), RuleSeverity::Critical));
}

#[test]
fn failing_rule_yields_one_synthetic_critical_violation() {
    let mut validator = ComplianceValidator::new();
    validator.add_rule(Rule::AmountLimit(AmountLimitRule::new(1000, "USD")));
    validator.add_rule(Rule::Failing(FailingRule::new("FLAKY", "backend unavailable")));
    validator.add_rule(Rule::SanctionedCountries(SanctionedCountriesRule::new(vec!["AA"])));

    // The failing rule errs, the amount rule still reports its own finding.
    let violations = validator.validate(&transaction(2000, "USD"));
    assert_eq!(violations.len(), 2);
    assert_eq!(violations[0].rule_id, "AMOUNT_LIMIT");
    let synthetic: Vec<_> = violations.iter().filter(|v| v.rule_id == "FLAKY").collect();
    assert_eq!(synthetic.len(), 1);
    assert!(matches!(synthetic[0].severity, RuleSeverity::Critical));
    assert_eq!(synthetic[0].message, "backend unavailable");
}

#[test]
fn registering_a_duplicate_rule_id_replaces_the_prior_rule() {
    let mut validator = ComplianceValidator::new();
    validator.add_rule(Rule::AmountLimit(AmountLimitRule::new(1000, "USD")));
    validator.add_rule(Rule::AmountLimit(AmountLimitRule::new(3000, "USD")));

    // Only the replacement limit applies: 2000 is below the new limit.
    let violations = validator.validate(&transaction(2000, "USD"));
    assert_eq!(violations.len(), 0);
    let violations = validator.validate(&transaction(3500, "USD"));
    assert_eq!(violations.len(), 1);
}

#[test]
fn unregistered_rule_set_name_fails_with_rule_set_not_found() {
    let validator = ComplianceValidator::new();
    let result = validator.validate_with_rule_set(&transaction(1, "USD"), "missing");
    assert!(matches!(result, Err(ValidatorError::RuleSetNotFound)));
}

#[test]
fn rule_set_runs_exactly_the_listed_rules_in_order() {
    let mut validator = ComplianceValidator::new();
    validator.add_rule(Rule::AmountLimit(AmountLimitRule::new(1000, "USD")));
    validator.add_rule(Rule::Failing(FailingRule::new("FLAKY", "backend unavailable")));

    // A set listing only the amount rule: the failing rule must not run.
    validator.create_rule_set("transfers", vec!["AMOUNT_LIMIT"]);
    let violations = validator
        .validate_with_rule_set(&transaction(2000, "USD"), "transfers")
        .unwrap();
    assert_eq!(violations.len(), 1);
    assert_eq!(violations[0].rule_id, "AMOUNT_LIMIT");

    // A set listing both, in the declared order.
    validator.create_rule_set("all", vec!["FLAKY", "AMOUNT_LIMIT"]);
    let violations = validator
        .validate_with_rule_set(&transaction(2000, "USD"), "all")
        .unwrap();
    assert_eq!(violations.len(), 2);
    assert_eq!(violations[0].rule_id, "FLAKY");
    assert_eq!(violations[1].rule_id, "AMOUNT_LIMIT");
}

#[test]
fn context_accumulates_entries() {
    let ctx = ValidationContext::new()
        .with_data("country", "DE".to_string())
        .with_data("channel", "web".to_string());
    assert_eq!(ctx.additional_data.len(), 2);
    assert_eq!(ctx.additional_data[0].0, "country");
    assert_eq!(ctx.additional_data[1].1, "web");
}
