use digital_ledger::event::AccountCreation;
use digital_ledger::event::AccountType;
use digital_ledger::event::ComplianceLevel;
use digital_ledger::event::FinancialTransaction;
use digital_ledger::event::LedgerEvent;
use digital_ledger::event::Money;
use digital_ledger::event::tag_is_known;

fn sample_transaction(id: &str, amount: i64, currency: &str) -> LedgerEvent {
    LedgerEvent::FinancialTransaction(FinancialTransaction {
        transaction_id: id.to_string(),
        from_account: "acct-a".to_string(),
        to_account: "acct-b".to_string(),
        amount: Money { amount, currency_code: currency.to_string(), precision: 2 },
        currency: currency.to_string(),
        description: "payment".to_string(),
        metadata: String::new(),
        timestamp: 1_700_000_000_000,
        tags: vec!["retail".to_string()],
    })
}

#[test]
fn valid_transaction_passes_validation() {
    let event = sample_transaction("tx-1", 100, "USD");
    assert!(event.validate().is_ok());
}

#[test]
fn empty_transaction_id_is_rejected() {
    let event = sample_transaction("", 100, "USD");
    assert!(event.validate().is_err());
}

#[test]
fn negative_amount_is_rejected() {
    let event = sample_transaction("tx-1", -1, "USD");
    assert!(event.validate().is_err());
}

#[test]
fn malformed_currency_code_is_rejected() {
    let event = sample_transaction("tx-1", 100, "US");
    assert!(event.validate().is_err());
    let event = sample_transaction("tx-1", 100, "USDT");
    assert!(event.validate().is_err());
}

#[test]
fn account_creation_requires_account_id() {
    let acct = |id: &str| {
        LedgerEvent::AccountCreation(AccountCreation {
            account_id: id.to_string(),
            account_type: AccountType::Asset,
            owner_id: "owner-1".to_string(),
            initial_balance: Money {
                amount: 0,
                currency_code: "EUR".to_string(),
                precision: 2,
            },
            compliance_level: ComplianceLevel::LowRisk,
            created_at: 1_700_000_000_000,
            metadata: String::new(),
        })
    };
    assert!(acct("acct-1").validate().is_ok());
    assert!(acct("").validate().is_err());
}

#[test]
fn entity_id_follows_the_variant() {
    let event = sample_transaction("tx-42", 5, "USD");
    assert_eq!(event.get_entity_id(), "tx-42");
}

#[test]
fn wire_tags_name_the_variant_and_unknown_tags_are_rejected() {
    let event = sample_transaction("tx-1", 5, "USD");
    assert_eq!(event.event_type_tag(), "financial_transaction");
    assert!(tag_is_known("financial_transaction"));
    assert!(tag_is_known("audit_log"));
    assert!(!tag_is_known("future_event"));
    assert!(!tag_is_known(""));
}

#[test]
fn str_eq_compares_contents() {
    assert!(digital_ledger::str_eq("abc", "abc"));
    assert!(!digital_ledger::str_eq("abc", "abd"));
    assert!(!digital_ledger::str_eq("abc", "ab"));
}
