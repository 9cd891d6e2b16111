use digital_ledger::chain::VerificationReport;
use digital_ledger::encode::canonical_bytes;
use digital_ledger::event::AuditLog;
use digital_ledger::event::FinancialTransaction;
use digital_ledger::event::LedgerEvent;
use digital_ledger::event::Money;
use digital_ledger::ledger::DigitalLedger;
use digital_ledger::ledger::LedgerError;
use digital_ledger::rules::AmountLimitRule;
use digital_ledger::rules::Rule;
use digital_ledger::rules::RuleSeverity;
use digital_ledger::validator::ComplianceValidator;

fn sha256(bytes: &[u8]) -> Vec<u8> {
    <sha2::Sha256 as sha2::Digest>::digest(bytes).to_vec()
}

fn payment(id: &str, amount: i64, currency: &str) -> LedgerEvent {
    LedgerEvent::FinancialTransaction(FinancialTransaction {
        transaction_id: id.to_string(),
        from_account: "acct-a".to_string(),
        to_account: "acct-b".to_string(),
        amount: Money { amount, currency_code: currency.to_string(), precision: 2 },
        currency: currency.to_string(),
        description: "wire".to_string(),
        metadata: String::new(),
        timestamp: 1_700_000_000_000,
        tags: Vec::new(),
    })
}

fn gated_ledger() -> DigitalLedger {
    let mut validator = ComplianceValidator::new();
    validator.add_rule(Rule::AmountLimit(AmountLimitRule::new(1000, "USD")));
    DigitalLedger::new(validator, "chain-1".to_string())
}

#[test]
fn append_returns_the_digest_of_the_stored_record_content() {
    let mut ledger = gated_ledger();
    let hash = ledger.append_event(payment("tx-1", 500, "USD"), None).unwrap();

    let record = &ledger.records[0];
    assert_eq!(record.event_id, hash);
    let content = canonical_bytes(
        &record.event,
        &record.metadata,
        record.timestamp,
        &record.chain_id,
        &record.previous_hash,
    );
    assert_eq!(hash, sha256(&content));
    assert_eq!(record.previous_hash, None);
    assert_eq!(record.chain_id, "chain-1");
}

#[test]
fn records_link_to_their_predecessors() {
    let mut ledger = gated_ledger();
    let h1 = ledger.append_event(payment("tx-1", 100, "USD"), None).unwrap();
    let h2 = ledger.append_event(payment("tx-2", 200, "USD"), None).unwrap();
    let h3 = ledger.append_event(payment("tx-3", 300, "USD"), None).unwrap();

    assert_eq!(ledger.records[0].previous_hash, None);
    assert_eq!(ledger.records[1].previous_hash.as_ref().unwrap(), &h1);
    assert_eq!(ledger.records[2].previous_hash.as_ref().unwrap(), &h2);
    assert_ne!(h1, h2);
    assert_ne!(h2, h3);
    assert!(matches!(ledger.verify_integrity(), VerificationReport::Valid));
}

#[test]
fn no_two_records_share_a_previous_hash() {
    let mut ledger = gated_ledger();
    for i in 0..4 {
        let id = format!("tx-{}", i);
        ledger.append_event(payment(&id, 100 + i, "USD"), None).unwrap();
    }
    for i in 0..ledger.records.len() {
        for j in (i + 1)..ledger.records.len() {
            assert_ne!(ledger.records[i].previous_hash, ledger.records[j].previous_hash);
        }
    }
}

#[test]
fn tampering_with_record_content_is_detected_at_that_record() {
    let mut ledger = gated_ledger();
    ledger.append_event(payment("tx-1", 100, "USD"), None).unwrap();
    ledger.append_event(payment("tx-2", 200, "USD"), None).unwrap();
    ledger.append_event(payment("tx-3", 300, "USD"), None).unwrap();

    ledger.records[1].metadata = "edited after the fact".to_string();
    assert!(matches!(ledger.verify_integrity(), VerificationReport::TamperedAt(1)));
}

#[test]
fn tampering_with_an_identity_hash_breaks_the_chain() {
    let mut ledger = gated_ledger();
    ledger.append_event(payment("tx-1", 100, "USD"), None).unwrap();
    ledger.append_event(payment("tx-2", 200, "USD"), None).unwrap();

    ledger.records[0].event_id[0] ^= 0xff;
    assert!(matches!(
        ledger.verify_integrity(),
        VerificationReport::TamperedAt(_)
    ));
}

#[test]
fn tampering_with_an_event_field_is_detected() {
    let mut ledger = gated_ledger();
    ledger.append_event(payment("tx-1", 100, "USD"), None).unwrap();

    if let LedgerEvent::FinancialTransaction(tx) = &mut ledger.records[0].event {
        tx.amount.amount = 999_999;
    }
    assert!(matches!(ledger.verify_integrity(), VerificationReport::TamperedAt(0)));
}

#[test]
fn sealed_ledger_rejects_appends_and_sealing_is_idempotent() {
    let mut ledger = gated_ledger();
    ledger.append_event(payment("tx-1", 100, "USD"), None).unwrap();
    ledger.seal_ledger();
    let err = ledger.append_event(payment("tx-2", 100, "USD"), None).unwrap_err();
    assert!(matches!(err, LedgerError::LedgerSealed));

    // Sealing twice is a no-op, not an error, and the chain is untouched.
    ledger.seal_ledger();
    assert!(ledger.is_sealed);
    assert_eq!(ledger.records.len(), 1);
    assert!(matches!(ledger.verify_integrity(), VerificationReport::Valid));
}

#[test]
fn structurally_invalid_events_are_rejected_before_any_policy_runs() {
    let mut ledger = gated_ledger();
    let err = ledger.append_event(payment("", 100, "USD"), None).unwrap_err();
    assert!(matches!(err, LedgerError::ValidationError(_)));
    assert_eq!(ledger.records.len(), 0);
}

#[test]
fn blocking_violations_reject_admission_and_carry_the_violation_list() {
    let mut ledger = gated_ledger();
    let err = ledger.append_event(payment("tx-1", 5000, "USD"), None).unwrap_err();
    match err {
        LedgerError::ComplianceViolation(violations) => {
            assert_eq!(violations.len(), 1);
            assert_eq!(violations[0].rule_id, "AMOUNT_LIMIT");
        },
        other => panic!("expected a compliance violation, got {:?}", other),
    }
    assert_eq!(ledger.records.len(), 0);
}

#[test]
fn violations_below_the_threshold_do_not_block() {
    let mut ledger = gated_ledger();
    // Raising the threshold to Critical makes the Error-severity amount
    // violation informational.
    ledger.set_blocking_threshold(RuleSeverity::Critical);
    let hash = ledger.append_event(payment("tx-1", 5000, "USD"), None).unwrap();
    assert_eq!(ledger.records.len(), 1);
    assert_eq!(ledger.records[0].event_id, hash);
}

#[test]
fn audit_trail_filters_are_conjunctive_and_keep_append_order() {
    let mut ledger = gated_ledger();
    ledger.append_event(payment("tx-1", 100, "USD"), None).unwrap();
    ledger.append_event(payment("tx-2", 200, "USD"), None).unwrap();
    ledger
        .append_event(
            LedgerEvent::AuditLog(AuditLog {
                log_id: "log-1".to_string(),
                action: "export".to_string(),
                actor: "auditor".to_string(),
                resource: "chain-1".to_string(),
                changes: String::new(),
                ip_address: None,
                user_agent: None,
                timestamp: 1_700_000_000_000,
            }),
            None,
        )
        .unwrap();

    let all = ledger.get_audit_trail(None, None, None);
    assert_eq!(all.len(), 3);
    assert_eq!(all[0].event.get_entity_id(), "tx-1");
    assert_eq!(all[2].event.get_entity_id(), "log-1");

    let only_tx2 = ledger.get_audit_trail(Some("tx-2"), None, None);
    assert_eq!(only_tx2.len(), 1);
    assert_eq!(only_tx2[0].event.get_entity_id(), "tx-2");

    let none = ledger.get_audit_trail(Some("tx-2"), Some(u64::MAX), None);
    assert_eq!(none.len(), 0);

    let t = ledger.records[1].timestamp;
    let from_second = ledger.get_audit_trail(None, Some(t), None);
    assert!(from_second.len() >= 1);
    for rec in &from_second {
        assert!(rec.timestamp >= t);
    }
}

#[test]
fn merkle_root_summarizes_the_chain() {
    let mut ledger = gated_ledger();
    assert_eq!(ledger.get_merkle_root(), Vec::<u8>::new());

    let h1 = ledger.append_event(payment("tx-1", 100, "USD"), None).unwrap();
    assert_eq!(ledger.get_merkle_root(), h1);

    let h2 = ledger.append_event(payment("tx-2", 200, "USD"), None).unwrap();
    let mut pair = h1.clone();
    pair.extend_from_slice(&h2);
    let expected_two = sha256(&pair);
    assert_eq!(ledger.get_merkle_root(), expected_two);

    let h3 = ledger.append_event(payment("tx-3", 300, "USD"), None).unwrap();
    let mut odd = h3.clone();
    odd.extend_from_slice(&h3);
    let right = sha256(&odd);
    let mut top = expected_two.clone();
    top.extend_from_slice(&right);
    assert_eq!(ledger.get_merkle_root(), sha256(&top));
}

#[test]
fn metadata_defaults_to_empty_and_is_part_of_the_digest() {
    let mut ledger = gated_ledger();
    let h1 = ledger
        .append_event(payment("tx-1", 100, "USD"), Some("batch 7".to_string()))
        .unwrap();
    assert_eq!(ledger.records[0].metadata, "batch 7");

    let mut other = gated_ledger();
    let h2 = other.append_event(payment("tx-1", 100, "USD"), None).unwrap();
    assert_eq!(other.records[0].metadata, "");
    // Same event, different metadata: the identity hashes differ unless the
    // timestamps differ anyway; compare canonical content instead.
    let a = &ledger.records[0];
    let b = &other.records[0];
    let ca = canonical_bytes(&a.event, &a.metadata, a.timestamp, &a.chain_id, &a.previous_hash);
    let cb = canonical_bytes(&b.event, &b.metadata, b.timestamp, &b.chain_id, &b.previous_hash);
    assert_ne!(ca, cb);
    assert_eq!(h1, sha256(&ca));
    assert_eq!(h2, sha256(&cb));
}
