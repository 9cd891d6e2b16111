//! Canonical encoding of record content.
//!
//! The identity hash of a record is the digest of this encoding, so the
//! encoding must be a deterministic function of the record's logical
//! content alone: every field is written in a fixed order, strings as
//! length-prefixed UTF-8, integers big-endian, optional fields behind an
//! explicit presence byte. Re-serializing the same content therefore always
//! reproduces the same bytes, and with them the same digest.

use vstd::prelude::*;

use vstd::utf8::encode_utf8;

use crate::event::AccountType;
use crate::event::AdjustmentReason;
use crate::event::AlertSeverity;
use crate::event::ComplianceLevel;
use crate::event::LedgerEvent;
use crate::event::LedgerEventView;
use crate::event::Money;
use crate::event::MoneyView;

verus! {

/// A 64-bit value as eight big-endian bytes.
pub open spec fn be64(n: u64) -> Seq<u8> {
    seq![
        ((n >> 56) & 0xff) as u8,
        ((n >> 48) & 0xff) as u8,
        ((n >> 40) & 0xff) as u8,
        ((n >> 32) & 0xff) as u8,
        ((n >> 24) & 0xff) as u8,
        ((n >> 16) & 0xff) as u8,
        ((n >> 8) & 0xff) as u8,
        (n & 0xff) as u8,
    ]
}

/// A byte string, length-prefixed.
pub open spec fn enc_bytes(b: Seq<u8>) -> Seq<u8> {
    be64(b.len() as u64) + b
}

/// A string: its UTF-8 bytes, length-prefixed.
pub open spec fn enc_str(s: Seq<char>) -> Seq<u8> {
    enc_bytes(encode_utf8(s))
}

/// The concatenated encodings of a list of strings.
pub open spec fn enc_strs(l: Seq<Seq<char>>) -> Seq<u8>
    decreases l.len(),
{
    if l.len() == 0 {
        Seq::empty()
    } else {
        enc_strs(l.drop_last()) + enc_str(l.last())
    }
}

/// A list of strings: its length, then each string in order.
pub open spec fn enc_str_list(l: Seq<Seq<char>>) -> Seq<u8> {
    be64(l.len() as u64) + enc_strs(l)
}

/// An optional string behind a presence byte.
pub open spec fn enc_opt_str(o: Option<Seq<char>>) -> Seq<u8> {
    match o {
        None => seq![0u8],
        Some(s) => seq![1u8] + enc_str(s),
    }
}

/// The contents of an optional byte vector.
pub open spec fn opt_bytes_view(o: Option<Vec<u8>>) -> Option<Seq<u8>> {
    match o {
        None => None,
        Some(v) => Some(v@),
    }
}

/// An optional byte string behind a presence byte.
pub open spec fn enc_opt_bytes(o: Option<Seq<u8>>) -> Seq<u8> {
    match o {
        None => seq![0u8],
        Some(b) => seq![1u8] + enc_bytes(b),
    }
}

/// A signed 64-bit value: a sign byte, then the magnitude.
pub open spec fn enc_i64(n: i64) -> Seq<u8> {
    if n >= 0 {
        seq![1u8] + be64(n as u64)
    } else {
        seq![0u8] + be64((-(n as int)) as u64)
    }
}

/// A monetary value: amount, display precision, currency code.
pub open spec fn enc_money(m: MoneyView) -> Seq<u8> {
    enc_i64(m.amount) + be64(m.precision as u64) + enc_str(m.currency_code)
}

pub open spec fn alert_severity_byte(s: AlertSeverity) -> u8 {
    match s {
        AlertSeverity::Low => 0,
        AlertSeverity::Medium => 1,
        AlertSeverity::High => 2,
        AlertSeverity::Critical => 3,
    }
}

pub open spec fn account_type_byte(t: AccountType) -> u8 {
    match t {
        AccountType::Asset => 0,
        AccountType::Liability => 1,
        AccountType::Equity => 2,
        AccountType::Revenue => 3,
        AccountType::Expense => 4,
    }
}

pub open spec fn compliance_level_byte(l: ComplianceLevel) -> u8 {
    match l {
        ComplianceLevel::LowRisk => 0,
        ComplianceLevel::MediumRisk => 1,
        ComplianceLevel::HighRisk => 2,
        ComplianceLevel::Sanctioned => 3,
    }
}

pub open spec fn adjustment_reason_byte(r: AdjustmentReason) -> u8 {
    match r {
        AdjustmentReason::Correction => 0,
        AdjustmentReason::WriteOff => 1,
        AdjustmentReason::Revaluation => 2,
        AdjustmentReason::Regulatory => 3,
    }
}

/// The canonical encoding of an event: a variant tag, then every field of
/// the variant in declaration order.
pub open spec fn enc_event(e: LedgerEventView) -> Seq<u8> {
    match e {
        LedgerEventView::FinancialTransaction(tx) => seq![0u8] + enc_str(tx.transaction_id)
            + enc_str(tx.from_account) + enc_str(tx.to_account) + enc_money(tx.amount) + enc_str(
            tx.currency,
        ) + enc_str(tx.description) + enc_str(tx.metadata) + be64(tx.timestamp) + enc_str_list(
            tx.tags,
        ),
        LedgerEventView::ComplianceAlert(a) => seq![1u8] + enc_str(a.alert_id) + enc_str(a.rule_id)
            + seq![alert_severity_byte(a.severity)] + enc_str(a.description) + enc_str_list(
            a.affected_entities,
        ) + enc_str(a.evidence) + be64(a.timestamp),
        LedgerEventView::AccountCreation(a) => seq![2u8] + enc_str(a.account_id) + seq![
            account_type_byte(a.account_type),
        ] + enc_str(a.owner_id) + enc_money(a.initial_balance) + seq![
            compliance_level_byte(a.compliance_level),
        ] + be64(a.created_at) + enc_str(a.metadata),
        LedgerEventView::BalanceAdjustment(a) => seq![3u8] + enc_str(a.adjustment_id) + enc_str(
            a.account_id,
        ) + seq![adjustment_reason_byte(a.reason)] + enc_money(a.amount) + enc_str(a.reference)
            + enc_str(a.authorized_by) + be64(a.timestamp),
        LedgerEventView::AuditLog(l) => seq![4u8] + enc_str(l.log_id) + enc_str(l.action) + enc_str(
            l.actor,
        ) + enc_str(l.resource) + enc_str(l.changes) + enc_opt_str(l.ip_address) + enc_opt_str(
            l.user_agent,
        ) + be64(l.timestamp),
    }
}

/// The canonical encoding of a record's logical content: the event, the
/// caller metadata, the admission timestamp, the chain identifier and the
/// predecessor's identity hash. Including the predecessor's hash is what
/// makes the sequence a genuine chain.
pub open spec fn canon_content(
    event: LedgerEventView,
    metadata: Seq<char>,
    timestamp: u64,
    chain_id: Seq<char>,
    previous_hash: Option<Seq<u8>>,
) -> Seq<u8> {
    enc_event(event) + enc_str(metadata) + be64(timestamp) + enc_str(chain_id) + enc_opt_bytes(
        previous_hash,
    )
}

/// The low byte of a 64-bit value.
fn low_byte(x: u64) -> (r: u8)
    ensures
        r == (x & 0xff) as u8,
{
    proof {
        assert((x & 0xff) <= 0xff) by (bit_vector);
    }
    (x & 0xff) as u8
}

/// Appends the big-endian encoding of `n`.
fn push_u64(out: &mut Vec<u8>, n: u64)
    ensures
        final(out)@ == old(out)@ + be64(n),
{
    out.push(low_byte(n >> 56));
    out.push(low_byte(n >> 48));
    out.push(low_byte(n >> 40));
    out.push(low_byte(n >> 32));
    out.push(low_byte(n >> 24));
    out.push(low_byte(n >> 16));
    out.push(low_byte(n >> 8));
    out.push(low_byte(n));
    proof {
        assert((n & 0xff) == ((n >> 0) & 0xff)) by (bit_vector);
        assert(out@ =~= old(out)@ + be64(n));
    }
}

/// Appends raw bytes.
fn push_raw(out: &mut Vec<u8>, b: &[u8])
    ensures
        final(out)@ == old(out)@ + b@,
{
    out.extend_from_slice(b);
    proof {
        assert forall|i: int| 0 <= i < out@.len() implies out@[i] == (old(out)@ + b@)[i] by {
            if i >= old(out)@.len() {
                assert(vstd::pervasive::cloned(b@[i - old(out)@.len()], out@[i]));
            }
        }
        assert(out@ =~= old(out)@ + b@);
    }
}

/// Appends a length-prefixed byte string.
fn push_bytes(out: &mut Vec<u8>, b: &[u8])
    ensures
        final(out)@ == old(out)@ + enc_bytes(b@),
{
    push_u64(out, b.len() as u64);
    push_raw(out, b);
    proof {
        assert(out@ =~= old(out)@ + enc_bytes(b@));
    }
}

/// Appends a length-prefixed string.
fn push_str(out: &mut Vec<u8>, s: &str)
    ensures
        final(out)@ == old(out)@ + enc_str(s@),
{
    let bytes = s.as_bytes();
    push_bytes(out, bytes);
}

/// Appends a length-prefixed list of strings.
fn push_string_list(out: &mut Vec<u8>, l: &Vec<String>)
    ensures
        final(out)@ == old(out)@ + enc_str_list(l.deep_view()),
{
    let ghost dv = l.deep_view();
    push_u64(out, l.len() as u64);
    let ghost mid = out@;
    let mut i: usize = 0;
    proof {
        assert(dv.take(0) =~= Seq::<Seq<char>>::empty());
        assert(out@ =~= mid + enc_strs(dv.take(0)));
    }
    while i < l.len()
        invariant
            i <= l@.len(),
            dv == l.deep_view(),
            dv.len() == l@.len(),
            out@ == mid + enc_strs(dv.take(i as int)),
        decreases l@.len() - i,
    {
        push_str(out, l[i].as_str());
        proof {
            assert(dv.take(i + 1).drop_last() =~= dv.take(i as int));
            assert(dv.take(i + 1).last() == dv[i as int]);
            assert(out@ =~= mid + enc_strs(dv.take(i + 1)));
        }
        i += 1;
    }
    proof {
        assert(dv.take(dv.len() as int) =~= dv);
        assert(out@ =~= old(out)@ + enc_str_list(dv));
    }
}

/// Appends an optional string.
fn push_opt_str(out: &mut Vec<u8>, o: &Option<String>)
    ensures
        final(out)@ == old(out)@ + enc_opt_str(o.deep_view()),
{
    match o {
        None => {
            out.push(0u8);
            proof {
                assert(out@ =~= old(out)@ + enc_opt_str(None));
            }
        },
        Some(s) => {
            out.push(1u8);
            push_str(out, s.as_str());
            proof {
                assert(out@ =~= old(out)@ + enc_opt_str(Some(s@)));
            }
        },
    }
}

/// Appends an optional byte string.
fn push_opt_bytes(out: &mut Vec<u8>, o: &Option<Vec<u8>>)
    ensures
        final(out)@ == old(out)@ + enc_opt_bytes(opt_bytes_view(*o)),
{
    match o {
        None => {
            out.push(0u8);
            proof {
                assert(out@ =~= old(out)@ + enc_opt_bytes(None));
            }
        },
        Some(b) => {
            out.push(1u8);
            push_bytes(out, b.as_slice());
            proof {
                assert(out@ =~= old(out)@ + enc_opt_bytes(Some(b@)));
            }
        },
    }
}

/// Appends a signed 64-bit value as sign byte and magnitude.
fn push_i64(out: &mut Vec<u8>, n: i64)
    ensures
        final(out)@ == old(out)@ + enc_i64(n),
{
    if n >= 0 {
        out.push(1u8);
        push_u64(out, n as u64);
        proof {
            assert(out@ =~= old(out)@ + enc_i64(n));
        }
    } else {
        out.push(0u8);
        let neg: i64 = -(n + 1);
        let mag: u64 = (neg as u64) + 1;
        proof {
            assert(mag == (-(n as int)) as u64);
        }
        push_u64(out, mag);
        proof {
            assert(out@ =~= old(out)@ + enc_i64(n));
        }
    }
}

/// Appends a monetary value.
fn push_money(out: &mut Vec<u8>, m: &Money)
    ensures
        final(out)@ == old(out)@ + enc_money(m.deep_view()),
{
    push_i64(out, m.amount);
    push_u64(out, m.precision as u64);
    push_str(out, m.currency_code.as_str());
    proof {
        assert(out@ =~= old(out)@ + enc_money(m.deep_view()));
    }
}

fn push_alert_severity(out: &mut Vec<u8>, s: AlertSeverity)
    ensures
        final(out)@ == old(out)@ + seq![alert_severity_byte(s)],
{
    let b: u8 = match s {
        AlertSeverity::Low => 0,
        AlertSeverity::Medium => 1,
        AlertSeverity::High => 2,
        AlertSeverity::Critical => 3,
    };
    out.push(b);
    proof {
        assert(out@ =~= old(out)@ + seq![alert_severity_byte(s)]);
    }
}

fn push_account_type(out: &mut Vec<u8>, t: AccountType)
    ensures
        final(out)@ == old(out)@ + seq![account_type_byte(t)],
{
    let b: u8 = match t {
        AccountType::Asset => 0,
        AccountType::Liability => 1,
        AccountType::Equity => 2,
        AccountType::Revenue => 3,
        AccountType::Expense => 4,
    };
    out.push(b);
    proof {
        assert(out@ =~= old(out)@ + seq![account_type_byte(t)]);
    }
}

fn push_compliance_level(out: &mut Vec<u8>, l: ComplianceLevel)
    ensures
        final(out)@ == old(out)@ + seq![compliance_level_byte(l)],
{
    let b: u8 = match l {
        ComplianceLevel::LowRisk => 0,
        ComplianceLevel::MediumRisk => 1,
        ComplianceLevel::HighRisk => 2,
        ComplianceLevel::Sanctioned => 3,
    };
    out.push(b);
    proof {
        assert(out@ =~= old(out)@ + seq![compliance_level_byte(l)]);
    }
}

fn push_adjustment_reason(out: &mut Vec<u8>, r: AdjustmentReason)
    ensures
        final(out)@ == old(out)@ + seq![adjustment_reason_byte(r)],
{
    let b: u8 = match r {
        AdjustmentReason::Correction => 0,
        AdjustmentReason::WriteOff => 1,
        AdjustmentReason::Revaluation => 2,
        AdjustmentReason::Regulatory => 3,
    };
    out.push(b);
    proof {
        assert(out@ =~= old(out)@ + seq![adjustment_reason_byte(r)]);
    }
}

/// Appends the canonical encoding of an event.
#[verifier::rlimit(100)]
fn push_event(out: &mut Vec<u8>, e: &LedgerEvent)
    ensures
        final(out)@ == old(out)@ + enc_event(e.deep_view()),
{
    match e {
        LedgerEvent::FinancialTransaction(tx) => {
            out.push(0u8);
            push_str(out, tx.transaction_id.as_str());
            push_str(out, tx.from_account.as_str());
            push_str(out, tx.to_account.as_str());
            push_money(out, &tx.amount);
            push_str(out, tx.currency.as_str());
            push_str(out, tx.description.as_str());
            push_str(out, tx.metadata.as_str());
            push_u64(out, tx.timestamp);
            push_string_list(out, &tx.tags);
            proof {
                assert(out@ =~= old(out)@ + enc_event(e.deep_view()));
            }
        },
        LedgerEvent::ComplianceAlert(a) => {
            out.push(1u8);
            push_str(out, a.alert_id.as_str());
            push_str(out, a.rule_id.as_str());
            push_alert_severity(out, a.severity);
            push_str(out, a.description.as_str());
            push_string_list(out, &a.affected_entities);
            push_str(out, a.evidence.as_str());
            push_u64(out, a.timestamp);
            proof {
                assert(out@ =~= old(out)@ + enc_event(e.deep_view()));
            }
        },
        LedgerEvent::AccountCreation(a) => {
            out.push(2u8);
            push_str(out, a.account_id.as_str());
            push_account_type(out, a.account_type);
            push_str(out, a.owner_id.as_str());
            push_money(out, &a.initial_balance);
            push_compliance_level(out, a.compliance_level);
            push_u64(out, a.created_at);
            push_str(out, a.metadata.as_str());
            proof {
                assert(out@ =~= old(out)@ + enc_event(e.deep_view()));
            }
        },
        LedgerEvent::BalanceAdjustment(a) => {
            out.push(3u8);
            push_str(out, a.adjustment_id.as_str());
            push_str(out, a.account_id.as_str());
            push_adjustment_reason(out, a.reason);
            push_money(out, &a.amount);
            push_str(out, a.reference.as_str());
            push_str(out, a.authorized_by.as_str());
            push_u64(out, a.timestamp);
            proof {
                assert(out@ =~= old(out)@ + enc_event(e.deep_view()));
            }
        },
        LedgerEvent::AuditLog(l) => {
            out.push(4u8);
            push_str(out, l.log_id.as_str());
            push_str(out, l.action.as_str());
            push_str(out, l.actor.as_str());
            push_str(out, l.resource.as_str());
            push_str(out, l.changes.as_str());
            push_opt_str(out, &l.ip_address);
            push_opt_str(out, &l.user_agent);
            push_u64(out, l.timestamp);
            proof {
                assert(out@ =~= old(out)@ + enc_event(e.deep_view()));
            }
        },
    }
}

/// The canonical bytes of a record's logical content; the record's identity
/// hash is the digest of exactly these bytes.
pub fn canonical_bytes(
    event: &LedgerEvent,
    metadata: &String,
    timestamp: u64,
    chain_id: &String,
    previous_hash: &Option<Vec<u8>>,
) -> (r: Vec<u8>)
    ensures
        r@ == canon_content(
            event.deep_view(),
            metadata@,
            timestamp,
            chain_id@,
            opt_bytes_view(*previous_hash),
        ),
{
    let mut out: Vec<u8> = Vec::new();
    push_event(&mut out, event);
    push_str(&mut out, metadata.as_str());
    push_u64(&mut out, timestamp);
    push_str(&mut out, chain_id.as_str());
    push_opt_bytes(&mut out, previous_hash);
    proof {
        assert(out@ =~= canon_content(
            event.deep_view(),
            metadata@,
            timestamp,
            chain_id@,
            opt_bytes_view(*previous_hash),
        ));
    }
    out
}

} // verus!
