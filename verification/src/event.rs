//! The event model: the closed set of domain events a ledger admits, the
//! monetary value they carry, and their structural validation.
//!
//! Every event exposes a stable entity identifier for audit lookups and a
//! wire tag naming its variant. Structural validation is variant-specific:
//! identifiers must be non-empty, monetary amounts non-negative, currency
//! codes three characters; variants without declared constraints pass
//! trivially.

use vstd::prelude::*;

use crate::strutil::str_eq;

verus! {

/// A monetary value. The amount is a fixed-point quantity in minor units
/// (for example cents); `precision` records how many decimal places the
/// minor unit stands for and is display-only. The amount of a structurally
/// valid `Money` is never negative.
#[derive(Debug)]
pub struct Money {
    pub amount: i64,
    pub currency_code: String,
    pub precision: u8,
}

/// Mathematical content of a [`Money`] value.
pub struct MoneyView {
    pub amount: i64,
    pub currency_code: Seq<char>,
    pub precision: u8,
}

impl DeepView for Money {
    type V = MoneyView;

    open spec fn deep_view(&self) -> MoneyView {
        MoneyView {
            amount: self.amount,
            currency_code: self.currency_code@,
            precision: self.precision,
        }
    }
}

impl Clone for Money {
    fn clone(&self) -> (r: Self)
        ensures
            r.deep_view() == self.deep_view(),
    {
        Money {
            amount: self.amount,
            currency_code: self.currency_code.clone(),
            precision: self.precision,
        }
    }
}

/// A structurally valid monetary value: non-negative amount and a
/// three-character currency code.
pub open spec fn money_valid(m: MoneyView) -> bool {
    m.amount >= 0 && m.currency_code.len() == 3
}

/// Decides [`money_valid`] for a monetary value.
pub fn money_is_valid(m: &Money) -> (r: bool)
    ensures
        r == money_valid(m.deep_view()),
{
    m.amount >= 0 && m.currency_code.as_str().unicode_len() == 3
}

#[derive(Clone, Copy, Debug, PartialEq, Eq, Structural)]
pub enum AlertSeverity {
    Low,
    Medium,
    High,
    Critical,
}

#[derive(Clone, Copy, Debug, PartialEq, Eq, Structural)]
pub enum AccountType {
    Asset,
    Liability,
    Equity,
    Revenue,
    Expense,
}

#[derive(Clone, Copy, Debug, PartialEq, Eq, Structural)]
pub enum ComplianceLevel {
    LowRisk,
    MediumRisk,
    HighRisk,
    Sanctioned,
}

#[derive(Clone, Copy, Debug, PartialEq, Eq, Structural)]
pub enum AdjustmentReason {
    Correction,
    WriteOff,
    Revaluation,
    Regulatory,
}

/// A transfer of money between two accounts. Timestamps throughout the
/// library are milliseconds since the Unix epoch.
#[derive(Debug)]
pub struct FinancialTransaction {
    pub transaction_id: String,
    pub from_account: String,
    pub to_account: String,
    pub amount: Money,
    pub currency: String,
    pub description: String,
    pub metadata: String,
    pub timestamp: u64,
    pub tags: Vec<String>,
}

pub struct FinancialTransactionView {
    pub transaction_id: Seq<char>,
    pub from_account: Seq<char>,
    pub to_account: Seq<char>,
    pub amount: MoneyView,
    pub currency: Seq<char>,
    pub description: Seq<char>,
    pub metadata: Seq<char>,
    pub timestamp: u64,
    pub tags: Seq<Seq<char>>,
}

impl DeepView for FinancialTransaction {
    type V = FinancialTransactionView;

    open spec fn deep_view(&self) -> FinancialTransactionView {
        FinancialTransactionView {
            transaction_id: self.transaction_id@,
            from_account: self.from_account@,
            to_account: self.to_account@,
            amount: self.amount.deep_view(),
            currency: self.currency@,
            description: self.description@,
            metadata: self.metadata@,
            timestamp: self.timestamp,
            tags: self.tags.deep_view(),
        }
    }
}

/// A finding raised by an external monitoring process, recorded as an event.
#[derive(Debug)]
pub struct ComplianceAlert {
    pub alert_id: String,
    pub rule_id: String,
    pub severity: AlertSeverity,
    pub description: String,
    pub affected_entities: Vec<String>,
    pub evidence: String,
    pub timestamp: u64,
}

pub struct ComplianceAlertView {
    pub alert_id: Seq<char>,
    pub rule_id: Seq<char>,
    pub severity: AlertSeverity,
    pub description: Seq<char>,
    pub affected_entities: Seq<Seq<char>>,
    pub evidence: Seq<char>,
    pub timestamp: u64,
}

impl DeepView for ComplianceAlert {
    type V = ComplianceAlertView;

    open spec fn deep_view(&self) -> ComplianceAlertView {
        ComplianceAlertView {
            alert_id: self.alert_id@,
            rule_id: self.rule_id@,
            severity: self.severity,
            description: self.description@,
            affected_entities: self.affected_entities.deep_view(),
            evidence: self.evidence@,
            timestamp: self.timestamp,
        }
    }
}

/// The opening of a new account.
#[derive(Debug)]
pub struct AccountCreation {
    pub account_id: String,
    pub account_type: AccountType,
    pub owner_id: String,
    pub initial_balance: Money,
    pub compliance_level: ComplianceLevel,
    pub created_at: u64,
    pub metadata: String,
}

pub struct AccountCreationView {
    pub account_id: Seq<char>,
    pub account_type: AccountType,
    pub owner_id: Seq<char>,
    pub initial_balance: MoneyView,
    pub compliance_level: ComplianceLevel,
    pub created_at: u64,
    pub metadata: Seq<char>,
}

impl DeepView for AccountCreation {
    type V = AccountCreationView;

    open spec fn deep_view(&self) -> AccountCreationView {
        AccountCreationView {
            account_id: self.account_id@,
            account_type: self.account_type,
            owner_id: self.owner_id@,
            initial_balance: self.initial_balance.deep_view(),
            compliance_level: self.compliance_level,
            created_at: self.created_at,
            metadata: self.metadata@,
        }
    }
}

/// A correction to an account balance; corrections are new events, never
/// edits of earlier records.
#[derive(Debug)]
pub struct BalanceAdjustment {
    pub adjustment_id: String,
    pub account_id: String,
    pub reason: AdjustmentReason,
    pub amount: Money,
    pub reference: String,
    pub authorized_by: String,
    pub timestamp: u64,
}

pub struct BalanceAdjustmentView {
    pub adjustment_id: Seq<char>,
    pub account_id: Seq<char>,
    pub reason: AdjustmentReason,
    pub amount: MoneyView,
    pub reference: Seq<char>,
    pub authorized_by: Seq<char>,
    pub timestamp: u64,
}

impl DeepView for BalanceAdjustment {
    type V = BalanceAdjustmentView;

    open spec fn deep_view(&self) -> BalanceAdjustmentView {
        BalanceAdjustmentView {
            adjustment_id: self.adjustment_id@,
            account_id: self.account_id@,
            reason: self.reason,
            amount: self.amount.deep_view(),
            reference: self.reference@,
            authorized_by: self.authorized_by@,
            timestamp: self.timestamp,
        }
    }
}

/// A free-form administrative action worth keeping on the record.
#[derive(Debug)]
pub struct AuditLog {
    pub log_id: String,
    pub action: String,
    pub actor: String,
    pub resource: String,
    pub changes: String,
    pub ip_address: Option<String>,
    pub user_agent: Option<String>,
    pub timestamp: u64,
}

pub struct AuditLogView {
    pub log_id: Seq<char>,
    pub action: Seq<char>,
    pub actor: Seq<char>,
    pub resource: Seq<char>,
    pub changes: Seq<char>,
    pub ip_address: Option<Seq<char>>,
    pub user_agent: Option<Seq<char>>,
    pub timestamp: u64,
}

impl DeepView for AuditLog {
    type V = AuditLogView;

    open spec fn deep_view(&self) -> AuditLogView {
        AuditLogView {
            log_id: self.log_id@,
            action: self.action@,
            actor: self.actor@,
            resource: self.resource@,
            changes: self.changes@,
            ip_address: self.ip_address.deep_view(),
            user_agent: self.user_agent.deep_view(),
            timestamp: self.timestamp,
        }
    }
}

/// The closed set of events a ledger admits.
#[derive(Debug)]
pub enum LedgerEvent {
    FinancialTransaction(FinancialTransaction),
    ComplianceAlert(ComplianceAlert),
    AccountCreation(AccountCreation),
    BalanceAdjustment(BalanceAdjustment),
    AuditLog(AuditLog),
}

/// Mathematical content of a [`LedgerEvent`].
pub enum LedgerEventView {
    FinancialTransaction(FinancialTransactionView),
    ComplianceAlert(ComplianceAlertView),
    AccountCreation(AccountCreationView),
    BalanceAdjustment(BalanceAdjustmentView),
    AuditLog(AuditLogView),
}

impl DeepView for LedgerEvent {
    type V = LedgerEventView;

    open spec fn deep_view(&self) -> LedgerEventView {
        match self {
            LedgerEvent::FinancialTransaction(tx) => LedgerEventView::FinancialTransaction(
                tx.deep_view(),
            ),
            LedgerEvent::ComplianceAlert(alert) => LedgerEventView::ComplianceAlert(
                alert.deep_view(),
            ),
            LedgerEvent::AccountCreation(acct) => LedgerEventView::AccountCreation(
                acct.deep_view(),
            ),
            LedgerEvent::BalanceAdjustment(adj) => LedgerEventView::BalanceAdjustment(
                adj.deep_view(),
            ),
            LedgerEvent::AuditLog(log) => LedgerEventView::AuditLog(log.deep_view()),
        }
    }
}

/// Structural validity of an event: non-empty identifiers and valid money
/// for the variants that declare such constraints, trivially true for the
/// others.
pub open spec fn event_valid(e: LedgerEventView) -> bool {
    match e {
        LedgerEventView::FinancialTransaction(tx) => tx.transaction_id.len() > 0
            && money_valid(tx.amount),
        LedgerEventView::AccountCreation(acct) => acct.account_id.len() > 0 && money_valid(
            acct.initial_balance,
        ),
        _ => true,
    }
}

/// The stable entity identifier an event exposes for audit lookups.
pub open spec fn entity_id_of(e: LedgerEventView) -> Seq<char> {
    match e {
        LedgerEventView::FinancialTransaction(tx) => tx.transaction_id,
        LedgerEventView::ComplianceAlert(alert) => alert.alert_id,
        LedgerEventView::AccountCreation(acct) => acct.account_id,
        LedgerEventView::BalanceAdjustment(adj) => adj.adjustment_id,
        LedgerEventView::AuditLog(log) => log.log_id,
    }
}

/// The wire tag naming an event's variant.
pub open spec fn tag_of(e: LedgerEventView) -> Seq<char> {
    match e {
        LedgerEventView::FinancialTransaction(_) => "financial_transaction"@,
        LedgerEventView::ComplianceAlert(_) => "compliance_alert"@,
        LedgerEventView::AccountCreation(_) => "account_creation"@,
        LedgerEventView::BalanceAdjustment(_) => "balance_adjustment"@,
        LedgerEventView::AuditLog(_) => "audit_log"@,
    }
}

impl LedgerEvent {
    /// Structural validation. Returns `Ok` exactly on structurally valid
    /// events; the error text names the failing variant.
    pub fn validate(&self) -> (r: Result<(), String>)
        ensures
            r is Ok <==> event_valid(self.deep_view()),
    {
        match self {
            LedgerEvent::FinancialTransaction(tx) => {
                if tx.transaction_id.as_str().unicode_len() == 0 {
                    Err("financial transaction validation failed: empty transaction id".to_owned())
                } else if !money_is_valid(&tx.amount) {
                    Err("financial transaction validation failed: malformed amount".to_owned())
                } else {
                    Ok(())
                }
            },
            LedgerEvent::AccountCreation(acct) => {
                if acct.account_id.as_str().unicode_len() == 0 {
                    Err("account creation validation failed: empty account id".to_owned())
                } else if !money_is_valid(&acct.initial_balance) {
                    Err("account creation validation failed: malformed initial balance".to_owned())
                } else {
                    Ok(())
                }
            },
            _ => Ok(()),
        }
    }

    /// The stable entity identifier used for audit lookups.
    pub fn get_entity_id(&self) -> (r: String)
        ensures
            r@ == entity_id_of(self.deep_view()),
    {
        match self {
            LedgerEvent::FinancialTransaction(tx) => tx.transaction_id.clone(),
            LedgerEvent::ComplianceAlert(alert) => alert.alert_id.clone(),
            LedgerEvent::AccountCreation(acct) => acct.account_id.clone(),
            LedgerEvent::BalanceAdjustment(adj) => adj.adjustment_id.clone(),
            LedgerEvent::AuditLog(log) => log.log_id.clone(),
        }
    }

    /// The wire tag naming this event's variant.
    pub fn event_type_tag(&self) -> (r: &'static str)
        ensures
            r@ == tag_of(self.deep_view()),
    {
        match self {
            LedgerEvent::FinancialTransaction(_) => "financial_transaction",
            LedgerEvent::ComplianceAlert(_) => "compliance_alert",
            LedgerEvent::AccountCreation(_) => "account_creation",
            LedgerEvent::BalanceAdjustment(_) => "balance_adjustment",
            LedgerEvent::AuditLog(_) => "audit_log",
        }
    }
}

/// Clones a vector of strings, character for character.
fn clone_string_vec(v: &Vec<String>) -> (r: Vec<String>)
    ensures
        r.deep_view() == v.deep_view(),
{
    let r = v.clone();
    proof {
        assert forall|i: int| 0 <= i < r@.len() implies r@[i]@ == v@[i]@ by {
            assert(vstd::pervasive::cloned(v@[i], r@[i]));
        }
        assert(r.deep_view() =~= v.deep_view());
    }
    r
}

/// Clones an optional string.
fn clone_opt_string(v: &Option<String>) -> (r: Option<String>)
    ensures
        r.deep_view() == v.deep_view(),
{
    match v {
        Some(s) => Some(s.clone()),
        None => None,
    }
}

impl Clone for FinancialTransaction {
    fn clone(&self) -> (r: Self)
        ensures
            r.deep_view() == self.deep_view(),
    {
        FinancialTransaction {
            transaction_id: self.transaction_id.clone(),
            from_account: self.from_account.clone(),
            to_account: self.to_account.clone(),
            amount: self.amount.clone(),
            currency: self.currency.clone(),
            description: self.description.clone(),
            metadata: self.metadata.clone(),
            timestamp: self.timestamp,
            tags: clone_string_vec(&self.tags),
        }
    }
}

impl Clone for ComplianceAlert {
    fn clone(&self) -> (r: Self)
        ensures
            r.deep_view() == self.deep_view(),
    {
        ComplianceAlert {
            alert_id: self.alert_id.clone(),
            rule_id: self.rule_id.clone(),
            severity: self.severity,
            description: self.description.clone(),
            affected_entities: clone_string_vec(&self.affected_entities),
            evidence: self.evidence.clone(),
            timestamp: self.timestamp,
        }
    }
}

impl Clone for AccountCreation {
    fn clone(&self) -> (r: Self)
        ensures
            r.deep_view() == self.deep_view(),
    {
        AccountCreation {
            account_id: self.account_id.clone(),
            account_type: self.account_type,
            owner_id: self.owner_id.clone(),
            initial_balance: self.initial_balance.clone(),
            compliance_level: self.compliance_level,
            created_at: self.created_at,
            metadata: self.metadata.clone(),
        }
    }
}

impl Clone for BalanceAdjustment {
    fn clone(&self) -> (r: Self)
        ensures
            r.deep_view() == self.deep_view(),
    {
        BalanceAdjustment {
            adjustment_id: self.adjustment_id.clone(),
            account_id: self.account_id.clone(),
            reason: self.reason,
            amount: self.amount.clone(),
            reference: self.reference.clone(),
            authorized_by: self.authorized_by.clone(),
            timestamp: self.timestamp,
        }
    }
}

impl Clone for AuditLog {
    fn clone(&self) -> (r: Self)
        ensures
            r.deep_view() == self.deep_view(),
    {
        AuditLog {
            log_id: self.log_id.clone(),
            action: self.action.clone(),
            actor: self.actor.clone(),
            resource: self.resource.clone(),
            changes: self.changes.clone(),
            ip_address: clone_opt_string(&self.ip_address),
            user_agent: clone_opt_string(&self.user_agent),
            timestamp: self.timestamp,
        }
    }
}

impl Clone for LedgerEvent {
    fn clone(&self) -> (r: Self)
        ensures
            r.deep_view() == self.deep_view(),
    {
        match self {
            LedgerEvent::FinancialTransaction(tx) => LedgerEvent::FinancialTransaction(tx.clone()),
            LedgerEvent::ComplianceAlert(alert) => LedgerEvent::ComplianceAlert(alert.clone()),
            LedgerEvent::AccountCreation(acct) => LedgerEvent::AccountCreation(acct.clone()),
            LedgerEvent::BalanceAdjustment(adj) => LedgerEvent::BalanceAdjustment(adj.clone()),
            LedgerEvent::AuditLog(log) => LedgerEvent::AuditLog(log.clone()),
        }
    }
}

/// Whether a wire tag names one of the admitted event variants; any other
/// tag must be rejected rather than coerced.
pub open spec fn known_tag(tag: Seq<char>) -> bool {
    ||| tag == "financial_transaction"@
    ||| tag == "compliance_alert"@
    ||| tag == "account_creation"@
    ||| tag == "balance_adjustment"@
    ||| tag == "audit_log"@
}

/// Decides [`known_tag`], so that unknown or future tags are rejected.
pub fn tag_is_known(tag: &str) -> (r: bool)
    ensures
        r == known_tag(tag@),
{
    str_eq(tag, "financial_transaction") || str_eq(tag, "compliance_alert") || str_eq(
        tag,
        "account_creation",
    ) || str_eq(tag, "balance_adjustment") || str_eq(tag, "audit_log")
}

} // verus!
