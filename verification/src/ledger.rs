//! The ledger core: the admission pipeline that turns candidate events into
//! permanent, ordered, tamper-evident records.
//!
//! `append_event` composes structural validation, policy evaluation against
//! a blocking severity threshold, digest computation linked to the current
//! latest hash, and the append, as one all-or-nothing decision. Appends and
//! seals take the ledger exclusively (`&mut self`), so no two appends can
//! observe the same latest hash and no append can slip past a seal: the
//! check of the sealed flag, the read of the latest hash and the append are
//! one atomic unit.

use vstd::prelude::*;

use crate::chain::VerificationReport;
use crate::chain::chain_ok;
use crate::chain::check_chain;
use crate::chain::record_ok;
use crate::clock::current_timestamp;
use crate::digest::compute_digest;
use crate::digest::digest_of;
use crate::encode::canonical_bytes;
use crate::encode::opt_bytes_view;
use crate::event::LedgerEvent;
use crate::event::entity_id_of;
use crate::event::event_valid;
use crate::merkle::hash_views;
use crate::merkle::merkle_root;
use crate::merkle::merkle_root_of;
use crate::record::LedgerRecord;
use crate::record::LedgerRecordView;
use crate::record::clone_bytes;
use crate::record::record_content_bytes;
use crate::rules::RuleSeverity;
use crate::rules::Violation;
use crate::rules::ViolationView;
use crate::rules::severity_at_least;
use crate::rules::severity_rank;
use crate::validator::ComplianceValidator;
use crate::validator::outcomes;

verus! {

/// The errors the ledger core reports. Structural and compliance failures
/// are deterministic and terminal for the single call that raised them; the
/// event is never persisted.
#[derive(Debug)]
pub enum LedgerError {
    /// A violation at or above the blocking threshold was detected; carries
    /// the full violation list for inspection.
    ComplianceViolation(Vec<Violation>),
    /// The storage collaborator failed; the chain state of that one
    /// operation is unspecified.
    StorageError(String),
    /// The event failed structural validation.
    ValidationError(String),
    /// An append was attempted on a sealed chain.
    LedgerSealed,
}

/// Whether any violation meets or exceeds the blocking threshold.
pub open spec fn blocks(vs: Seq<ViolationView>, threshold: RuleSeverity) -> bool {
    exists|i: int| 0 <= i < vs.len() && severity_rank(vs[i].severity) >= severity_rank(threshold)
}

/// Decides [`blocks`] over an aggregated violation list.
pub fn any_blocking(vs: &Vec<Violation>, threshold: RuleSeverity) -> (r: bool)
    ensures
        r == blocks(vs.deep_view(), threshold),
{
    let mut i: usize = 0;
    while i < vs.len()
        invariant
            i <= vs@.len(),
            forall|j: int|
                0 <= j < i ==> severity_rank(vs.deep_view()[j].severity) < severity_rank(
                    threshold,
                ),
        decreases vs@.len() - i,
    {
        if severity_at_least(vs[i].severity, threshold) {
            proof {
                assert(severity_rank(vs.deep_view()[i as int].severity) >= severity_rank(
                    threshold,
                ));
            }
            return true;
        }
        i += 1;
    }
    false
}

/// Whether a record passes the conjunctive audit-trail filters; an omitted
/// filter matches everything.
pub open spec fn record_matches(
    rv: LedgerRecordView,
    entity: Option<Seq<char>>,
    start_time: Option<u64>,
    end_time: Option<u64>,
) -> bool {
    &&& (entity matches Some(e) ==> entity_id_of(rv.event) == e)
    &&& (start_time matches Some(s) ==> rv.timestamp >= s)
    &&& (end_time matches Some(t) ==> rv.timestamp <= t)
}

/// The identity hashes of a chain's records, in append order.
pub open spec fn chain_hashes(rs: Seq<LedgerRecordView>) -> Seq<Seq<u8>> {
    rs.map_values(|r: LedgerRecordView| r.event_id)
}

/// A single chain of the ledger: its records in append order, the rule
/// engine that gates admission, the blocking threshold, and the sealed
/// flag. One value of this type is the single writer of its chain;
/// concurrent callers must share it behind exclusive access.
#[derive(Debug)]
pub struct DigitalLedger {
    pub records: Vec<LedgerRecord>,
    pub validator: ComplianceValidator,
    pub is_sealed: bool,
    pub chain_id: String,
    pub blocking_threshold: RuleSeverity,
}

impl DigitalLedger {
    /// Well-formedness: the stored records form a valid chain for this
    /// chain identifier, and the validator registry is sound.
    pub open spec fn wf(&self) -> bool {
        chain_ok(self.records.deep_view(), self.chain_id@) && self.validator.wf()
    }

    /// A new, active, empty chain gated by the given validator, blocking at
    /// severity `Error` by default.
    pub fn new(validator: ComplianceValidator, chain_id: String) -> (r: Self)
        requires
            validator.wf(),
        ensures
            r.wf(),
            r.records@.len() == 0,
            r.validator == validator,
            !r.is_sealed,
            r.chain_id@ == chain_id@,
            r.blocking_threshold == RuleSeverity::Error,
    {
        let r = DigitalLedger {
            records: Vec::new(),
            validator,
            is_sealed: false,
            chain_id,
            blocking_threshold: RuleSeverity::Error,
        };
        proof {
            assert(r.records.deep_view().len() == 0);
        }
        r
    }

    /// Configures the severity at or above which violations block
    /// admission.
    pub fn set_blocking_threshold(&mut self, threshold: RuleSeverity)
        ensures
            *final(self) == (DigitalLedger { blocking_threshold: threshold, ..*old(self) }),
    {
        self.blocking_threshold = threshold;
    }

    /// Screens and admits one event as one atomic decision.
    ///
    /// Fails with `LedgerSealed` on a sealed chain, with `ValidationError`
    /// on a structurally invalid event, and with `ComplianceViolation` —
    /// carrying every aggregated violation — when any violation reaches the
    /// blocking threshold. Otherwise it appends a record whose identity
    /// hash is the digest of the record's canonical content, linked to the
    /// previous record's hash, and returns that hash. On failure the ledger
    /// is unchanged.
    pub fn append_event(&mut self, event: LedgerEvent, metadata: Option<String>) -> (r: Result<
        Vec<u8>,
        LedgerError,
    >)
        requires
            old(self).wf(),
        ensures
            final(self).wf(),
            final(self).is_sealed == old(self).is_sealed,
            final(self).validator == old(self).validator,
            final(self).chain_id == old(self).chain_id,
            final(self).blocking_threshold == old(self).blocking_threshold,
            old(self).is_sealed ==> *final(self) == *old(self) && r == Err::<Vec<u8>, LedgerError>(
                LedgerError::LedgerSealed,
            ),
            !old(self).is_sealed && !event_valid(event.deep_view()) ==> {
                &&& *final(self) == *old(self)
                &&& r matches Err(e) && e is ValidationError
            },
            !old(self).is_sealed && event_valid(event.deep_view()) && blocks(
                outcomes(old(self).validator.rules@, event.deep_view()),
                old(self).blocking_threshold,
            ) ==> {
                &&& *final(self) == *old(self)
                &&& r matches Err(e) && e matches LedgerError::ComplianceViolation(vs)
                    && vs.deep_view() == outcomes(old(self).validator.rules@, event.deep_view())
            },
            !old(self).is_sealed && event_valid(event.deep_view()) && !blocks(
                outcomes(old(self).validator.rules@, event.deep_view()),
                old(self).blocking_threshold,
            ) ==> {
                let rs = final(self).records.deep_view();
                let new_rec = rs.last();
                &&& rs.len() == old(self).records.deep_view().len() + 1
                &&& rs.take(rs.len() - 1) == old(self).records.deep_view()
                &&& new_rec.event == event.deep_view()
                &&& new_rec.metadata == (if metadata is Some {
                    metadata->0@
                } else {
                    Seq::<char>::empty()
                })
                &&& new_rec.chain_id == old(self).chain_id@
                &&& new_rec.previous_hash == (if old(self).records@.len() == 0 {
                    None
                } else {
                    Some(old(self).records.deep_view().last().event_id)
                })
                &&& new_rec.signature is None
                &&& new_rec.event_id == digest_of(record_content_bytes(new_rec))
                &&& r matches Ok(h) && h@ == new_rec.event_id
            },
    {
        if self.is_sealed {
            return Err(LedgerError::LedgerSealed);
        }
        match event.validate() {
            Err(msg) => {
                return Err(LedgerError::ValidationError(msg));
            },
            Ok(_) => {},
        }
        let violations = self.validator.validate(&event);
        if any_blocking(&violations, self.blocking_threshold) {
            return Err(LedgerError::ComplianceViolation(violations));
        }
        let metadata_str: String = match metadata {
            Some(m) => m,
            None => String::new(),
        };
        let previous_hash: Option<Vec<u8>> = if self.records.len() == 0 {
            None
        } else {
            Some(clone_bytes(&self.records[self.records.len() - 1].event_id))
        };
        let timestamp = current_timestamp();
        let content = canonical_bytes(
            &event,
            &metadata_str,
            timestamp,
            &self.chain_id,
            &previous_hash,
        );
        let hash = compute_digest(content.as_slice());
        let record = LedgerRecord {
            event_id: clone_bytes(&hash),
            event,
            metadata: metadata_str,
            timestamp,
            previous_hash,
            chain_id: self.chain_id.clone(),
            signature: None,
        };
        let ghost old_rs = old(self).records.deep_view();
        let ghost rv = record.deep_view();
        self.records.push(record);
        proof {
            let rs = self.records.deep_view();
            assert(rs.len() == old_rs.len() + 1);
            assert(rs.take(rs.len() - 1) =~= old_rs);
            assert(rs.last() == rv);
            assert(rv.event_id == digest_of(record_content_bytes(rv)));
            assert(record_ok(rs, self.chain_id@, rs.len() - 1));
            assert forall|j: int| 0 <= j < rs.len() - 1 implies record_ok(
                rs,
                self.chain_id@,
                j,
            ) by {
                assert(record_ok(old_rs, self.chain_id@, j));
                assert(rs[j] == old_rs[j]);
                if j > 0 {
                    assert(rs[j - 1] == old_rs[j - 1]);
                }
            }
        }
        Ok(hash)
    }

    /// Seals the chain: a one-way, terminal transition after which every
    /// append fails with `LedgerSealed`. Sealing an already-sealed chain is
    /// a no-op, not an error.
    pub fn seal_ledger(&mut self)
        ensures
            *final(self) == (DigitalLedger { is_sealed: true, ..*old(self) }),
            old(self).is_sealed ==> *final(self) == *old(self),
    {
        self.is_sealed = true;
    }

    /// Runs chain verification over the full stored sequence: pass, or the
    /// first tamper point.
    pub fn verify_integrity(&self) -> (r: VerificationReport)
        ensures
            r is Valid <==> chain_ok(self.records.deep_view(), self.chain_id@),
            r matches VerificationReport::TamperedAt(i) ==> i < self.records@.len() && !record_ok(
                self.records.deep_view(),
                self.chain_id@,
                i as int,
            ) && forall|j: int|
                0 <= j < i ==> record_ok(self.records.deep_view(), self.chain_id@, j),
    {
        check_chain(&self.records, &self.chain_id)
    }

    /// Returns the records passing the given conjunctive filters, in append
    /// order; omitted filters match everything.
    pub fn get_audit_trail(
        &self,
        entity_id: Option<&str>,
        start_time: Option<u64>,
        end_time: Option<u64>,
    ) -> (r: Vec<LedgerRecord>)
        ensures
            r.deep_view() == self.records.deep_view().filter(
                |rv: LedgerRecordView|
                    record_matches(rv, entity_id.deep_view(), start_time, end_time),
            ),
    {
        let ghost pred = |rv: LedgerRecordView|
            record_matches(rv, entity_id.deep_view(), start_time, end_time);
        let mut out: Vec<LedgerRecord> = Vec::new();
        proof {
            reveal(Seq::filter);
            assert(self.records.deep_view().take(0) =~= Seq::<LedgerRecordView>::empty());
            assert(out.deep_view() =~= self.records.deep_view().take(0).filter(pred));
        }
        let mut i: usize = 0;
        while i < self.records.len()
            invariant
                i <= self.records@.len(),
                pred == (|rv: LedgerRecordView|
                    record_matches(rv, entity_id.deep_view(), start_time, end_time)),
                out.deep_view() == self.records.deep_view().take(i as int).filter(pred),
            decreases self.records@.len() - i,
        {
            let rec = &self.records[i];
            let entity_ok: bool = match entity_id {
                None => true,
                Some(eid) => {
                    let rid = rec.event.get_entity_id();
                    crate::strutil::str_eq(rid.as_str(), eid)
                },
            };
            let start_ok: bool = match start_time {
                None => true,
                Some(s) => rec.timestamp >= s,
            };
            let end_ok: bool = match end_time {
                None => true,
                Some(t) => rec.timestamp <= t,
            };
            let ghost pre = out.deep_view();
            if entity_ok && start_ok && end_ok {
                out.push(rec.clone());
                proof {
                    assert(pred(self.records.deep_view()[i as int]));
                    assert(out.deep_view() =~= pre + seq![self.records.deep_view()[i as int]]);
                }
            } else {
                proof {
                    assert(!pred(self.records.deep_view()[i as int]));
                }
            }
            proof {
                reveal(Seq::filter);
                let rs = self.records.deep_view();
                assert(rs.take(i + 1).drop_last() =~= rs.take(i as int));
                assert(rs.take(i + 1).last() == rs[i as int]);
                assert(out.deep_view() =~= rs.take(i + 1).filter(pred));
            }
            i += 1;
        }
        proof {
            assert(self.records.deep_view().take(self.records@.len() as int)
                =~= self.records.deep_view());
        }
        out
    }

    /// The current Merkle root over all identity hashes of the chain.
    pub fn get_merkle_root(&self) -> (r: Vec<u8>)
        ensures
            r@ == merkle_root_of(chain_hashes(self.records.deep_view())),
    {
        let mut hashes: Vec<Vec<u8>> = Vec::new();
        let mut i: usize = 0;
        while i < self.records.len()
            invariant
                i <= self.records@.len(),
                hashes@.len() == i,
                forall|j: int|
                    0 <= j < i ==> hashes@[j]@ == self.records.deep_view()[j].event_id,
            decreases self.records@.len() - i,
        {
            hashes.push(clone_bytes(&self.records[i].event_id));
            i += 1;
        }
        proof {
            assert(hash_views(hashes@) =~= chain_hashes(self.records.deep_view()));
        }
        merkle_root(hashes)
    }
}

} // verus!
