//! Ledger records: the immutable entries a chain is made of. Once appended
//! a record is never updated or deleted; corrections are new events.

use vstd::prelude::*;

use crate::encode::canon_content;
use crate::encode::opt_bytes_view;
use crate::event::LedgerEvent;
use crate::event::LedgerEventView;

verus! {

/// One admitted entry of a chain: the event, caller metadata, the admission
/// timestamp, the chain identifier, the identity hash of the preceding
/// record (`None` for the first record), this record's own identity hash,
/// and an optional signature.
#[derive(Debug)]
pub struct LedgerRecord {
    pub event_id: Vec<u8>,
    pub event: LedgerEvent,
    pub metadata: String,
    pub timestamp: u64,
    pub previous_hash: Option<Vec<u8>>,
    pub chain_id: String,
    pub signature: Option<Vec<u8>>,
}

/// Mathematical content of a [`LedgerRecord`].
pub struct LedgerRecordView {
    pub event_id: Seq<u8>,
    pub event: LedgerEventView,
    pub metadata: Seq<char>,
    pub timestamp: u64,
    pub previous_hash: Option<Seq<u8>>,
    pub chain_id: Seq<char>,
    pub signature: Option<Seq<u8>>,
}

impl DeepView for LedgerRecord {
    type V = LedgerRecordView;

    open spec fn deep_view(&self) -> LedgerRecordView {
        LedgerRecordView {
            event_id: self.event_id@,
            event: self.event.deep_view(),
            metadata: self.metadata@,
            timestamp: self.timestamp,
            previous_hash: opt_bytes_view(self.previous_hash),
            chain_id: self.chain_id@,
            signature: opt_bytes_view(self.signature),
        }
    }
}

/// The canonical bytes of a record's logical content: everything but the
/// identity hash and the signature, which are not part of the digest input.
pub open spec fn record_content_bytes(r: LedgerRecordView) -> Seq<u8> {
    canon_content(r.event, r.metadata, r.timestamp, r.chain_id, r.previous_hash)
}

/// Clones a byte vector.
pub(crate) fn clone_bytes(v: &Vec<u8>) -> (r: Vec<u8>)
    ensures
        r@ == v@,
{
    let r = v.clone();
    proof {
        assert forall|i: int| 0 <= i < r@.len() implies r@[i] == v@[i] by {
            assert(vstd::pervasive::cloned(v@[i], r@[i]));
        }
        assert(r@ =~= v@);
    }
    r
}

/// Clones an optional byte vector.
pub(crate) fn clone_opt_bytes(v: &Option<Vec<u8>>) -> (r: Option<Vec<u8>>)
    ensures
        opt_bytes_view(r) == opt_bytes_view(*v),
{
    match v {
        Some(b) => Some(clone_bytes(b)),
        None => None,
    }
}

impl Clone for LedgerRecord {
    fn clone(&self) -> (r: Self)
        ensures
            r.deep_view() == self.deep_view(),
    {
        LedgerRecord {
            event_id: clone_bytes(&self.event_id),
            event: self.event.clone(),
            metadata: self.metadata.clone(),
            timestamp: self.timestamp,
            previous_hash: clone_opt_bytes(&self.previous_hash),
            chain_id: self.chain_id.clone(),
            signature: clone_opt_bytes(&self.signature),
        }
    }
}

} // verus!
