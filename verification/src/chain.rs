//! The hash-chain verification protocol: what it means for a sequence of
//! records to be an untampered chain, the checker that decides it and
//! reports the first tamper point, and the tamper-evidence laws.

use vstd::prelude::*;

use crate::digest::compute_digest;
use crate::digest::digest_of;
use crate::encode::canonical_bytes;
use crate::record::LedgerRecord;
use crate::record::LedgerRecordView;
use crate::record::record_content_bytes;
use crate::strutil::str_eq;

verus! {

/// Whether record `i` of the sequence is sound: it belongs to the chain,
/// its stored `previous_hash` is the identity hash of its immediate
/// predecessor (`None` for the first record), and its stored identity hash
/// is the digest of its own canonical content.
pub open spec fn record_ok(rs: Seq<LedgerRecordView>, chain_id: Seq<char>, i: int) -> bool
    recommends
        0 <= i < rs.len(),
{
    &&& rs[i].chain_id == chain_id
    &&& rs[i].previous_hash == if i == 0 {
        None
    } else {
        Some(rs[i - 1].event_id)
    }
    &&& rs[i].event_id == digest_of(record_content_bytes(rs[i]))
}

/// A valid chain: every record is sound.
pub open spec fn chain_ok(rs: Seq<LedgerRecordView>, chain_id: Seq<char>) -> bool {
    forall|i: int| 0 <= i < rs.len() ==> record_ok(rs, chain_id, i)
}

/// The outcome of chain verification: either the whole chain is valid, or
/// the index of the first record that fails its check.
#[derive(Clone, Copy, Debug, PartialEq, Eq, Structural)]
pub enum VerificationReport {
    Valid,
    TamperedAt(usize),
}

/// Byte-for-byte equality of two byte strings.
fn bytes_eq(a: &[u8], b: &[u8]) -> (r: bool)
    ensures
        r == (a@ == b@),
{
    if a.len() != b.len() {
        proof {
            assert(a@.len() != b@.len());
        }
        return false;
    }
    let mut i: usize = 0;
    while i < a.len()
        invariant
            i <= a@.len(),
            a@.len() == b@.len(),
            forall|j: int| 0 <= j < i ==> a@[j] == b@[j],
        decreases a@.len() - i,
    {
        if a[i] != b[i] {
            return false;
        }
        i += 1;
    }
    proof {
        assert(a@ =~= b@);
    }
    true
}

/// Runs the chain verification algorithm over the full ordered sequence:
/// recomputes every record's identity hash from its stored content and
/// checks the linkage to its predecessor. Returns `Valid` exactly when the
/// chain is valid, and otherwise the first record that fails.
pub fn check_chain(records: &Vec<LedgerRecord>, chain_id: &String) -> (r: VerificationReport)
    ensures
        r is Valid <==> chain_ok(records.deep_view(), chain_id@),
        r matches VerificationReport::TamperedAt(i) ==> i < records@.len() && !record_ok(
            records.deep_view(),
            chain_id@,
            i as int,
        ) && forall|j: int| 0 <= j < i ==> record_ok(records.deep_view(), chain_id@, j),
{
    let ghost rs = records.deep_view();
    let mut i: usize = 0;
    while i < records.len()
        invariant
            i <= records@.len(),
            rs == records.deep_view(),
            rs.len() == records@.len(),
            forall|j: int| 0 <= j < i ==> record_ok(rs, chain_id@, j),
        decreases records@.len() - i,
    {
        let rec = &records[i];
        let id_ok = str_eq(rec.chain_id.as_str(), chain_id.as_str());
        let link_ok: bool = if i == 0 {
            match &rec.previous_hash {
                None => true,
                Some(_) => false,
            }
        } else {
            match &rec.previous_hash {
                None => false,
                Some(ph) => bytes_eq(ph.as_slice(), records[i - 1].event_id.as_slice()),
            }
        };
        let content = canonical_bytes(
            &rec.event,
            &rec.metadata,
            rec.timestamp,
            &rec.chain_id,
            &rec.previous_hash,
        );
        let recomputed = compute_digest(content.as_slice());
        let hash_ok = bytes_eq(recomputed.as_slice(), rec.event_id.as_slice());
        if !(id_ok && link_ok && hash_ok) {
            proof {
                assert(!record_ok(rs, chain_id@, i as int));
            }
            return VerificationReport::TamperedAt(i);
        }
        proof {
            assert(record_ok(rs, chain_id@, i as int));
        }
        i += 1;
    }
    VerificationReport::Valid
}

/// Linkage of a valid chain: the first record has no predecessor hash, and
/// the `previous_hash` of every later record is the identity hash of the
/// record immediately before it.
pub proof fn lemma_chain_linkage(rs: Seq<LedgerRecordView>, chain_id: Seq<char>)
    requires
        chain_ok(rs, chain_id),
    ensures
        rs.len() > 0 ==> rs[0].previous_hash is None,
        forall|i: int| 0 < i < rs.len() ==> rs[i].previous_hash == Some(rs[i - 1].event_id),
{
    if rs.len() > 0 {
        assert(record_ok(rs, chain_id, 0));
    }
    assert forall|i: int| 0 < i < rs.len() implies rs[i].previous_hash == Some(
        rs[i - 1].event_id,
    ) by {
        assert(record_ok(rs, chain_id, i));
    }
}

/// Tamper evidence for content changes: replacing record `i` of a valid
/// chain with a record that keeps the stored identity hash but whose
/// content the digest distinguishes makes verification fail, and the first
/// record it reports is exactly `i`.
pub proof fn lemma_tamper_detected(
    rs: Seq<LedgerRecordView>,
    chain_id: Seq<char>,
    i: int,
    tampered: LedgerRecordView,
)
    requires
        chain_ok(rs, chain_id),
        0 <= i < rs.len(),
        tampered.event_id == rs[i].event_id,
        digest_of(record_content_bytes(tampered)) != digest_of(record_content_bytes(rs[i])),
    ensures
        !chain_ok(rs.update(i, tampered), chain_id),
        !record_ok(rs.update(i, tampered), chain_id, i),
        forall|j: int| 0 <= j < i ==> record_ok(rs.update(i, tampered), chain_id, j),
{
    let rs2 = rs.update(i, tampered);
    assert(record_ok(rs, chain_id, i));
    assert(rs[i].event_id == digest_of(record_content_bytes(rs[i])));
    assert(tampered.event_id != digest_of(record_content_bytes(tampered)));
    assert(!record_ok(rs2, chain_id, i));
    assert forall|j: int| 0 <= j < i implies record_ok(rs2, chain_id, j) by {
        assert(record_ok(rs, chain_id, j));
        assert(rs2[j] == rs[j]);
        if j > 0 {
            assert(rs2[j - 1] == rs[j - 1]);
        }
    }
}

/// Tamper evidence for identity-hash changes: replacing a record of a valid
/// chain with one whose identity hash differs breaks the chain, because the
/// next record's stored `previous_hash` no longer matches.
pub proof fn lemma_tamper_breaks_successor(
    rs: Seq<LedgerRecordView>,
    chain_id: Seq<char>,
    i: int,
    tampered: LedgerRecordView,
)
    requires
        chain_ok(rs, chain_id),
        0 <= i < rs.len() - 1,
        tampered.event_id != rs[i].event_id,
    ensures
        !record_ok(rs.update(i, tampered), chain_id, i + 1),
        !chain_ok(rs.update(i, tampered), chain_id),
{
    let rs2 = rs.update(i, tampered);
    assert(record_ok(rs, chain_id, i + 1));
    assert(rs[i + 1].previous_hash == Some(rs[i].event_id));
    assert(rs2[i + 1] == rs[i + 1]);
    assert(rs2[i + 1].previous_hash != Some(rs2[i].event_id));
    assert(!record_ok(rs2, chain_id, i + 1));
}

/// No forked chain: in a valid chain whose identity hashes are pairwise
/// distinct, no two records share a `previous_hash` value — every record
/// has its own predecessor.
pub proof fn lemma_no_forked_chain(rs: Seq<LedgerRecordView>, chain_id: Seq<char>)
    requires
        chain_ok(rs, chain_id),
        forall|i: int, j: int| 0 <= i < j < rs.len() ==> rs[i].event_id != rs[j].event_id,
    ensures
        forall|i: int, j: int| 0 <= i < j < rs.len() ==> rs[i].previous_hash != rs[j].previous_hash,
{
    assert forall|i: int, j: int| 0 <= i < j < rs.len() implies rs[i].previous_hash != rs[
        j
    ].previous_hash by {
        assert(record_ok(rs, chain_id, i));
        assert(record_ok(rs, chain_id, j));
        if i == 0 {
            assert(rs[i].previous_hash is None);
            assert(rs[j].previous_hash is Some);
        } else {
            assert(rs[i].previous_hash == Some(rs[i - 1].event_id));
            assert(rs[j].previous_hash == Some(rs[j - 1].event_id));
            assert(rs[i - 1].event_id != rs[j - 1].event_id);
        }
    }
}

} // verus!
