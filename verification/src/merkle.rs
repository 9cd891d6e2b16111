//! The Merkle root over a chain's identity hashes: a binary tree built
//! bottom-up, duplicating the last hash of a level with an odd count. The
//! root summarizes the whole chain in one digest and uses the same digest
//! function as identity-hash computation.

use vstd::prelude::*;

use crate::digest::compute_digest;
use crate::digest::digest_of;
use crate::record::clone_bytes;

verus! {

/// The views of a sequence of hash vectors.
pub open spec fn hash_views(s: Seq<Vec<u8>>) -> Seq<Seq<u8>> {
    s.map_values(|v: Vec<u8>| v@)
}

/// One combining pass: adjacent hashes are paired and digested, an odd
/// trailing hash is paired with itself.
pub open spec fn merkle_level(l: Seq<Seq<u8>>) -> Seq<Seq<u8>> {
    Seq::new(
        ((l.len() + 1) / 2) as nat,
        |i: int|
            if 2 * i + 1 < l.len() {
                digest_of(l[2 * i] + l[2 * i + 1])
            } else {
                digest_of(l[2 * i] + l[2 * i])
            },
    )
}

/// The Merkle root of an ordered sequence of hashes: empty for an empty
/// sequence, the hash itself for a single hash, and otherwise the root of
/// the combined level above.
pub open spec fn merkle_root_of(l: Seq<Seq<u8>>) -> Seq<u8>
    decreases l.len(),
{
    if l.len() == 0 {
        Seq::empty()
    } else if l.len() == 1 {
        l[0]
    } else {
        merkle_root_of(merkle_level(l))
    }
}

/// Concatenation of two byte vectors.
fn concat_bytes(a: &Vec<u8>, b: &Vec<u8>) -> (r: Vec<u8>)
    ensures
        r@ == a@ + b@,
{
    let mut r = clone_bytes(a);
    r.extend_from_slice(b.as_slice());
    proof {
        assert forall|i: int| 0 <= i < r@.len() implies r@[i] == (a@ + b@)[i] by {
            if i >= a@.len() {
                assert(vstd::pervasive::cloned(b@[i - a@.len()], r@[i]));
            }
        }
        assert(r@ =~= a@ + b@);
    }
    r
}

/// Computes the Merkle root of the given hashes, bottom-up.
pub fn merkle_root(hashes: Vec<Vec<u8>>) -> (r: Vec<u8>)
    ensures
        r@ == merkle_root_of(hash_views(hashes@)),
{
    let ghost orig = hash_views(hashes@);
    if hashes.len() == 0 {
        let r: Vec<u8> = Vec::new();
        proof {
            assert(r@ =~= merkle_root_of(orig));
        }
        return r;
    }
    let mut level = hashes;
    while level.len() > 1
        invariant
            level@.len() >= 1,
            merkle_root_of(hash_views(level@)) == merkle_root_of(orig),
        decreases level@.len(),
    {
        let ghost lv = hash_views(level@);
        let mut next: Vec<Vec<u8>> = Vec::new();
        let n: usize = level.len();
        let pairs: usize = if n % 2 == 0 {
            n / 2
        } else {
            n / 2 + 1
        };
        proof {
            assert(pairs == (lv.len() + 1) / 2);
        }
        let mut k: usize = 0;
        while k < pairs
            invariant
                k <= pairs,
                n == level@.len(),
                pairs == (lv.len() + 1) / 2,
                level@.len() >= 2,
                lv == hash_views(level@),
                next@.len() == k,
                forall|j: int| 0 <= j < k ==> next@[j]@ == merkle_level(lv)[j],
            decreases pairs - k,
        {
            proof {
                assert(2 * k < n);
            }
            let combined: Vec<u8> = if 2 * k + 1 < level.len() {
                concat_bytes(&level[2 * k], &level[2 * k + 1])
            } else {
                concat_bytes(&level[2 * k], &level[2 * k])
            };
            let h = compute_digest(combined.as_slice());
            next.push(h);
            proof {
                assert(next@.last()@ == merkle_level(lv)[k as int]);
            }
            k += 1;
        }
        proof {
            assert(next@.len() == merkle_level(lv).len());
            assert(hash_views(next@) =~= merkle_level(lv));
            assert(merkle_root_of(merkle_level(lv)) == merkle_root_of(lv));
            assert(merkle_level(lv).len() < lv.len());
        }
        level = next;
    }
    let r = clone_bytes(&level[0]);
    proof {
        assert(hash_views(level@).len() == 1);
        assert(merkle_root_of(hash_views(level@)) == hash_views(level@)[0]);
        assert(r@ == merkle_root_of(orig));
    }
    r
}

} // verus!
