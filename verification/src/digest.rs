//! The identifier of a discovery: a digest of the fields it was submitted
//! with.

use crate::types::{AccountId, BlockNumber, DiscoveryId};
use vstd::prelude::*;

verus! {

/// The 32 bytes of the BLAKE2b-256 digest of the SCALE encoding of the tuple
/// `(miner, work_type, difficulty, result, proof_of_work, quantum_security,
/// timestamp)`.
pub uninterp spec fn discovery_digest(
    miner: u64,
    work_type: Seq<u8>,
    difficulty: u32,
    result: Seq<u8>,
    proof_of_work: Seq<u8>,
    quantum_security: u32,
    timestamp: u64,
) -> Seq<u8>;

/// The largest length of a byte string that can be encoded: the encoding
/// prefixes a byte string with its length as a 32-bit number.
pub const MAX_ENCODED_LEN: usize = 0xFFFF_FFFF;

/// Whether the three byte strings of a submission can be encoded.
pub open spec fn encodable(work_type: Seq<u8>, result: Seq<u8>, proof_of_work: Seq<u8>) -> bool {
    &&& work_type.len() <= MAX_ENCODED_LEN
    &&& result.len() <= MAX_ENCODED_LEN
    &&& proof_of_work.len() <= MAX_ENCODED_LEN
}

/// Calls `sp_runtime::traits::Hash::hash_of` of `BlakeTwo256` on the tuple of
/// the seven fields. Trusted: the call encodes the tuple and hashes the
/// bytes, so its result depends on the field values alone; the encoder
/// panics on a byte string longer than `MAX_ENCODED_LEN`, which the
/// precondition leaves out.
#[verifier::external_body]
pub(crate) fn hash_discovery(
    miner: AccountId,
    work_type: &Vec<u8>,
    difficulty: u32,
    result: &Vec<u8>,
    proof_of_work: &Vec<u8>,
    quantum_security: u32,
    timestamp: BlockNumber,
) -> (id: DiscoveryId)
    requires
        encodable(work_type@, result@, proof_of_work@),
    ensures
        id@ == discovery_digest(
            miner,
            work_type@,
            difficulty,
            result@,
            proof_of_work@,
            quantum_security,
            timestamp,
        ),
{
    <sp_runtime::traits::BlakeTwo256 as sp_runtime::traits::Hash>::hash_of(
        &(&miner, work_type, &difficulty, result, proof_of_work, &quantum_security, &timestamp),
    ).0
}

} // verus!
