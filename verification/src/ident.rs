//! The message identifier: a deterministic, content-addressed digest of a
//! chain message's canonical encoding, used as the signing target.
//!
//! The identifier is the version-1 content identifier (codec DagCBOR) that
//! carries the 32-byte BLAKE2b multihash of the message's canonical DagCBOR
//! encoding.  Each of the three steps is an outside computation that is a
//! function of its input alone; each is named below and the composition is
//! the identifier.

use vstd::prelude::*;
use crate::message::{ChainMessage, MessageModel};
use fvm_shared::address::Address as WireAddress;
use fvm_shared::econ::TokenAmount as WireToken;
use fvm_shared::message::Message as WireMessage;
use fvm_ipld_encoding::RawBytes;

verus! {

/// The canonical DagCBOR encoding of a message's field content.
pub uninterp spec fn message_cbor_of(m: MessageModel) -> Seq<u8>;

/// The 32-byte BLAKE2b digest of a byte sequence.
pub uninterp spec fn blake2b256_of(data: Seq<u8>) -> Seq<u8>;

/// The canonical bytes of the version-1 DagCBOR content identifier that
/// wraps a 32-byte BLAKE2b-256 multihash: the varints of version 1, codec
/// 0x71, hash code 0xb220 and length 32, then the digest itself.
pub open spec fn cid_v1_of(digest: Seq<u8>) -> Seq<u8> {
    seq![0x01u8, 0x71u8, 0xa0u8, 0xe4u8, 0x02u8, 0x20u8] + digest
}

/// The message identifier: the content identifier of the BLAKE2b digest of
/// the message's canonical encoding.  A function of the field content
/// alone, so messages of identical content have identical identifiers.
pub open spec fn cid_of(m: MessageModel) -> Seq<u8> {
    cid_v1_of(blake2b256_of(message_cbor_of(m)))
}

/// Relies on fvm_ipld_encoding::to_vec over fvm_shared::message::Message:
/// the canonical DagCBOR encoding of the message, a function of its field
/// content alone; and on fvm_shared::address::Address::from_bytes, which
/// accepts every byte form that Address::wf admits, so the encoding of a
/// well-formed message cannot fail.
#[verifier::external_body]
fn encode_message(m: &ChainMessage) -> (r: Vec<u8>)
    requires
        m.wf(),
    ensures
        r@ == message_cbor_of(m@),
{
    let msg = WireMessage {
        version: m.version,
        from: WireAddress::from_bytes(&m.from.bytes).unwrap(),
        to: WireAddress::from_bytes(&m.to.bytes).unwrap(),
        sequence: m.sequence,
        value: WireToken::from_atto(m.value.atto),
        method_num: m.method_num,
        params: RawBytes::new(m.params.clone()),
        gas_limit: m.gas_limit,
        gas_fee_cap: WireToken::from_atto(m.gas_fee_cap.atto),
        gas_premium: WireToken::from_atto(m.gas_premium.atto),
    };
    fvm_ipld_encoding::to_vec(&msg).unwrap()
}

/// Relies on blake2b_simd: the BLAKE2b digest with 32-byte output, a
/// function of the input bytes alone.
#[verifier::external_body]
pub(crate) fn blake2b_256(data: &Vec<u8>) -> (r: Vec<u8>)
    ensures
        r@ == blake2b256_of(data@),
        r@.len() == 32,
{
    let hash = blake2b_simd::Params::new().hash_length(32).hash(data.as_slice());
    hash.as_bytes().to_vec()
}

/// Relies on cid::Cid::new_v1, multihash::Multihash::wrap and
/// Cid::to_bytes: for a 32-byte digest they write exactly the varints of
/// version 1, codec 0x71 (DagCBOR), hash code 0xb220 (BLAKE2b-256) and
/// length 32, followed by the digest; total for 32-byte digests.
#[verifier::external_body]
fn cid_v1_dagcbor(digest: &Vec<u8>) -> (r: Vec<u8>)
    requires
        digest@.len() == 32,
    ensures
        r@ == cid_v1_of(digest@),
{
    let hash = cid::multihash::Multihash::wrap(0xb220, digest.as_slice()).unwrap();
    cid::Cid::new_v1(0x71, hash).to_bytes()
}

/// Compute the message identifier of a well-formed message: reproducible
/// across runs and machines, since every step depends on the field content
/// alone.
pub fn message_identifier(m: &ChainMessage) -> (r: Vec<u8>)
    requires
        m.wf(),
    ensures
        r@ == cid_of(m@),
{
    let enc = encode_message(m);
    let digest = blake2b_256(&enc);
    cid_v1_dagcbor(&digest)
}

/// Determinism of the identifier: messages with identical field content
/// have identical identifiers, on every run and every machine.
pub proof fn lemma_identifier_deterministic(m1: MessageModel, m2: MessageModel)
    requires
        m1 == m2,
    ensures
        cid_of(m1) == cid_of(m2),
{
}

} // verus!
