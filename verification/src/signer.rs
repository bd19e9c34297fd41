//! The signer: produce a signature over a message identifier with a held
//! key, and wrap message and signature into the submittable envelope.

use vstd::prelude::*;
use crate::error::ActorError;
use crate::ident::{blake2b256_of, blake2b_256, cid_of, message_identifier};
use crate::keys::{KeyInfo, Signature, SignatureType, SignedMessage};
use crate::message::ChainMessage;

verus! {

/// The 64 signature bytes and the recovery byte of the deterministic
/// ECDSA (secp256k1) signature over a 32-byte digest.
pub uninterp spec fn secp_sig_of(digest: Seq<u8>, key: Seq<u8>) -> (Seq<u8>, u8);

/// The bytes of the deterministic BLS signature over the data.
pub uninterp spec fn bls_sig_of(data: Seq<u8>, key: Seq<u8>) -> Seq<u8>;

/// Whether the bytes are a valid secp256k1 secret key: 32 bytes holding a
/// nonzero scalar below the curve order — a function of the bytes alone.
pub uninterp spec fn secp_key_valid(key: Seq<u8>) -> bool;

/// Whether the bytes are a valid BLS private key: 32 bytes holding a
/// canonical field element — a function of the bytes alone.
pub uninterp spec fn bls_key_valid(key: Seq<u8>) -> bool;

/// Whether the key bytes are valid for the algorithm the tag names; the
/// signing pipeline succeeds on exactly these keys.
pub open spec fn key_valid_for(t: SignatureType, key: Seq<u8>) -> bool {
    match t {
        SignatureType::Secp256k1 => secp_key_valid(key),
        SignatureType::Bls => bls_key_valid(key),
    }
}

/// The signature bytes the given key produces over the given data: for a
/// secp256k1 key the 65-byte recoverable form (signature then recovery
/// byte) over the 32-byte BLAKE2b digest of the data, for a BLS key the
/// signature over the data itself.
pub open spec fn signature_bytes_of(t: SignatureType, key: Seq<u8>, data: Seq<u8>) -> Seq<u8> {
    match t {
        SignatureType::Secp256k1 => secp_sig_of(blake2b256_of(data), key).0 + seq![
            secp_sig_of(blake2b256_of(data), key).1,
        ],
        SignatureType::Bls => bls_sig_of(data, key),
    }
}

/// Relies on libsecp256k1::sign: the deterministic (RFC 6979) ECDSA
/// signature and recovery identifier over a 32-byte digest, a function of
/// digest and key alone; and on SecretKey::parse_slice, which succeeds
/// exactly on valid secret key bytes (Message::parse_slice never fails on
/// 32 bytes).
#[verifier::external_body]
fn secp_sign(digest: &Vec<u8>, key: &Vec<u8>) -> (r: Result<(Vec<u8>, u8), ActorError>)
    requires
        digest@.len() == 32,
    ensures
        (r is Ok) == secp_key_valid(key@),
        r matches Ok(p) ==> (p.0@, p.1) == secp_sig_of(digest@, key@),
        r matches Ok(p) ==> p.0@.len() == 64,
        r is Err ==> r->Err_0 == ActorError::CryptoError,
{
    let msg = match libsecp256k1::Message::parse_slice(digest.as_slice()) {
        Ok(m) => m,
        Err(_) => return Err(ActorError::CryptoError),
    };
    let sk = match libsecp256k1::SecretKey::parse_slice(key.as_slice()) {
        Ok(k) => k,
        Err(_) => return Err(ActorError::CryptoError),
    };
    let (sig, rid) = libsecp256k1::sign(&msg, &sk);
    Ok((sig.serialize().to_vec(), rid.serialize()))
}

/// Relies on bls_signatures::PrivateKey::sign: the deterministic BLS
/// signature over the data, a function of data and key alone; and on
/// PrivateKey::from_bytes, which succeeds exactly on valid private key
/// bytes.
#[verifier::external_body]
fn bls_sign(data: &Vec<u8>, key: &Vec<u8>) -> (r: Result<Vec<u8>, ActorError>)
    ensures
        (r is Ok) == bls_key_valid(key@),
        r matches Ok(s) ==> s@ == bls_sig_of(data@, key@),
        r is Err ==> r->Err_0 == ActorError::CryptoError,
{
    let sk = match <bls_signatures::PrivateKey as bls_signatures::Serialize>::from_bytes(
        key.as_slice(),
    ) {
        Ok(k) => k,
        Err(_) => return Err(ActorError::CryptoError),
    };
    let sig = sk.sign(data.as_slice());
    Ok(bls_signatures::Serialize::as_bytes(&sig))
}

/// Sign the given data with the held key, using the algorithm its tag
/// names.  Succeeds exactly when the key material is valid for that
/// algorithm, and then the signature bytes are the ones that key produces
/// over that data — nothing else enters the computation.
pub fn sign_data(t: SignatureType, key: &Vec<u8>, data: &Vec<u8>) -> (r: Result<
    Signature,
    ActorError,
>)
    ensures
        (r is Ok) == key_valid_for(t, key@),
        r matches Ok(s) ==> s.sig_type == t && s.bytes@ == signature_bytes_of(t, key@, data@),
        r is Err ==> r->Err_0 == ActorError::CryptoError,
{
    match t {
        SignatureType::Secp256k1 => {
            let digest = blake2b_256(data);
            match secp_sign(&digest, key) {
                Ok(p) => {
                    let (mut bytes, rid) = p;
                    bytes.push(rid);
                    Ok(Signature { sig_type: t, bytes })
                },
                Err(e) => Err(e),
            }
        },
        SignatureType::Bls => {
            match bls_sign(data, key) {
                Ok(bytes) => Ok(Signature { sig_type: t, bytes }),
                Err(e) => Err(e),
            }
        },
    }
}

impl SignedMessage {
    /// Both addresses of the enclosed message hold canonical bytes.
    pub open spec fn wf(self) -> bool {
        self.message.wf()
    }

    /// The envelope's signature is exactly the one the given key produces
    /// over the identifier of the envelope's own message: altering any
    /// field of the message changes the identifier the signature is bound
    /// to.
    pub open spec fn bound_to(self, key: KeyInfo) -> bool {
        self.signature.sig_type == key.sig_type && self.signature.bytes@ == signature_bytes_of(
            key.sig_type,
            key.private_key@,
            cid_of(self.message@),
        )
    }
}

/// Sign a message's identifier and wrap message and signature into the
/// envelope.  The signature is computed over the identifier of exactly the
/// message stored beside it; the key is borrowed for this call alone and
/// no part of it is kept or returned.
pub fn sign_message(msg: ChainMessage, key: &KeyInfo) -> (r: Result<SignedMessage, ActorError>)
    requires
        msg.wf(),
    ensures
        (r is Ok) == key_valid_for(key.sig_type, key.private_key@),
        r matches Ok(sm) ==> sm.message == msg && sm.wf() && sm.bound_to(*key),
        r is Err ==> r->Err_0 == ActorError::CryptoError,
{
    let message_cid = message_identifier(&msg);
    match sign_data(key.sig_type, &key.private_key, &message_cid) {
        Ok(signature) => Ok(SignedMessage { message: msg, signature }),
        Err(e) => Err(e),
    }
}

/// Signature binding: envelopes bound to the same key over messages of
/// identical field content carry identical signature bytes, since the
/// signature depends only on the key and the message identifier.
pub proof fn lemma_signature_binding(sm1: SignedMessage, sm2: SignedMessage, key: KeyInfo)
    requires
        sm1.bound_to(key),
        sm2.bound_to(key),
        sm1.message@ == sm2.message@,
    ensures
        sm1.signature.bytes@ == sm2.signature.bytes@,
{
}

} // verus!
