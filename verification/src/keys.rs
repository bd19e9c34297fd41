//! Key material, signatures, and the signed envelope.

use vstd::prelude::*;
use crate::message::ChainMessage;

verus! {

/// The signature algorithm a key belongs to.
#[derive(Clone, Copy, Debug, PartialEq, Eq, Structural)]
pub enum SignatureType {
    Secp256k1,
    Bls,
}

/// A held private key: its algorithm tag and its raw bytes.  The pipeline
/// borrows it for the duration of one signing call and never stores it.
#[derive(Clone, Debug)]
pub struct KeyInfo {
    pub sig_type: SignatureType,
    pub private_key: Vec<u8>,
}

impl KeyInfo {
    pub fn new(sig_type: SignatureType, private_key: Vec<u8>) -> (r: KeyInfo)
        ensures
            r.sig_type == sig_type,
            r.private_key@ == private_key@,
    {
        KeyInfo { sig_type, private_key }
    }
}

/// A signature: the algorithm that produced it and its raw bytes.
#[derive(Clone, Debug)]
pub struct Signature {
    pub sig_type: SignatureType,
    pub bytes: Vec<u8>,
}

/// A chain message together with the one signature bound to it; immutable
/// once constructed, and the unit actually transmitted to the network.
#[derive(Clone, Debug)]
pub struct SignedMessage {
    pub message: ChainMessage,
    pub signature: Signature,
}

} // verus!
