//! The miner-creation flow: the same build → identify → sign pipeline,
//! with the storage power actor as target and the miner-creation
//! parameter shape as message body.

use vstd::prelude::*;
use crate::address::Address;
use crate::error::ActorError;
use crate::ident::{cid_of, message_identifier};
use crate::keys::{KeyInfo, SignedMessage};
use crate::message::build_message;
use crate::signer::{key_valid_for, sign_message};
use crate::token::TokenAmount;
use fvm_shared::address::Address as WireAddress;
use fvm_shared::sector::RegisteredPoStProof as WireProof;
use fvm_ipld_encoding::RawBytes;

verus! {

/// The method number of the miner-creation method on the power actor.
pub const CREATE_MINER_METHOD: u64 = 2;

/// The DagCBOR encoding of the miner-creation parameter tuple: owner and
/// worker addresses, the proof type, the peer identity bytes, and the
/// sequence of multiaddress byte buffers.
pub uninterp spec fn create_miner_params_of(
    owner: Seq<u8>,
    worker: Seq<u8>,
    post_proof: i64,
    peer: Seq<u8>,
    multiaddrs: Seq<Seq<u8>>,
) -> Seq<u8>;

/// The multiaddress entry used when the caller supplies none: the ASCII
/// bytes of the string "peggy-miner".
pub open spec fn default_multiaddr() -> Seq<u8> {
    seq![112u8, 101u8, 103u8, 103u8, 121u8, 45u8, 109u8, 105u8, 110u8, 101u8, 114u8]
}

/// Relies on fvm_ipld_encoding::RawBytes::serialize over fvm_shared's
/// address and proof types: the DagCBOR encoding of the five-element
/// miner-creation tuple, with each address in its canonical bytes, the
/// proof type as its numeric tag, and peer and multiaddresses as byte
/// strings; a function of the inputs alone, total for well-formed
/// addresses (fvm_shared::address::Address::from_bytes accepts every byte
/// form that Address::wf admits).
#[verifier::external_body]
fn encode_create_miner_params(
    owner: &Address,
    worker: &Address,
    post_proof: i64,
    peer: &Vec<u8>,
    multiaddrs: &Vec<Vec<u8>>,
) -> (r: Vec<u8>)
    requires
        owner.wf(),
        worker.wf(),
    ensures
        r@ == create_miner_params_of(owner@, worker@, post_proof, peer@, multiaddrs.deep_view()),
{
    let ow = WireAddress::from_bytes(&owner.bytes).unwrap();
    let wo = WireAddress::from_bytes(&worker.bytes).unwrap();
    let proof_type = WireProof::from(post_proof);
    let peer_bytes = RawBytes::new(peer.clone());
    let ma: Vec<RawBytes> = multiaddrs.iter().map(|v: &Vec<u8>| RawBytes::new(v.clone())).collect();
    RawBytes::serialize((ow, wo, proof_type, peer_bytes, ma)).unwrap().into()
}

/// A storage-provider identity in the making: the key-holding owner, the
/// worker, the proof type the miner will post, its peer identity, and the
/// multiaddresses it will announce.  The sequence number is not part of
/// the state: the caller supplies it per call.
pub struct Miner {
    pub owner: Address,
    pub owner_key_info: KeyInfo,
    pub worker: Address,
    pub window_post_proof_type: i64,
    pub peer_id: Vec<u8>,
    pub miner_id: Option<Address>,
    pub multiaddrs: Option<Vec<Vec<u8>>>,
}

impl Miner {
    pub open spec fn wf(self) -> bool {
        self.owner.wf() && self.worker.wf()
    }

    /// The multiaddress buffers the flow announces: the caller's, or the
    /// single default entry when the caller supplied none.
    pub open spec fn effective_multiaddrs(self) -> Seq<Seq<u8>> {
        match self.multiaddrs {
            Some(v) => v.deep_view(),
            None => seq![default_multiaddr()],
        }
    }

    /// Build, identify and sign a miner-creation transaction: serialize
    /// the creation parameters, address the storage power actor with the
    /// creation method, zero value and the caller's sequence and gas
    /// terms, and sign with the owner's key.  Returns the envelope and
    /// the message identifier it is bound to; fails exactly when the
    /// owner's key material is invalid.
    pub fn create_miner(
        &self,
        sequence: u64,
        gas_limit: u64,
        gas_fee_cap: TokenAmount,
        gas_premium: TokenAmount,
    ) -> (r: Result<(SignedMessage, Vec<u8>), ActorError>)
        requires
            self.wf(),
        ensures
            (r is Ok) == key_valid_for(
                self.owner_key_info.sig_type,
                self.owner_key_info.private_key@,
            ),
            r matches Ok(p) ==> {
                let m = p.0.message@;
                &&& m.version == 0
                &&& m.to == seq![0u8, 4u8]
                &&& m.from == self.owner@
                &&& m.method_num == CREATE_MINER_METHOD
                &&& m.value_atto == 0
                &&& m.sequence == sequence
                &&& m.params == create_miner_params_of(
                    self.owner@,
                    self.worker@,
                    self.window_post_proof_type,
                    self.peer_id@,
                    self.effective_multiaddrs(),
                )
                &&& m.gas_limit == gas_limit
                &&& m.gas_fee_cap_atto == gas_fee_cap.atto
                &&& m.gas_premium_atto == gas_premium.atto
                &&& p.0.wf()
                &&& p.0.bound_to(self.owner_key_info)
                &&& p.1@ == cid_of(m)
            },
            r is Err ==> r->Err_0 == ActorError::CryptoError,
    {
        let params = match &self.multiaddrs {
            Some(ma) => {
                encode_create_miner_params(
                    &self.owner,
                    &self.worker,
                    self.window_post_proof_type,
                    &self.peer_id,
                    ma,
                )
            },
            None => {
                // the ASCII bytes of "peggy-miner"
                let tag: Vec<u8> = vec![112u8, 101u8, 103u8, 103u8, 121u8, 45u8, 109u8, 105u8, 110u8, 101u8, 114u8];
                let mut single: Vec<Vec<u8>> = Vec::new();
                single.push(tag);
                proof {
                    assert(single@.len() == 1);
                    assert(single@[0]@ =~= default_multiaddr());
                    assert(single@[0].deep_view() =~= single@[0]@);
                    assert(single.deep_view() =~= seq![default_multiaddr()]);
                }
                encode_create_miner_params(
                    &self.owner,
                    &self.worker,
                    self.window_post_proof_type,
                    &self.peer_id,
                    &single,
                )
            },
        };
        let msg = build_message(
            self.owner.duplicate(),
            Address::storage_power_actor(),
            CREATE_MINER_METHOD,
            params,
            TokenAmount::zero(),
            sequence,
            gas_limit,
            gas_fee_cap,
            gas_premium,
        );
        let message_cid = message_identifier(&msg);
        match sign_message(msg, &self.owner_key_info) {
            Ok(sm) => Ok((sm, message_cid)),
            Err(e) => Err(e),
        }
    }

    /// Changing the owner is not implemented; the call reports an empty
    /// result unconditionally.
    pub fn change_owner(&self) -> (r: Result<String, &'static str>)
        ensures
            r matches Ok(s) && s@ == Seq::<char>::empty(),
    {
        Ok(String::new())
    }
}

} // verus!
