//! The unsigned chain message and its mathematical model.

use vstd::prelude::*;
use crate::address::Address;
use crate::token::TokenAmount;

verus! {

/// The field content of a chain message, at the specification level.
/// Two messages with equal models are the same message to every contract
/// of this crate, in particular to the identifier computation.
pub struct MessageModel {
    pub version: u64,
    pub to: Seq<u8>,
    pub from: Seq<u8>,
    pub sequence: u64,
    pub value_atto: u128,
    pub method_num: u64,
    pub params: Seq<u8>,
    pub gas_limit: u64,
    pub gas_fee_cap_atto: u128,
    pub gas_premium_atto: u128,
}

/// A structured, unsigned transaction description: sender, receiver,
/// method, value, nonce, opaque call parameters, and the three gas fields.
#[derive(Clone, Debug)]
pub struct ChainMessage {
    pub version: u64,
    pub to: Address,
    pub from: Address,
    pub sequence: u64,
    pub value: TokenAmount,
    pub method_num: u64,
    pub params: Vec<u8>,
    pub gas_limit: u64,
    pub gas_fee_cap: TokenAmount,
    pub gas_premium: TokenAmount,
}

impl View for ChainMessage {
    type V = MessageModel;

    open spec fn view(&self) -> MessageModel {
        MessageModel {
            version: self.version,
            to: self.to@,
            from: self.from@,
            sequence: self.sequence,
            value_atto: self.value.atto,
            method_num: self.method_num,
            params: self.params@,
            gas_limit: self.gas_limit,
            gas_fee_cap_atto: self.gas_fee_cap.atto,
            gas_premium_atto: self.gas_premium.atto,
        }
    }
}

impl ChainMessage {
    /// Every field is populated and both addresses hold canonical bytes,
    /// so the message has a canonical encoding.
    pub open spec fn wf(self) -> bool {
        self.to.wf() && self.from.wf()
    }
}

/// Assemble a chain message from a typed intent: every field of the result
/// is exactly the caller's input, and the protocol version is zero.  The
/// caller supplies the sequence number; this crate never allocates nonces.
pub fn build_message(
    from: Address,
    to: Address,
    method_num: u64,
    params: Vec<u8>,
    value: TokenAmount,
    sequence: u64,
    gas_limit: u64,
    gas_fee_cap: TokenAmount,
    gas_premium: TokenAmount,
) -> (r: ChainMessage)
    requires
        from.wf(),
        to.wf(),
    ensures
        r.wf(),
        r@ == (MessageModel {
            version: 0,
            to: to@,
            from: from@,
            sequence: sequence,
            value_atto: value.atto,
            method_num: method_num,
            params: params@,
            gas_limit: gas_limit,
            gas_fee_cap_atto: gas_fee_cap.atto,
            gas_premium_atto: gas_premium.atto,
        }),
{
    ChainMessage {
        version: 0,
        to,
        from,
        sequence,
        value,
        method_num,
        params,
        gas_limit,
        gas_fee_cap,
        gas_premium,
    }
}

} // verus!
