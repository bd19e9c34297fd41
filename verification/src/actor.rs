//! The actor installer: wrap compiled bytecode as install parameters,
//! drive it through the build → identify → sign pipeline targeting the
//! well-known installer actor, and decode the pool's structured return.
//!
//! Fetching sources, running the build toolchain and the network round
//! trip itself live outside this crate; the functions here take and return
//! plain values.

use vstd::prelude::*;
use vstd::string::StringExecFns;
use crate::address::Address;
use crate::error::ActorError;
use crate::ident::{cid_of, message_identifier};
use crate::keys::{KeyInfo, SignedMessage};
use crate::message::build_message;
use crate::signer::{key_valid_for, sign_message};
use crate::token::TokenAmount;

verus! {

/// The method number of the bytecode-install method on the installer actor.
pub const INSTALL_METHOD: u64 = 4;

/// The DagCBOR encoding of the install call's parameter tuple, which holds
/// the bytecode as its one byte string.
pub uninterp spec fn install_params_of(code: Seq<u8>) -> Seq<u8>;

/// The decoded install return: the installed code's identifier bytes and
/// the already-installed flag; `None` exactly for bytes that are not such
/// a tuple.
pub uninterp spec fn install_return_of(bytes: Seq<u8>) -> Option<(Seq<u8>, bool)>;

/// Relies on fvm_ipld_encoding::RawBytes::serialize: the DagCBOR encoding
/// of a one-element tuple holding the bytecode as a byte string — the
/// installer actor's parameter shape — a function of the bytecode alone,
/// and total.
#[verifier::external_body]
fn encode_install_params(code: &Vec<u8>) -> (r: Vec<u8>)
    ensures
        r@ == install_params_of(code@),
{
    let raw = fvm_ipld_encoding::RawBytes::new(code.clone());
    fvm_ipld_encoding::RawBytes::serialize((raw,)).unwrap().into()
}

/// Relies on fvm_ipld_encoding::from_slice: decoding the installer
/// actor's DagCBOR return tuple — a content identifier and a flag — a
/// function of the bytes alone, failing exactly on bytes that are not
/// such a tuple.
#[verifier::external_body]
fn decode_install_return(bytes: &Vec<u8>) -> (r: Option<(Vec<u8>, bool)>)
    ensures
        r is Some <==> install_return_of(bytes@) is Some,
        r matches Some(p) ==> (p.0@, p.1) == install_return_of(bytes@)->Some_0,
{
    match fvm_ipld_encoding::from_slice::<(cid::Cid, bool)>(bytes.as_slice()) {
        Ok((c, installed)) => Some((c.to_bytes(), installed)),
        Err(_) => None,
    }
}

/// What a successful install submission reports back.
#[derive(Clone, Debug)]
pub struct InstallResult {
    /// The identifier of the installed bytecode.
    pub code_cid: Vec<u8>,
    /// Whether that bytecode was already present on-chain.
    pub already_installed: bool,
}

/// Build, identify and sign an install transaction: wrap the bytecode as
/// the install parameters, address the well-known installer actor with the
/// install method and zero value, and sign the result with the caller's
/// key.  Returns the envelope and the message identifier it is bound to;
/// fails exactly when the key material is invalid.
pub fn install_request(
    code: Vec<u8>,
    from: Address,
    key: &KeyInfo,
    sequence: u64,
    gas_limit: u64,
    gas_fee_cap: TokenAmount,
    gas_premium: TokenAmount,
) -> (r: Result<(SignedMessage, Vec<u8>), ActorError>)
    requires
        from.wf(),
    ensures
        (r is Ok) == key_valid_for(key.sig_type, key.private_key@),
        r matches Ok(p) ==> {
            let m = p.0.message@;
            &&& m.version == 0
            &&& m.to == seq![0u8, 1u8]
            &&& m.from == from@
            &&& m.method_num == INSTALL_METHOD
            &&& m.value_atto == 0
            &&& m.sequence == sequence
            &&& m.params == install_params_of(code@)
            &&& m.gas_limit == gas_limit
            &&& m.gas_fee_cap_atto == gas_fee_cap.atto
            &&& m.gas_premium_atto == gas_premium.atto
            &&& p.0.wf()
            &&& p.0.bound_to(*key)
            &&& p.1@ == cid_of(m)
        },
        r is Err ==> r->Err_0 == ActorError::CryptoError,
{
    let params = encode_install_params(&code);
    let msg = build_message(
        from,
        Address::init_actor(),
        INSTALL_METHOD,
        params,
        TokenAmount::zero(),
        sequence,
        gas_limit,
        gas_fee_cap,
        gas_premium,
    );
    let message_cid = message_identifier(&msg);
    match sign_message(msg, key) {
        Ok(sm) => Ok((sm, message_cid)),
        Err(e) => Err(e),
    }
}

/// Decode the pool's structured return value for an install submission
/// into the installed code's identifier and the already-installed flag.
/// Succeeds exactly on bytes holding such a return; anything else is an
/// encoding failure.
pub fn install_response(ret: &Vec<u8>) -> (r: Result<InstallResult, ActorError>)
    ensures
        r is Ok <==> install_return_of(ret@) is Some,
        r matches Ok(ir) ==> (ir.code_cid@, ir.already_installed) == install_return_of(
            ret@,
        )->Some_0,
        r is Err ==> r->Err_0 == ActorError::EncodingError,
{
    match decode_install_return(ret) {
        Some(p) => {
            let (code_cid, already_installed) = p;
            Ok(InstallResult { code_cid, already_installed })
        },
        None => Err(ActorError::EncodingError),
    }
}

/// Where the build toolchain leaves the compiled bytecode of a crate of
/// the given name: the portable-target release directory under the source
/// directory.
pub fn wasm_artifact_path(target_dir: &str, crate_name: &str) -> (r: String)
    ensures
        r@ == target_dir@ + "/target/wasm32-unknown-unknown/release/"@ + crate_name@ + ".wasm"@,
{
    let mut out = String::from_str(target_dir);
    out.append("/target/wasm32-unknown-unknown/release/");
    out.append(crate_name);
    out.append(".wasm");
    out
}

} // verus!
