use peggy::actor::{install_request, install_response, wasm_artifact_path, INSTALL_METHOD};
use peggy::address::{uvarint_encode, Address};
use peggy::error::ActorError;
use peggy::ident::message_identifier;
use peggy::keys::{KeyInfo, SignatureType};
use peggy::message::build_message;
use peggy::miner::Miner;
use peggy::signer::sign_message;
use peggy::submit::{bytes_eq, submit_outcome, PushStatus};
use peggy::token::TokenAmount;

fn secp_key() -> KeyInfo {
    KeyInfo::new(SignatureType::Secp256k1, vec![1u8; 32])
}

fn sample_message(sequence: u64) -> peggy::message::ChainMessage {
    let from = Address::new_id(1000);
    let to = Address::new_id(1);
    build_message(
        from,
        to,
        4,
        vec![1, 2, 3],
        TokenAmount::zero(),
        sequence,
        1000000,
        TokenAmount::from_atto(100),
        TokenAmount::from_atto(99),
    )
}

fn secp_verifies(sig_bytes: &[u8], key: &[u8], data: &[u8]) -> bool {
    let digest = blake2b_simd::Params::new().hash_length(32).hash(data);
    let msg = libsecp256k1::Message::parse_slice(digest.as_bytes()).unwrap();
    let sig = libsecp256k1::Signature::parse_standard_slice(&sig_bytes[..64]).unwrap();
    let sk = libsecp256k1::SecretKey::parse_slice(key).unwrap();
    let pk = libsecp256k1::PublicKey::from_secret_key(&sk);
    libsecp256k1::verify(&msg, &sig, &pk)
}

#[test]
fn identifier_is_deterministic() {
    let m1 = sample_message(7);
    let m2 = sample_message(7);
    let c1 = message_identifier(&m1);
    let c2 = message_identifier(&m1);
    let c3 = message_identifier(&m2);
    assert_eq!(c1, c2);
    assert_eq!(c1, c3);
    // a version-1 identifier with the DagCBOR codec
    assert_eq!(c1[0], 0x01);
    assert_eq!(c1[1], 0x71);
    // the BLAKE2b-256 multihash: code 0xb220, length 32
    assert_eq!(c1[2], 0xa0);
    assert_eq!(c1[3], 0xe4);
    assert_eq!(c1[4], 0x02);
    assert_eq!(c1[5], 0x20);
    assert_eq!(c1.len(), 6 + 32);
}

#[test]
fn identifier_changes_with_content() {
    let c1 = message_identifier(&sample_message(7));
    let c2 = message_identifier(&sample_message(8));
    assert_ne!(c1, c2);
}

#[test]
fn signature_verifies_against_identifier() {
    let key = secp_key();
    let msg = sample_message(3);
    let cid = message_identifier(&msg);
    let sm = sign_message(msg, &key).unwrap();
    assert_eq!(sm.signature.sig_type, SignatureType::Secp256k1);
    assert_eq!(sm.signature.bytes.len(), 65);
    assert!(secp_verifies(&sm.signature.bytes, &key.private_key, &cid));
}

#[test]
fn signature_fails_after_alteration() {
    let key = secp_key();
    let msg = sample_message(3);
    let sm = sign_message(msg, &key).unwrap();
    // altering one field moves the identifier away from the signed one
    let altered = sample_message(4);
    let altered_cid = message_identifier(&altered);
    assert!(!secp_verifies(&sm.signature.bytes, &key.private_key, &altered_cid));
}

#[test]
fn bls_signature_verifies() {
    let key = KeyInfo::new(SignatureType::Bls, vec![1u8; 32]);
    let msg = sample_message(9);
    let cid = message_identifier(&msg);
    let sm = sign_message(msg, &key).unwrap();
    let sk = <bls_signatures::PrivateKey as bls_signatures::Serialize>::from_bytes(
        &key.private_key,
    )
    .unwrap();
    let sig = <bls_signatures::Signature as bls_signatures::Serialize>::from_bytes(
        &sm.signature.bytes,
    )
    .unwrap();
    assert!(sk.public_key().verify(sig, &cid));
}

#[test]
fn invalid_key_is_a_crypto_error() {
    // the zero scalar is not a valid secp256k1 secret key
    let key = KeyInfo::new(SignatureType::Secp256k1, vec![0u8; 32]);
    let msg = sample_message(1);
    match sign_message(msg, &key) {
        Err(ActorError::CryptoError) => {}
        other => panic!("expected a crypto error, got {:?}", other.map(|_| ())),
    }
    // a 31-byte buffer is not a valid BLS private key
    let key = KeyInfo::new(SignatureType::Bls, vec![1u8; 31]);
    let msg = sample_message(1);
    match sign_message(msg, &key) {
        Err(ActorError::CryptoError) => {}
        other => panic!("expected a crypto error, got {:?}", other.map(|_| ())),
    }
}

#[test]
fn round_trip_accepts_the_assigned_identifier() {
    let cid_bytes = message_identifier(&sample_message(2));
    let text = cid::Cid::try_from(&cid_bytes[..]).unwrap().to_string();
    let r = submit_outcome(&cid_bytes, &PushStatus::Assigned(text)).unwrap();
    assert_eq!(r, cid_bytes);
}

#[test]
fn round_trip_rejects_a_different_identifier() {
    let local = message_identifier(&sample_message(2));
    let other = message_identifier(&sample_message(5));
    let text = cid::Cid::try_from(&other[..]).unwrap().to_string();
    match submit_outcome(&local, &PushStatus::Assigned(text)) {
        Err(ActorError::RemoteError) => {}
        other => panic!("expected a remote error, got {:?}", other),
    }
}

#[test]
fn unreadable_assignment_is_an_encoding_error() {
    let local = message_identifier(&sample_message(2));
    let r = submit_outcome(&local, &PushStatus::Assigned(String::from("not a cid")));
    assert_eq!(r, Err(ActorError::EncodingError));
}

#[test]
fn transport_failure_keeps_its_category_and_nothing_changes() {
    let key = secp_key();
    let msg = sample_message(6);
    let sm = sign_message(msg, &key).unwrap();
    let cid1 = message_identifier(&sm.message);
    let r = submit_outcome(&cid1, &PushStatus::Unreachable);
    assert_eq!(r, Err(ActorError::TransportError));
    assert!(r.unwrap_err().is_retryable());
    // retrying with the same inputs reproduces the same identifier
    let cid2 = message_identifier(&sm.message);
    assert_eq!(cid1, cid2);
    assert!(!ActorError::RemoteError.is_retryable());
    assert!(!ActorError::EncodingError.is_retryable());
    assert!(!ActorError::CryptoError.is_retryable());
    assert!(!ActorError::CommonError.is_retryable());
}

#[test]
fn refusal_is_a_remote_error() {
    let local = message_identifier(&sample_message(2));
    assert_eq!(
        submit_outcome(&local, &PushStatus::Refused),
        Err(ActorError::RemoteError)
    );
}

#[test]
fn install_request_builds_the_expected_message() {
    let key = secp_key();
    let from = Address::new_id(1000);
    let code: Vec<u8> = vec![0, 97, 115, 109, 1, 0, 0, 0]; // b"\0asm" and a version
    let (sm, cid_bytes) = install_request(
        code.clone(),
        from,
        &key,
        11,
        2000000,
        TokenAmount::from_atto(101137),
        TokenAmount::from_atto(100083),
    )
    .unwrap();
    // target: the well-known installer actor, identifier 1
    assert_eq!(sm.message.to.bytes, vec![0u8, 1u8]);
    assert_eq!(sm.message.from.bytes, vec![0u8, 0xe8, 0x07]);
    assert_eq!(sm.message.method_num, INSTALL_METHOD);
    assert_eq!(sm.message.method_num, 4);
    assert_eq!(sm.message.value.atto, 0);
    assert_eq!(sm.message.sequence, 11);
    // the params are the serialized wrapped bytecode
    let raw = fvm_ipld_encoding::RawBytes::new(code);
    let expected: Vec<u8> = fvm_ipld_encoding::RawBytes::serialize((raw,))
        .unwrap()
        .into();
    assert_eq!(sm.message.params, expected);
    // the envelope's signature verifies against this message's identifier
    assert_eq!(cid_bytes, message_identifier(&sm.message));
    assert!(secp_verifies(&sm.signature.bytes, &key.private_key, &cid_bytes));
}

#[test]
fn install_response_reports_the_flag() {
    let code_cid = cid::Cid::try_from(&message_identifier(&sample_message(1))[..]).unwrap();
    let already = fvm_ipld_encoding::to_vec(&(code_cid, true)).unwrap();
    let fresh = fvm_ipld_encoding::to_vec(&(code_cid, false)).unwrap();
    let r1 = install_response(&already).unwrap();
    let r2 = install_response(&fresh).unwrap();
    assert!(r1.already_installed);
    assert!(!r2.already_installed);
    assert_eq!(r1.code_cid, code_cid.to_bytes());
    assert_eq!(r1.code_cid, r2.code_cid);
}

#[test]
fn install_response_rejects_junk() {
    let junk: Vec<u8> = vec![0xff, 0x00, 0x13];
    assert!(matches!(
        install_response(&junk),
        Err(ActorError::EncodingError)
    ));
}

#[test]
fn create_miner_builds_the_expected_message() {
    let miner = Miner {
        owner: Address::new_id(1000),
        owner_key_info: secp_key(),
        worker: Address::new_id(1001),
        window_post_proof_type: 8,
        peer_id: vec![0x12, 0x20, 7, 7],
        miner_id: None,
        multiaddrs: None,
    };
    let (sm, cid_bytes) = miner
        .create_miner(
            0,
            32932877,
            TokenAmount::from_atto(101137),
            TokenAmount::from_atto(100083),
        )
        .unwrap();
    // target: the well-known storage power actor, identifier 4
    assert_eq!(sm.message.to.bytes, vec![0u8, 4u8]);
    assert_eq!(sm.message.method_num, 2);
    assert_eq!(sm.message.value.atto, 0);
    assert_eq!(sm.message.gas_limit, 32932877);
    assert_eq!(sm.message.gas_fee_cap.atto, 101137);
    assert_eq!(sm.message.gas_premium.atto, 100083);
    // the default multiaddress entry is the ASCII bytes of "peggy-miner"
    let owner = fvm_shared::address::Address::new_id(1000);
    let worker = fvm_shared::address::Address::new_id(1001);
    let proof_type = fvm_shared::sector::RegisteredPoStProof::from(8);
    let peer = fvm_ipld_encoding::RawBytes::new(vec![0x12, 0x20, 7, 7]);
    let ma = vec![fvm_ipld_encoding::RawBytes::new(b"peggy-miner".to_vec())];
    let expected: Vec<u8> =
        fvm_ipld_encoding::RawBytes::serialize((owner, worker, proof_type, peer, ma))
            .unwrap()
            .into();
    assert_eq!(sm.message.params, expected);
    assert_eq!(cid_bytes, message_identifier(&sm.message));
    assert!(secp_verifies(
        &sm.signature.bytes,
        &miner.owner_key_info.private_key,
        &cid_bytes
    ));
}

#[test]
fn change_owner_reports_an_empty_result() {
    let miner = Miner {
        owner: Address::new_id(1),
        owner_key_info: secp_key(),
        worker: Address::new_id(2),
        window_post_proof_type: 8,
        peer_id: vec![],
        miner_id: None,
        multiaddrs: None,
    };
    assert_eq!(miner.change_owner(), Ok(String::new()));
}

#[test]
fn addresses_encode_and_compare_by_content() {
    assert_eq!(Address::new_id(1).bytes, vec![0u8, 1u8]);
    assert_eq!(Address::new_id(300).bytes, vec![0u8, 0xac, 0x02]);
    assert_eq!(uvarint_encode(0), vec![0u8]);
    assert_eq!(uvarint_encode(u64::MAX).len(), 10);
    let a = Address::new_id(42);
    let b = Address::new_id(42);
    let c = Address::new_id(43);
    assert!(a.same(&b));
    assert!(!a.same(&c));
    assert!(a.same(&a.duplicate()));
    let k = Address::new_key(1, vec![9u8; 20]).unwrap();
    assert_eq!(k.bytes[0], 1);
    assert_eq!(k.bytes.len(), 21);
    assert!(matches!(
        Address::new_key(1, vec![9u8; 19]),
        Err(ActorError::EncodingError)
    ));
    assert!(matches!(
        Address::new_key(7, vec![9u8; 20]),
        Err(ActorError::EncodingError)
    ));
    // the crate's addresses parse as wire addresses
    assert!(fvm_shared::address::Address::from_bytes(&k.bytes).is_ok());
    assert!(fvm_shared::address::Address::from_bytes(&Address::new_id(u64::MAX).bytes).is_ok());
}

#[test]
fn well_formedness_check_matches_the_encodings() {
    assert!(Address::new_id(0).check_wf());
    assert!(Address::new_id(1).check_wf());
    assert!(Address::new_id(u64::MAX).check_wf());
    assert!(Address::new_key(1, vec![9u8; 20]).unwrap().check_wf());
    assert!(Address::new_key(3, vec![9u8; 48]).unwrap().check_wf());
    let mut max_id = vec![0u8];
    max_id.extend(uvarint_encode(u64::MAX));
    assert!(Address { bytes: max_id }.check_wf());
    // too short, unknown protocol, wrong payload length
    assert!(!Address { bytes: vec![] }.check_wf());
    assert!(!Address { bytes: vec![0u8] }.check_wf());
    assert!(!Address { bytes: vec![5u8, 1u8] }.check_wf());
    assert!(!Address { bytes: vec![1u8; 20] }.check_wf());
    // truncated, unterminated, non-minimal, and oversized varints
    assert!(!Address { bytes: vec![0u8, 0x80] }.check_wf());
    assert!(!Address { bytes: vec![0u8, 0x80, 0x80] }.check_wf());
    assert!(!Address { bytes: vec![0u8, 0x80, 0x00] }.check_wf());
    let mut wide = vec![0u8];
    wide.extend(vec![0x80u8; 10]);
    wide.push(0x01);
    assert!(!Address { bytes: wide }.check_wf());
    let mut over = vec![0u8];
    over.extend(vec![0x80u8; 9]);
    over.push(0x02); // the tenth group may hold one bit at most
    assert!(!Address { bytes: over }.check_wf());
}

#[test]
fn delegated_addresses_encode_and_check() {
    // namespace 10, four subaddress bytes: the form of an f4 address
    let d = Address::new_delegated(10, vec![1, 2, 3, 4]).unwrap();
    assert_eq!(d.bytes, vec![4u8, 10, 1, 2, 3, 4]);
    assert!(d.check_wf());
    assert!(fvm_shared::address::Address::from_bytes(&d.bytes).is_ok());
    let wide_ns = Address::new_delegated(u64::MAX, vec![9u8; 54]).unwrap();
    assert!(wide_ns.check_wf());
    assert!(fvm_shared::address::Address::from_bytes(&wide_ns.bytes).is_ok());
    // an empty subaddress is allowed
    let bare = Address::new_delegated(7, vec![]).unwrap();
    assert_eq!(bare.bytes, vec![4u8, 7]);
    assert!(bare.check_wf());
    // a subaddress of 55 bytes is rejected
    assert!(matches!(
        Address::new_delegated(1, vec![0u8; 55]),
        Err(ActorError::EncodingError)
    ));
    let mut long = vec![4u8, 1];
    long.extend(vec![0u8; 55]);
    assert!(!Address { bytes: long }.check_wf());
    // an unterminated namespace varint is rejected
    assert!(!Address { bytes: vec![4u8, 0x80, 0x80] }.check_wf());
    // a delegated sender passes the pipeline's precondition
    let key = secp_key();
    let from = Address::new_delegated(10, vec![1, 2, 3, 4]).unwrap();
    let r = install_request(
        vec![0, 97, 115, 109],
        from,
        &key,
        0,
        1000000,
        TokenAmount::zero(),
        TokenAmount::zero(),
    );
    assert!(r.is_ok());
}

#[test]
fn artifact_path_is_the_release_wasm_file() {
    let p = wasm_artifact_path("/tmp/src", "peggy_actor");
    assert_eq!(
        p,
        "/tmp/src/target/wasm32-unknown-unknown/release/peggy_actor.wasm"
    );
}

#[test]
fn byte_equality_is_by_content() {
    assert!(bytes_eq(&vec![1, 2], &vec![1, 2]));
    assert!(!bytes_eq(&vec![1, 2], &vec![1, 3]));
    assert!(!bytes_eq(&vec![1, 2], &vec![1, 2, 3]));
}
