use mpc_proxy::contract::{complete_signing, prepare_signing, Contract, FuncInput, KEY_VERSION};
use mpc_proxy::signature::{decode_component, reconstruct, KeyScheme, ReconstructedSignature, SignError};
use mpc_proxy::signer::{SignRequest, SignResult};
use mpc_proxy::transaction::{
    assemble, build, encode, hash_payload, signing_digest, Action, ActionRequest, PublicKey,
    TransactionRequest, UnsignedTransaction,
};
use sha2::{Digest, Sha256};

const SECP_KEY: &str = "secp256k1:3bTpKQ4f3xW1H5VkJrPSLffYiw5XwKMyRsfEqQViakTkUG9N5U2HqfpT3UGsJ93cRURdEYfA4J4wmdLcsUEnT7wx";
const ED_KEY: &str = "ed25519:6E8sCci9badyRkXb3JoRpBj5p8C6Tw41ELDZoiihKEtp";
const BLOCK: &str = "4reLvkAWfqk5fsqio1KLudk46cqRz9erQdaHkWZKMJDZ";

fn request(signer: &str, key: &str, nonce: u64, actions: Vec<ActionRequest>) -> TransactionRequest {
    TransactionRequest {
        signer_id: signer.to_string(),
        signer_public_key: key.to_string(),
        nonce,
        receiver_id: signer.to_string(),
        block_hash: BLOCK.to_string(),
        actions,
    }
}

fn transfer(amount: u128) -> Vec<ActionRequest> {
    vec![ActionRequest::Transfer { amount }]
}

fn big_r_hex(prefix: u8, fill: u8) -> String {
    let mut s = format!("{:02x}", prefix);
    for _ in 0..32 {
        s.push_str(&format!("{:02x}", fill));
    }
    s
}

fn scalar_hex(fill: u8) -> String {
    let mut s = String::new();
    for _ in 0..32 {
        s.push_str(&format!("{:02x}", fill));
    }
    s
}

#[test]
fn decode_component_reads_pairs() {
    assert_eq!(decode_component("0aFf").unwrap(), vec![0x0a, 0xff]);
    assert_eq!(decode_component("").unwrap(), Vec::<u8>::new());
}

#[test]
fn decode_component_rejects_odd_and_bad_digits() {
    assert_eq!(decode_component("abc"), Err(SignError::MalformedHex));
    assert_eq!(decode_component("zz"), Err(SignError::MalformedHex));
    assert_eq!(decode_component("é0"), Err(SignError::MalformedHex));
}

#[test]
fn reconstruct_secp256k1_layout() {
    let sig = reconstruct(&big_r_hex(0x03, 0x11), &scalar_hex(0x22), KeyScheme::Secp256k1).unwrap();
    let bytes = sig.to_bytes();
    assert_eq!(bytes.len(), 65);
    assert_eq!(&bytes[..32], &[0x11u8; 32][..]);
    assert_eq!(&bytes[32..64], &[0x22u8; 32][..]);
    assert_eq!(bytes[64], 0x03);
    assert_eq!(sig.scheme(), KeyScheme::Secp256k1);
}

#[test]
fn reconstruct_ed25519_concatenates() {
    let sig = reconstruct(&scalar_hex(0x33), &scalar_hex(0x44), KeyScheme::Ed25519).unwrap();
    let mut expected = vec![0x33u8; 32];
    expected.extend_from_slice(&[0x44u8; 32]);
    assert_eq!(sig.to_bytes(), expected);
    assert_eq!(sig, ReconstructedSignature::Ed25519 { r: vec![0x33; 32], s: vec![0x44; 32] });
}

#[test]
fn reconstruct_length_mismatch() {
    assert_eq!(
        reconstruct(&scalar_hex(0x11), &scalar_hex(0x22), KeyScheme::Secp256k1),
        Err(SignError::LengthMismatch)
    );
    assert_eq!(
        reconstruct(&big_r_hex(0x02, 0x11), &scalar_hex(0x22), KeyScheme::Ed25519),
        Err(SignError::LengthMismatch)
    );
    assert_eq!(
        reconstruct(&big_r_hex(0x02, 0x11), "2222", KeyScheme::Secp256k1),
        Err(SignError::LengthMismatch)
    );
}

#[test]
fn reconstruct_malformed_hex_in_either_component() {
    assert_eq!(reconstruct("abc", &scalar_hex(0x22), KeyScheme::Secp256k1), Err(SignError::MalformedHex));
    assert_eq!(reconstruct(&big_r_hex(0x02, 0x11), "abc", KeyScheme::Secp256k1), Err(SignError::MalformedHex));
    assert_eq!(reconstruct("abc", "abc", KeyScheme::Ed25519), Err(SignError::MalformedHex));
}

#[test]
fn build_parses_fields() {
    let tx = build(&request("alice.test", SECP_KEY, 5, transfer(1))).unwrap();
    assert_eq!(tx.signer_id, "alice.test");
    assert_eq!(tx.receiver_id, "alice.test");
    assert_eq!(tx.nonce, 5);
    assert!(matches!(tx.signer_public_key, PublicKey::Secp256k1(_)));
    assert_eq!(tx.actions, vec![Action::Transfer { amount: 1 }]);
    let ed = build(&request("bob.test", ED_KEY, 1, vec![ActionRequest::AddFullAccessKey { new_public_key: SECP_KEY.to_string() }])).unwrap();
    assert!(matches!(ed.signer_public_key, PublicKey::Ed25519(_)));
    assert!(matches!(ed.actions[0], Action::AddFullAccessKey { new_public_key: PublicKey::Secp256k1(_) }));
}

#[test]
fn build_invalid_identity() {
    assert_eq!(build(&request("alice.test", "rsa:abc", 5, transfer(1))), Err(SignError::InvalidIdentity));
    assert_eq!(build(&request("Alice!!", SECP_KEY, 5, transfer(1))), Err(SignError::InvalidIdentity));
    let bad_action = vec![ActionRequest::AddFullAccessKey { new_public_key: "ed25519:0OIl".to_string() }];
    assert_eq!(build(&request("alice.test", SECP_KEY, 5, bad_action)), Err(SignError::InvalidIdentity));
}

#[test]
fn build_invalid_block_reference() {
    let mut req = request("alice.test", SECP_KEY, 5, transfer(1));
    req.block_hash = "0OIl".to_string();
    assert_eq!(build(&req), Err(SignError::InvalidBlockReference));
    req.block_hash = "abc".to_string();
    assert_eq!(build(&req), Err(SignError::InvalidBlockReference));
}

#[test]
fn encode_known_layout() {
    let tx = build(&request("alice.test", SECP_KEY, 5, transfer(1))).unwrap();
    let b = encode(&tx);
    let mut expected: Vec<u8> = vec![10, 0, 0, 0];
    expected.extend_from_slice(b"alice.test");
    expected.push(1);
    if let PublicKey::Secp256k1(k) = tx.signer_public_key {
        expected.extend_from_slice(&k);
    }
    expected.extend_from_slice(&5u64.to_le_bytes());
    expected.extend_from_slice(&[10, 0, 0, 0]);
    expected.extend_from_slice(b"alice.test");
    expected.extend_from_slice(&tx.block_hash);
    expected.extend_from_slice(&[1, 0, 0, 0, 3]);
    expected.extend_from_slice(&1u128.to_le_bytes());
    assert_eq!(b, expected);
}

#[test]
fn encode_is_deterministic() {
    let req = request("alice.test", SECP_KEY, 5, transfer(1));
    let t1 = build(&req).unwrap();
    let t2 = build(&req).unwrap();
    assert_eq!(encode(&t1), encode(&t2));
    assert_eq!(signing_digest(&t1), signing_digest(&t2));
}

#[test]
fn digest_is_sha256_of_whole_payload() {
    let tx = build(&request("alice.test", SECP_KEY, 5, transfer(1))).unwrap();
    let payload = encode(&tx);
    let expected: [u8; 32] = Sha256::digest(&payload).into();
    assert_eq!(signing_digest(&tx), expected);
    assert_ne!(&payload[..32], &expected[..]);
    assert_eq!(
        hex::encode(hash_payload(b"abc")),
        "ba7816bf8f01cfea414140de5dae2223b00361a396177a9cb410ff61f20015ad"
    );
}

#[test]
fn assemble_appends_tagged_signature() {
    let tx = build(&request("alice.test", SECP_KEY, 5, transfer(1))).unwrap();
    let sig = reconstruct(&big_r_hex(0x02, 0x11), &scalar_hex(0x22), KeyScheme::Secp256k1).unwrap();
    let signed = assemble(&tx, &sig).unwrap();
    let payload = encode(&tx);
    assert_eq!(&signed[..payload.len()], &payload[..]);
    assert_eq!(signed[payload.len()], 1);
    assert_eq!(&signed[payload.len() + 1..], &sig.to_bytes()[..]);
}

#[test]
fn assemble_ed25519_tag() {
    let tx = build(&request("bob.test", ED_KEY, 9, transfer(7))).unwrap();
    let sig = reconstruct(&scalar_hex(0x33), &scalar_hex(0x44), KeyScheme::Ed25519).unwrap();
    let signed = assemble(&tx, &sig).unwrap();
    let payload = encode(&tx);
    assert_eq!(signed.len(), payload.len() + 65);
    assert_eq!(signed[payload.len()], 0);
}

#[test]
fn assemble_scheme_mismatch() {
    let tx = build(&request("alice.test", SECP_KEY, 5, transfer(1))).unwrap();
    let sig = reconstruct(&scalar_hex(0x33), &scalar_hex(0x44), KeyScheme::Ed25519).unwrap();
    assert_eq!(assemble(&tx, &sig), Err(SignError::SchemeMismatch));
}

#[test]
fn end_to_end_secp256k1() {
    let req = request("alice.test", SECP_KEY, 5, transfer(1));
    let (sign_request, carried) = prepare_signing(&req).unwrap();
    assert_eq!(sign_request.path, "alice.test");
    assert_eq!(sign_request.key_version, KEY_VERSION);
    assert_eq!(sign_request.payload, signing_digest(&carried));
    let resp = SignResult { big_r: big_r_hex(0x03, 0xab), s: scalar_hex(0xcd) };
    let signed = complete_signing(Ok(resp), &carried).unwrap();
    let payload = encode(&build(&req).unwrap());
    assert_eq!(&signed[..payload.len()], &payload[..]);
    let mut sig = vec![0xabu8; 32];
    sig.extend_from_slice(&[0xcdu8; 32]);
    sig.push(0x03);
    assert_eq!(signed[payload.len()], 1);
    assert_eq!(&signed[payload.len() + 1..], &sig[..]);
}

#[test]
fn oracle_failure_aborts() {
    let (_, carried) = prepare_signing(&request("alice.test", SECP_KEY, 5, transfer(1))).unwrap();
    assert_eq!(complete_signing(Err(()), &carried), Err(SignError::OracleFailure));
}

#[test]
fn malformed_response_aborts() {
    let (_, carried) = prepare_signing(&request("alice.test", SECP_KEY, 5, transfer(1))).unwrap();
    let resp = SignResult { big_r: "abc".to_string(), s: scalar_hex(0x01) };
    assert_eq!(complete_signing(Ok(resp), &carried), Err(SignError::MalformedHex));
}

#[test]
fn carried_transaction_with_bad_account_is_rejected() {
    let (_, mut carried) = prepare_signing(&request("alice.test", SECP_KEY, 5, transfer(1))).unwrap();
    carried.receiver_id = "NOT VALID".to_string();
    let resp = SignResult { big_r: big_r_hex(0x02, 0x01), s: scalar_hex(0x01) };
    assert_eq!(complete_signing(Ok(resp), &carried), Err(SignError::InvalidIdentity));
}

#[test]
fn concurrent_requests_keep_their_own_transaction() {
    let r1 = request("alice.test", SECP_KEY, 5, transfer(1));
    let r2 = request("carol.test", SECP_KEY, 6, transfer(2));
    let (_, c1) = prepare_signing(&r1).unwrap();
    let (_, c2) = prepare_signing(&r2).unwrap();
    let resp = |f: u8| SignResult { big_r: big_r_hex(0x02, f), s: scalar_hex(f) };
    let out2 = complete_signing(Ok(resp(2)), &c2).unwrap();
    let out1 = complete_signing(Ok(resp(1)), &c1).unwrap();
    let p1 = encode(&build(&r1).unwrap());
    let p2 = encode(&build(&r2).unwrap());
    assert_eq!(&out1[..p1.len()], &p1[..]);
    assert_eq!(&out2[..p2.len()], &p2[..]);
    assert_ne!(out1, out2);
}

#[test]
fn proxy_send_near_adds_full_access_key() {
    let input = FuncInput {
        target_account: "alice.test".to_string(),
        target_public_key: SECP_KEY.to_string(),
        nonce: 12,
        block_hash: BLOCK.to_string(),
        new_public_key_to_add: ED_KEY.to_string(),
        mpc_deposit: 1,
    };
    let contract = Contract::default();
    let (sign_request, tx) = contract.proxy_send_near(&input).unwrap();
    assert_eq!(sign_request.path, "alice.test");
    assert_eq!(sign_request.key_version, 0);
    assert_eq!(tx.receiver_id, "alice.test");
    assert_eq!(tx.nonce, 12);
    assert!(matches!(tx.actions[..], [Action::AddFullAccessKey { new_public_key: PublicKey::Ed25519(_) }]));
    let resp = SignResult { big_r: big_r_hex(0x02, 0x05), s: scalar_hex(0x06) };
    let signed = contract.sign_callback(Ok(resp), &tx).unwrap();
    assert_eq!(signed.len(), encode(&tx).len() + 66);
}

#[test]
fn proxy_send_near_rejects_bad_key() {
    let input = FuncInput {
        target_account: "alice.test".to_string(),
        target_public_key: SECP_KEY.to_string(),
        nonce: 12,
        block_hash: BLOCK.to_string(),
        new_public_key_to_add: "ed25519:short".to_string(),
        mpc_deposit: 1,
    };
    assert_eq!(Contract::default().proxy_send_near(&input), Err(SignError::InvalidIdentity));
}

#[test]
fn sign_request_new_keeps_fields() {
    let r = SignRequest::new([7u8; 32], "path".to_string(), 3);
    assert_eq!(r.payload, [7u8; 32]);
    assert_eq!(r.path, "path");
    assert_eq!(r.key_version, 3);
}

#[test]
fn unsigned_transaction_clone_encodes_alike() {
    let tx: UnsignedTransaction = build(&request("alice.test", ED_KEY, 1, transfer(0))).unwrap();
    assert_eq!(encode(&tx.clone()), encode(&tx));
}
