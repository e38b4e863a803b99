use vstd::prelude::*;

use crate::signature::{KeyScheme, ReconstructedSignature, SignError};
use omni_transaction::near::types::{
    AccessKey, AccessKeyPermission, AccountId, Action as NearAction, AddKeyAction, BlockHash,
    ED25519PublicKey, ED25519Signature, NearToken, PublicKey as NearPublicKey,
    Secp256K1PublicKey, Secp256K1Signature, Signature as NearSignature, TransferAction, U64,
};
use omni_transaction::near::utils::PublicKeyStrExt;
use omni_transaction::near::NearTransaction;
use omni_transaction::{TransactionBuilder, TxBuilder, NEAR};
use sha2::{Digest, Sha256};

verus! {

/// A signer or action public key, tagged by its curve.
#[derive(Clone, Copy, Debug, PartialEq, Eq)]
pub enum PublicKey {
    Ed25519([u8; 32]),
    Secp256k1([u8; 64]),
}

impl PublicKey {
    pub open spec fn scheme_spec(&self) -> KeyScheme {
        match self {
            PublicKey::Ed25519(_) => KeyScheme::Ed25519,
            PublicKey::Secp256k1(_) => KeyScheme::Secp256k1,
        }
    }

    pub fn scheme(&self) -> (k: KeyScheme)
        ensures
            k == self.scheme_spec(),
    {
        match self {
            PublicKey::Ed25519(_) => KeyScheme::Ed25519,
            PublicKey::Secp256k1(_) => KeyScheme::Secp256k1,
        }
    }
}

/// An action of a built transaction.
#[derive(Clone, Copy, Debug, PartialEq, Eq)]
pub enum Action {
    /// Moves `amount` yoctoNEAR to the receiver.
    Transfer { amount: u128 },
    /// Adds a full-access key to the receiver account.
    AddFullAccessKey { new_public_key: PublicKey },
}

/// An action as a caller writes it, with keys still in text form.
#[derive(Clone, Debug, PartialEq, Eq)]
pub enum ActionRequest {
    Transfer { amount: u128 },
    AddFullAccessKey { new_public_key: String },
}

/// The description of a transaction to be signed on behalf of `signer_id`.
#[derive(Clone, Debug, PartialEq, Eq)]
pub struct TransactionRequest {
    pub signer_id: String,
    /// `ed25519:<base58>` or `secp256k1:<base58>`.
    pub signer_public_key: String,
    pub nonce: u64,
    pub receiver_id: String,
    /// The base58 hash of a recent block.
    pub block_hash: String,
    pub actions: Vec<ActionRequest>,
}

/// The abstract content of an unsigned transaction.
pub struct TxModel {
    pub signer_id: Seq<char>,
    pub signer_public_key: PublicKey,
    pub nonce: u64,
    pub receiver_id: Seq<char>,
    pub block_hash: Seq<u8>,
    pub actions: Seq<Action>,
}

/// A transaction whose fields have all been parsed, ready to be serialized.
#[derive(Clone, Debug, PartialEq, Eq)]
pub struct UnsignedTransaction {
    pub signer_id: String,
    pub signer_public_key: PublicKey,
    pub nonce: u64,
    pub receiver_id: String,
    pub block_hash: [u8; 32],
    pub actions: Vec<Action>,
}

impl View for UnsignedTransaction {
    type V = TxModel;

    open spec fn view(&self) -> TxModel {
        TxModel {
            signer_id: self.signer_id@,
            signer_public_key: self.signer_public_key,
            nonce: self.nonce,
            receiver_id: self.receiver_id@,
            block_hash: self.block_hash@,
            actions: self.actions@,
        }
    }
}

impl UnsignedTransaction {
    /// Both account ids are valid NEAR account ids.
    pub open spec fn wf(&self) -> bool {
        account_id_ok(self.signer_id@) && account_id_ok(self.receiver_id@)
    }
}

/// Whether a text is a valid NEAR account id.
pub uninterp spec fn account_id_ok(s: Seq<char>) -> bool;

/// The key that a `<curve>:<base58>` text denotes, if any.
pub uninterp spec fn parsed_public_key(s: Seq<char>) -> Option<PublicKey>;

/// The 32 bytes that a base58 block hash denotes, if any.
pub uninterp spec fn block_hash_bytes(s: Seq<char>) -> Option<Seq<u8>>;

/// The canonical (borsh) serialization of an unsigned NEAR transaction.
pub uninterp spec fn near_tx_bytes(tx: TxModel) -> Seq<u8>;

/// The SHA-256 digest of a byte sequence.
pub uninterp spec fn sha256_of(b: Seq<u8>) -> Seq<u8>;

/// Relies on near_account_id's `FromStr` for `AccountId`: whether the text is accepted.
#[verifier::external_body]
pub(crate) fn is_account_id(s: &str) -> (r: bool)
    ensures
        r == account_id_ok(s@),
{
    s.parse::<AccountId>().is_ok()
}

/// Relies on omni_transaction's `PublicKeyStrExt::to_public_key`: it keeps the
/// curve named before the colon and base58-decodes the rest.
#[verifier::external_body]
fn parse_public_key(s: &str) -> (r: Option<PublicKey>)
    ensures
        r == parsed_public_key(s@),
        r matches Some(k) ==> (k.scheme_spec() == KeyScheme::Ed25519 <==> s@.len() >= 8
            && s@.subrange(0, 8) == "ed25519:"@),
{
    match s.to_public_key() {
        Ok(NearPublicKey::ED25519(k)) => Some(PublicKey::Ed25519(k.0)),
        Ok(NearPublicKey::SECP256K1(k)) => Some(PublicKey::Secp256k1(k.0)),
        Err(_) => None,
    }
}

/// Relies on omni_transaction's `PublicKeyStrExt::to_block_hash`: base58 into exactly 32 bytes.
#[verifier::external_body]
fn parse_block_hash(s: &str) -> (r: Option<[u8; 32]>)
    ensures
        r.is_some() == block_hash_bytes(s@).is_some(),
        r matches Some(h) ==> h@ == block_hash_bytes(s@).unwrap(),
{
    s.to_block_hash().ok().map(|h| h.0)
}

/// Relies on sha2's `Sha256::digest`.
#[verifier::external_body]
pub fn hash_payload(payload: &[u8]) -> (d: [u8; 32])
    ensures
        d@ == sha256_of(payload@),
{
    Sha256::digest(payload).into()
}


/// The tag that borsh writes before a signature of each scheme: the index of
/// the variant in omni_transaction's `Signature` enum.
pub open spec fn signature_tag(scheme: KeyScheme) -> u8 {
    match scheme {
        KeyScheme::Ed25519 => 0,
        KeyScheme::Secp256k1 => 1,
    }
}

/// The length of a signature of each scheme.
pub open spec fn signature_len(scheme: KeyScheme) -> nat {
    match scheme {
        KeyScheme::Ed25519 => 64,
        KeyScheme::Secp256k1 => 65,
    }
}

#[verifier::external_type_specification]
#[verifier::external_body]
pub struct ExNearTransaction(NearTransaction);

#[verifier::external_type_specification]
#[verifier::external_body]
pub struct ExNearPublicKey(NearPublicKey);

#[verifier::external_type_specification]
#[verifier::external_body]
pub struct ExNearAction(NearAction);

/// Converts a key into omni_transaction's form, field for field.
#[verifier::external_body]
fn near_public_key(k: &PublicKey) -> NearPublicKey {
    match k {
        PublicKey::Ed25519(b) => NearPublicKey::ED25519(ED25519PublicKey(*b)),
        PublicKey::Secp256k1(b) => NearPublicKey::SECP256K1(Secp256K1PublicKey(*b)),
    }
}

/// Converts an action into omni_transaction's form, field for field.
#[verifier::external_body]
fn near_action(a: &Action) -> NearAction {
    match a {
        Action::Transfer { amount } => NearAction::Transfer(TransferAction {
            deposit: NearToken::from_yoctonear(*amount),
        }),
        Action::AddFullAccessKey { new_public_key } => NearAction::AddKey(Box::new(AddKeyAction {
            public_key: near_public_key(new_public_key),
            access_key: AccessKey { nonce: U64(0), permission: AccessKeyPermission::FullAccess },
        })),
    }
}

/// Relies on omni_transaction's `NearTransactionBuilder`, which parses both
/// account ids (valid here) and carries the other fields over unchanged.
#[verifier::external_body]
fn near_transaction(tx: &UnsignedTransaction) -> NearTransaction
    requires
        tx.wf(),
{
    TransactionBuilder::new::<NEAR>()
        .signer_id(tx.signer_id.clone())
        .signer_public_key(near_public_key(&tx.signer_public_key))
        .nonce(tx.nonce)
        .receiver_id(tx.receiver_id.clone())
        .block_hash(BlockHash(tx.block_hash))
        .actions(tx.actions.iter().map(near_action).collect())
        .build()
}

/// Relies on omni_transaction's `NearTransaction::build_for_signing`: the borsh
/// serialization of the transaction.
#[verifier::external_body]
fn transaction_payload(tx: &UnsignedTransaction) -> (r: Vec<u8>)
    requires
        tx.wf(),
    ensures
        r@ == near_tx_bytes(tx@),
{
    near_transaction(tx).build_for_signing()
}

/// Relies on omni_transaction's `NearTransaction::build_with_signature`: the
/// borsh serialization of a `SignedTransaction { transaction, signature }`,
/// which is the transaction's own serialization, the signature's variant
/// index, and the signature's bytes (fixed-size arrays carry no length).
#[verifier::external_body]
fn signed_transaction_bytes(tx: &UnsignedTransaction, scheme: KeyScheme, sig: &Vec<u8>) -> (r: Vec<u8>)
    requires
        tx.wf(),
        sig@.len() == signature_len(scheme),
    ensures
        r@ == near_tx_bytes(tx@) + seq![signature_tag(scheme)] + sig@,
{
    let signature = match scheme {
        KeyScheme::Ed25519 => NearSignature::ED25519(ED25519Signature {
            r: sig[..32].try_into().unwrap(),
            s: sig[32..].try_into().unwrap(),
        }),
        KeyScheme::Secp256k1 => NearSignature::SECP256K1(Secp256K1Signature(sig[..].try_into().unwrap())),
    };
    near_transaction(tx).build_with_signature(signature)
}


/// The action that an action request denotes, if its key parses.
pub open spec fn parsed_action(a: ActionRequest) -> Option<Action> {
    match a {
        ActionRequest::Transfer { amount } => Some(Action::Transfer { amount }),
        ActionRequest::AddFullAccessKey { new_public_key } => match parsed_public_key(new_public_key@) {
            Some(k) => Some(Action::AddFullAccessKey { new_public_key: k }),
            None => None,
        },
    }
}

/// Every identity of a request parses: both account ids, the signer key,
/// and each key that an action adds.
pub open spec fn identities_ok(signer_id: Seq<char>, signer_public_key: Seq<char>, receiver_id: Seq<char>, actions: Seq<ActionRequest>) -> bool {
    &&& account_id_ok(signer_id)
    &&& account_id_ok(receiver_id)
    &&& parsed_public_key(signer_public_key).is_some()
    &&& forall|i: int| 0 <= i < actions.len() ==> (#[trigger] parsed_action(actions[i])).is_some()
}

/// What building a request with these fields yields: the error of the first
/// check that fails, or the transaction made of the parsed fields.
pub open spec fn build_model(
    signer_id: Seq<char>,
    signer_public_key: Seq<char>,
    nonce: u64,
    receiver_id: Seq<char>,
    block_hash: Seq<char>,
    actions: Seq<ActionRequest>,
) -> Result<TxModel, SignError> {
    if !identities_ok(signer_id, signer_public_key, receiver_id, actions) {
        Err(SignError::InvalidIdentity)
    } else if block_hash_bytes(block_hash).is_none() {
        Err(SignError::InvalidBlockReference)
    } else {
        Ok(TxModel {
            signer_id,
            signer_public_key: parsed_public_key(signer_public_key).unwrap(),
            nonce,
            receiver_id,
            block_hash: block_hash_bytes(block_hash).unwrap(),
            actions: actions.map_values(|a: ActionRequest| parsed_action(a).unwrap()),
        })
    }
}

/// What building a request yields.
pub open spec fn build_spec(req: TransactionRequest) -> Result<TxModel, SignError> {
    build_model(req.signer_id@, req.signer_public_key@, req.nonce, req.receiver_id@, req.block_hash@, req.actions@)
}

/// The digest that the signing service is asked to sign for a transaction.
pub open spec fn digest_spec(tx: TxModel) -> Seq<u8> {
    sha256_of(near_tx_bytes(tx))
}

/// The serialized signed transaction.
pub open spec fn signed_spec(tx: TxModel, sig: ReconstructedSignature) -> Seq<u8> {
    near_tx_bytes(tx) + seq![signature_tag(sig.scheme_spec())] + sig.bytes_spec()
}

fn parse_action(a: &ActionRequest) -> (r: Option<Action>)
    ensures
        r == parsed_action(*a),
{
    match a {
        ActionRequest::Transfer { amount } => Some(Action::Transfer { amount: *amount }),
        ActionRequest::AddFullAccessKey { new_public_key } => match parse_public_key(new_public_key.as_str()) {
            Some(k) => Some(Action::AddFullAccessKey { new_public_key: k }),
            None => None,
        },
    }
}

/// Parses every action of a request, or none if one of them does not parse.
fn parse_actions(actions: &Vec<ActionRequest>) -> (r: Option<Vec<Action>>)
    ensures
        match r {
            Some(v) => (forall|i: int| 0 <= i < actions@.len() ==> (#[trigger] parsed_action(actions@[i])).is_some())
                && v@ == actions@.map_values(|a: ActionRequest| parsed_action(a).unwrap()),
            None => exists|i: int| 0 <= i < actions@.len() && (#[trigger] parsed_action(actions@[i])).is_none(),
        },
{
    let mut out: Vec<Action> = Vec::new();
    let mut i: usize = 0;
    while i < actions.len()
        invariant
            i <= actions@.len(),
            out@.len() == i,
            forall|j: int| 0 <= j < i ==> (#[trigger] parsed_action(actions@[j])) == Some(out@[j]),
        decreases actions@.len() - i,
    {
        match parse_action(&actions[i]) {
            Some(a) => out.push(a),
            None => return None,
        }
        i = i + 1;
    }
    assert(out@ =~= actions@.map_values(|a: ActionRequest| parsed_action(a).unwrap()));
    Some(out)
}

/// Builds the unsigned transaction that a request describes.
pub fn build(req: &TransactionRequest) -> (r: Result<UnsignedTransaction, SignError>)
    ensures
        match (r, build_spec(*req)) {
            (Ok(tx), Ok(m)) => tx@ == m && tx.wf(),
            (Err(e), Err(f)) => e == f,
            _ => false,
        },
{
    if !is_account_id(req.signer_id.as_str()) || !is_account_id(req.receiver_id.as_str()) {
        return Err(SignError::InvalidIdentity);
    }
    let key = match parse_public_key(req.signer_public_key.as_str()) {
        Some(k) => k,
        None => return Err(SignError::InvalidIdentity),
    };
    let actions = match parse_actions(&req.actions) {
        Some(v) => v,
        None => return Err(SignError::InvalidIdentity),
    };
    let block_hash = match parse_block_hash(req.block_hash.as_str()) {
        Some(h) => h,
        None => return Err(SignError::InvalidBlockReference),
    };
    let tx = UnsignedTransaction {
        signer_id: req.signer_id.clone(),
        signer_public_key: key,
        nonce: req.nonce,
        receiver_id: req.receiver_id.clone(),
        block_hash,
        actions,
    };
    assert(tx@ == build_spec(*req)->Ok_0);
    Ok(tx)
}

/// The canonical serialization of a transaction: the bytes that commit to it.
pub fn encode(tx: &UnsignedTransaction) -> (b: Vec<u8>)
    requires
        tx.wf(),
    ensures
        b@ == near_tx_bytes(tx@),
{
    transaction_payload(tx)
}

/// The 32-byte digest sent to the signing service: SHA-256 of the whole
/// serialization, never a prefix of it.
pub fn signing_digest(tx: &UnsignedTransaction) -> (d: [u8; 32])
    requires
        tx.wf(),
    ensures
        d@ == digest_spec(tx@),
{
    let payload = encode(tx);
    hash_payload(payload.as_slice())
}

/// Attaches a signature to a transaction and serializes the result, provided
/// the signature belongs to the scheme of the transaction's signer key.
pub fn assemble(tx: &UnsignedTransaction, sig: &ReconstructedSignature) -> (r: Result<Vec<u8>, SignError>)
    requires
        tx.wf(),
        sig.wf(),
    ensures
        match r {
            Ok(b) => sig.scheme_spec() == tx.signer_public_key.scheme_spec() && b@ == signed_spec(tx@, *sig),
            Err(e) => sig.scheme_spec() != tx.signer_public_key.scheme_spec() && e == SignError::SchemeMismatch,
        },
{
    let scheme = sig.scheme();
    if scheme != tx.signer_public_key.scheme() {
        return Err(SignError::SchemeMismatch);
    }
    let bytes = sig.to_bytes();
    Ok(signed_transaction_bytes(tx, scheme, &bytes))
}

} // verus!
