use vstd::prelude::*;

use crate::signature::{reconstruct, reconstruct_spec, SignError};
use crate::signer::{SignRequest, SignResult};
use crate::transaction::{
    assemble, build, build_model, build_spec, digest_spec, is_account_id, near_tx_bytes,
    signature_tag, ActionRequest, TransactionRequest, TxModel, UnsignedTransaction,
};

verus! {

/// The request to add a full-access key to `target_account`, signed by that
/// account's own key.
#[derive(Clone, Debug, PartialEq, Eq)]
pub struct FuncInput {
    pub target_account: String,
    pub target_public_key: String,
    pub nonce: u64,
    pub block_hash: String,
    pub new_public_key_to_add: String,
    /// The deposit, in yoctoNEAR, attached to the signing request.
    pub mpc_deposit: u128,
}

impl FuncInput {
    /// What building the transaction of this input yields.
    pub open spec fn build_spec(&self) -> Result<TxModel, SignError> {
        build_model(
            self.target_account@,
            self.target_public_key@,
            self.nonce,
            self.target_account@,
            self.block_hash@,
            seq![ActionRequest::AddFullAccessKey { new_public_key: self.new_public_key_to_add }],
        )
    }

    /// The transaction this input describes: one `AddFullAccessKey` action,
    /// from the target account to itself.
    pub fn to_request(&self) -> (r: TransactionRequest)
        ensures
            r.signer_id == self.target_account,
            r.signer_public_key == self.target_public_key,
            r.nonce == self.nonce,
            r.receiver_id == self.target_account,
            r.block_hash == self.block_hash,
            r.actions@ == seq![ActionRequest::AddFullAccessKey { new_public_key: self.new_public_key_to_add }],
    {
        let mut actions: Vec<ActionRequest> = Vec::new();
        actions.push(ActionRequest::AddFullAccessKey { new_public_key: self.new_public_key_to_add.clone() });
        TransactionRequest {
            signer_id: self.target_account.clone(),
            signer_public_key: self.target_public_key.clone(),
            nonce: self.nonce,
            receiver_id: self.target_account.clone(),
            block_hash: self.block_hash.clone(),
            actions,
        }
    }
}

/// The key version under which the signing service is asked to sign.
pub const KEY_VERSION: u32 = 0;

/// What the continuation yields for a service outcome and the transaction
/// that was carried across the call.
pub open spec fn callback_spec(result: Result<SignResult, ()>, tx: TxModel) -> Result<Seq<u8>, SignError> {
    match result {
        Err(_) => Err(SignError::OracleFailure),
        Ok(resp) => {
            let scheme = tx.signer_public_key.scheme_spec();
            match reconstruct_spec(resp.big_r@, resp.s@, scheme) {
                Err(e) => Err(e),
                Ok(sig) => Ok(near_tx_bytes(tx) + seq![signature_tag(scheme)] + sig),
            }
        },
    }
}

/// First half of a signing round: builds the transaction and the request for
/// the signing service. The transaction is returned to be carried, as an
/// argument, to the continuation of this very request.
pub fn prepare_signing(req: &TransactionRequest) -> (r: Result<(SignRequest, UnsignedTransaction), SignError>)
    ensures
        match (r, build_spec(*req)) {
            (Ok((sr, tx)), Ok(m)) => {
                &&& tx@ == m
                &&& tx.wf()
                &&& sr.payload@ == digest_spec(m)
                &&& sr.path == req.signer_id
                &&& sr.key_version == KEY_VERSION
            },
            (Err(e), Err(f)) => e == f,
            _ => false,
        },
{
    let tx = build(req)?;
    let digest = crate::transaction::signing_digest(&tx);
    Ok((SignRequest::new(digest, req.signer_id.clone(), KEY_VERSION), tx))
}

/// Second half of a signing round: turns the service's outcome into the
/// signed transaction, using only the transaction carried for this request.
/// The carried transaction arrives from outside, so its account ids are
/// checked again.
pub fn complete_signing(result: Result<SignResult, ()>, tx: &UnsignedTransaction) -> (r: Result<Vec<u8>, SignError>)
    ensures
        !tx.wf() ==> r == Err::<Vec<u8>, SignError>(SignError::InvalidIdentity),
        tx.wf() ==> match (r, callback_spec(result, tx@)) {
            (Ok(b), Ok(c)) => b@ == c,
            (Err(e), Err(f)) => e == f,
            _ => false,
        },
{
    if !is_account_id(tx.signer_id.as_str()) || !is_account_id(tx.receiver_id.as_str()) {
        return Err(SignError::InvalidIdentity);
    }
    let resp = match result {
        Ok(resp) => resp,
        Err(_) => return Err(SignError::OracleFailure),
    };
    let sig = reconstruct(resp.big_r.as_str(), resp.s.as_str(), tx.signer_public_key.scheme())?;
    assemble(tx, &sig)
}

/// The proxy contract. It keeps no state: everything a pending request needs
/// travels with that request.
#[derive(Clone, Copy, Debug, Default, PartialEq, Eq, Structural)]
pub struct Contract {}

impl Contract {
    /// Prepares the signing of an `AddFullAccessKey` transaction for `input`.
    pub fn proxy_send_near(&self, input: &FuncInput) -> (r: Result<(SignRequest, UnsignedTransaction), SignError>)
        ensures
            match (r, input.build_spec()) {
                (Ok((sr, tx)), Ok(m)) => {
                    &&& tx@ == m
                    &&& tx.wf()
                    &&& sr.payload@ == digest_spec(m)
                    &&& sr.path == input.target_account
                    &&& sr.key_version == KEY_VERSION
                },
                (Err(e), Err(f)) => e == f,
                _ => false,
            },
    {
        prepare_signing(&input.to_request())
    }

    /// Completes the signing round that `proxy_send_near` started.
    pub fn sign_callback(&self, result: Result<SignResult, ()>, tx: &UnsignedTransaction) -> (r: Result<Vec<u8>, SignError>)
        ensures
            !tx.wf() ==> r == Err::<Vec<u8>, SignError>(SignError::InvalidIdentity),
            tx.wf() ==> match (r, callback_spec(result, tx@)) {
                (Ok(b), Ok(c)) => b@ == c,
                (Err(e), Err(f)) => e == f,
                _ => false,
            },
    {
        complete_signing(result, tx)
    }
}

} // verus!
