use vstd::prelude::*;

use crate::contract::callback_spec;
use crate::signature::{hex_bytes, is_hex, reconstruct_spec, KeyScheme, SignError};
use crate::signer::SignResult;
use crate::transaction::{
    build_spec, digest_spec, near_tx_bytes, signature_tag, TransactionRequest, TxModel,
    UnsignedTransaction,
};

verus! {

/// Encoding is deterministic: two transactions with the same content have the
/// same serialization and the same digest.
pub proof fn lemma_encode_deterministic(t1: UnsignedTransaction, t2: UnsignedTransaction)
    requires
        t1@ == t2@,
    ensures
        near_tx_bytes(t1@) == near_tx_bytes(t2@),
        digest_spec(t1@) == digest_spec(t2@),
{
}

/// A secp256k1 response whose `big_r` is 33 bytes and `s` 32 bytes becomes a
/// 65-byte signature: the last 32 bytes of `big_r`, then `s`, then the first
/// byte of `big_r`.
pub proof fn lemma_secp256k1_layout(big_r: Seq<char>, s: Seq<char>)
    requires
        is_hex(big_r),
        is_hex(s),
        hex_bytes(big_r).len() == 33,
        hex_bytes(s).len() == 32,
    ensures
        reconstruct_spec(big_r, s, KeyScheme::Secp256k1) is Ok,
        ({
            let sig = reconstruct_spec(big_r, s, KeyScheme::Secp256k1)->Ok_0;
            &&& sig.len() == 65
            &&& sig[64] == hex_bytes(big_r)[0]
            &&& sig.subrange(0, 32) == hex_bytes(big_r).subrange(1, 33)
            &&& sig.subrange(32, 64) == hex_bytes(s)
        }),
{
    let sig = reconstruct_spec(big_r, s, KeyScheme::Secp256k1)->Ok_0;
    assert(sig.subrange(0, 32) =~= hex_bytes(big_r).subrange(1, 33));
    assert(sig.subrange(32, 64) =~= hex_bytes(s));
}

/// An Ed25519 response with 32-byte `r` and `s` becomes exactly `r ‖ s`.
pub proof fn lemma_ed25519_layout(r: Seq<char>, s: Seq<char>)
    requires
        is_hex(r),
        is_hex(s),
        hex_bytes(r).len() == 32,
        hex_bytes(s).len() == 32,
    ensures
        reconstruct_spec(r, s, KeyScheme::Ed25519) == Ok::<Seq<u8>, SignError>(hex_bytes(r) + hex_bytes(s)),
        (hex_bytes(r) + hex_bytes(s)).len() == 64,
{
}

/// The signed transaction that completes a request starts with exactly the
/// serialization of the transaction built from that request; what follows is
/// the signature, tagged with its scheme.
pub proof fn lemma_round_trip(req: TransactionRequest, resp: SignResult)
    requires
        build_spec(req) is Ok,
        reconstruct_spec(resp.big_r@, resp.s@, build_spec(req)->Ok_0.signer_public_key.scheme_spec()) is Ok,
    ensures
        ({
            let m = build_spec(req)->Ok_0;
            let scheme = m.signer_public_key.scheme_spec();
            let sig = reconstruct_spec(resp.big_r@, resp.s@, scheme)->Ok_0;
            let out = callback_spec(Ok(resp), m);
            &&& out is Ok
            &&& out->Ok_0.subrange(0, near_tx_bytes(m).len() as int) == near_tx_bytes(m)
            &&& out->Ok_0.subrange(near_tx_bytes(m).len() as int, out->Ok_0.len() as int)
                == seq![signature_tag(scheme)] + sig
        }),
{
    let m = build_spec(req)->Ok_0;
    let scheme = m.signer_public_key.scheme_spec();
    let sig = reconstruct_spec(resp.big_r@, resp.s@, scheme)->Ok_0;
    let out = callback_spec(Ok(resp), m)->Ok_0;
    assert(out.subrange(0, near_tx_bytes(m).len() as int) =~= near_tx_bytes(m));
    assert(out.subrange(near_tx_bytes(m).len() as int, out.len() as int) =~= seq![signature_tag(scheme)] + sig);
}

/// A hex component of odd length, or with a character that is not a hex
/// digit, makes the request fail with `MalformedHex`, whatever the scheme.
pub proof fn lemma_malformed_hex(resp: SignResult, tx: TxModel)
    requires
        !is_hex(resp.big_r@) || !is_hex(resp.s@),
    ensures
        callback_spec(Ok(resp), tx) == Err::<Seq<u8>, SignError>(SignError::MalformedHex),
{
}

/// An odd number of characters is never hex.
pub proof fn lemma_odd_length_not_hex(t: Seq<char>)
    requires
        t.len() % 2 == 1,
    ensures
        !is_hex(t),
{
}

/// Requests in flight do not interfere: each continuation receives its own
/// transaction as an argument, so completing one request yields the signed
/// form of that request's transaction, whatever the other request carried or
/// received.
pub proof fn lemma_requests_independent(
    req1: TransactionRequest,
    req2: TransactionRequest,
    resp1: SignResult,
    resp2: SignResult,
)
    requires
        build_spec(req1) is Ok,
        build_spec(req2) is Ok,
    ensures
        ({
            let m1 = build_spec(req1)->Ok_0;
            let m2 = build_spec(req2)->Ok_0;
            let out1 = callback_spec(Ok(resp1), m1);
            let out2 = callback_spec(Ok(resp2), m2);
            &&& out1 is Ok ==> out1->Ok_0.subrange(0, near_tx_bytes(m1).len() as int) == near_tx_bytes(m1)
            &&& out2 is Ok ==> out2->Ok_0.subrange(0, near_tx_bytes(m2).len() as int) == near_tx_bytes(m2)
        }),
{
    let m1 = build_spec(req1)->Ok_0;
    let m2 = build_spec(req2)->Ok_0;
    let out1 = callback_spec(Ok(resp1), m1);
    let out2 = callback_spec(Ok(resp2), m2);
    if out1 is Ok {
        assert(out1->Ok_0.subrange(0, near_tx_bytes(m1).len() as int) =~= near_tx_bytes(m1));
    }
    if out2 is Ok {
        assert(out2->Ok_0.subrange(0, near_tx_bytes(m2).len() as int) =~= near_tx_bytes(m2));
    }
}

} // verus!
