use vstd::prelude::*;

verus! {

/// What the signing service is asked to sign: a 32-byte digest, under the key
/// derived from `path` at `key_version`.
#[derive(Clone, Debug, PartialEq, Eq)]
pub struct SignRequest {
    pub payload: [u8; 32],
    pub path: String,
    pub key_version: u32,
}

impl SignRequest {
    pub fn new(payload: [u8; 32], path: String, key_version: u32) -> (r: Self)
        ensures
            r.payload == payload,
            r.path == path,
            r.key_version == key_version,
    {
        Self { payload, path, key_version }
    }
}

/// The signing service's answer: the nonce point `big_r` and the scalar `s`,
/// both in hex.
#[derive(Clone, Debug, PartialEq, Eq)]
pub struct SignResult {
    pub big_r: String,
    pub s: String,
}

} // verus!
