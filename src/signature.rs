use vstd::prelude::*;

verus! {

/// The two signature algebras a signer key can belong to.
#[derive(Clone, Copy, Debug, PartialEq, Eq, Structural)]
pub enum KeyScheme {
    Ed25519,
    Secp256k1,
}

/// Every way a signing request can fail.
#[derive(Clone, Copy, Debug, PartialEq, Eq, Structural)]
pub enum SignError {
    /// An account id or a public key in the request does not parse.
    InvalidIdentity,
    /// The anchor block reference does not parse.
    InvalidBlockReference,
    /// The signing service reported a failure.
    OracleFailure,
    /// A component of the service's response is not a hex string.
    MalformedHex,
    /// A component of the service's response has the wrong number of bytes.
    LengthMismatch,
    /// The signature does not belong to the signer key's scheme.
    SchemeMismatch,
}

pub open spec fn is_hex_digit(c: char) -> bool {
    ('0' <= c && c <= '9') || ('a' <= c && c <= 'f') || ('A' <= c && c <= 'F')
}

pub open spec fn hex_digit_value(c: char) -> int {
    if '0' <= c && c <= '9' {
        c as int - '0' as int
    } else if 'a' <= c && c <= 'f' {
        c as int - 'a' as int + 10
    } else {
        c as int - 'A' as int + 10
    }
}

/// A text is hex when it is an even number of hex digits.
pub open spec fn is_hex(s: Seq<char>) -> bool {
    &&& s.len() % 2 == 0
    &&& forall|i: int| 0 <= i < s.len() ==> #[trigger] is_hex_digit(s[i])
}

/// The bytes a hex text denotes: each pair of digits is one byte, high digit first.
pub open spec fn hex_bytes(s: Seq<char>) -> Seq<u8> {
    Seq::new(
        (s.len() / 2) as nat,
        |i: int| (hex_digit_value(s[2 * i]) * 16 + hex_digit_value(s[2 * i + 1])) as u8,
    )
}

#[verifier::external_type_specification]
#[verifier::external_body]
pub struct ExFromHexError(hex::FromHexError);

/// Relies on hex::decode: it fails on an odd length or on a character that is
/// not a hex digit, and otherwise turns each pair of digits into one byte.
#[verifier::external_body]
fn decode_hex(s: &str) -> (r: Result<Vec<u8>, hex::FromHexError>)
    ensures
        r.is_ok() == is_hex(s@),
        r matches Ok(v) ==> v@ == hex_bytes(s@),
{
    hex::decode(s)
}


/// Decodes one component of the signing service's response.
pub fn decode_component(s: &str) -> (r: Result<Vec<u8>, SignError>)
    ensures
        match r {
            Ok(v) => is_hex(s@) && v@ == hex_bytes(s@),
            Err(e) => !is_hex(s@) && e == SignError::MalformedHex,
        },
{
    match decode_hex(s) {
        Ok(v) => Ok(v),
        Err(_) => Err(SignError::MalformedHex),
    }
}

/// A signature rebuilt into the byte layout of its scheme.
#[derive(Clone, Debug, PartialEq, Eq)]
pub enum ReconstructedSignature {
    /// `r` is the x-coordinate of the nonce point, `recovery_id` its prefix byte.
    Secp256k1 { r: Vec<u8>, s: Vec<u8>, recovery_id: u8 },
    Ed25519 { r: Vec<u8>, s: Vec<u8> },
}

impl ReconstructedSignature {
    pub open spec fn wf(&self) -> bool {
        match self {
            ReconstructedSignature::Secp256k1 { r, s, .. } => r@.len() == 32 && s@.len() == 32,
            ReconstructedSignature::Ed25519 { r, s } => r@.len() == 32 && s@.len() == 32,
        }
    }

    pub open spec fn scheme_spec(&self) -> KeyScheme {
        match self {
            ReconstructedSignature::Secp256k1 { .. } => KeyScheme::Secp256k1,
            ReconstructedSignature::Ed25519 { .. } => KeyScheme::Ed25519,
        }
    }

    /// `r ‖ s ‖ recovery_id` for secp256k1, `r ‖ s` for Ed25519.
    pub open spec fn bytes_spec(&self) -> Seq<u8> {
        match self {
            ReconstructedSignature::Secp256k1 { r, s, recovery_id } => r@ + s@ + seq![*recovery_id],
            ReconstructedSignature::Ed25519 { r, s } => r@ + s@,
        }
    }

    pub fn scheme(&self) -> (k: KeyScheme)
        ensures
            k == self.scheme_spec(),
    {
        match self {
            ReconstructedSignature::Secp256k1 { .. } => KeyScheme::Secp256k1,
            ReconstructedSignature::Ed25519 { .. } => KeyScheme::Ed25519,
        }
    }

    /// The signature as one byte sequence.
    pub fn to_bytes(&self) -> (b: Vec<u8>)
        ensures
            b@ == self.bytes_spec(),
    {
        match self {
            ReconstructedSignature::Secp256k1 { r, s, recovery_id } => {
                let mut b = concat(r, s);
                b.push(*recovery_id);
                b
            },
            ReconstructedSignature::Ed25519 { r, s } => concat(r, s),
        }
    }
}

/// The concatenation of two byte vectors.
pub fn concat(a: &Vec<u8>, b: &Vec<u8>) -> (c: Vec<u8>)
    ensures
        c@ == a@ + b@,
{
    let mut c = a.clone();
    let mut i: usize = 0;
    while i < b.len()
        invariant
            i <= b@.len(),
            c@ == a@ + b@.subrange(0, i as int),
        decreases b@.len() - i,
    {
        c.push(b[i]);
        i = i + 1;
        assert(b@.subrange(0, i as int) == b@.subrange(0, i - 1) + seq![b@[i - 1]]);
    }
    assert(b@.subrange(0, b@.len() as int) == b@);
    c
}

/// The bytes `v[start..end]`.
pub fn slice_bytes(v: &Vec<u8>, start: usize, end: usize) -> (c: Vec<u8>)
    requires
        start <= end <= v@.len(),
    ensures
        c@ == v@.subrange(start as int, end as int),
{
    let mut c: Vec<u8> = Vec::new();
    let mut i: usize = start;
    while i < end
        invariant
            start <= i <= end <= v@.len(),
            c@ == v@.subrange(start as int, i as int),
        decreases end - i,
    {
        c.push(v[i]);
        i = i + 1;
        assert(v@.subrange(start as int, i as int) == v@.subrange(start as int, i - 1) + seq![v@[i - 1]]);
    }
    c
}

/// The number of bytes that `big_r` must decode to under a scheme: a
/// compressed point for secp256k1, a bare 32-byte component for Ed25519.
pub open spec fn big_r_len(scheme: KeyScheme) -> nat {
    match scheme {
        KeyScheme::Secp256k1 => 33,
        KeyScheme::Ed25519 => 32,
    }
}

/// What reconstruction yields for a response `(big_r, s)` under a scheme.
pub open spec fn reconstruct_spec(big_r: Seq<char>, s: Seq<char>, scheme: KeyScheme) -> Result<Seq<u8>, SignError> {
    if !is_hex(big_r) || !is_hex(s) {
        Err(SignError::MalformedHex)
    } else if hex_bytes(big_r).len() != big_r_len(scheme) || hex_bytes(s).len() != 32 {
        Err(SignError::LengthMismatch)
    } else {
        match scheme {
            KeyScheme::Secp256k1 => Ok(hex_bytes(big_r).subrange(1, 33) + hex_bytes(s) + seq![hex_bytes(big_r)[0]]),
            KeyScheme::Ed25519 => Ok(hex_bytes(big_r) + hex_bytes(s)),
        }
    }
}

/// Rebuilds the signature of `scheme` from the service's hex components.
pub fn reconstruct(big_r: &str, s: &str, scheme: KeyScheme) -> (r: Result<ReconstructedSignature, SignError>)
    ensures
        match (r, reconstruct_spec(big_r@, s@, scheme)) {
            (Ok(sig), Ok(bytes)) => sig.wf() && sig.scheme_spec() == scheme && sig.bytes_spec() == bytes,
            (Err(e), Err(f)) => e == f,
            _ => false,
        },
{
    let r_bytes = decode_component(big_r)?;
    let s_bytes = decode_component(s)?;
    match scheme {
        KeyScheme::Secp256k1 => {
            if r_bytes.len() != 33 || s_bytes.len() != 32 {
                return Err(SignError::LengthMismatch);
            }
            let x = slice_bytes(&r_bytes, 1, 33);
            Ok(ReconstructedSignature::Secp256k1 { r: x, s: s_bytes, recovery_id: r_bytes[0] })
        },
        KeyScheme::Ed25519 => {
            if r_bytes.len() != 32 || s_bytes.len() != 32 {
                return Err(SignError::LengthMismatch);
            }
            Ok(ReconstructedSignature::Ed25519 { r: r_bytes, s: s_bytes })
        },
    }
}

} // verus!
