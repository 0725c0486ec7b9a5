//! P-256 key material.  The library holds a QOS key pair as the 32-byte
//! master seed that `qos_p256::P256Pair` is derived from (the form in which
//! key files store it); every operation on the pair goes through the trusted
//! items below, which rebuild the pair from the seed.

use p256::ecdsa::signature::Signer;
use p256::elliptic_curve::zeroize::Zeroizing;
use vstd::prelude::*;

verus! {

/// The raw signature that `P256Pair::sign` makes over `message` with the pair
/// derived from `seed`; `None` where no pair can be derived from `seed`.
pub uninterp spec fn qos_p256_signature(seed: Seq<u8>, message: Seq<u8>) -> Option<Seq<u8>>;

/// `P256Public::to_bytes` of the pair derived from `seed`.
pub uninterp spec fn qos_p256_public_key(seed: Seq<u8>) -> Option<Seq<u8>>;

/// The 32-byte secret that `qos_p256::derive_secret` derives from `seed`
/// along `path`.
pub uninterp spec fn qos_p256_derived_secret(seed: Seq<u8>, path: Seq<u8>) -> Seq<u8>;

/// The DER-encoded ECDSA signature that the `p256` signing key with scalar
/// bytes `secret` makes over `message`; `None` where `secret` is no valid
/// scalar.
pub uninterp spec fn p256_der_signature(secret: Seq<u8>, message: Seq<u8>) -> Option<Seq<u8>>;

/// The SEC1 compressed public point of the `p256` signing key with scalar
/// bytes `secret`; `None` where `secret` is no valid scalar.
pub uninterp spec fn p256_compressed_public_key(secret: Seq<u8>) -> Option<Seq<u8>>;

/// `P256Pair::from_master_seed` followed by `P256Pair::sign`: the pair signs
/// deterministically, so the result is a function of seed and message; a
/// signature is the 64 bytes `r || s`.  `sign` itself never fails, so this
/// succeeds exactly when the pair can be derived from `seed`, that is exactly
/// when the pair's public key exists.  The error is the debug text of the
/// `P256Error`.
#[verifier::external_body]
pub(crate) fn qos_p256_sign(seed: &[u8; 32], message: &[u8]) -> (res: Result<Vec<u8>, String>)
    ensures
        res is Ok <==> qos_p256_signature(seed@, message@) is Some,
        res is Ok ==> res->Ok_0@ == qos_p256_signature(seed@, message@)->Some_0,
        res is Ok ==> res->Ok_0@.len() == 64,
        res is Ok <==> qos_p256_public_key(seed@) is Some,
{
    match qos_p256::P256Pair::from_master_seed(&Zeroizing::new(*seed)) {
        Ok(pair) => pair.sign(message).map_err(|e| format!("{e:?}")),
        Err(e) => Err(format!("{e:?}")),
    }
}

/// `P256Pair::from_master_seed` followed by `public_key().to_bytes()`.
#[verifier::external_body]
pub(crate) fn qos_p256_public_key_bytes(seed: &[u8; 32]) -> (res: Result<Vec<u8>, String>)
    ensures
        res is Ok <==> qos_p256_public_key(seed@) is Some,
        res is Ok ==> res->Ok_0@ == qos_p256_public_key(seed@)->Some_0,
{
    match qos_p256::P256Pair::from_master_seed(&Zeroizing::new(*seed)) {
        Ok(pair) => Ok(pair.public_key().to_bytes()),
        Err(e) => Err(format!("{e:?}")),
    }
}

/// `qos_p256::derive_secret`: HKDF-SHA512 expansion of 32 bytes, which never
/// exceeds the HKDF output limit, so it always succeeds.
#[verifier::external_body]
pub(crate) fn qos_p256_derive_secret(seed: &[u8; 32], path: &[u8]) -> (res: Result<Vec<u8>, String>)
    ensures
        res is Ok,
        res is Ok ==> res->Ok_0@ == qos_p256_derived_secret(seed@, path@),
        res is Ok ==> res->Ok_0@.len() == 32,
{
    qos_p256::derive_secret(&Zeroizing::new(*seed), path).map(|secret| secret.to_vec()).map_err(
        |e| format!("{e:?}"),
    )
}

/// `p256::ecdsa::SigningKey::from_slice` followed by `sign` and `to_der`:
/// deterministic (RFC 6979) ECDSA over SHA-256, DER-encoded, at most 73
/// bytes.  The error is the display text of the `from_slice` error.
#[verifier::external_body]
pub(crate) fn p256_sign_der(secret: &[u8], message: &[u8]) -> (res: Result<Vec<u8>, String>)
    ensures
        res is Ok <==> p256_der_signature(secret@, message@) is Some,
        res is Ok ==> res->Ok_0@ == p256_der_signature(secret@, message@)->Some_0,
        res is Ok ==> res->Ok_0@.len() <= 73,
{
    let key = p256::ecdsa::SigningKey::from_slice(secret).map_err(|e| e.to_string())?;
    let signature: p256::ecdsa::Signature = key.sign(message);
    Ok(signature.to_der().as_bytes().to_vec())
}

/// `p256::ecdsa::SigningKey::from_slice` followed by
/// `verifying_key().to_encoded_point(true)`: the 33-byte compressed point.
#[verifier::external_body]
pub(crate) fn p256_compressed_public(secret: &[u8]) -> (res: Result<Vec<u8>, String>)
    ensures
        res is Ok <==> p256_compressed_public_key(secret@) is Some,
        res is Ok ==> res->Ok_0@ == p256_compressed_public_key(secret@)->Some_0,
        res is Ok ==> res->Ok_0@.len() == 33,
{
    let key = p256::ecdsa::SigningKey::from_slice(secret).map_err(|e| e.to_string())?;
    Ok(key.verifying_key().to_encoded_point(true).as_bytes().to_vec())
}

} // verus!
