//! Interface to the external cryptographic-primitives library (`ring`).
//!
//! The suite logic itself never computes with cryptography: descriptors
//! carry plain identifiers for the key-derivation and AEAD primitives a
//! suite consumes, and this module turns an identifier into the concrete
//! `ring` algorithm handle that the record layer and key schedule need.
//! The handles are opaque here; nothing about their behaviour is claimed.

use vstd::prelude::*;

verus! {

/// Identifier for the HKDF-style key-derivation algorithm of a suite,
/// tied to the suite's hash algorithm.
#[derive(Clone, Copy, Debug, PartialEq, Eq, Structural)]
pub enum HkdfAlgorithm {
    HkdfSha256,
    HkdfSha384,
}

/// Identifier for the authenticated-encryption primitive of a suite,
/// tied to the suite's bulk algorithm.
#[derive(Clone, Copy, Debug, PartialEq, Eq, Structural)]
pub enum AeadAlgorithm {
    Aes128Gcm,
    Aes256Gcm,
    Chacha20Poly1305,
}

#[verifier::external_type_specification]
#[verifier::external_body]
pub struct ExHkdfAlgorithm(ring::hkdf::Algorithm);

#[verifier::external_type_specification]
#[verifier::external_body]
pub struct ExHmacAlgorithm(ring::hmac::Algorithm);

#[verifier::external_type_specification]
#[verifier::external_body]
pub struct ExDigestAlgorithm(ring::digest::Algorithm);

#[verifier::external_type_specification]
#[verifier::external_body]
pub struct ExAeadAlgorithm(ring::aead::Algorithm);

/// Relies on ring::hkdf::Algorithm::hmac_algorithm: the HMAC algorithm
/// underlying an HKDF algorithm.
pub assume_specification[ ring::hkdf::Algorithm::hmac_algorithm ](
    alg: &ring::hkdf::Algorithm,
) -> ring::hmac::Algorithm;

/// Relies on ring::hmac::Algorithm::digest_algorithm: the digest
/// algorithm an HMAC algorithm is based on.
pub assume_specification[ ring::hmac::Algorithm::digest_algorithm ](
    alg: &ring::hmac::Algorithm,
) -> &'static ring::digest::Algorithm;

/// Relies on ring::hkdf::HKDF_SHA256: HKDF using HMAC-SHA-256.
#[verifier::external_body]
fn hkdf_sha256() -> ring::hkdf::Algorithm {
    ring::hkdf::HKDF_SHA256
}

/// Relies on ring::hkdf::HKDF_SHA384: HKDF using HMAC-SHA-384.
#[verifier::external_body]
fn hkdf_sha384() -> ring::hkdf::Algorithm {
    ring::hkdf::HKDF_SHA384
}

/// Relies on ring::aead::AES_128_GCM: AES-128 in Galois counter mode.
#[verifier::external_body]
fn aead_aes_128_gcm() -> &'static ring::aead::Algorithm {
    &ring::aead::AES_128_GCM
}

/// Relies on ring::aead::AES_256_GCM: AES-256 in Galois counter mode.
#[verifier::external_body]
fn aead_aes_256_gcm() -> &'static ring::aead::Algorithm {
    &ring::aead::AES_256_GCM
}

/// Relies on ring::aead::CHACHA20_POLY1305: the chacha20-poly1305 AEAD.
#[verifier::external_body]
fn aead_chacha20_poly1305() -> &'static ring::aead::Algorithm {
    &ring::aead::CHACHA20_POLY1305
}

/// The concrete `ring` HKDF handle for a key-derivation identifier.
pub fn ring_hkdf_algorithm(alg: HkdfAlgorithm) -> ring::hkdf::Algorithm {
    match alg {
        HkdfAlgorithm::HkdfSha256 => hkdf_sha256(),
        HkdfAlgorithm::HkdfSha384 => hkdf_sha384(),
    }
}

/// The concrete `ring` AEAD handle for an AEAD identifier.
pub fn ring_aead_algorithm(alg: AeadAlgorithm) -> &'static ring::aead::Algorithm {
    match alg {
        AeadAlgorithm::Aes128Gcm => aead_aes_128_gcm(),
        AeadAlgorithm::Aes256Gcm => aead_aes_256_gcm(),
        AeadAlgorithm::Chacha20Poly1305 => aead_chacha20_poly1305(),
    }
}

} // verus!
