//! The fixed, ordered catalog of every cipher suite this library
//! supports, most preferred first, and its default-enabled subset.
//!
//! The catalog is built afresh by `all_ciphersuites`; its value is fixed
//! by `spec_all_ciphersuites`, so every caller sees the same table.

use vstd::prelude::*;

use crate::crypto::AeadAlgorithm;
use crate::crypto::HkdfAlgorithm;
use crate::enums::CipherSuite;
use crate::enums::HashAlgorithm;
use crate::enums::KeyExchangeAlgorithm;
use crate::suites::BulkAlgorithm;
use crate::suites::SignatureSchemeList;
use crate::suites::SupportedCipherSuite;
use crate::suites::Tls12CipherBuilder;
use vstd::std_specs::cmp::PartialEqSpec;

verus! {

/// The prior-version ciphersuite TLS_ECDHE_ECDSA_WITH_CHACHA20_POLY1305_SHA256.
pub open spec fn spec_tls_ecdhe_ecdsa_with_chacha20_poly1305_sha256() -> SupportedCipherSuite {
    SupportedCipherSuite {
        suite: CipherSuite::TLS_ECDHE_ECDSA_WITH_CHACHA20_POLY1305_SHA256,
        kx: KeyExchangeAlgorithm::ECDHE,
        bulk: BulkAlgorithm::CHACHA20_POLY1305,
        hash: HashAlgorithm::SHA256,
        sign: Some(SignatureSchemeList::Tls12EcdsaSchemes),
        enc_key_len: 32,
        fixed_iv_len: 12,
        explicit_nonce_len: 0,
        hkdf_algorithm: HkdfAlgorithm::HkdfSha256,
        aead_algorithm: AeadAlgorithm::Chacha20Poly1305,
        build_tls12_encrypter: Some(Tls12CipherBuilder::Chacha),
        build_tls12_decrypter: Some(Tls12CipherBuilder::Chacha),
    }
}

/// The prior-version ciphersuite TLS_ECDHE_ECDSA_WITH_CHACHA20_POLY1305_SHA256.
pub fn tls_ecdhe_ecdsa_with_chacha20_poly1305_sha256() -> (suite: SupportedCipherSuite)
    ensures
        suite == spec_tls_ecdhe_ecdsa_with_chacha20_poly1305_sha256(),
{
    SupportedCipherSuite {
        suite: CipherSuite::TLS_ECDHE_ECDSA_WITH_CHACHA20_POLY1305_SHA256,
        kx: KeyExchangeAlgorithm::ECDHE,
        bulk: BulkAlgorithm::CHACHA20_POLY1305,
        hash: HashAlgorithm::SHA256,
        sign: Some(SignatureSchemeList::Tls12EcdsaSchemes),
        enc_key_len: 32,
        fixed_iv_len: 12,
        explicit_nonce_len: 0,
        hkdf_algorithm: HkdfAlgorithm::HkdfSha256,
        aead_algorithm: AeadAlgorithm::Chacha20Poly1305,
        build_tls12_encrypter: Some(Tls12CipherBuilder::Chacha),
        build_tls12_decrypter: Some(Tls12CipherBuilder::Chacha),
    }
}

/// The prior-version ciphersuite TLS_ECDHE_RSA_WITH_CHACHA20_POLY1305_SHA256.
pub open spec fn spec_tls_ecdhe_rsa_with_chacha20_poly1305_sha256() -> SupportedCipherSuite {
    SupportedCipherSuite {
        suite: CipherSuite::TLS_ECDHE_RSA_WITH_CHACHA20_POLY1305_SHA256,
        kx: KeyExchangeAlgorithm::ECDHE,
        bulk: BulkAlgorithm::CHACHA20_POLY1305,
        hash: HashAlgorithm::SHA256,
        sign: Some(SignatureSchemeList::Tls12RsaSchemes),
        enc_key_len: 32,
        fixed_iv_len: 12,
        explicit_nonce_len: 0,
        hkdf_algorithm: HkdfAlgorithm::HkdfSha256,
        aead_algorithm: AeadAlgorithm::Chacha20Poly1305,
        build_tls12_encrypter: Some(Tls12CipherBuilder::Chacha),
        build_tls12_decrypter: Some(Tls12CipherBuilder::Chacha),
    }
}

/// The prior-version ciphersuite TLS_ECDHE_RSA_WITH_CHACHA20_POLY1305_SHA256.
pub fn tls_ecdhe_rsa_with_chacha20_poly1305_sha256() -> (suite: SupportedCipherSuite)
    ensures
        suite == spec_tls_ecdhe_rsa_with_chacha20_poly1305_sha256(),
{
    SupportedCipherSuite {
        suite: CipherSuite::TLS_ECDHE_RSA_WITH_CHACHA20_POLY1305_SHA256,
        kx: KeyExchangeAlgorithm::ECDHE,
        bulk: BulkAlgorithm::CHACHA20_POLY1305,
        hash: HashAlgorithm::SHA256,
        sign: Some(SignatureSchemeList::Tls12RsaSchemes),
        enc_key_len: 32,
        fixed_iv_len: 12,
        explicit_nonce_len: 0,
        hkdf_algorithm: HkdfAlgorithm::HkdfSha256,
        aead_algorithm: AeadAlgorithm::Chacha20Poly1305,
        build_tls12_encrypter: Some(Tls12CipherBuilder::Chacha),
        build_tls12_decrypter: Some(Tls12CipherBuilder::Chacha),
    }
}

/// The prior-version ciphersuite TLS_ECDHE_RSA_WITH_AES_128_GCM_SHA256.
pub open spec fn spec_tls_ecdhe_rsa_with_aes_128_gcm_sha256() -> SupportedCipherSuite {
    SupportedCipherSuite {
        suite: CipherSuite::TLS_ECDHE_RSA_WITH_AES_128_GCM_SHA256,
        kx: KeyExchangeAlgorithm::ECDHE,
        bulk: BulkAlgorithm::AES_128_GCM,
        hash: HashAlgorithm::SHA256,
        sign: Some(SignatureSchemeList::Tls12RsaSchemes),
        enc_key_len: 16,
        fixed_iv_len: 4,
        explicit_nonce_len: 8,
        hkdf_algorithm: HkdfAlgorithm::HkdfSha256,
        aead_algorithm: AeadAlgorithm::Aes128Gcm,
        build_tls12_encrypter: Some(Tls12CipherBuilder::Gcm128),
        build_tls12_decrypter: Some(Tls12CipherBuilder::Gcm128),
    }
}

/// The prior-version ciphersuite TLS_ECDHE_RSA_WITH_AES_128_GCM_SHA256.
pub fn tls_ecdhe_rsa_with_aes_128_gcm_sha256() -> (suite: SupportedCipherSuite)
    ensures
        suite == spec_tls_ecdhe_rsa_with_aes_128_gcm_sha256(),
{
    SupportedCipherSuite {
        suite: CipherSuite::TLS_ECDHE_RSA_WITH_AES_128_GCM_SHA256,
        kx: KeyExchangeAlgorithm::ECDHE,
        bulk: BulkAlgorithm::AES_128_GCM,
        hash: HashAlgorithm::SHA256,
        sign: Some(SignatureSchemeList::Tls12RsaSchemes),
        enc_key_len: 16,
        fixed_iv_len: 4,
        explicit_nonce_len: 8,
        hkdf_algorithm: HkdfAlgorithm::HkdfSha256,
        aead_algorithm: AeadAlgorithm::Aes128Gcm,
        build_tls12_encrypter: Some(Tls12CipherBuilder::Gcm128),
        build_tls12_decrypter: Some(Tls12CipherBuilder::Gcm128),
    }
}

/// The prior-version ciphersuite TLS_ECDHE_RSA_WITH_AES_256_GCM_SHA384.
pub open spec fn spec_tls_ecdhe_rsa_with_aes_256_gcm_sha384() -> SupportedCipherSuite {
    SupportedCipherSuite {
        suite: CipherSuite::TLS_ECDHE_RSA_WITH_AES_256_GCM_SHA384,
        kx: KeyExchangeAlgorithm::ECDHE,
        bulk: BulkAlgorithm::AES_256_GCM,
        hash: HashAlgorithm::SHA384,
        sign: Some(SignatureSchemeList::Tls12RsaSchemes),
        enc_key_len: 32,
        fixed_iv_len: 4,
        explicit_nonce_len: 8,
        hkdf_algorithm: HkdfAlgorithm::HkdfSha384,
        aead_algorithm: AeadAlgorithm::Aes256Gcm,
        build_tls12_encrypter: Some(Tls12CipherBuilder::Gcm256),
        build_tls12_decrypter: Some(Tls12CipherBuilder::Gcm256),
    }
}

/// The prior-version ciphersuite TLS_ECDHE_RSA_WITH_AES_256_GCM_SHA384.
pub fn tls_ecdhe_rsa_with_aes_256_gcm_sha384() -> (suite: SupportedCipherSuite)
    ensures
        suite == spec_tls_ecdhe_rsa_with_aes_256_gcm_sha384(),
{
    SupportedCipherSuite {
        suite: CipherSuite::TLS_ECDHE_RSA_WITH_AES_256_GCM_SHA384,
        kx: KeyExchangeAlgorithm::ECDHE,
        bulk: BulkAlgorithm::AES_256_GCM,
        hash: HashAlgorithm::SHA384,
        sign: Some(SignatureSchemeList::Tls12RsaSchemes),
        enc_key_len: 32,
        fixed_iv_len: 4,
        explicit_nonce_len: 8,
        hkdf_algorithm: HkdfAlgorithm::HkdfSha384,
        aead_algorithm: AeadAlgorithm::Aes256Gcm,
        build_tls12_encrypter: Some(Tls12CipherBuilder::Gcm256),
        build_tls12_decrypter: Some(Tls12CipherBuilder::Gcm256),
    }
}

/// The prior-version ciphersuite TLS_ECDHE_ECDSA_WITH_AES_128_GCM_SHA256.
pub open spec fn spec_tls_ecdhe_ecdsa_with_aes_128_gcm_sha256() -> SupportedCipherSuite {
    SupportedCipherSuite {
        suite: CipherSuite::TLS_ECDHE_ECDSA_WITH_AES_128_GCM_SHA256,
        kx: KeyExchangeAlgorithm::ECDHE,
        bulk: BulkAlgorithm::AES_128_GCM,
        hash: HashAlgorithm::SHA256,
        sign: Some(SignatureSchemeList::Tls12EcdsaSchemes),
        enc_key_len: 16,
        fixed_iv_len: 4,
        explicit_nonce_len: 8,
        hkdf_algorithm: HkdfAlgorithm::HkdfSha256,
        aead_algorithm: AeadAlgorithm::Aes128Gcm,
        build_tls12_encrypter: Some(Tls12CipherBuilder::Gcm128),
        build_tls12_decrypter: Some(Tls12CipherBuilder::Gcm128),
    }
}

/// The prior-version ciphersuite TLS_ECDHE_ECDSA_WITH_AES_128_GCM_SHA256.
pub fn tls_ecdhe_ecdsa_with_aes_128_gcm_sha256() -> (suite: SupportedCipherSuite)
    ensures
        suite == spec_tls_ecdhe_ecdsa_with_aes_128_gcm_sha256(),
{
    SupportedCipherSuite {
        suite: CipherSuite::TLS_ECDHE_ECDSA_WITH_AES_128_GCM_SHA256,
        kx: KeyExchangeAlgorithm::ECDHE,
        bulk: BulkAlgorithm::AES_128_GCM,
        hash: HashAlgorithm::SHA256,
        sign: Some(SignatureSchemeList::Tls12EcdsaSchemes),
        enc_key_len: 16,
        fixed_iv_len: 4,
        explicit_nonce_len: 8,
        hkdf_algorithm: HkdfAlgorithm::HkdfSha256,
        aead_algorithm: AeadAlgorithm::Aes128Gcm,
        build_tls12_encrypter: Some(Tls12CipherBuilder::Gcm128),
        build_tls12_decrypter: Some(Tls12CipherBuilder::Gcm128),
    }
}

/// The prior-version ciphersuite TLS_ECDHE_ECDSA_WITH_AES_256_GCM_SHA384.
pub open spec fn spec_tls_ecdhe_ecdsa_with_aes_256_gcm_sha384() -> SupportedCipherSuite {
    SupportedCipherSuite {
        suite: CipherSuite::TLS_ECDHE_ECDSA_WITH_AES_256_GCM_SHA384,
        kx: KeyExchangeAlgorithm::ECDHE,
        bulk: BulkAlgorithm::AES_256_GCM,
        hash: HashAlgorithm::SHA384,
        sign: Some(SignatureSchemeList::Tls12EcdsaSchemes),
        enc_key_len: 32,
        fixed_iv_len: 4,
        explicit_nonce_len: 8,
        hkdf_algorithm: HkdfAlgorithm::HkdfSha384,
        aead_algorithm: AeadAlgorithm::Aes256Gcm,
        build_tls12_encrypter: Some(Tls12CipherBuilder::Gcm256),
        build_tls12_decrypter: Some(Tls12CipherBuilder::Gcm256),
    }
}

/// The prior-version ciphersuite TLS_ECDHE_ECDSA_WITH_AES_256_GCM_SHA384.
pub fn tls_ecdhe_ecdsa_with_aes_256_gcm_sha384() -> (suite: SupportedCipherSuite)
    ensures
        suite == spec_tls_ecdhe_ecdsa_with_aes_256_gcm_sha384(),
{
    SupportedCipherSuite {
        suite: CipherSuite::TLS_ECDHE_ECDSA_WITH_AES_256_GCM_SHA384,
        kx: KeyExchangeAlgorithm::ECDHE,
        bulk: BulkAlgorithm::AES_256_GCM,
        hash: HashAlgorithm::SHA384,
        sign: Some(SignatureSchemeList::Tls12EcdsaSchemes),
        enc_key_len: 32,
        fixed_iv_len: 4,
        explicit_nonce_len: 8,
        hkdf_algorithm: HkdfAlgorithm::HkdfSha384,
        aead_algorithm: AeadAlgorithm::Aes256Gcm,
        build_tls12_encrypter: Some(Tls12CipherBuilder::Gcm256),
        build_tls12_decrypter: Some(Tls12CipherBuilder::Gcm256),
    }
}

/// The latest-version ciphersuite TLS13_CHACHA20_POLY1305_SHA256.
pub open spec fn spec_tls13_chacha20_poly1305_sha256() -> SupportedCipherSuite {
    SupportedCipherSuite {
        suite: CipherSuite::TLS13_CHACHA20_POLY1305_SHA256,
        kx: KeyExchangeAlgorithm::BulkOnly,
        bulk: BulkAlgorithm::CHACHA20_POLY1305,
        hash: HashAlgorithm::SHA256,
        sign: None,
        enc_key_len: 32,
        fixed_iv_len: 12,
        explicit_nonce_len: 0,
        hkdf_algorithm: HkdfAlgorithm::HkdfSha256,
        aead_algorithm: AeadAlgorithm::Chacha20Poly1305,
        build_tls12_encrypter: None,
        build_tls12_decrypter: None,
    }
}

/// The latest-version ciphersuite TLS13_CHACHA20_POLY1305_SHA256.
pub fn tls13_chacha20_poly1305_sha256() -> (suite: SupportedCipherSuite)
    ensures
        suite == spec_tls13_chacha20_poly1305_sha256(),
{
    SupportedCipherSuite {
        suite: CipherSuite::TLS13_CHACHA20_POLY1305_SHA256,
        kx: KeyExchangeAlgorithm::BulkOnly,
        bulk: BulkAlgorithm::CHACHA20_POLY1305,
        hash: HashAlgorithm::SHA256,
        sign: None,
        enc_key_len: 32,
        fixed_iv_len: 12,
        explicit_nonce_len: 0,
        hkdf_algorithm: HkdfAlgorithm::HkdfSha256,
        aead_algorithm: AeadAlgorithm::Chacha20Poly1305,
        build_tls12_encrypter: None,
        build_tls12_decrypter: None,
    }
}

/// The latest-version ciphersuite TLS13_AES_256_GCM_SHA384.
pub open spec fn spec_tls13_aes_256_gcm_sha384() -> SupportedCipherSuite {
    SupportedCipherSuite {
        suite: CipherSuite::TLS13_AES_256_GCM_SHA384,
        kx: KeyExchangeAlgorithm::BulkOnly,
        bulk: BulkAlgorithm::AES_256_GCM,
        hash: HashAlgorithm::SHA384,
        sign: None,
        enc_key_len: 32,
        fixed_iv_len: 12,
        explicit_nonce_len: 0,
        hkdf_algorithm: HkdfAlgorithm::HkdfSha384,
        aead_algorithm: AeadAlgorithm::Aes256Gcm,
        build_tls12_encrypter: None,
        build_tls12_decrypter: None,
    }
}

/// The latest-version ciphersuite TLS13_AES_256_GCM_SHA384.
pub fn tls13_aes_256_gcm_sha384() -> (suite: SupportedCipherSuite)
    ensures
        suite == spec_tls13_aes_256_gcm_sha384(),
{
    SupportedCipherSuite {
        suite: CipherSuite::TLS13_AES_256_GCM_SHA384,
        kx: KeyExchangeAlgorithm::BulkOnly,
        bulk: BulkAlgorithm::AES_256_GCM,
        hash: HashAlgorithm::SHA384,
        sign: None,
        enc_key_len: 32,
        fixed_iv_len: 12,
        explicit_nonce_len: 0,
        hkdf_algorithm: HkdfAlgorithm::HkdfSha384,
        aead_algorithm: AeadAlgorithm::Aes256Gcm,
        build_tls12_encrypter: None,
        build_tls12_decrypter: None,
    }
}

/// The latest-version ciphersuite TLS13_AES_128_GCM_SHA256.
pub open spec fn spec_tls13_aes_128_gcm_sha256() -> SupportedCipherSuite {
    SupportedCipherSuite {
        suite: CipherSuite::TLS13_AES_128_GCM_SHA256,
        kx: KeyExchangeAlgorithm::BulkOnly,
        bulk: BulkAlgorithm::AES_128_GCM,
        hash: HashAlgorithm::SHA256,
        sign: None,
        enc_key_len: 16,
        fixed_iv_len: 12,
        explicit_nonce_len: 0,
        hkdf_algorithm: HkdfAlgorithm::HkdfSha256,
        aead_algorithm: AeadAlgorithm::Aes128Gcm,
        build_tls12_encrypter: None,
        build_tls12_decrypter: None,
    }
}

/// The latest-version ciphersuite TLS13_AES_128_GCM_SHA256.
pub fn tls13_aes_128_gcm_sha256() -> (suite: SupportedCipherSuite)
    ensures
        suite == spec_tls13_aes_128_gcm_sha256(),
{
    SupportedCipherSuite {
        suite: CipherSuite::TLS13_AES_128_GCM_SHA256,
        kx: KeyExchangeAlgorithm::BulkOnly,
        bulk: BulkAlgorithm::AES_128_GCM,
        hash: HashAlgorithm::SHA256,
        sign: None,
        enc_key_len: 16,
        fixed_iv_len: 12,
        explicit_nonce_len: 0,
        hkdf_algorithm: HkdfAlgorithm::HkdfSha256,
        aead_algorithm: AeadAlgorithm::Aes128Gcm,
        build_tls12_encrypter: None,
        build_tls12_decrypter: None,
    }
}

/// The full catalog, most preferred first: latest-version suites before
/// prior-version suites.
pub open spec fn spec_all_ciphersuites() -> Seq<SupportedCipherSuite> {
    seq![
        spec_tls13_aes_256_gcm_sha384(),
        spec_tls13_aes_128_gcm_sha256(),
        spec_tls13_chacha20_poly1305_sha256(),
        spec_tls_ecdhe_ecdsa_with_aes_256_gcm_sha384(),
        spec_tls_ecdhe_ecdsa_with_aes_128_gcm_sha256(),
        spec_tls_ecdhe_ecdsa_with_chacha20_poly1305_sha256(),
        spec_tls_ecdhe_rsa_with_aes_256_gcm_sha384(),
        spec_tls_ecdhe_rsa_with_aes_128_gcm_sha256(),
        spec_tls_ecdhe_rsa_with_chacha20_poly1305_sha256(),
    ]
}

/// A list of all the cipher suites supported by this library.
pub fn all_ciphersuites() -> (r: Vec<SupportedCipherSuite>)
    ensures
        r@ == spec_all_ciphersuites(),
{
    let mut r: Vec<SupportedCipherSuite> = Vec::new();
    r.push(tls13_aes_256_gcm_sha384());
    r.push(tls13_aes_128_gcm_sha256());
    r.push(tls13_chacha20_poly1305_sha256());
    r.push(tls_ecdhe_ecdsa_with_aes_256_gcm_sha384());
    r.push(tls_ecdhe_ecdsa_with_aes_128_gcm_sha256());
    r.push(tls_ecdhe_ecdsa_with_chacha20_poly1305_sha256());
    r.push(tls_ecdhe_rsa_with_aes_256_gcm_sha384());
    r.push(tls_ecdhe_rsa_with_aes_128_gcm_sha256());
    r.push(tls_ecdhe_rsa_with_chacha20_poly1305_sha256());
    proof {
        assert(r@ =~= spec_all_ciphersuites());
    }
    r
}

/// The default-enabled subset: the full catalog, with nothing currently
/// excluded.
pub open spec fn spec_default_ciphersuites() -> Seq<SupportedCipherSuite> {
    spec_all_ciphersuites()
}

/// The cipher suite configuration that an application should use by
/// default: `all_ciphersuites` sans any suites that shouldn't be enabled
/// by most applications (currently none).
pub fn default_ciphersuites() -> (r: Vec<SupportedCipherSuite>)
    ensures
        r@ == spec_default_ciphersuites(),
{
    all_ciphersuites()
}

/// Every catalog entry satisfies the descriptor invariant.
pub proof fn lemma_catalog_well_formed()
    ensures
        forall|i: int| 0 <= i < spec_all_ciphersuites().len()
            ==> (#[trigger] spec_all_ciphersuites()[i]).well_formed(),
{
}

/// The suite identifier is a unique key across the catalog.
pub proof fn lemma_catalog_ids_distinct()
    ensures
        forall|i: int, j: int|
            0 <= i < spec_all_ciphersuites().len() && 0 <= j < spec_all_ciphersuites().len() && i
                != j ==> (#[trigger] spec_all_ciphersuites()[i]).suite
                != (#[trigger] spec_all_ciphersuites()[j]).suite,
{
}

/// Catalog entries with distinct identifiers are unequal, in both
/// directions, and every entry equals itself; equality of descriptors is
/// defined solely by the suite identifier.
pub proof fn lemma_catalog_entries_distinct(i: int, j: int)
    requires
        0 <= i < spec_all_ciphersuites().len(),
        0 <= j < spec_all_ciphersuites().len(),
        i != j,
    ensures
        !spec_all_ciphersuites()[i].eq_spec(&spec_all_ciphersuites()[j]),
        !spec_all_ciphersuites()[j].eq_spec(&spec_all_ciphersuites()[i]),
        spec_all_ciphersuites()[i].eq_spec(&spec_all_ciphersuites()[i]),
{
    lemma_catalog_ids_distinct();
}

} // verus!
