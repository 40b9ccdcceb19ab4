use tls_suites::catalog::all_ciphersuites;
use tls_suites::catalog::default_ciphersuites;
use tls_suites::catalog::tls13_aes_128_gcm_sha256;
use tls_suites::catalog::tls13_aes_256_gcm_sha384;
use tls_suites::catalog::tls13_chacha20_poly1305_sha256;
use tls_suites::catalog::tls_ecdhe_ecdsa_with_aes_128_gcm_sha256;
use tls_suites::catalog::tls_ecdhe_ecdsa_with_aes_256_gcm_sha384;
use tls_suites::catalog::tls_ecdhe_ecdsa_with_chacha20_poly1305_sha256;
use tls_suites::catalog::tls_ecdhe_rsa_with_aes_128_gcm_sha256;
use tls_suites::catalog::tls_ecdhe_rsa_with_aes_256_gcm_sha384;
use tls_suites::catalog::tls_ecdhe_rsa_with_chacha20_poly1305_sha256;
use tls_suites::crypto::ring_aead_algorithm;
use tls_suites::crypto::AeadAlgorithm;
use tls_suites::enums::CipherSuite;
use tls_suites::enums::ProtocolVersion;
use tls_suites::enums::SignatureAlgorithm;
use tls_suites::enums::SignatureScheme;
use tls_suites::negotiation::choose_ciphersuite_preferring_client;
use tls_suites::negotiation::choose_ciphersuite_preferring_server;
use tls_suites::negotiation::compatible_sigscheme_for_suites;
use tls_suites::negotiation::reduce_given_sigalg;
use tls_suites::negotiation::reduce_given_version;

#[test]
fn test_catalog_equality_is_identity() {
    let all = all_ciphersuites();
    for i in 0..all.len() {
        for j in 0..all.len() {
            if i == j {
                assert_eq!(all[i], all[j]);
            } else {
                assert_ne!(all[i], all[j]);
                assert_ne!(all[j], all[i]);
            }
        }
    }
}

#[test]
fn test_reduce_given_version_idempotent() {
    let all = all_ciphersuites();
    for version in [
        ProtocolVersion::TLSv1_3,
        ProtocolVersion::TLSv1_2,
        ProtocolVersion::TLSv1_0,
    ] {
        let once = reduce_given_version(&all, version);
        let twice = reduce_given_version(&once, version);
        assert_eq!(once, twice);
    }
}

#[test]
fn test_reduce_given_sigalg_idempotent() {
    let all = all_ciphersuites();
    for sigalg in [
        SignatureAlgorithm::RSA,
        SignatureAlgorithm::ECDSA,
        SignatureAlgorithm::ED25519,
        SignatureAlgorithm::Anonymous,
    ] {
        let once = reduce_given_sigalg(&all, sigalg);
        let twice = reduce_given_sigalg(&once, sigalg);
        assert_eq!(once, twice);
    }
}

#[test]
fn test_reduce_given_version_contents() {
    let all = all_ciphersuites();
    let latest = reduce_given_version(&all, ProtocolVersion::TLSv1_3);
    assert_eq!(
        latest,
        vec![
            tls13_aes_256_gcm_sha384(),
            tls13_aes_128_gcm_sha256(),
            tls13_chacha20_poly1305_sha256(),
        ]
    );
    let prior = reduce_given_version(&all, ProtocolVersion::TLSv1_2);
    assert_eq!(
        prior,
        vec![
            tls_ecdhe_ecdsa_with_aes_256_gcm_sha384(),
            tls_ecdhe_ecdsa_with_aes_128_gcm_sha256(),
            tls_ecdhe_ecdsa_with_chacha20_poly1305_sha256(),
            tls_ecdhe_rsa_with_aes_256_gcm_sha384(),
            tls_ecdhe_rsa_with_aes_128_gcm_sha256(),
            tls_ecdhe_rsa_with_chacha20_poly1305_sha256(),
        ]
    );
    let other = reduce_given_version(&all, ProtocolVersion::TLSv1_0);
    assert!(other.is_empty());
}

#[test]
fn test_reduce_given_sigalg_contents() {
    let all = all_ciphersuites();
    // suites of the latest version express no constraint, so they
    // survive every reduction; prior-version suites keep only their own
    // key type
    let rsa = reduce_given_sigalg(&all, SignatureAlgorithm::RSA);
    assert_eq!(
        rsa,
        vec![
            tls13_aes_256_gcm_sha384(),
            tls13_aes_128_gcm_sha256(),
            tls13_chacha20_poly1305_sha256(),
            tls_ecdhe_rsa_with_aes_256_gcm_sha384(),
            tls_ecdhe_rsa_with_aes_128_gcm_sha256(),
            tls_ecdhe_rsa_with_chacha20_poly1305_sha256(),
        ]
    );
    let ecdsa = reduce_given_sigalg(&all, SignatureAlgorithm::ECDSA);
    assert_eq!(
        ecdsa,
        vec![
            tls13_aes_256_gcm_sha384(),
            tls13_aes_128_gcm_sha256(),
            tls13_chacha20_poly1305_sha256(),
            tls_ecdhe_ecdsa_with_aes_256_gcm_sha384(),
            tls_ecdhe_ecdsa_with_aes_128_gcm_sha256(),
            tls_ecdhe_ecdsa_with_chacha20_poly1305_sha256(),
        ]
    );
}

#[test]
fn test_resume_latest_version_by_hash() {
    // same KDF hash: resumption allowed in both directions, whatever the
    // suite identifiers
    assert!(tls13_aes_128_gcm_sha256().can_resume_to(&tls13_chacha20_poly1305_sha256()));
    assert!(tls13_chacha20_poly1305_sha256().can_resume_to(&tls13_aes_128_gcm_sha256()));
    assert!(tls13_aes_256_gcm_sha384().can_resume_to(&tls13_aes_256_gcm_sha384()));
    // different KDF hash: never
    assert!(!tls13_aes_128_gcm_sha256().can_resume_to(&tls13_aes_256_gcm_sha384()));
    assert!(!tls13_aes_256_gcm_sha384().can_resume_to(&tls13_chacha20_poly1305_sha256()));
}

#[test]
fn test_resume_prior_version_by_identity() {
    // identical suite: allowed
    assert!(tls_ecdhe_rsa_with_aes_128_gcm_sha256()
        .can_resume_to(&tls_ecdhe_rsa_with_aes_128_gcm_sha256()));
    // distinct prior-version suites: never, even with equal hashes
    assert!(!tls_ecdhe_rsa_with_aes_128_gcm_sha256()
        .can_resume_to(&tls_ecdhe_ecdsa_with_aes_128_gcm_sha256()));
    // across versions: never, in either direction
    assert!(!tls_ecdhe_rsa_with_aes_128_gcm_sha256().can_resume_to(&tls13_aes_128_gcm_sha256()));
    assert!(!tls13_aes_128_gcm_sha256().can_resume_to(&tls_ecdhe_rsa_with_aes_128_gcm_sha256()));
}

#[test]
fn test_resolve_preserves_preference_order() {
    // descriptor preference: PSS-512, PSS-384, PSS-256, PKCS1-512,
    // PKCS1-384, PKCS1-256; the result follows it, not the offer
    let suite = tls_ecdhe_rsa_with_aes_128_gcm_sha256();
    let offered = vec![
        SignatureScheme::RSA_PKCS1_SHA256,
        SignatureScheme::RSA_PSS_SHA384,
    ];
    let resolved = suite.resolve_sig_schemes(&offered);
    assert_eq!(
        resolved,
        vec![
            SignatureScheme::RSA_PSS_SHA384,
            SignatureScheme::RSA_PKCS1_SHA256,
        ]
    );
}

#[test]
fn test_resolve_excludes_unoffered() {
    let suite = tls_ecdhe_ecdsa_with_aes_128_gcm_sha256();
    let offered = vec![
        SignatureScheme::ECDSA_NISTP256_SHA256,
        SignatureScheme::RSA_PSS_SHA256,
        SignatureScheme::ED25519,
    ];
    let resolved = suite.resolve_sig_schemes(&offered);
    assert_eq!(
        resolved,
        vec![
            SignatureScheme::ED25519,
            SignatureScheme::ECDSA_NISTP256_SHA256,
        ]
    );
}

#[test]
fn test_resolve_absent_is_empty() {
    let offered = vec![
        SignatureScheme::RSA_PSS_SHA256,
        SignatureScheme::ECDSA_NISTP256_SHA256,
        SignatureScheme::ED25519,
    ];
    for suite in [
        tls13_aes_256_gcm_sha384(),
        tls13_aes_128_gcm_sha256(),
        tls13_chacha20_poly1305_sha256(),
    ] {
        assert!(suite.resolve_sig_schemes(&offered).is_empty());
        assert!(suite.resolve_sig_schemes(&Vec::new()).is_empty());
    }
}

#[test]
fn test_usable_for_sigalg_absent_always_true() {
    let algs = [
        SignatureAlgorithm::Anonymous,
        SignatureAlgorithm::RSA,
        SignatureAlgorithm::DSA,
        SignatureAlgorithm::ECDSA,
        SignatureAlgorithm::ED25519,
    ];
    for alg in algs {
        assert!(tls13_aes_128_gcm_sha256().usable_for_sigalg(alg));
        assert!(tls13_aes_256_gcm_sha384().usable_for_sigalg(alg));
        assert!(tls13_chacha20_poly1305_sha256().usable_for_sigalg(alg));
    }
}

#[test]
fn test_usable_for_sigalg_present_list() {
    let rsa_suite = tls_ecdhe_rsa_with_aes_128_gcm_sha256();
    assert!(rsa_suite.usable_for_sigalg(SignatureAlgorithm::RSA));
    assert!(!rsa_suite.usable_for_sigalg(SignatureAlgorithm::ECDSA));
    assert!(!rsa_suite.usable_for_sigalg(SignatureAlgorithm::ED25519));

    let ecdsa_suite = tls_ecdhe_ecdsa_with_aes_128_gcm_sha256();
    assert!(ecdsa_suite.usable_for_sigalg(SignatureAlgorithm::ECDSA));
    assert!(ecdsa_suite.usable_for_sigalg(SignatureAlgorithm::ED25519));
    assert!(!ecdsa_suite.usable_for_sigalg(SignatureAlgorithm::RSA));
    assert!(!ecdsa_suite.usable_for_sigalg(SignatureAlgorithm::Anonymous));
}

#[test]
fn test_compatible_sigscheme_for_suites() {
    let rsa_only = vec![
        tls_ecdhe_rsa_with_aes_256_gcm_sha384(),
        tls_ecdhe_rsa_with_chacha20_poly1305_sha256(),
    ];
    assert!(compatible_sigscheme_for_suites(
        SignatureScheme::RSA_PSS_SHA256,
        &rsa_only
    ));
    assert!(!compatible_sigscheme_for_suites(
        SignatureScheme::ECDSA_NISTP256_SHA256,
        &rsa_only
    ));
    assert!(!compatible_sigscheme_for_suites(
        SignatureScheme::RSA_PSS_SHA256,
        &Vec::new()
    ));
    // a latest-version suite expresses no constraint and accepts any
    assert!(compatible_sigscheme_for_suites(
        SignatureScheme::ECDSA_NISTP256_SHA256,
        &vec![tls13_aes_128_gcm_sha256()]
    ));
}

#[test]
fn test_key_block_len() {
    // (enc_key_len + fixed_iv_len) * 2 + explicit_nonce_len
    assert_eq!(tls_ecdhe_rsa_with_aes_128_gcm_sha256().key_block_len(), 48);
    assert_eq!(tls_ecdhe_rsa_with_aes_256_gcm_sha384().key_block_len(), 80);
    assert_eq!(
        tls_ecdhe_rsa_with_chacha20_poly1305_sha256().key_block_len(),
        88
    );
    assert_eq!(tls13_aes_128_gcm_sha256().key_block_len(), 56);
}

#[test]
fn test_get_hash_matches_suite_hash() {
    // the ring digest handle a suite hands out is the one its KDF hash
    // names
    assert_eq!(tls13_aes_128_gcm_sha256().get_hash().output_len, 32);
    assert_eq!(tls13_aes_256_gcm_sha384().get_hash().output_len, 48);
    assert_eq!(
        tls_ecdhe_ecdsa_with_aes_256_gcm_sha384().get_hash().output_len,
        48
    );
    assert_eq!(
        tls_ecdhe_rsa_with_chacha20_poly1305_sha256().get_hash().output_len,
        32
    );
}

#[test]
fn test_default_ciphersuites_is_full_catalog() {
    assert_eq!(default_ciphersuites(), all_ciphersuites());
}

#[test]
fn test_ring_aead_handles() {
    // the ring AEAD handle an identifier names has that primitive's key
    // length
    assert_eq!(ring_aead_algorithm(AeadAlgorithm::Aes128Gcm).key_len(), 16);
    assert_eq!(ring_aead_algorithm(AeadAlgorithm::Aes256Gcm).key_len(), 32);
    assert_eq!(
        ring_aead_algorithm(AeadAlgorithm::Chacha20Poly1305).key_len(),
        32
    );
}

#[test]
fn test_disjoint_offer_empty() {
    let empty: Vec<CipherSuite> = Vec::new();
    let all = all_ciphersuites();
    assert!(choose_ciphersuite_preferring_client(&empty, &all).is_none());
    assert!(choose_ciphersuite_preferring_server(&empty, &all).is_none());
}
