use tls_suites::catalog::all_ciphersuites;
use tls_suites::catalog::tls13_aes_128_gcm_sha256;
use tls_suites::catalog::tls13_aes_256_gcm_sha384;
use tls_suites::catalog::tls13_chacha20_poly1305_sha256;
use tls_suites::catalog::tls_ecdhe_ecdsa_with_aes_128_gcm_sha256;
use tls_suites::catalog::tls_ecdhe_ecdsa_with_aes_256_gcm_sha384;
use tls_suites::catalog::tls_ecdhe_ecdsa_with_chacha20_poly1305_sha256;
use tls_suites::catalog::tls_ecdhe_rsa_with_aes_128_gcm_sha256;
use tls_suites::catalog::tls_ecdhe_rsa_with_aes_256_gcm_sha384;
use tls_suites::catalog::tls_ecdhe_rsa_with_chacha20_poly1305_sha256;
use tls_suites::enums::CipherSuite;
use tls_suites::enums::ProtocolVersion;
use tls_suites::negotiation::choose_ciphersuite_preferring_client;
use tls_suites::negotiation::choose_ciphersuite_preferring_server;
use tls_suites::suites::SupportedCipherSuite;

#[test]
fn test_client_pref() {
    let client = vec![
        CipherSuite::TLS_ECDHE_RSA_WITH_AES_128_GCM_SHA256,
        CipherSuite::TLS_ECDHE_RSA_WITH_AES_256_GCM_SHA384,
    ];
    let server = vec![
        tls_ecdhe_rsa_with_aes_256_gcm_sha384(),
        tls_ecdhe_rsa_with_aes_128_gcm_sha256(),
    ];
    let chosen = choose_ciphersuite_preferring_client(&client, &server);
    assert!(chosen.is_some());
    assert_eq!(chosen.unwrap(), tls_ecdhe_rsa_with_aes_128_gcm_sha256());
}

#[test]
fn test_server_pref() {
    let client = vec![
        CipherSuite::TLS_ECDHE_RSA_WITH_AES_128_GCM_SHA256,
        CipherSuite::TLS_ECDHE_RSA_WITH_AES_256_GCM_SHA384,
    ];
    let server = vec![
        tls_ecdhe_rsa_with_aes_256_gcm_sha384(),
        tls_ecdhe_rsa_with_aes_128_gcm_sha256(),
    ];
    let chosen = choose_ciphersuite_preferring_server(&client, &server);
    assert!(chosen.is_some());
    assert_eq!(chosen.unwrap(), tls_ecdhe_rsa_with_aes_256_gcm_sha384());
}

#[test]
fn test_pref_fails() {
    assert!(choose_ciphersuite_preferring_client(
        &vec![CipherSuite::TLS_NULL_WITH_NULL_NULL],
        &all_ciphersuites()
    )
    .is_none());
    assert!(choose_ciphersuite_preferring_server(
        &vec![CipherSuite::TLS_NULL_WITH_NULL_NULL],
        &all_ciphersuites()
    )
    .is_none());
}

#[test]
fn test_scs_is_debug() {
    println!("{:?}", all_ciphersuites());
}

fn ok_tls13(scs: &SupportedCipherSuite) {
    assert!(!scs.usable_for_version(ProtocolVersion::TLSv1_0));
    assert!(!scs.usable_for_version(ProtocolVersion::TLSv1_2));
    assert!(scs.usable_for_version(ProtocolVersion::TLSv1_3));
}

fn ok_tls12(scs: &SupportedCipherSuite) {
    assert!(!scs.usable_for_version(ProtocolVersion::TLSv1_0));
    assert!(scs.usable_for_version(ProtocolVersion::TLSv1_2));
    assert!(!scs.usable_for_version(ProtocolVersion::TLSv1_3));
}

#[test]
fn test_usable_for_version() {
    ok_tls13(&tls13_chacha20_poly1305_sha256());
    ok_tls13(&tls13_aes_256_gcm_sha384());
    ok_tls13(&tls13_aes_128_gcm_sha256());

    ok_tls12(&tls_ecdhe_ecdsa_with_chacha20_poly1305_sha256());
    ok_tls12(&tls_ecdhe_rsa_with_chacha20_poly1305_sha256());
    ok_tls12(&tls_ecdhe_ecdsa_with_aes_256_gcm_sha384());
    ok_tls12(&tls_ecdhe_ecdsa_with_aes_128_gcm_sha256());
    ok_tls12(&tls_ecdhe_rsa_with_aes_256_gcm_sha384());
}

#[test]
fn test_can_resume_to() {
    assert!(tls13_chacha20_poly1305_sha256().can_resume_to(&tls13_aes_128_gcm_sha256()));
    assert!(!tls13_chacha20_poly1305_sha256().can_resume_to(&tls13_aes_256_gcm_sha384()));
    assert!(!tls13_chacha20_poly1305_sha256()
        .can_resume_to(&tls_ecdhe_ecdsa_with_chacha20_poly1305_sha256()));
    assert!(!tls_ecdhe_rsa_with_aes_128_gcm_sha256()
        .can_resume_to(&tls_ecdhe_ecdsa_with_chacha20_poly1305_sha256()));
    assert!(tls_ecdhe_ecdsa_with_chacha20_poly1305_sha256()
        .can_resume_to(&tls_ecdhe_ecdsa_with_chacha20_poly1305_sha256()));
}
