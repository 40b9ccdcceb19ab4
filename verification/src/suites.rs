//! The cipher-suite descriptor: one named, fully-specified TLS cipher
//! suite, with its query operations.
//!
//! A descriptor is usable for exactly one protocol version, derived from
//! whether it carries references to the legacy per-record encrypter and
//! decrypter builders: suites for the latest version carry none, suites
//! for the prior version carry both.

use vstd::prelude::*;

use crate::crypto::AeadAlgorithm;
use crate::crypto::HkdfAlgorithm;
use crate::crypto::ring_hkdf_algorithm;
use crate::enums::CipherSuite;
use crate::enums::HashAlgorithm;
use crate::enums::ProtocolVersion;
use crate::enums::SignatureAlgorithm;
use crate::enums::SignatureScheme;
use crate::enums::KeyExchangeAlgorithm;
use crate::seqs::lemma_filter_preserves_order;
use crate::seqs::lemma_filter_take_step;
use vstd::std_specs::cmp::PartialEqSpec;

verus! {

/// Bulk symmetric encryption scheme used by a cipher suite.
#[allow(non_camel_case_types)]
#[derive(Clone, Copy, Debug, PartialEq, Eq, Structural)]
pub enum BulkAlgorithm {
    /// AES with 128-bit keys in Galois counter mode.
    AES_128_GCM,
    /// AES with 256-bit keys in Galois counter mode.
    AES_256_GCM,
    /// Chacha20 for confidentiality with poly1305 for authenticity.
    CHACHA20_POLY1305,
}

/// Reference to a legacy per-record encrypter or decrypter builder of
/// the record layer (which lives outside this crate).  Only suites for
/// the prior protocol version carry these references; their presence is
/// what makes a suite usable for that version.
#[derive(Clone, Copy, Debug, PartialEq, Eq, Structural)]
pub enum Tls12CipherBuilder {
    Chacha,
    Gcm128,
    Gcm256,
}

/// One of the fixed, ordered signature-scheme preference lists a suite
/// may constrain peer authentication to, in descending preference.
#[derive(Clone, Copy, Debug, PartialEq, Eq, Structural)]
pub enum SignatureSchemeList {
    /// The ECDSA-keyed schemes acceptable to the prior-version suites.
    Tls12EcdsaSchemes,
    /// The RSA-keyed schemes acceptable to the prior-version suites.
    Tls12RsaSchemes,
}

impl SignatureSchemeList {
    /// The schemes of this list, most preferred first.
    pub open spec fn spec_schemes(&self) -> Seq<SignatureScheme> {
        match self {
            SignatureSchemeList::Tls12EcdsaSchemes => seq![
                SignatureScheme::ED25519,
                SignatureScheme::ECDSA_NISTP521_SHA512,
                SignatureScheme::ECDSA_NISTP384_SHA384,
                SignatureScheme::ECDSA_NISTP256_SHA256,
            ],
            SignatureSchemeList::Tls12RsaSchemes => seq![
                SignatureScheme::RSA_PSS_SHA512,
                SignatureScheme::RSA_PSS_SHA384,
                SignatureScheme::RSA_PSS_SHA256,
                SignatureScheme::RSA_PKCS1_SHA512,
                SignatureScheme::RSA_PKCS1_SHA384,
                SignatureScheme::RSA_PKCS1_SHA256,
            ],
        }
    }

    /// The schemes of this list, most preferred first.
    pub fn schemes(&self) -> (r: Vec<SignatureScheme>)
        ensures
            r@ == self.spec_schemes(),
    {
        let mut r: Vec<SignatureScheme> = Vec::new();
        match self {
            SignatureSchemeList::Tls12EcdsaSchemes => {
                r.push(SignatureScheme::ED25519);
                r.push(SignatureScheme::ECDSA_NISTP521_SHA512);
                r.push(SignatureScheme::ECDSA_NISTP384_SHA384);
                r.push(SignatureScheme::ECDSA_NISTP256_SHA256);
            }
            SignatureSchemeList::Tls12RsaSchemes => {
                r.push(SignatureScheme::RSA_PSS_SHA512);
                r.push(SignatureScheme::RSA_PSS_SHA384);
                r.push(SignatureScheme::RSA_PSS_SHA256);
                r.push(SignatureScheme::RSA_PKCS1_SHA512);
                r.push(SignatureScheme::RSA_PKCS1_SHA384);
                r.push(SignatureScheme::RSA_PKCS1_SHA256);
            }
        }
        proof {
            assert(r@ =~= self.spec_schemes());
        }
        r
    }
}

/// The spec-level predicate "the peer offered this scheme"; the filters
/// over preference lists are all phrased with it.
pub open spec fn offered_scheme_pred(offered: Seq<SignatureScheme>) -> spec_fn(
    SignatureScheme,
) -> bool {
    |s: SignatureScheme| offered.contains(s)
}

/// The subset of `pref` that also appears in `offered`, in the order of
/// `pref`.
pub open spec fn spec_resolved_schemes(
    pref: Seq<SignatureScheme>,
    offered: Seq<SignatureScheme>,
) -> Seq<SignatureScheme> {
    pref.filter(offered_scheme_pred(offered))
}

/// A cipher suite supported by this library.
///
/// All instances used in negotiation come from the catalog; equality of
/// descriptors is defined solely by `suite`.
#[derive(Clone, Copy, Debug)]
pub struct SupportedCipherSuite {
    /// The TLS enumeration naming this cipher suite.
    pub suite: CipherSuite,
    /// How to exchange/agree keys.
    pub kx: KeyExchangeAlgorithm,
    /// How to do bulk encryption.
    pub bulk: BulkAlgorithm,
    /// How to do hashing.
    pub hash: HashAlgorithm,
    /// How to sign messages for authentication.
    ///
    /// This is absent for the latest protocol version, where
    /// authentication is orthogonal to the ciphersuite concept; an
    /// absent list expresses no constraint and must be distinguished
    /// from an empty one.
    pub sign: Option<SignatureSchemeList>,
    /// Encryption key length, for the bulk algorithm.
    pub enc_key_len: usize,
    /// How long the fixed part of the 'IV' is.
    pub fixed_iv_len: usize,
    /// Length of the extension of the key block that provides an initial
    /// explicit nonce offset.
    pub explicit_nonce_len: usize,
    /// The key-derivation algorithm tied to `hash`.
    pub hkdf_algorithm: HkdfAlgorithm,
    /// The authenticated-encryption primitive tied to `bulk`.
    pub aead_algorithm: AeadAlgorithm,
    /// Legacy encrypter builder; present only for prior-version suites.
    pub build_tls12_encrypter: Option<Tls12CipherBuilder>,
    /// Legacy decrypter builder; present only for prior-version suites.
    pub build_tls12_decrypter: Option<Tls12CipherBuilder>,
}

impl PartialEq for SupportedCipherSuite {
    fn eq(&self, other: &SupportedCipherSuite) -> bool {
        self.suite == other.suite
    }
}

impl vstd::std_specs::cmp::PartialEqSpecImpl for SupportedCipherSuite {
    open spec fn obeys_eq_spec() -> bool {
        true
    }

    open spec fn eq_spec(&self, other: &SupportedCipherSuite) -> bool {
        self.suite == other.suite
    }
}

impl SupportedCipherSuite {
    /// Structural invariant of a descriptor: the two legacy builder
    /// references are present or absent together, the scheme list is
    /// carried exactly by prior-version suites, the key-derivation and
    /// AEAD identifiers match the hash and bulk algorithms, and the
    /// derived key-block length fits the machine.
    pub open spec fn well_formed(&self) -> bool {
        &&& (self.build_tls12_encrypter is Some <==> self.build_tls12_decrypter is Some)
        &&& (self.sign is Some <==> self.build_tls12_encrypter is Some)
        &&& match self.hash {
            HashAlgorithm::SHA256 => self.hkdf_algorithm == HkdfAlgorithm::HkdfSha256,
            HashAlgorithm::SHA384 => self.hkdf_algorithm == HkdfAlgorithm::HkdfSha384,
            _ => false,
        }
        &&& match self.bulk {
            BulkAlgorithm::AES_128_GCM => self.aead_algorithm == AeadAlgorithm::Aes128Gcm,
            BulkAlgorithm::AES_256_GCM => self.aead_algorithm == AeadAlgorithm::Aes256Gcm,
            BulkAlgorithm::CHACHA20_POLY1305 => self.aead_algorithm
                == AeadAlgorithm::Chacha20Poly1305,
        }
        &&& (self.enc_key_len + self.fixed_iv_len) * 2 + self.explicit_nonce_len <= usize::MAX
    }

    /// Which hash function to use with this suite.
    pub fn get_hash(&self) -> &'static ring::digest::Algorithm {
        self.hmac_algorithm().digest_algorithm()
    }

    pub(crate) fn hmac_algorithm(&self) -> ring::hmac::Algorithm {
        ring_hkdf_algorithm(self.hkdf_algorithm).hmac_algorithm()
    }

    /// The resolved scheme list: absent input resolves to an empty list
    /// (callers treat that as "no usable scheme"), a present list to its
    /// schemes that the peer offered, in this suite's preference order.
    pub open spec fn spec_resolve_sig_schemes(&self, offered: Seq<SignatureScheme>) -> Seq<
        SignatureScheme,
    > {
        match self.sign {
            Option::Some(list) => spec_resolved_schemes(list.spec_schemes(), offered),
            Option::None => Seq::empty(),
        }
    }

    /// Resolve the set of supported `SignatureScheme`s from the offered
    /// schemes.  If the result is empty, the handshake terminates.
    pub fn resolve_sig_schemes(&self, offered: &Vec<SignatureScheme>) -> (r: Vec<SignatureScheme>)
        ensures
            r@ == self.spec_resolve_sig_schemes(offered@),
    {
        match self.sign {
            Option::Some(list) => {
                let our_preference = list.schemes();
                let pred = Ghost(offered_scheme_pred(offered@));
                let mut r: Vec<SignatureScheme> = Vec::new();
                let mut i: usize = 0;
                while i < our_preference.len()
                    invariant
                        i <= our_preference@.len(),
                        our_preference@ == list.spec_schemes(),
                        pred@ == offered_scheme_pred(offered@),
                        r@ == our_preference@.take(i as int).filter(pred@),
                    decreases our_preference@.len() - i,
                {
                    proof {
                        lemma_filter_take_step(our_preference@, pred@, i as int);
                    }
                    if contains_scheme(offered, our_preference[i]) {
                        r.push(our_preference[i]);
                    }
                    i += 1;
                }
                proof {
                    assert(our_preference@.take(our_preference@.len() as int)
                        =~= our_preference@);
                }
                r
            }
            Option::None => Vec::new(),
        }
    }

    /// Length of key block that needs to be output by the key derivation
    /// phase for this suite.
    pub fn key_block_len(&self) -> (len: usize)
        requires
            (self.enc_key_len + self.fixed_iv_len) * 2 + self.explicit_nonce_len <= usize::MAX,
        ensures
            len == (self.enc_key_len + self.fixed_iv_len) * 2 + self.explicit_nonce_len,
    {
        (self.enc_key_len + self.fixed_iv_len) * 2 + self.explicit_nonce_len
    }

    /// Whether this suite is usable for TLS `version`: the latest
    /// version exactly when no legacy builders are carried, the prior
    /// version exactly when they are, any other version never.
    pub open spec fn spec_usable_for_version(&self, version: ProtocolVersion) -> bool {
        match version {
            ProtocolVersion::TLSv1_3 => self.build_tls12_encrypter is None,
            ProtocolVersion::TLSv1_2 => self.build_tls12_encrypter is Some,
            _ => false,
        }
    }

    /// Return true if this suite is usable for TLS `version`.
    pub fn usable_for_version(&self, version: ProtocolVersion) -> (usable: bool)
        ensures
            usable == self.spec_usable_for_version(version),
    {
        match version {
            ProtocolVersion::TLSv1_3 => self.build_tls12_encrypter.is_none(),
            ProtocolVersion::TLSv1_2 => self.build_tls12_encrypter.is_some(),
            _ => false,
        }
    }

    /// Whether this suite is usable for a key only offering `sigalg`
    /// signatures: true when no scheme list is carried (no constraint),
    /// otherwise true exactly when some listed scheme signs with
    /// `sigalg`.
    pub open spec fn spec_usable_for_sigalg(&self, sigalg: SignatureAlgorithm) -> bool {
        match self.sign {
            Option::None => true,
            Option::Some(list) => exists|i: int|
                0 <= i < list.spec_schemes().len() && (#[trigger] list.spec_schemes()[i]).spec_sign()
                    == sigalg,
        }
    }

    /// Return true if this suite is usable for a key only offering
    /// `sigalg` signatures.  This resolves to true for all suites of the
    /// latest protocol version.
    pub fn usable_for_sigalg(&self, sigalg: SignatureAlgorithm) -> (usable: bool)
        ensures
            usable == self.spec_usable_for_sigalg(sigalg),
    {
        match self.sign {
            Option::None => true,
            Option::Some(list) => {
                let schemes = list.schemes();
                let mut i: usize = 0;
                let mut found = false;
                while i < schemes.len()
                    invariant
                        i <= schemes@.len(),
                        schemes@ == list.spec_schemes(),
                        found == exists|j: int|
                            0 <= j < i && (#[trigger] schemes@[j]).spec_sign() == sigalg,
                    decreases schemes@.len() - i,
                {
                    if schemes[i].sign() == sigalg {
                        found = true;
                    }
                    i += 1;
                }
                found
            }
        }
    }

    /// Whether a session using this suite can resume using `new_suite`:
    /// two latest-version suites resume exactly when their KDF hashes
    /// are equal; two prior-version suites exactly when their identities
    /// are; suites for different versions never.
    pub open spec fn spec_can_resume_to(&self, new_suite: &SupportedCipherSuite) -> bool {
        if self.spec_usable_for_version(ProtocolVersion::TLSv1_3)
            && new_suite.spec_usable_for_version(ProtocolVersion::TLSv1_3) {
            self.hash == new_suite.hash
        } else if self.spec_usable_for_version(ProtocolVersion::TLSv1_2)
            && new_suite.spec_usable_for_version(ProtocolVersion::TLSv1_2) {
            self.suite == new_suite.suite
        } else {
            false
        }
    }

    /// Can a session using suite self resume using suite new_suite?
    pub fn can_resume_to(&self, new_suite: &SupportedCipherSuite) -> (compatible: bool)
        ensures
            compatible == self.spec_can_resume_to(new_suite),
    {
        if self.usable_for_version(ProtocolVersion::TLSv1_3)
            && new_suite.usable_for_version(ProtocolVersion::TLSv1_3) {
            // the latest version ties resumption compatibility to KDF
            // hash equivalence, not full suite equality
            self.hash == new_suite.hash
        } else if self.usable_for_version(ProtocolVersion::TLSv1_2)
            && new_suite.usable_for_version(ProtocolVersion::TLSv1_2) {
            // the prior version gives no cross-suite resumption
            // guarantee, so identity is the conservative choice
            self.suite == new_suite.suite
        } else {
            // suites for different versions definitely can't resume
            false
        }
    }
}

/// Whether `offered` contains the scheme `s`.
fn contains_scheme(offered: &Vec<SignatureScheme>, s: SignatureScheme) -> (present: bool)
    ensures
        present == offered@.contains(s),
{
    let mut i: usize = 0;
    while i < offered.len()
        invariant
            i <= offered@.len(),
            forall|j: int| 0 <= j < i ==> offered@[j] != s,
        decreases offered@.len() - i,
    {
        if offered[i] == s {
            return true;
        }
        i += 1;
    }
    false
}

/// Descriptor equality is defined solely by `suite`: a descriptor equals
/// itself, and two descriptors with distinct identifiers are unequal.
pub proof fn lemma_descriptor_equality(a: SupportedCipherSuite, b: SupportedCipherSuite)
    ensures
        a.eq_spec(&a),
        a.suite != b.suite ==> !a.eq_spec(&b) && !b.eq_spec(&a),
{
}

/// Every descriptor is usable for exactly one of the two supported
/// protocol versions: the latest exactly when not the prior.
pub proof fn lemma_version_applicability_exclusive(suite: SupportedCipherSuite)
    ensures
        suite.spec_usable_for_version(ProtocolVersion::TLSv1_3) <==> !suite.spec_usable_for_version(
            ProtocolVersion::TLSv1_2,
        ),
{
}

/// A latest-version suite resumes to a latest-version suite exactly when
/// the KDF hashes agree, whatever the suite identifiers.
pub proof fn lemma_resume_latest_version(a: SupportedCipherSuite, b: SupportedCipherSuite)
    requires
        a.spec_usable_for_version(ProtocolVersion::TLSv1_3),
        b.spec_usable_for_version(ProtocolVersion::TLSv1_3),
    ensures
        a.spec_can_resume_to(&b) <==> a.hash == b.hash,
{
}

/// Two prior-version suites resume exactly when their identifiers are
/// identical.
pub proof fn lemma_resume_prior_version(a: SupportedCipherSuite, b: SupportedCipherSuite)
    requires
        a.spec_usable_for_version(ProtocolVersion::TLSv1_2),
        b.spec_usable_for_version(ProtocolVersion::TLSv1_2),
    ensures
        a.spec_can_resume_to(&b) <==> a.suite == b.suite,
{
}

/// A prior-version suite and a latest-version suite never resume to each
/// other, in either direction.
pub proof fn lemma_resume_mixed_versions(a: SupportedCipherSuite, b: SupportedCipherSuite)
    requires
        a.spec_usable_for_version(ProtocolVersion::TLSv1_3),
        b.spec_usable_for_version(ProtocolVersion::TLSv1_2),
    ensures
        !a.spec_can_resume_to(&b),
        !b.spec_can_resume_to(&a),
{
}

/// An absent scheme list expresses no signature-algorithm constraint:
/// such a suite is usable for every signing algorithm.
pub proof fn lemma_absent_sign_no_constraint(
    suite: SupportedCipherSuite,
    sigalg: SignatureAlgorithm,
)
    requires
        suite.sign is None,
    ensures
        suite.spec_usable_for_sigalg(sigalg),
{
}

/// An absent scheme list resolves to the empty list, independent of what
/// the peer offered.
pub proof fn lemma_resolve_absent_is_empty(
    suite: SupportedCipherSuite,
    offered: Seq<SignatureScheme>,
)
    requires
        suite.sign is None,
    ensures
        suite.spec_resolve_sig_schemes(offered) == Seq::<SignatureScheme>::empty(),
{
}

/// A present preference list resolves to exactly its schemes that the
/// peer offered: every resolved scheme is both preferred and offered,
/// and every preferred scheme the peer offered is kept.
pub proof fn lemma_resolved_schemes_exact(pref: Seq<SignatureScheme>, offered: Seq<SignatureScheme>)
    ensures
        forall|i: int| 0 <= i < spec_resolved_schemes(pref, offered).len()
            ==> pref.contains(#[trigger] spec_resolved_schemes(pref, offered)[i])
                && offered.contains(spec_resolved_schemes(pref, offered)[i]),
        forall|i: int| 0 <= i < pref.len() && offered.contains(#[trigger] pref[i])
            ==> spec_resolved_schemes(pref, offered).contains(pref[i]),
{
    let p = offered_scheme_pred(offered);
    let res = spec_resolved_schemes(pref, offered);
    assert forall|i: int| 0 <= i < res.len() implies pref.contains(#[trigger] res[i])
        && offered.contains(res[i]) by {
        pref.lemma_filter_pred(p, i);
        pref.lemma_filter_contains_rev(p, res[i]);
    }
    assert forall|i: int| 0 <= i < pref.len() && offered.contains(#[trigger] pref[i]) implies res
        .contains(pref[i]) by {
        pref.lemma_filter_contains(p, i);
    }
}

/// Resolution keeps the descriptor's own preference order: any two
/// resolved schemes stand at positions of the preference list in the
/// same relative order.
pub proof fn lemma_resolved_schemes_keep_order(
    pref: Seq<SignatureScheme>,
    offered: Seq<SignatureScheme>,
    i: int,
    j: int,
)
    requires
        0 <= i < j < spec_resolved_schemes(pref, offered).len(),
    ensures
        exists|a: int, b: int|
            0 <= a < b < pref.len() && pref[a] == spec_resolved_schemes(pref, offered)[i] && pref[b]
                == spec_resolved_schemes(pref, offered)[j],
{
    lemma_filter_preserves_order(pref, offered_scheme_pred(offered), i, j);
}

} // verus!
