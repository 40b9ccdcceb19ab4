//! Filtering, compatibility queries, and the two negotiation
//! strategies: client-preference and server-preference suite selection.
//!
//! All functions here are pure and total; an empty result or "no
//! selection" is a valid outcome, which the surrounding handshake turns
//! into a fatal "no shared cipher suite" failure.

use vstd::prelude::*;

use crate::enums::CipherSuite;
use crate::enums::ProtocolVersion;
use crate::enums::SignatureAlgorithm;
use crate::enums::SignatureScheme;
use crate::seqs::lemma_filter_idempotent;
use crate::seqs::lemma_filter_take_step;
use crate::suites::SupportedCipherSuite;

verus! {

/// Whether some entry of `cat` bears the suite identifier `id`.
pub open spec fn catalog_contains_id(cat: Seq<SupportedCipherSuite>, id: CipherSuite) -> bool {
    exists|j: int| 0 <= j < cat.len() && (#[trigger] cat[j]).suite == id
}

/// The first entry of `cat` bearing the suite identifier `id`, if any.
pub open spec fn spec_find_suite(cat: Seq<SupportedCipherSuite>, id: CipherSuite) -> Option<
    SupportedCipherSuite,
>
    decreases cat.len(),
{
    if cat.len() == 0 {
        None
    } else if cat[0].suite == id {
        Some(cat[0])
    } else {
        spec_find_suite(cat.skip(1), id)
    }
}

/// `spec_find_suite` succeeds exactly when the identifier occurs, and
/// then returns an entry of the catalog bearing it.
pub proof fn lemma_find_suite_spec(cat: Seq<SupportedCipherSuite>, id: CipherSuite)
    ensures
        spec_find_suite(cat, id) is Some <==> catalog_contains_id(cat, id),
        spec_find_suite(cat, id) matches Some(s) ==> s.suite == id && exists|j: int|
            0 <= j < cat.len() && #[trigger] cat[j] == s,
    decreases cat.len(),
{
    if cat.len() == 0 {
    } else if cat[0].suite == id {
        assert(cat[0] == cat[0]);
    } else {
        lemma_find_suite_spec(cat.skip(1), id);
        if catalog_contains_id(cat.skip(1), id) {
            let j = choose|j: int| 0 <= j < cat.skip(1).len() && (#[trigger] cat.skip(1)[j]).suite
                == id;
            assert(cat[j + 1].suite == id);
        }
        if catalog_contains_id(cat, id) {
            let j = choose|j: int| 0 <= j < cat.len() && (#[trigger] cat[j]).suite == id;
            assert(cat.skip(1)[j - 1].suite == id);
        }
        match spec_find_suite(cat.skip(1), id) {
            Some(s) => {
                let j = choose|j: int|
                    0 <= j < cat.skip(1).len() && #[trigger] cat.skip(1)[j] == s;
                assert(cat[j + 1] == s);
            },
            None => {},
        }
    }
}

/// `spec_find_suite` returns the first matching entry: an entry bearing
/// `id` before which no entry bears it.
pub proof fn lemma_find_suite_first(cat: Seq<SupportedCipherSuite>, id: CipherSuite, j: int)
    requires
        0 <= j < cat.len(),
        cat[j].suite == id,
        forall|k: int| 0 <= k < j ==> (#[trigger] cat[k]).suite != id,
    ensures
        spec_find_suite(cat, id) == Some(cat[j]),
    decreases j,
{
    if j > 0 {
        assert forall|k: int| 0 <= k < j - 1 implies (#[trigger] cat.skip(1)[k]).suite != id by {
            assert(cat.skip(1)[k] == cat[k + 1]);
        }
        lemma_find_suite_first(cat.skip(1), id, j - 1);
    }
}

/// The first entry of `cat` bearing the suite identifier `id`, if any.
fn find_suite(cat: &Vec<SupportedCipherSuite>, id: CipherSuite) -> (r: Option<SupportedCipherSuite>)
    ensures
        r == spec_find_suite(cat@, id),
{
    let mut i: usize = 0;
    proof {
        assert(cat@.skip(0) =~= cat@);
    }
    while i < cat.len()
        invariant
            i <= cat@.len(),
            spec_find_suite(cat@, id) == spec_find_suite(cat@.skip(i as int), id),
        decreases cat@.len() - i,
    {
        if cat[i].suite == id {
            proof {
                assert(cat@.skip(i as int)[0] == cat@[i as int]);
            }
            return Some(cat[i]);
        }
        proof {
            assert(cat@.skip(i as int)[0] == cat@[i as int]);
            assert(cat@.skip(i as int).skip(1) =~= cat@.skip(i as int + 1));
        }
        i += 1;
    }
    None
}

/// The suite chosen when the peer's preference order governs: the first
/// offered identifier present in the local catalog, resolved to the
/// first catalog entry bearing it.
pub open spec fn spec_choose_preferring_client(
    client_suites: Seq<CipherSuite>,
    server_suites: Seq<SupportedCipherSuite>,
) -> Option<SupportedCipherSuite>
    decreases client_suites.len(),
{
    if client_suites.len() == 0 {
        None
    } else {
        match spec_find_suite(server_suites, client_suites[0]) {
            Some(s) => Some(s),
            None => spec_choose_preferring_client(client_suites.skip(1), server_suites),
        }
    }
}

/// The suite chosen when the local preference order governs: the first
/// catalog entry whose identifier appears anywhere in the offer.
pub open spec fn spec_choose_preferring_server(
    client_suites: Seq<CipherSuite>,
    server_suites: Seq<SupportedCipherSuite>,
) -> Option<SupportedCipherSuite>
    decreases server_suites.len(),
{
    if server_suites.len() == 0 {
        None
    } else if client_suites.contains(server_suites[0].suite) {
        Some(server_suites[0])
    } else {
        spec_choose_preferring_server(client_suites, server_suites.skip(1))
    }
}

/// Choose a suite respecting the peer's preference order: iterate the
/// offered identifiers and return the first present in the local
/// catalog, or "no selection" when no offered identifier is.
pub fn choose_ciphersuite_preferring_client(
    client_suites: &Vec<CipherSuite>,
    server_suites: &Vec<SupportedCipherSuite>,
) -> (r: Option<SupportedCipherSuite>)
    ensures
        r == spec_choose_preferring_client(client_suites@, server_suites@),
        r is Some <==> exists|i: int|
            0 <= i < client_suites@.len() && catalog_contains_id(
                server_suites@,
                #[trigger] client_suites@[i],
            ),
{
    let mut i: usize = 0;
    proof {
        assert(client_suites@.skip(0) =~= client_suites@);
    }
    while i < client_suites.len()
        invariant
            i <= client_suites@.len(),
            spec_choose_preferring_client(client_suites@, server_suites@)
                == spec_choose_preferring_client(client_suites@.skip(i as int), server_suites@),
            forall|k: int| 0 <= k < i ==> !catalog_contains_id(
                server_suites@,
                #[trigger] client_suites@[k],
            ),
        decreases client_suites@.len() - i,
    {
        let found = find_suite(server_suites, client_suites[i]);
        proof {
            assert(client_suites@.skip(i as int)[0] == client_suites@[i as int]);
            lemma_find_suite_spec(server_suites@, client_suites@[i as int]);
        }
        if found.is_some() {
            return found;
        }
        proof {
            assert(client_suites@.skip(i as int).skip(1) =~= client_suites@.skip(i as int + 1));
        }
        i += 1;
    }
    None
}

/// Choose a suite respecting the local preference order: return the
/// first catalog entry whose identifier the peer offered, or "no
/// selection" when no offered identifier is in the catalog.
pub fn choose_ciphersuite_preferring_server(
    client_suites: &Vec<CipherSuite>,
    server_suites: &Vec<SupportedCipherSuite>,
) -> (r: Option<SupportedCipherSuite>)
    ensures
        r == spec_choose_preferring_server(client_suites@, server_suites@),
        r is Some <==> exists|i: int|
            0 <= i < client_suites@.len() && catalog_contains_id(
                server_suites@,
                #[trigger] client_suites@[i],
            ),
{
    let mut j: usize = 0;
    proof {
        assert(server_suites@.skip(0) =~= server_suites@);
    }
    while j < server_suites.len()
        invariant
            j <= server_suites@.len(),
            spec_choose_preferring_server(client_suites@, server_suites@)
                == spec_choose_preferring_server(client_suites@, server_suites@.skip(j as int)),
            forall|k: int| 0 <= k < j ==> !client_suites@.contains(
                (#[trigger] server_suites@[k]).suite,
            ),
        decreases server_suites@.len() - j,
    {
        if contains_id(client_suites, server_suites[j].suite) {
            proof {
                assert(server_suites@.skip(j as int)[0] == server_suites@[j as int]);
                let i = choose|i: int| 0 <= i < client_suites@.len() && client_suites@[i]
                    == server_suites@[j as int].suite;
                assert(catalog_contains_id(server_suites@, client_suites@[i]));
            }
            return Some(server_suites[j]);
        }
        proof {
            assert(server_suites@.skip(j as int)[0] == server_suites@[j as int]);
            assert(server_suites@.skip(j as int).skip(1) =~= server_suites@.skip(j as int + 1));
        }
        j += 1;
    }
    proof {
        assert forall|i: int|
            0 <= i < client_suites@.len() implies !catalog_contains_id(
            server_suites@,
            #[trigger] client_suites@[i],
        ) by {
            if catalog_contains_id(server_suites@, client_suites@[i]) {
                let k = choose|k: int| 0 <= k < server_suites@.len()
                    && (#[trigger] server_suites@[k]).suite == client_suites@[i];
                assert(client_suites@.contains(server_suites@[k].suite));
            }
        }
    }
    None
}

/// Whether `offered` contains the suite identifier `id`.
fn contains_id(offered: &Vec<CipherSuite>, id: CipherSuite) -> (present: bool)
    ensures
        present == offered@.contains(id),
{
    let mut i: usize = 0;
    while i < offered.len()
        invariant
            i <= offered@.len(),
            forall|j: int| 0 <= j < i ==> offered@[j] != id,
        decreases offered@.len() - i,
    {
        if offered[i] == id {
            return true;
        }
        i += 1;
    }
    false
}

/// The spec-level predicate "usable for this protocol version".
pub open spec fn version_pred(version: ProtocolVersion) -> spec_fn(SupportedCipherSuite) -> bool {
    |suite: SupportedCipherSuite| suite.spec_usable_for_version(version)
}

/// The spec-level predicate "usable for this signing algorithm".
pub open spec fn sigalg_pred(sigalg: SignatureAlgorithm) -> spec_fn(SupportedCipherSuite) -> bool {
    |suite: SupportedCipherSuite| suite.spec_usable_for_sigalg(sigalg)
}

/// The subsequence of `all` usable for `version`, in the order of `all`.
pub open spec fn spec_reduce_given_version(
    all: Seq<SupportedCipherSuite>,
    version: ProtocolVersion,
) -> Seq<SupportedCipherSuite> {
    all.filter(version_pred(version))
}

/// The subsequence of `all` usable for `sigalg`, in the order of `all`.
pub open spec fn spec_reduce_given_sigalg(
    all: Seq<SupportedCipherSuite>,
    sigalg: SignatureAlgorithm,
) -> Seq<SupportedCipherSuite> {
    all.filter(sigalg_pred(sigalg))
}

/// Return a list of the ciphersuites in `all` with the suites
/// incompatible with the chosen `version` removed, preserving relative
/// order.
pub fn reduce_given_version(all: &Vec<SupportedCipherSuite>, version: ProtocolVersion) -> (r: Vec<
    SupportedCipherSuite,
>)
    ensures
        r@ == spec_reduce_given_version(all@, version),
{
    let pred = Ghost(version_pred(version));
    let mut r: Vec<SupportedCipherSuite> = Vec::new();
    let mut i: usize = 0;
    while i < all.len()
        invariant
            i <= all@.len(),
            pred@ == version_pred(version),
            r@ == all@.take(i as int).filter(pred@),
        decreases all@.len() - i,
    {
        proof {
            lemma_filter_take_step(all@, pred@, i as int);
        }
        if all[i].usable_for_version(version) {
            r.push(all[i]);
        }
        i += 1;
    }
    proof {
        assert(all@.take(all@.len() as int) =~= all@);
    }
    r
}

/// Return a list of the ciphersuites in `all` with the suites
/// incompatible with `sigalg` signatures removed, preserving relative
/// order.
pub fn reduce_given_sigalg(all: &Vec<SupportedCipherSuite>, sigalg: SignatureAlgorithm) -> (r: Vec<
    SupportedCipherSuite,
>)
    ensures
        r@ == spec_reduce_given_sigalg(all@, sigalg),
{
    let pred = Ghost(sigalg_pred(sigalg));
    let mut r: Vec<SupportedCipherSuite> = Vec::new();
    let mut i: usize = 0;
    while i < all.len()
        invariant
            i <= all@.len(),
            pred@ == sigalg_pred(sigalg),
            r@ == all@.take(i as int).filter(pred@),
        decreases all@.len() - i,
    {
        proof {
            lemma_filter_take_step(all@, pred@, i as int);
        }
        if all[i].usable_for_sigalg(sigalg) {
            r.push(all[i]);
        }
        i += 1;
    }
    proof {
        assert(all@.take(all@.len() as int) =~= all@);
    }
    r
}

/// Whether at least one suite of the list is usable for the signing
/// algorithm underlying `sigscheme`.
pub open spec fn spec_compatible_sigscheme_for_suites(
    sigscheme: SignatureScheme,
    common_suites: Seq<SupportedCipherSuite>,
) -> bool {
    exists|i: int|
        0 <= i < common_suites.len() && (#[trigger] common_suites[i]).spec_usable_for_sigalg(
            sigscheme.spec_sign(),
        )
}

/// Return true if `sigscheme` is usable by any of the given suites.
pub fn compatible_sigscheme_for_suites(
    sigscheme: SignatureScheme,
    common_suites: &Vec<SupportedCipherSuite>,
) -> (compatible: bool)
    ensures
        compatible == spec_compatible_sigscheme_for_suites(sigscheme, common_suites@),
{
    let sigalg = sigscheme.sign();
    let mut i: usize = 0;
    while i < common_suites.len()
        invariant
            i <= common_suites@.len(),
            sigalg == sigscheme.spec_sign(),
            forall|j: int| 0 <= j < i ==> !(#[trigger] common_suites@[j]).spec_usable_for_sigalg(
                sigscheme.spec_sign(),
            ),
        decreases common_suites@.len() - i,
    {
        if common_suites[i].usable_for_sigalg(sigalg) {
            return true;
        }
        i += 1;
    }
    false
}

/// Reducing by version never empties a list that still holds a
/// qualifying entry: every suite usable for the version survives.
pub proof fn lemma_reduce_given_version_keeps(
    all: Seq<SupportedCipherSuite>,
    version: ProtocolVersion,
    i: int,
)
    requires
        0 <= i < all.len(),
        all[i].spec_usable_for_version(version),
    ensures
        spec_reduce_given_version(all, version).contains(all[i]),
{
    all.lemma_filter_contains(version_pred(version), i);
}

/// Reducing by signature algorithm never empties a list that still
/// holds a qualifying entry: every suite usable for the algorithm
/// survives.
pub proof fn lemma_reduce_given_sigalg_keeps(
    all: Seq<SupportedCipherSuite>,
    sigalg: SignatureAlgorithm,
    i: int,
)
    requires
        0 <= i < all.len(),
        all[i].spec_usable_for_sigalg(sigalg),
    ensures
        spec_reduce_given_sigalg(all, sigalg).contains(all[i]),
{
    all.lemma_filter_contains(sigalg_pred(sigalg), i);
}

/// Reducing by version is idempotent: filtering an already-filtered
/// list by the same version yields the same list.
pub proof fn lemma_reduce_given_version_idempotent(
    all: Seq<SupportedCipherSuite>,
    version: ProtocolVersion,
)
    ensures
        spec_reduce_given_version(spec_reduce_given_version(all, version), version)
            == spec_reduce_given_version(all, version),
{
    lemma_filter_idempotent(all, version_pred(version));
}

/// Reducing by signature algorithm is idempotent: filtering an
/// already-filtered list by the same algorithm yields the same list.
pub proof fn lemma_reduce_given_sigalg_idempotent(
    all: Seq<SupportedCipherSuite>,
    sigalg: SignatureAlgorithm,
)
    ensures
        spec_reduce_given_sigalg(spec_reduce_given_sigalg(all, sigalg), sigalg)
            == spec_reduce_given_sigalg(all, sigalg),
{
    lemma_filter_idempotent(all, sigalg_pred(sigalg));
}

/// Client-preference selection returns the first offered identifier
/// present in the local catalog, regardless of local catalog order: the
/// choice is the first catalog entry bearing that identifier.
pub proof fn lemma_choose_client_first_offered(
    client_suites: Seq<CipherSuite>,
    server_suites: Seq<SupportedCipherSuite>,
    i: int,
)
    requires
        0 <= i < client_suites.len(),
        catalog_contains_id(server_suites, client_suites[i]),
        forall|k: int| 0 <= k < i ==> !catalog_contains_id(
            server_suites,
            #[trigger] client_suites[k],
        ),
    ensures
        spec_choose_preferring_client(client_suites, server_suites) == spec_find_suite(
            server_suites,
            client_suites[i],
        ),
        spec_choose_preferring_client(client_suites, server_suites) matches Some(s) && s.suite
            == client_suites[i],
    decreases i,
{
    lemma_find_suite_spec(server_suites, client_suites[0]);
    if i == 0 {
        lemma_find_suite_spec(server_suites, client_suites[i]);
    } else {
        assert forall|k: int| 0 <= k < i - 1 implies !catalog_contains_id(
            server_suites,
            #[trigger] client_suites.skip(1)[k],
        ) by {
            assert(client_suites.skip(1)[k] == client_suites[k + 1]);
        }
        assert(client_suites.skip(1)[i - 1] == client_suites[i]);
        lemma_choose_client_first_offered(client_suites.skip(1), server_suites, i - 1);
    }
}

/// Server-preference selection returns the first entry in local catalog
/// order whose identifier appears in the offered set, regardless of the
/// offer's order.
pub proof fn lemma_choose_server_first_local(
    client_suites: Seq<CipherSuite>,
    server_suites: Seq<SupportedCipherSuite>,
    j: int,
)
    requires
        0 <= j < server_suites.len(),
        client_suites.contains(server_suites[j].suite),
        forall|k: int| 0 <= k < j ==> !client_suites.contains(
            (#[trigger] server_suites[k]).suite,
        ),
    ensures
        spec_choose_preferring_server(client_suites, server_suites) == Some(server_suites[j]),
    decreases j,
{
    if j > 0 {
        assert forall|k: int| 0 <= k < j - 1 implies !client_suites.contains(
            (#[trigger] server_suites.skip(1)[k]).suite,
        ) by {
            assert(server_suites.skip(1)[k] == server_suites[k + 1]);
        }
        assert(server_suites.skip(1)[j - 1] == server_suites[j]);
        lemma_choose_server_first_local(client_suites, server_suites.skip(1), j - 1);
    }
}

/// Negotiation over disjoint sets yields "no selection" for both
/// strategies: when no offered identifier exists in the local catalog,
/// neither strategy selects a suite.
pub proof fn lemma_disjoint_no_selection(
    client_suites: Seq<CipherSuite>,
    server_suites: Seq<SupportedCipherSuite>,
)
    requires
        forall|i: int| 0 <= i < client_suites.len() ==> !catalog_contains_id(
            server_suites,
            #[trigger] client_suites[i],
        ),
    ensures
        spec_choose_preferring_client(client_suites, server_suites) is None,
        spec_choose_preferring_server(client_suites, server_suites) is None,
{
    lemma_disjoint_no_client_selection(client_suites, server_suites);
    assert forall|k: int| 0 <= k < server_suites.len() implies !client_suites.contains(
        (#[trigger] server_suites[k]).suite,
    ) by {
        if client_suites.contains(server_suites[k].suite) {
            let i = choose|i: int| 0 <= i < client_suites.len() && client_suites[i]
                == server_suites[k].suite;
            assert(catalog_contains_id(server_suites, client_suites[i]));
        }
    }
    lemma_disjoint_no_server_selection(client_suites, server_suites);
}

proof fn lemma_disjoint_no_client_selection(
    client_suites: Seq<CipherSuite>,
    server_suites: Seq<SupportedCipherSuite>,
)
    requires
        forall|i: int| 0 <= i < client_suites.len() ==> !catalog_contains_id(
            server_suites,
            #[trigger] client_suites[i],
        ),
    ensures
        spec_choose_preferring_client(client_suites, server_suites) is None,
    decreases client_suites.len(),
{
    if client_suites.len() > 0 {
        lemma_find_suite_spec(server_suites, client_suites[0]);
        assert forall|i: int| 0 <= i < client_suites.skip(1).len() implies !catalog_contains_id(
            server_suites,
            #[trigger] client_suites.skip(1)[i],
        ) by {
            assert(client_suites.skip(1)[i] == client_suites[i + 1]);
        }
        lemma_disjoint_no_client_selection(client_suites.skip(1), server_suites);
    }
}

proof fn lemma_disjoint_no_server_selection(
    client_suites: Seq<CipherSuite>,
    server_suites: Seq<SupportedCipherSuite>,
)
    requires
        forall|k: int| 0 <= k < server_suites.len() ==> !client_suites.contains(
            (#[trigger] server_suites[k]).suite,
        ),
    ensures
        spec_choose_preferring_server(client_suites, server_suites) is None,
    decreases server_suites.len(),
{
    if server_suites.len() > 0 {
        assert forall|k: int| 0 <= k < server_suites.skip(1).len() implies !client_suites.contains(
            (#[trigger] server_suites.skip(1)[k]).suite,
        ) by {
            assert(server_suites.skip(1)[k] == server_suites[k + 1]);
        }
        lemma_disjoint_no_server_selection(client_suites, server_suites.skip(1));
    }
}

} // verus!
