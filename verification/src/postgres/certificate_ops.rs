//! What is decided over stored certificates and bindings: which row is written,
//! and what a row that was read says.
use vstd::prelude::*;
use vstd::string::*;

use crate::certificate;
use crate::certificate::seal;
use crate::certificate::seal::CertificateSealer;
use crate::certificate::seal::CertificateSealerView;
use crate::certificate::seal::SealedPrivateKey;
use crate::certificate::seal::SealedPrivateKeyView;
use crate::certificate::validate;
use crate::certificate::validate::validate_certificate;
use crate::certificate::validate::validate_hostname;
use crate::certificate::validate::ValidatedCertificate;
use crate::certificate::validate::ValidatedCertificateView;
use crate::certificate::CertificateBundle;
use crate::certificate::CertificateBundleView;
use crate::certificate::CertificateId;
use crate::certificate::CertificateMetadata;
use crate::certificate::CertificateMetadataView;
use crate::certificate::CertificateRevision;
use crate::certificate::CertificateState;
use crate::certificate::InvalidCertificateResource;
use crate::certificate::PublishCertificateRequest;
use crate::certificate::PublishCertificateRequestView;
use crate::certificate::ReencryptCertificateRequest;
use crate::certificate::ReencryptCertificateRequestView;
use crate::certificate::RemoveCertificateRequest;
use crate::certificate::ResolveTlsCertificateRequest;
use crate::certificate::ResolveTlsCertificateRequestView;
use crate::certificate::SetTlsBindingRequest;
use crate::certificate::SetTlsBindingRequestView;
use crate::certificate::TlsBinding;
use crate::certificate::TlsBindingSnapshot;
use crate::certificate::TlsBindingSnapshotView;
use crate::certificate::TlsBindingView;
use crate::certificate::TlsCertificateChange;
use crate::certificate::TlsCertificateChangeKind;
use crate::certificate::TlsCertificateChangePage;
use crate::certificate::TlsCertificateChangePageView;
use crate::certificate::TlsCertificateChangeView;
use crate::certificate::TlsCertificateResolution;
use crate::certificate::TlsCertificateResolutionView;
use crate::certificate::TlsCertificateValue;
use crate::certificate::TlsCertificateValueView;
use crate::certificate::TlsHostname;
use crate::certificate::MAX_CERTIFICATE_BINDINGS;
use crate::ids::Generation;
use crate::json;
use crate::json::Json;
use crate::outcome;
use crate::store::StoreError;
use crate::store::StoreErrorView;
use crate::text;

verus! {

/// A stored certificate.
#[derive(Debug, PartialEq, Eq)]
pub struct CertificateRow {
    pub certificate_id: String,
    pub version: i64,
    pub state: String,
    pub not_before_unix_millis: i64,
    pub not_after_unix_millis: i64,
    pub dns_names: Vec<String>,
    pub leaf_sha256: Option<Vec<u8>>,
    pub chain_der: Option<Vec<Vec<u8>>>,
    pub seal_format: Option<i16>,
    pub seal_key_id: Option<String>,
    pub seal_nonce: Option<Vec<u8>>,
    pub sealed_private_key: Option<Vec<u8>>,
    pub sealing_revision: i64,
}

/// What a [`CertificateRow`] holds.
#[verifier::ext_equal]
pub struct CertificateRowView {
    pub certificate_id: Seq<char>,
    pub version: i64,
    pub state: Seq<char>,
    pub not_before_unix_millis: i64,
    pub not_after_unix_millis: i64,
    pub dns_names: Seq<Seq<char>>,
    pub leaf_sha256: Option<Seq<u8>>,
    pub chain_der: Option<Seq<Seq<u8>>>,
    pub seal_format: Option<i16>,
    pub seal_key_id: Option<Seq<char>>,
    pub seal_nonce: Option<Seq<u8>>,
    pub sealed_private_key: Option<Seq<u8>>,
    pub sealing_revision: i64,
}

impl DeepView for CertificateRow {
    type V = CertificateRowView;

    open spec fn deep_view(&self) -> CertificateRowView {
        CertificateRowView {
            certificate_id: self.certificate_id.deep_view(),
            version: self.version.deep_view(),
            state: self.state.deep_view(),
            not_before_unix_millis: self.not_before_unix_millis.deep_view(),
            not_after_unix_millis: self.not_after_unix_millis.deep_view(),
            dns_names: self.dns_names.deep_view(),
            leaf_sha256: self.leaf_sha256.deep_view(),
            chain_der: self.chain_der.deep_view(),
            seal_format: self.seal_format.deep_view(),
            seal_key_id: self.seal_key_id.deep_view(),
            seal_nonce: self.seal_nonce.deep_view(),
            sealed_private_key: self.sealed_private_key.deep_view(),
            sealing_revision: self.sealing_revision.deep_view(),
        }
    }
}

/// A stored binding of a host.
#[derive(Debug, PartialEq, Eq)]
pub struct TlsBindingRow {
    pub certificate_id: Option<String>,
    pub revision: i64,
    pub last_invalidating_revision: i64,
}

/// What a [`TlsBindingRow`] holds.
#[verifier::ext_equal]
pub struct TlsBindingRowView {
    pub certificate_id: Option<Seq<char>>,
    pub revision: i64,
    pub last_invalidating_revision: i64,
}

impl DeepView for TlsBindingRow {
    type V = TlsBindingRowView;

    open spec fn deep_view(&self) -> TlsBindingRowView {
        TlsBindingRowView {
            certificate_id: self.certificate_id.deep_view(),
            revision: self.revision.deep_view(),
            last_invalidating_revision: self.last_invalidating_revision.deep_view(),
        }
    }
}

/// What is stored for a host at one point in time: the revision of its binding, if it
/// has one, and the certificate that it is bound to.
#[derive(Debug, PartialEq, Eq)]
pub struct TlsCertificateRow {
    pub view_revision: Option<i64>,
    pub observed_at: i64,
    pub certificate: Option<CertificateRow>,
}

/// What a [`TlsCertificateRow`] holds.
#[verifier::ext_equal]
pub struct TlsCertificateRowView {
    pub view_revision: Option<i64>,
    pub observed_at: i64,
    pub certificate: Option<CertificateRowView>,
}

impl DeepView for TlsCertificateRow {
    type V = TlsCertificateRowView;

    open spec fn deep_view(&self) -> TlsCertificateRowView {
        TlsCertificateRowView {
            view_revision: self.view_revision.deep_view(),
            observed_at: self.observed_at.deep_view(),
            certificate: self.certificate.deep_view(),
        }
    }
}

/// An error that a request is to blame for.
pub open spec fn refused(message: Seq<char>) -> StoreErrorView {
    StoreErrorView::InvalidArgument { message }
}

/// An error that the stored data or the configuration is to blame for.
pub open spec fn broken(message: Seq<char>) -> StoreErrorView {
    StoreErrorView::Internal { message }
}

fn invalid(error: InvalidCertificateResource) -> (r: StoreError)
    ensures
        r.deep_view() == refused(error.deep_view()),
{
    StoreError::invalid_argument(error.0)
}

/// A stored revision.
pub open spec fn revision_of(value: i64) -> Result<nat, StoreErrorView> {
    if value < 0 {
        Err(broken("invalid durable certificate revision"@))
    } else {
        Ok(value as nat)
    }
}

fn rev(value: i64) -> (r: Result<CertificateRevision, StoreError>)
    ensures
        outcome::of(r) == revision_of(value),
{
    if value < 0 {
        return Err(StoreError::internal("invalid durable certificate revision"));
    }
    match CertificateRevision::new(value as u64) {
        Ok(revision) => Ok(revision),
        Err(error) => Err(invalid(error)),
    }
}

/// The revision behind another.
pub open spec fn next_revision(value: nat) -> Result<nat, StoreErrorView> {
    if value + 1 <= i64::MAX {
        Ok(value + 1)
    } else {
        Err(refused("certificate revision exceeds its supported range"@))
    }
}

fn next(value: CertificateRevision) -> (r: Result<CertificateRevision, StoreError>)
    ensures
        outcome::of(r) == next_revision(value@),
{
    let value: u64 = value.get();
    match CertificateRevision::new(value + 1) {
        Ok(revision) => Ok(revision),
        Err(error) => Err(invalid(error)),
    }
}

/// What is wrong if one revision was expected and another is there.
pub open spec fn revision_problem(expected: nat, actual: nat) -> Option<StoreErrorView> {
    if expected != actual {
        Some(StoreErrorView::GenerationConflict { expected, actual })
    } else {
        None
    }
}

fn check_revision(expected: CertificateRevision, actual: CertificateRevision) -> (r: Result<
    (),
    StoreError,
>)
    ensures
        outcome::problem(r) == revision_problem(expected@, actual@),
{
    if !expected.is_same(&actual) {
        return Err(
            StoreError::GenerationConflict {
                expected: Generation::new(expected.get()),
                actual: Generation::new(actual.get()),
            },
        );
    }
    Ok(())
}

/// A certificate's state by its stored name.
pub open spec fn state_of(name: Seq<char>) -> Result<CertificateState, StoreErrorView> {
    if name == "active"@ {
        Ok(CertificateState::Active)
    } else if name == "deleted"@ {
        Ok(CertificateState::Deleted)
    } else {
        Err(broken("invalid durable certificate state"@))
    }
}

fn read_state(name: &str) -> (r: Result<CertificateState, StoreError>)
    ensures
        outcome::of(r) == state_of(name@),
{
    if text::same(name, "active") {
        Ok(CertificateState::Active)
    } else if text::same(name, "deleted") {
        Ok(CertificateState::Deleted)
    } else {
        Err(StoreError::internal("invalid durable certificate state"))
    }
}

/// What a row says of its certificate, without the material.
pub open spec fn metadata_of(row: CertificateRowView) -> Result<
    CertificateMetadataView,
    StoreErrorView,
> {
    if text::is_blank(row.certificate_id) {
        Err(refused("certificate ID must not be empty"@))
    } else {
        match (revision_of(row.version), state_of(row.state), revision_of(row.sealing_revision)) {
            (Err(error), _, _) => Err(error),
            (_, Err(error), _) => Err(error),
            (_, _, Err(error)) => Err(error),
            (Ok(version), Ok(state), Ok(sealing_revision)) => Ok(
                CertificateMetadataView {
                    id: row.certificate_id,
                    version,
                    state,
                    not_before_unix_millis: row.not_before_unix_millis,
                    not_after_unix_millis: row.not_after_unix_millis,
                    dns_names: row.dns_names,
                    leaf_sha256: match row.leaf_sha256 {
                        Some(digest) => digest,
                        None => Seq::empty(),
                    },
                    sealing_key_id: row.seal_key_id,
                    sealing_revision,
                },
            ),
        }
    }
}

/// What a row says of its certificate, without the material.
pub fn metadata(row: &CertificateRow) -> (r: Result<CertificateMetadata, StoreError>)
    ensures
        outcome::of(r) == metadata_of(row.deep_view()),
{
    let id = match CertificateId::new(row.certificate_id.as_str()) {
        Ok(id) => id,
        Err(error) => return Err(invalid(error)),
    };
    let version = match rev(row.version) {
        Ok(version) => version,
        Err(error) => return Err(error),
    };
    let state = match read_state(row.state.as_str()) {
        Ok(state) => state,
        Err(error) => return Err(error),
    };
    let sealing_revision = match rev(row.sealing_revision) {
        Ok(sealing_revision) => sealing_revision,
        Err(error) => return Err(error),
    };
    let dns_names = row.dns_names.clone();
    let leaf_sha256: Vec<u8> = match &row.leaf_sha256 {
        Some(digest) => digest.clone(),
        None => Vec::new(),
    };
    let sealing_key_id = row.seal_key_id.clone();
    proof {
        assert(dns_names.deep_view() =~= row.dns_names.deep_view());
        assert(row.leaf_sha256 matches Some(digest) ==> leaf_sha256.deep_view()
            =~= digest.deep_view());
        assert(row.leaf_sha256 is None ==> leaf_sha256.deep_view() =~= Seq::<u8>::empty());
        assert(sealing_key_id.deep_view() =~= row.seal_key_id.deep_view());
    }
    Ok(
        CertificateMetadata {
            id,
            version,
            state,
            not_before_unix_millis: row.not_before_unix_millis,
            not_after_unix_millis: row.not_after_unix_millis,
            dns_names,
            leaf_sha256,
            sealing_key_id,
            sealing_revision,
        },
    )
}

/// The digest of a chain: of its certificates, each behind its length.
pub open spec fn chain_digest_of(chain: Seq<Seq<u8>>) -> Seq<u8> {
    validate::sha256_of(certificate::framed(chain))
}

fn chain_digest(chain: &Vec<Vec<u8>>) -> (r: Vec<u8>)
    requires
        certificate::digestible(chain.deep_view()),
    ensures
        r@ == chain_digest_of(chain.deep_view()),
{
    validate::sha256(&certificate::framed_bytes(chain))
}

/// The sealed private key of a row.
pub open spec fn envelope_of(row: CertificateRowView) -> SealedPrivateKeyView {
    SealedPrivateKeyView {
        format_version: row.seal_format->0 as u8,
        key_id: row.seal_key_id->0,
        nonce: row.seal_nonce->0,
        ciphertext: row.sealed_private_key->0,
    }
}

/// What keeps a row from having a chain and a sealed private key.
pub open spec fn material_problem(
    row: CertificateRowView,
    sealing_key_id: Option<Seq<char>>,
) -> Option<StoreErrorView> {
    if row.chain_der is None {
        Some(broken("active certificate material is missing"@))
    } else if !(row.seal_format matches Some(format) && 0 <= format <= 255) {
        Some(broken("invalid certificate envelope"@))
    } else if sealing_key_id is None {
        Some(broken("certificate sealing key ID is missing"@))
    } else if !(row.seal_nonce matches Some(nonce) && nonce.len() == 12) {
        Some(broken("invalid certificate nonce"@))
    } else if row.sealed_private_key is None {
        Some(broken("sealed certificate key is missing"@))
    } else if !certificate::digestible(row.chain_der->0) {
        Some(refused("certificate chain exceeds its supported size"@))
    } else {
        None
    }
}

/// The chain and the private key of a row.
pub open spec fn bundle_of(
    sealer: CertificateSealerView,
    row: CertificateRowView,
    meta: CertificateMetadataView,
) -> Result<CertificateBundleView, StoreErrorView> {
    match material_problem(row, meta.sealing_key_id) {
        Some(problem) => Err(problem),
        None => match seal::open_result(
            sealer,
            meta.id,
            meta.version,
            chain_digest_of(row.chain_der->0),
            SealedPrivateKeyView { key_id: meta.sealing_key_id->0, ..envelope_of(row) },
        ) {
            Err(message) => Err(broken(message)),
            Ok(key) => Ok(
                CertificateBundleView { chain_der: row.chain_der->0, private_key_pkcs8_der: key },
            ),
        },
    }
}

fn read_nonce(nonce: &Vec<u8>) -> (r: Option<[u8; 12]>)
    ensures
        r is Some == (nonce@.len() == 12),
        r matches Some(array) ==> array@ == nonce@,
{
    if nonce.len() != 12 {
        return None;
    }
    let array: [u8; 12] = [
        nonce[0],
        nonce[1],
        nonce[2],
        nonce[3],
        nonce[4],
        nonce[5],
        nonce[6],
        nonce[7],
        nonce[8],
        nonce[9],
        nonce[10],
        nonce[11],
    ];
    assert(array@ =~= nonce@);
    Some(array)
}

/// The chain and the private key of a row.
pub fn bundle(sealer: &CertificateSealer, row: &CertificateRow, meta: &CertificateMetadata) -> (r:
    Result<CertificateBundle, StoreError>)
    ensures
        outcome::of(r) == bundle_of(sealer.deep_view(), row.deep_view(), meta.deep_view()),
{
    let chain = match &row.chain_der {
        Some(chain) => chain,
        None => return Err(StoreError::internal("active certificate material is missing")),
    };
    let format_version: u8 = match row.seal_format {
        Some(format) => if 0 <= format && format <= 255 {
            format as u8
        } else {
            return Err(StoreError::internal("invalid certificate envelope"));
        },
        None => return Err(StoreError::internal("invalid certificate envelope")),
    };
    let key_id = match &meta.sealing_key_id {
        Some(key_id) => key_id.clone(),
        None => return Err(StoreError::internal("certificate sealing key ID is missing")),
    };
    let nonce = match &row.seal_nonce {
        Some(nonce) => match read_nonce(nonce) {
            Some(array) => {
                assert(nonce.deep_view() =~= nonce@);
                array
            },
            None => return Err(StoreError::internal("invalid certificate nonce")),
        },
        None => return Err(StoreError::internal("invalid certificate nonce")),
    };
    let ciphertext = match &row.sealed_private_key {
        Some(ciphertext) => {
            let copy = ciphertext.clone();
            assert(copy@ =~= ciphertext@);
            assert(ciphertext.deep_view() =~= ciphertext@);
            copy
        },
        None => return Err(StoreError::internal("sealed certificate key is missing")),
    };
    if certificate::framed_len(chain).is_none() {
        return Err(StoreError::invalid_argument("certificate chain exceeds its supported size"));
    }
    let envelope = SealedPrivateKey { format_version, key_id, nonce, ciphertext };
    let digest = chain_digest(chain);
    let key = match sealer.open(&meta.id, meta.version, digest.as_slice(), &envelope) {
        Ok(key) => key,
        Err(error) => return Err(StoreError::internal(error.0)),
    };
    let chain_copy = chain.clone();
    assert(chain_copy.deep_view() =~~= chain.deep_view());
    match CertificateBundle::new(chain_copy, key.to_vec()) {
        Ok(bundle) => Ok(bundle),
        Err(error) => Err(invalid(error)),
    }
}

/// What is wrong with more bound hosts than one certificate may have.
pub open spec fn inventory_problem(count: int) -> Option<StoreErrorView> {
    if count > 1024 {
        Some(broken("certificate binding inventory exceeds its bound"@))
    } else {
        None
    }
}

/// Checks how many hosts are bound to one certificate.
pub fn check_bound_inventory(count: u64) -> (r: Result<(), StoreError>)
    ensures
        outcome::problem(r) == inventory_problem(count as int),
{
    if count > MAX_CERTIFICATE_BINDINGS as u64 {
        return Err(StoreError::internal("certificate binding inventory exceeds its bound"));
    }
    Ok(())
}

/// Whether a version may be published over what is stored under its ID, and what
/// that says.
pub open spec fn publish_admission(expected: nat, old: Option<CertificateRowView>) -> Result<
    Option<CertificateMetadataView>,
    StoreErrorView,
> {
    match old {
        None => outcome::checked(revision_problem(expected, 0), None),
        Some(row) => match metadata_of(row) {
            Err(error) => Err(error),
            Ok(meta) => outcome::checked(
                outcome::first_of(
                    revision_problem(expected, meta.version),
                    if meta.state == CertificateState::Deleted {
                        Some(
                            StoreErrorView::AlreadyExists {
                                resource: "retired certificate ID"@,
                            },
                        )
                    } else {
                        None
                    },
                ),
                Some(meta),
            ),
        },
    }
}

/// Checks that a version may be published over what is stored under its ID.
pub fn admit_publish(expected_version: CertificateRevision, old: &Option<CertificateRow>) -> (r:
    Result<Option<CertificateMetadata>, StoreError>)
    ensures
        outcome::of(r) == publish_admission(expected_version@, old.deep_view()),
{
    match old {
        None => match check_revision(expected_version, CertificateRevision::zero()) {
            Ok(()) => Ok(None),
            Err(error) => Err(error),
        },
        Some(row) => {
            let meta = match metadata(row) {
                Ok(meta) => meta,
                Err(error) => return Err(error),
            };
            if let Err(error) = check_revision(expected_version, meta.version) {
                return Err(error);
            }
            if meta.state == CertificateState::Deleted {
                return Err(StoreError::AlreadyExists { resource: "retired certificate ID" });
            }
            Ok(Some(meta))
        },
    }
}

/// What is wrong with a host for a chain.
pub open spec fn host_problem(chain: Seq<Seq<u8>>, host: Seq<char>) -> Option<StoreErrorView> {
    if !certificate::names_host(host) {
        Some(refused("invalid TLS hostname"@))
    } else {
        let name = certificate::canonical_name(host);
        match validate::hostname_problem(
            chain.len() == 0,
            validate::is_end_entity(chain[0]),
            validate::is_server_name(name),
            validate::covers(chain[0], name),
        ) {
            Some(message) => Some(refused(message)),
            None => None,
        }
    }
}

/// The problem of each host for a chain.
pub open spec fn host_problems(chain: Seq<Seq<u8>>, hosts: Seq<Seq<char>>) -> Seq<
    Option<StoreErrorView>,
> {
    Seq::new(hosts.len(), |i: int| host_problem(chain, hosts[i]))
}

fn check_hosts(chain: &Vec<Vec<u8>>, hosts: &Vec<String>) -> (r: Result<(), StoreError>)
    ensures
        outcome::problem(r) == outcome::first_problem(
            host_problems(chain.deep_view(), hosts.deep_view()),
            0,
        ),
{
    let ghost problems = host_problems(chain.deep_view(), hosts.deep_view());
    let mut i: usize = 0;
    while i < hosts.len()
        invariant
            0 <= i <= hosts.len(),
            problems == host_problems(chain.deep_view(), hosts.deep_view()),
            forall|j: int| 0 <= j < i ==> (#[trigger] problems[j]) is None,
        decreases hosts.len() - i,
    {
        proof {
            assert(hosts.deep_view()[i as int] == hosts@[i as int]@);
            assert(problems[i as int] == host_problem(chain.deep_view(), hosts@[i as int]@));
            outcome::lemma_first_problem(problems, 0, i as int);
        }
        let name = match TlsHostname::new(hosts[i].as_str()) {
            Ok(name) => name,
            Err(error) => return Err(invalid(error)),
        };
        if let Err(error) = validate_hostname(chain, &name) {
            return Err(invalid(error));
        }
        i = i + 1;
    }
    proof {
        outcome::lemma_first_problem(problems, 0, i as int);
    }
    Ok(())
}

/// The sealing revision behind that of what is stored.
pub open spec fn next_sealing_revision(old: Option<CertificateMetadataView>) -> Result<
    nat,
    StoreErrorView,
> {
    next_revision(
        match old {
            Some(meta) => meta.sealing_revision,
            None => 0,
        },
    )
}

/// What keeps a version from being published, apart from sealing its key: too many
/// hosts, a revision without a next, no keys, or a chain that is not fit for a
/// server or does not cover every host that is bound to it.
pub open spec fn publish_problem(
    sealer: Option<CertificateSealerView>,
    request: PublishCertificateRequestView,
    old: Option<CertificateMetadataView>,
    observed_at: i64,
    hosts: Seq<Seq<char>>,
) -> Option<StoreErrorView> {
    if hosts.len() > 1024 {
        Some(broken("certificate binding inventory exceeds its bound"@))
    } else if next_revision(request.expected_version) is Err {
        outcome::err_of(next_revision(request.expected_version))
    } else if next_sealing_revision(old) is Err {
        outcome::err_of(next_sealing_revision(old))
    } else if sealer is None {
        Some(broken("certificate sealing keys are not configured"@))
    } else {
        match validate::validated(request.bundle, observed_at) {
            Err(message) => Some(refused(message)),
            Ok(_) => outcome::first_problem(host_problems(request.bundle.chain_der, hosts), 0),
        }
    }
}

/// The row that a publication writes.
pub open spec fn published_row(
    request: PublishCertificateRequestView,
    sealing_revision: nat,
    validated: ValidatedCertificateView,
    sealed: SealedPrivateKeyView,
) -> CertificateRowView {
    CertificateRowView {
        certificate_id: request.id,
        version: (request.expected_version + 1) as i64,
        state: "active"@,
        not_before_unix_millis: validated.not_before_unix_millis,
        not_after_unix_millis: validated.not_after_unix_millis,
        dns_names: validated.dns_names,
        leaf_sha256: Some(validated.leaf_sha256),
        chain_der: Some(request.bundle.chain_der),
        seal_format: Some(sealed.format_version as i16),
        seal_key_id: Some(sealed.key_id),
        seal_nonce: Some(sealed.nonce),
        sealed_private_key: Some(sealed.ciphertext),
        sealing_revision: sealing_revision as i64,
    }
}

/// Whether a row is what a publication writes: its material is sealed with the
/// active key.
pub open spec fn published(
    sealer: CertificateSealerView,
    request: PublishCertificateRequestView,
    old: Option<CertificateMetadataView>,
    observed_at: i64,
    row: CertificateRowView,
) -> bool {
    &&& row == published_row(
        request,
        next_sealing_revision(old)->Ok_0,
        validate::validated(request.bundle, observed_at)->Ok_0,
        envelope_of(row),
    )
    &&& seal::sealed_by(
        sealer,
        request.id,
        request.expected_version + 1,
        chain_digest_of(request.bundle.chain_der),
        request.bundle.private_key_pkcs8_der,
        envelope_of(row),
    )
}

/// Whether an error says that the private key of a certificate was not sealed: the
/// system gave no nonce, or AES-256-GCM refused the key.
pub open spec fn is_sealing_failure(
    sealer: CertificateSealerView,
    id: Seq<char>,
    version: nat,
    bundle: CertificateBundleView,
    error: StoreErrorView,
) -> bool {
    error == broken("sealing nonce generation failed"@) || (error == broken(
        "certificate sealing failed"@,
    ) && seal::seal_refused(
        sealer,
        id,
        version,
        chain_digest_of(bundle.chain_der),
        bundle.private_key_pkcs8_der,
    ))
}

fn nonce_bytes(nonce: &[u8; 12]) -> (r: Vec<u8>)
    ensures
        r@ == nonce@,
{
    let mut bytes: Vec<u8> = Vec::new();
    certificate::push_bytes(&mut bytes, nonce.as_slice());
    assert(bytes@ =~= nonce@);
    bytes
}

/// Puts together the row of a publication.
pub fn publish_row(
    request: &PublishCertificateRequest,
    version: CertificateRevision,
    sealing_revision: CertificateRevision,
    validated: ValidatedCertificate,
    sealed: SealedPrivateKey,
) -> (r: CertificateRow)
    requires
        version@ == request.deep_view().expected_version + 1,
    ensures
        r.deep_view() == published_row(
            request.deep_view(),
            sealing_revision@,
            validated.deep_view(),
            sealed.deep_view(),
        ),
{
    let chain = request.bundle.chain_der();
    let chain_der = chain.clone();
    let nonce = nonce_bytes(&sealed.nonce);
    proof {
        assert(chain_der.deep_view() =~~= chain.deep_view());
        assert(nonce.deep_view() =~= nonce@);
        assert(sealed.ciphertext.deep_view() =~= sealed.ciphertext@);
    }
    CertificateRow {
        certificate_id: request.id.to_string(),
        version: version.get() as i64,
        state: "active".to_owned(),
        not_before_unix_millis: validated.not_before_unix_millis,
        not_after_unix_millis: validated.not_after_unix_millis,
        dns_names: validated.dns_names,
        leaf_sha256: Some(validated.leaf_sha256),
        chain_der: Some(chain_der),
        seal_format: Some(sealed.format_version as i16),
        seal_key_id: Some(sealed.key_id),
        seal_nonce: Some(nonce),
        sealed_private_key: Some(sealed.ciphertext),
        sealing_revision: sealing_revision.get() as i64,
    }
}

/// Checks the material of a publication against the hosts that are bound to the
/// certificate, seals the private key, and gives the row to write.
pub fn publish(
    sealer: Option<&CertificateSealer>,
    request: &PublishCertificateRequest,
    old: &Option<CertificateMetadata>,
    observed_at: i64,
    hosts: &Vec<String>,
) -> (r: Result<CertificateRow, StoreError>)
    ensures
        match publish_problem(
            sealer.deep_view(),
            request.deep_view(),
            old.deep_view(),
            observed_at,
            hosts.deep_view(),
        ) {
            Some(problem) => r matches Err(error) && error.deep_view() == problem,
            None => match r {
                Ok(row) => published(
                    sealer.deep_view()->0,
                    request.deep_view(),
                    old.deep_view(),
                    observed_at,
                    row.deep_view(),
                ),
                Err(error) => is_sealing_failure(
                    sealer.deep_view()->0,
                    request.deep_view().id,
                    request.deep_view().expected_version + 1,
                    request.deep_view().bundle,
                    error.deep_view(),
                ),
            },
        },
        r matches Ok(row) ==> row.not_before_unix_millis <= observed_at < row.not_after_unix_millis,
{
    if let Err(error) = check_bound_inventory(hosts.len() as u64) {
        return Err(error);
    }
    let version = match next(request.expected_version) {
        Ok(version) => version,
        Err(error) => return Err(error),
    };
    let old_sealing_revision = match old {
        Some(meta) => meta.sealing_revision,
        None => CertificateRevision::zero(),
    };
    let sealing_revision = match next(old_sealing_revision) {
        Ok(sealing_revision) => sealing_revision,
        Err(error) => return Err(error),
    };
    let sealer = match sealer {
        Some(sealer) => sealer,
        None => return Err(StoreError::internal("certificate sealing keys are not configured")),
    };
    let validated = match validate_certificate(&request.bundle, observed_at) {
        Ok(validated) => validated,
        Err(error) => return Err(invalid(error)),
    };
    let chain = request.bundle.chain_der();
    if let Err(error) = check_hosts(chain, hosts) {
        return Err(error);
    }
    let digest = chain_digest(chain);
    let key = request.bundle.private_key_pkcs8_der();
    match sealer.seal(&request.id, version, digest.as_slice(), key.as_slice()) {
        Err(error) => Err(StoreError::internal(error.0)),
        Ok(sealed) => {
            let ghost sealed_view = sealed.deep_view();
            let row = publish_row(request, version, sealing_revision, validated, sealed);
            assert(sealed_view.format_version as i16 as u8 == sealed_view.format_version);
            assert(envelope_of(row.deep_view()) =~= sealed_view);
            Ok(row)
        },
    }
}

/// A host's binding as it is stored; a host without one has revision zero.
pub open spec fn binding_of(hostname: Seq<char>, row: Option<TlsBindingRowView>) -> Result<
    TlsBindingView,
    StoreErrorView,
> {
    match row {
        None => Ok(
            TlsBindingView {
                hostname,
                certificate_id: None,
                revision: 0,
                last_invalidating_revision: 0,
            },
        ),
        Some(row) => if row.certificate_id matches Some(id) && text::is_blank(id) {
            Err(refused("certificate ID must not be empty"@))
        } else {
            match (revision_of(row.revision), revision_of(row.last_invalidating_revision)) {
                (Err(error), _) => Err(error),
                (_, Err(error)) => Err(error),
                (Ok(revision), Ok(last_invalidating_revision)) => Ok(
                    TlsBindingView {
                        hostname,
                        certificate_id: row.certificate_id,
                        revision,
                        last_invalidating_revision,
                    },
                ),
            }
        },
    }
}

fn read_binding(hostname: TlsHostname, row: &TlsBindingRow) -> (r: Result<TlsBinding, StoreError>)
    ensures
        outcome::of(r) == binding_of(hostname@, Some(row.deep_view())),
{
    let certificate_id = match &row.certificate_id {
        None => None,
        Some(id) => match CertificateId::new(id.as_str()) {
            Ok(id) => Some(id),
            Err(error) => return Err(invalid(error)),
        },
    };
    let revision = match rev(row.revision) {
        Ok(revision) => revision,
        Err(error) => return Err(error),
    };
    let last_invalidating_revision = match rev(row.last_invalidating_revision) {
        Ok(revision) => revision,
        Err(error) => return Err(error),
    };
    Ok(TlsBinding { hostname, certificate_id, revision, last_invalidating_revision })
}

/// A host's binding from what is stored of it.
pub fn binding(hostname: TlsHostname, row: &Option<TlsBindingRow>) -> (r: Result<
    TlsBinding,
    StoreError,
>)
    ensures
        outcome::of(r) == binding_of(hostname@, row.deep_view()),
{
    match row {
        None => Ok(
            TlsBinding {
                hostname,
                certificate_id: None,
                revision: CertificateRevision::zero(),
                last_invalidating_revision: CertificateRevision::zero(),
            },
        ),
        Some(row) => read_binding(hostname, row),
    }
}

/// What is wrong if a host's binding has not the revision that is expected.
pub open spec fn binding_revision_problem(expected: nat, stored: Option<i64>) -> Option<
    StoreErrorView,
> {
    match stored {
        None => revision_problem(expected, 0),
        Some(stored) => match revision_of(stored) {
            Err(error) => Some(error),
            Ok(actual) => revision_problem(expected, actual),
        },
    }
}

/// Checks that a host's binding has the revision that is expected.
pub fn admit_binding(request: &SetTlsBindingRequest, stored: Option<i64>) -> (r: Result<
    (),
    StoreError,
>)
    ensures
        outcome::problem(r) == binding_revision_problem(
            request.deep_view().expected_revision,
            stored,
        ),
{
    let actual = match stored {
        None => CertificateRevision::zero(),
        Some(stored) => match rev(stored) {
            Ok(actual) => actual,
            Err(error) => return Err(error),
        },
    };
    check_revision(request.expected_revision, actual)
}

/// The metadata of a certificate that is in use.
pub open spec fn active_metadata(row: Option<CertificateRowView>) -> Result<
    CertificateMetadataView,
    StoreErrorView,
> {
    match row {
        None => Err(StoreErrorView::NotFound { resource: "certificate"@ }),
        Some(row) => match metadata_of(row) {
            Err(error) => Err(error),
            Ok(meta) => if meta.state != CertificateState::Active {
                Err(StoreErrorView::NotFound { resource: "active certificate"@ })
            } else {
                Ok(meta)
            },
        },
    }
}

/// The material of a certificate that serves a host now.
pub open spec fn serving_bundle(
    sealer: Option<CertificateSealerView>,
    row: CertificateRowView,
    meta: CertificateMetadataView,
    hostname: Seq<char>,
    observed_at: i64,
) -> Result<CertificateBundleView, StoreErrorView> {
    match sealer {
        None => Err(broken("certificate sealing keys are not configured"@)),
        Some(sealer) => match bundle_of(sealer, row, meta) {
            Err(error) => Err(error),
            Ok(bundle) => match validate::validated(bundle, observed_at) {
                Err(message) => Err(refused(message)),
                Ok(_) => match validate::hostname_problem(
                    bundle.chain_der.len() == 0,
                    validate::is_end_entity(bundle.chain_der[0]),
                    validate::is_server_name(hostname),
                    validate::covers(bundle.chain_der[0], hostname),
                ) {
                    Some(message) => Err(refused(message)),
                    None => Ok(bundle),
                },
            },
        },
    }
}

fn read_serving_bundle(
    sealer: Option<&CertificateSealer>,
    row: &CertificateRow,
    meta: &CertificateMetadata,
    hostname: &TlsHostname,
    observed_at: i64,
) -> (r: Result<CertificateBundle, StoreError>)
    ensures
        outcome::of(r) == serving_bundle(
            sealer.deep_view(),
            row.deep_view(),
            meta.deep_view(),
            hostname@,
            observed_at,
        ),
{
    let sealer = match sealer {
        Some(sealer) => sealer,
        None => return Err(StoreError::internal("certificate sealing keys are not configured")),
    };
    let material = match bundle(sealer, row, meta) {
        Ok(material) => material,
        Err(error) => return Err(error),
    };
    if let Err(error) = validate_certificate(&material, observed_at) {
        return Err(invalid(error));
    }
    if let Err(error) = validate_hostname(material.chain_der(), hostname) {
        return Err(invalid(error));
    }
    Ok(material)
}

/// What keeps a host from being bound to a certificate.
pub open spec fn binding_material_problem(
    sealer: Option<CertificateSealerView>,
    row: Option<CertificateRowView>,
    hostname: Seq<char>,
    observed_at: i64,
) -> Option<StoreErrorView> {
    match active_metadata(row) {
        Err(error) => Some(error),
        Ok(meta) => outcome::err_of(serving_bundle(sealer, row->0, meta, hostname, observed_at)),
    }
}

fn read_active_metadata(row: &Option<CertificateRow>) -> (r: Result<
    CertificateMetadata,
    StoreError,
>)
    ensures
        outcome::of(r) == active_metadata(row.deep_view()),
{
    match row {
        None => Err(StoreError::NotFound { resource: "certificate" }),
        Some(row) => match metadata(row) {
            Err(error) => Err(error),
            Ok(meta) => if meta.state != CertificateState::Active {
                Err(StoreError::NotFound { resource: "active certificate" })
            } else {
                Ok(meta)
            },
        },
    }
}

/// Checks that a certificate is in use and serves a host now.
pub fn check_binding_material(
    sealer: Option<&CertificateSealer>,
    row: &Option<CertificateRow>,
    hostname: &TlsHostname,
    observed_at: i64,
) -> (r: Result<(), StoreError>)
    ensures
        outcome::problem(r) == binding_material_problem(
            sealer.deep_view(),
            row.deep_view(),
            hostname@,
            observed_at,
        ),
{
    let meta = match read_active_metadata(row) {
        Ok(meta) => meta,
        Err(error) => return Err(error),
    };
    match row {
        None => Err(StoreError::NotFound { resource: "certificate" }),
        Some(row) => match read_serving_bundle(sealer, row, &meta, hostname, observed_at) {
            Ok(_) => Ok(()),
            Err(error) => Err(error),
        },
    }
}

/// What is wrong with one more host beside those that are bound to a certificate.
pub open spec fn room_problem(others: i64) -> Option<StoreErrorView> {
    if others >= 1024 {
        Some(refused("certificate exceeds its 1024 binding bound"@))
    } else {
        None
    }
}

/// Checks that a certificate has room for one more host beside those that are
/// bound to it.
pub fn check_binding_room(others: i64) -> (r: Result<(), StoreError>)
    ensures
        outcome::problem(r) == room_problem(others),
{
    if others >= MAX_CERTIFICATE_BINDINGS as i64 {
        return Err(StoreError::invalid_argument("certificate exceeds its 1024 binding bound"));
    }
    Ok(())
}

/// The binding that was set at a revision. It invalidates what was known of the
/// host before.
pub open spec fn bound_at(request: SetTlsBindingRequestView, revision: i64) -> Result<
    TlsBindingView,
    StoreErrorView,
> {
    match revision_of(revision) {
        Err(error) => Err(error),
        Ok(revision) => Ok(
            TlsBindingView {
                hostname: request.hostname,
                certificate_id: request.certificate_id,
                revision,
                last_invalidating_revision: revision,
            },
        ),
    }
}

/// The binding that was set at a revision. It invalidates what was known of the
/// host before.
pub fn bound(request: SetTlsBindingRequest, revision: i64) -> (r: Result<TlsBinding, StoreError>)
    ensures
        outcome::of(r) == bound_at(request.deep_view(), revision),
{
    match rev(revision) {
        Err(error) => Err(error),
        Ok(revision) => Ok(
            TlsBinding {
                hostname: request.hostname,
                certificate_id: request.certificate_id,
                revision,
                last_invalidating_revision: revision,
            },
        ),
    }
}

/// What is left of a certificate that was removed.
pub open spec fn removed_row(
    id: Seq<char>,
    version: nat,
    sealing_revision: nat,
) -> CertificateRowView {
    CertificateRowView {
        certificate_id: id,
        version: version as i64,
        state: "deleted"@,
        not_before_unix_millis: 0,
        not_after_unix_millis: 0,
        dns_names: Seq::empty(),
        leaf_sha256: None,
        chain_der: None,
        seal_format: None,
        seal_key_id: None,
        seal_nonce: None,
        sealed_private_key: None,
        sealing_revision: sealing_revision as i64,
    }
}

/// What a removal writes.
pub open spec fn removal(id: Seq<char>, expected: nat, row: Option<CertificateRowView>) -> Result<
    CertificateRowView,
    StoreErrorView,
> {
    match row {
        None => Err(StoreErrorView::NotFound { resource: "certificate"@ }),
        Some(row) => match metadata_of(row) {
            Err(error) => Err(error),
            Ok(meta) => if revision_problem(expected, meta.version) is Some {
                Err(revision_problem(expected, meta.version)->0)
            } else if meta.state != CertificateState::Active {
                Err(StoreErrorView::NotFound { resource: "active certificate"@ })
            } else {
                match (next_revision(meta.version), next_revision(meta.sealing_revision)) {
                    (Err(error), _) => Err(error),
                    (_, Err(error)) => Err(error),
                    (Ok(version), Ok(sealing_revision)) => Ok(
                        removed_row(id, version, sealing_revision),
                    ),
                }
            },
        },
    }
}

/// Checks that a certificate may be removed, and gives the row to write in its
/// place.
pub fn remove(request: &RemoveCertificateRequest, row: &Option<CertificateRow>) -> (r: Result<
    CertificateRow,
    StoreError,
>)
    ensures
        outcome::of(r) == removal(
            request.deep_view().id,
            request.deep_view().expected_version,
            row.deep_view(),
        ),
{
    let row = match row {
        Some(row) => row,
        None => return Err(StoreError::NotFound { resource: "certificate" }),
    };
    let meta = match metadata(row) {
        Ok(meta) => meta,
        Err(error) => return Err(error),
    };
    if let Err(error) = check_revision(request.expected_version, meta.version) {
        return Err(error);
    }
    if meta.state != CertificateState::Active {
        return Err(StoreError::NotFound { resource: "active certificate" });
    }
    let version = match next(meta.version) {
        Ok(version) => version,
        Err(error) => return Err(error),
    };
    let sealing_revision = match next(meta.sealing_revision) {
        Ok(sealing_revision) => sealing_revision,
        Err(error) => return Err(error),
    };
    let dns_names: Vec<String> = Vec::new();
    assert(dns_names.deep_view() =~= Seq::<Seq<char>>::empty());
    Ok(
        CertificateRow {
            certificate_id: request.id.to_string(),
            version: version.get() as i64,
            state: "deleted".to_owned(),
            not_before_unix_millis: 0,
            not_after_unix_millis: 0,
            dns_names,
            leaf_sha256: None,
            chain_der: None,
            seal_format: None,
            seal_key_id: None,
            seal_nonce: None,
            sealed_private_key: None,
            sealing_revision: sealing_revision.get() as i64,
        },
    )
}

/// The certificate that a host is bound to. Its material is checked in any case,
/// and given unless the revision is known.
pub open spec fn resolution(
    sealer: Option<CertificateSealerView>,
    request: ResolveTlsCertificateRequestView,
    row: TlsCertificateRowView,
) -> Result<TlsCertificateResolutionView, StoreErrorView> {
    match revision_of(
        match row.view_revision {
            Some(revision) => revision,
            None => 0,
        },
    ) {
        Err(error) => Err(error),
        Ok(view_revision) => {
            let found = |value: TlsCertificateValueView|
                TlsCertificateResolutionView {
                    hostname: request.hostname,
                    view_revision,
                    observed_at_unix_millis: row.observed_at,
                    value,
                };
            match row.certificate {
                None => Ok(found(TlsCertificateValueView::Missing)),
                Some(certificate) => match metadata_of(certificate) {
                    Err(error) => Err(error),
                    Ok(metadata) => if metadata.state != CertificateState::Active {
                        Err(broken("TLS binding references a removed certificate"@))
                    } else {
                        match serving_bundle(
                            sealer,
                            certificate,
                            metadata,
                            request.hostname,
                            row.observed_at,
                        ) {
                            Err(error) => Err(error),
                            Ok(bundle) => if request.known_view_revision == Some(view_revision) {
                                Ok(found(TlsCertificateValueView::Unchanged { metadata }))
                            } else {
                                Ok(found(TlsCertificateValueView::Found { metadata, bundle }))
                            },
                        }
                    },
                },
            }
        },
    }
}

/// Finds the certificate that a host is bound to from what is stored for it.
pub fn resolve(
    sealer: Option<&CertificateSealer>,
    request: ResolveTlsCertificateRequest,
    row: &TlsCertificateRow,
) -> (r: Result<TlsCertificateResolution, StoreError>)
    ensures
        outcome::of(r) == resolution(sealer.deep_view(), request.deep_view(), row.deep_view()),
{
    let stored: i64 = match row.view_revision {
        Some(revision) => revision,
        None => 0,
    };
    let view_revision = match rev(stored) {
        Ok(view_revision) => view_revision,
        Err(error) => return Err(error),
    };
    let value = match &row.certificate {
        None => TlsCertificateValue::Missing,
        Some(certificate) => {
            let metadata = match metadata(certificate) {
                Ok(metadata) => metadata,
                Err(error) => return Err(error),
            };
            if metadata.state != CertificateState::Active {
                return Err(StoreError::internal("TLS binding references a removed certificate"));
            }
            let bundle = match read_serving_bundle(
                sealer,
                certificate,
                &metadata,
                &request.hostname,
                row.observed_at,
            ) {
                Ok(bundle) => bundle,
                Err(error) => return Err(error),
            };
            let known = match &request.known_view_revision {
                Some(known) => known.is_same(&view_revision),
                None => false,
            };
            if known {
                TlsCertificateValue::Unchanged { metadata }
            } else {
                TlsCertificateValue::Found { metadata, bundle }
            }
        },
    };
    Ok(
        TlsCertificateResolution {
            hostname: request.hostname,
            view_revision,
            observed_at_unix_millis: row.observed_at,
            value,
        },
    )
}

/// What a new seal has to be made of: the metadata and the material of a
/// certificate in use, of the version and the sealing revision that are expected.
pub open spec fn reencryption_source(
    sealer: Option<CertificateSealerView>,
    request: ReencryptCertificateRequestView,
    row: Option<CertificateRowView>,
) -> Result<(CertificateMetadataView, CertificateBundleView), StoreErrorView> {
    match row {
        None => Err(StoreErrorView::NotFound { resource: "certificate"@ }),
        Some(row) => match metadata_of(row) {
            Err(error) => Err(error),
            Ok(meta) => if revision_problem(request.expected_version, meta.version) is Some {
                Err(revision_problem(request.expected_version, meta.version)->0)
            } else if revision_problem(request.expected_sealing_revision, meta.sealing_revision)
                is Some {
                Err(revision_problem(request.expected_sealing_revision, meta.sealing_revision)->0)
            } else if meta.state != CertificateState::Active {
                Err(StoreErrorView::NotFound { resource: "active certificate"@ })
            } else {
                match sealer {
                    None => Err(broken("certificate sealing keys are not configured"@)),
                    Some(sealer) => match bundle_of(sealer, row, meta) {
                        Err(error) => Err(error),
                        Ok(bundle) => Ok((meta, bundle)),
                    },
                }
            },
        },
    }
}

/// A row with another seal.
pub open spec fn resealed_row(
    row: CertificateRowView,
    sealed: SealedPrivateKeyView,
    sealing_revision: nat,
) -> CertificateRowView {
    CertificateRowView {
        seal_format: Some(sealed.format_version as i16),
        seal_key_id: Some(sealed.key_id),
        seal_nonce: Some(sealed.nonce),
        sealed_private_key: Some(sealed.ciphertext),
        sealing_revision: sealing_revision as i64,
        ..row
    }
}

/// Whether a row is another with its private key sealed anew.
pub open spec fn resealed(
    sealer: CertificateSealerView,
    row: CertificateRowView,
    meta: CertificateMetadataView,
    bundle: CertificateBundleView,
    result: CertificateRowView,
) -> bool {
    &&& result == resealed_row(row, envelope_of(result), meta.sealing_revision + 1)
    &&& seal::sealed_by(
        sealer,
        meta.id,
        meta.version,
        chain_digest_of(bundle.chain_der),
        bundle.private_key_pkcs8_der,
        envelope_of(result),
    )
}

/// Puts a new seal into a row.
pub fn reseal_row(
    row: CertificateRow,
    sealed: SealedPrivateKey,
    sealing_revision: CertificateRevision,
) -> (r: CertificateRow)
    ensures
        r.deep_view() == resealed_row(row.deep_view(), sealed.deep_view(), sealing_revision@),
{
    let nonce = nonce_bytes(&sealed.nonce);
    proof {
        assert(nonce.deep_view() =~= nonce@);
        assert(sealed.ciphertext.deep_view() =~= sealed.ciphertext@);
    }
    CertificateRow {
        certificate_id: row.certificate_id,
        version: row.version,
        state: row.state,
        not_before_unix_millis: row.not_before_unix_millis,
        not_after_unix_millis: row.not_after_unix_millis,
        dns_names: row.dns_names,
        leaf_sha256: row.leaf_sha256,
        chain_der: row.chain_der,
        seal_format: Some(sealed.format_version as i16),
        seal_key_id: Some(sealed.key_id),
        seal_nonce: Some(nonce),
        sealed_private_key: Some(sealed.ciphertext),
        sealing_revision: sealing_revision.get() as i64,
    }
}

/// What comes of a row whose private key was sealed anew, or was not. A row whose
/// sealing revision has no next keeps its seal.
pub open spec fn reseal_outcome(
    row: CertificateRowView,
    sealing_revision: nat,
    sealed: Result<SealedPrivateKeyView, Seq<char>>,
) -> Result<CertificateRowView, StoreErrorView> {
    match sealed {
        Err(message) => Err(broken(message)),
        Ok(sealed) => match next_revision(sealing_revision) {
            Err(error) => Err(error),
            Ok(next) => Ok(resealed_row(row, sealed, next)),
        },
    }
}

/// The row to write once its private key was sealed anew, or why there is none.
pub fn finish_reencryption(
    row: CertificateRow,
    sealing_revision: CertificateRevision,
    sealed: Result<SealedPrivateKey, InvalidCertificateResource>,
) -> (r: Result<CertificateRow, StoreError>)
    ensures
        outcome::of(r) == reseal_outcome(
            row.deep_view(),
            sealing_revision@,
            outcome::of(sealed),
        ),
{
    let sealed = match sealed {
        Ok(sealed) => sealed,
        Err(error) => return Err(StoreError::internal(error.0)),
    };
    let sealing_revision = match next(sealing_revision) {
        Ok(sealing_revision) => sealing_revision,
        Err(error) => return Err(error),
    };
    Ok(reseal_row(row, sealed, sealing_revision))
}

/// Opens the private key of a certificate, seals it with the active key, and
/// gives the row to write.
pub fn reencrypt(
    sealer: Option<&CertificateSealer>,
    request: &ReencryptCertificateRequest,
    row: Option<CertificateRow>,
) -> (r: Result<CertificateRow, StoreError>)
    ensures
        match reencryption_source(sealer.deep_view(), request.deep_view(), row.deep_view()) {
            Err(problem) => r matches Err(error) && error.deep_view() == problem,
            Ok((meta, bundle)) => match r {
                Ok(result) => next_revision(meta.sealing_revision) is Ok && resealed(
                    sealer.deep_view()->0,
                    row.deep_view()->0,
                    meta,
                    bundle,
                    result.deep_view(),
                ),
                Err(error) => is_sealing_failure(
                    sealer.deep_view()->0,
                    meta.id,
                    meta.version,
                    bundle,
                    error.deep_view(),
                ) || next_revision(meta.sealing_revision) == Err::<nat, StoreErrorView>(
                    error.deep_view(),
                ),
            },
        },
{
    let row = match row {
        Some(row) => row,
        None => return Err(StoreError::NotFound { resource: "certificate" }),
    };
    let meta = match metadata(&row) {
        Ok(meta) => meta,
        Err(error) => return Err(error),
    };
    if let Err(error) = check_revision(request.expected_version, meta.version) {
        return Err(error);
    }
    if let Err(error) = check_revision(request.expected_sealing_revision, meta.sealing_revision) {
        return Err(error);
    }
    if meta.state != CertificateState::Active {
        return Err(StoreError::NotFound { resource: "active certificate" });
    }
    let sealer = match sealer {
        Some(sealer) => sealer,
        None => return Err(StoreError::internal("certificate sealing keys are not configured")),
    };
    let material = match bundle(sealer, &row, &meta) {
        Ok(material) => material,
        Err(error) => return Err(error),
    };
    let digest = chain_digest(material.chain_der());
    let key = material.private_key_pkcs8_der();
    let sealed = sealer.seal(&meta.id, meta.version, digest.as_slice(), key.as_slice());
    let ghost sealed_view = outcome::of(sealed);
    let result = finish_reencryption(row, meta.sealing_revision, sealed);
    assert(result matches Ok(row) ==> envelope_of(row.deep_view()) =~= sealed_view->Ok_0);
    result
}

/// Checks how many hosts are asked for at once.
pub fn check_snapshot_size(hostnames: &Vec<TlsHostname>) -> (r: Result<(), StoreError>)
    ensures
        outcome::problem(r) == if hostnames@.len() > 1024 {
            Some(refused("TLS interests exceed 1024 hosts"@))
        } else {
            None
        },
{
    if hostnames.len() > MAX_CERTIFICATE_BINDINGS {
        return Err(StoreError::invalid_argument("TLS interests exceed 1024 hosts"));
    }
    Ok(())
}

/// A binding from its JSON object.
pub open spec fn snapshot_binding(value: Json) -> Result<TlsBindingView, StoreErrorView> {
    let hostname = json::json_text(json::json_member(value, "hostname"@));
    let id = json::json_text(json::json_member(value, "certificate_id"@));
    let revision = json::json_integer(json::json_member(value, "revision"@));
    let last = json::json_integer(json::json_member(value, "last_invalidating_revision"@));
    if hostname is None {
        Err(broken("invalid TLS snapshot hostname"@))
    } else if !certificate::names_host(hostname->0) {
        Err(refused("invalid TLS hostname"@))
    } else if id matches Some(id) && text::is_blank(id) {
        Err(refused("certificate ID must not be empty"@))
    } else if revision is None {
        Err(broken("invalid TLS snapshot revision"@))
    } else if revision_of(revision->0) is Err {
        Err(revision_of(revision->0)->Err_0)
    } else if last is None {
        Err(broken("invalid TLS invalidating revision"@))
    } else if revision_of(last->0) is Err {
        Err(revision_of(last->0)->Err_0)
    } else {
        Ok(
            TlsBindingView {
                hostname: certificate::canonical_name(hostname->0),
                certificate_id: id,
                revision: revision->0 as nat,
                last_invalidating_revision: last->0 as nat,
            },
        )
    }
}

fn read_snapshot_binding(value: &serde_json::Value) -> (r: Result<TlsBinding, StoreError>)
    ensures
        outcome::of(r) == snapshot_binding(json::json_of(*value)),
{
    let hostname = match json::text_member(value, "hostname") {
        Some(hostname) => hostname,
        None => return Err(StoreError::internal("invalid TLS snapshot hostname")),
    };
    let hostname = match TlsHostname::new(hostname) {
        Ok(hostname) => hostname,
        Err(error) => return Err(invalid(error)),
    };
    let certificate_id = match json::text_member(value, "certificate_id") {
        None => None,
        Some(id) => match CertificateId::new(id) {
            Ok(id) => Some(id),
            Err(error) => return Err(invalid(error)),
        },
    };
    let revision = match json::integer_member(value, "revision") {
        None => return Err(StoreError::internal("invalid TLS snapshot revision")),
        Some(revision) => match rev(revision) {
            Ok(revision) => revision,
            Err(error) => return Err(error),
        },
    };
    let last_invalidating_revision = match json::integer_member(
        value,
        "last_invalidating_revision",
    ) {
        None => return Err(StoreError::internal("invalid TLS invalidating revision")),
        Some(revision) => match rev(revision) {
            Ok(revision) => revision,
            Err(error) => return Err(error),
        },
    };
    Ok(TlsBinding { hostname, certificate_id, revision, last_invalidating_revision })
}

/// The problem of each of several bindings.
pub open spec fn snapshot_problems(values: Seq<Json>) -> Seq<Option<StoreErrorView>> {
    Seq::new(values.len(), |i: int| outcome::err_of(snapshot_binding(values[i])))
}

/// The bindings of a snapshot.
pub open spec fn snapshot_bindings(values: Seq<Json>) -> Seq<TlsBindingView> {
    Seq::new(values.len(), |i: int| snapshot_binding(values[i])->Ok_0)
}

/// A snapshot from its JSON array; none where the revision is known.
pub open spec fn snapshot_of(revision: i64, bindings: Option<Json>) -> Result<
    Option<TlsBindingSnapshotView>,
    StoreErrorView,
> {
    match bindings {
        None => Ok(None),
        Some(Json::Array(values)) => match outcome::first_problem(snapshot_problems(values), 0) {
            Some(error) => Err(error),
            None => match revision_of(revision) {
                Err(error) => Err(error),
                Ok(revision) => Ok(
                    Some(
                        TlsBindingSnapshotView { revision, bindings: snapshot_bindings(values) },
                    ),
                ),
            },
        },
        Some(_) => Err(broken("invalid TLS snapshot"@)),
    }
}

/// What a JSON value holds, where there is one.
pub open spec fn optional_json(value: Option<serde_json::Value>) -> Option<Json> {
    match value {
        Some(value) => Some(json::json_of(value)),
        None => None,
    }
}

fn read_snapshot_bindings(values: &Vec<serde_json::Value>) -> (r: Result<
    Vec<TlsBinding>,
    StoreError,
>)
    ensures
        ({
            let items = Seq::new(values@.len(), |i: int| json::json_of(values@[i]));
            outcome::of(r) == outcome::checked(
                outcome::first_problem(snapshot_problems(items), 0),
                snapshot_bindings(items),
            )
        }),
{
    let ghost items = Seq::new(values@.len(), |i: int| json::json_of(values@[i]));
    let ghost problems = snapshot_problems(items);
    let ghost all = snapshot_bindings(items);
    let mut bindings: Vec<TlsBinding> = Vec::new();
    let mut i: usize = 0;
    assert(bindings.deep_view() =~= all.take(0));
    while i < values.len()
        invariant
            0 <= i <= values.len(),
            items == Seq::new(values@.len(), |i: int| json::json_of(values@[i])),
            problems == snapshot_problems(items),
            all == snapshot_bindings(items),
            bindings.deep_view() == all.take(i as int),
            forall|j: int| 0 <= j < i ==> (#[trigger] problems[j]) is None,
        decreases values.len() - i,
    {
        let ghost before = bindings.deep_view();
        proof {
            assert(items[i as int] == json::json_of(values@[i as int]));
            assert(problems[i as int] == outcome::err_of(snapshot_binding(items[i as int])));
            outcome::lemma_first_problem(problems, 0, i as int);
        }
        match read_snapshot_binding(&values[i]) {
            Err(error) => return Err(error),
            Ok(binding) => {
                bindings.push(binding);
                assert(bindings.deep_view() =~= before.push(binding.deep_view()));
                assert(all.take(i + 1) =~= all.take(i as int).push(all[i as int]));
            },
        }
        i = i + 1;
    }
    proof {
        outcome::lemma_first_problem(problems, 0, i as int);
        assert(all.take(i as int) =~= all);
    }
    Ok(bindings)
}

/// A snapshot from what is stored: the revision of all bindings and, where that is
/// not known, a JSON array with the bindings of the hosts that were asked for.
pub fn snapshot(revision: i64, bindings: &Option<serde_json::Value>) -> (r: Result<
    Option<TlsBindingSnapshot>,
    StoreError,
>)
    ensures
        outcome::of(r) == snapshot_of(revision, optional_json(*bindings)),
{
    let values = match bindings {
        Some(values) => values,
        None => return Ok(None),
    };
    let values = match json::items_of(values) {
        Some(values) => values,
        None => return Err(StoreError::internal("invalid TLS snapshot")),
    };
    let bindings = match read_snapshot_bindings(values) {
        Ok(bindings) => bindings,
        Err(error) => return Err(error),
    };
    match rev(revision) {
        Err(error) => Err(error),
        Ok(revision) => Ok(Some(TlsBindingSnapshot { revision, bindings })),
    }
}

/// A host's binding as it is stored, with the host.
#[derive(Debug, PartialEq, Eq)]
pub struct TlsChangeRow {
    pub hostname: String,
    pub binding: TlsBindingRow,
}

/// What a [`TlsChangeRow`] holds.
#[verifier::ext_equal]
pub struct TlsChangeRowView {
    pub hostname: Seq<char>,
    pub binding: TlsBindingRowView,
}

impl DeepView for TlsChangeRow {
    type V = TlsChangeRowView;

    open spec fn deep_view(&self) -> TlsChangeRowView {
        TlsChangeRowView {
            hostname: self.hostname.deep_view(),
            binding: self.binding.deep_view(),
        }
    }
}

/// How a host changed last, by its binding: one that did not invalidate what was
/// known of it was published anew.
pub open spec fn change_kind(binding: TlsBindingView) -> TlsCertificateChangeKind {
    if binding.revision != binding.last_invalidating_revision {
        TlsCertificateChangeKind::Published
    } else if binding.certificate_id is Some {
        TlsCertificateChangeKind::Bound
    } else {
        TlsCertificateChangeKind::Removed
    }
}

/// The change of a host by its binding.
pub open spec fn change_of(row: TlsChangeRowView) -> Result<
    TlsCertificateChangeView,
    StoreErrorView,
> {
    if !certificate::names_host(row.hostname) {
        Err(refused("invalid TLS hostname"@))
    } else {
        match binding_of(certificate::canonical_name(row.hostname), Some(row.binding)) {
            Err(error) => Err(error),
            Ok(binding) => Ok(
                TlsCertificateChangeView {
                    hostname: Some(binding.hostname),
                    revision: binding.revision,
                    certificate_id: binding.certificate_id,
                    kind: change_kind(binding),
                },
            ),
        }
    }
}

fn read_change(row: &TlsChangeRow) -> (r: Result<TlsCertificateChange, StoreError>)
    ensures
        outcome::of(r) == change_of(row.deep_view()),
{
    let hostname = match TlsHostname::new(row.hostname.as_str()) {
        Ok(hostname) => hostname,
        Err(error) => return Err(invalid(error)),
    };
    let binding = match read_binding(hostname, &row.binding) {
        Ok(binding) => binding,
        Err(error) => return Err(error),
    };
    let kind = if !binding.revision.is_same(&binding.last_invalidating_revision) {
        TlsCertificateChangeKind::Published
    } else if binding.certificate_id.is_some() {
        TlsCertificateChangeKind::Bound
    } else {
        TlsCertificateChangeKind::Removed
    };
    Ok(
        TlsCertificateChange {
            hostname: Some(binding.hostname),
            revision: binding.revision,
            certificate_id: binding.certificate_id,
            kind,
        },
    )
}

/// The problem of each of several changes.
pub open spec fn change_problems(rows: Seq<TlsChangeRowView>) -> Seq<Option<StoreErrorView>> {
    Seq::new(rows.len(), |i: int| outcome::err_of(change_of(rows[i])))
}

/// The changes of hosts.
pub open spec fn changes_of(rows: Seq<TlsChangeRowView>) -> Seq<TlsCertificateChangeView> {
    Seq::new(rows.len(), |i: int| change_of(rows[i])->Ok_0)
}

/// What changed behind a revision, up to the revision of the last change.
pub open spec fn change_page_of(after: nat, rows: Seq<TlsChangeRowView>) -> Result<
    TlsCertificateChangePageView,
    StoreErrorView,
> {
    match outcome::first_problem(change_problems(rows), 0) {
        Some(error) => Err(error),
        None => Ok(
            TlsCertificateChangePageView {
                cursor: if rows.len() == 0 {
                    after
                } else {
                    changes_of(rows).last().revision
                },
                reset: false,
                events: changes_of(rows),
            },
        ),
    }
}

/// What changed behind a revision, from the bindings that are stored with higher
/// ones, the lowest first.
pub fn change_page(after: CertificateRevision, rows: &Vec<TlsChangeRow>) -> (r: Result<
    TlsCertificateChangePage,
    StoreError,
>)
    ensures
        outcome::of(r) == change_page_of(after@, rows.deep_view()),
{
    let ghost view = rows.deep_view();
    let ghost problems = change_problems(view);
    let ghost all = changes_of(view);
    let mut events: Vec<TlsCertificateChange> = Vec::new();
    let mut cursor = after;
    let mut i: usize = 0;
    assert(events.deep_view() =~= all.take(0));
    while i < rows.len()
        invariant
            0 <= i <= rows.len(),
            view == rows.deep_view(),
            problems == change_problems(view),
            all == changes_of(view),
            events.deep_view() == all.take(i as int),
            cursor@ == if i == 0 {
                after@
            } else {
                all[i - 1].revision
            },
            forall|j: int| 0 <= j < i ==> (#[trigger] problems[j]) is None,
        decreases rows.len() - i,
    {
        let ghost before = events.deep_view();
        proof {
            assert(view[i as int] == rows@[i as int].deep_view());
            assert(problems[i as int] == outcome::err_of(change_of(view[i as int])));
            outcome::lemma_first_problem(problems, 0, i as int);
        }
        let change = match read_change(&rows[i]) {
            Ok(change) => change,
            Err(error) => return Err(error),
        };
        cursor = change.revision;
        events.push(change);
        proof {
            assert(events.deep_view() =~= before.push(change.deep_view()));
            assert(all.take(i + 1) =~= all.take(i as int).push(all[i as int]));
        }
        i = i + 1;
    }
    proof {
        outcome::lemma_first_problem(problems, 0, i as int);
        assert(all.take(i as int) =~= all);
    }
    Ok(TlsCertificateChangePage { cursor, reset: false, events })
}

/// What a publication writes is read back as the next version, in use, and opened
/// as the material that was published, by every ring that still has the key.
pub proof fn lemma_published_material_is_read_back(
    sealer: CertificateSealerView,
    reader: CertificateSealerView,
    request: PublishCertificateRequestView,
    old: Option<CertificateMetadataView>,
    observed_at: i64,
    hosts: Seq<Seq<char>>,
    row: CertificateRowView,
)
    requires
        publish_problem(Some(sealer), request, old, observed_at, hosts) is None,
        published(sealer, request, old, observed_at, row),
        !text::is_blank(request.id),
        certificate::digestible(request.bundle.chain_der),
        seal::key_named(reader.keys, sealer.active_id) is Some,
        seal::key_named(reader.keys, sealer.active_id)->0.bytes == sealer.active_key(),
    ensures
        metadata_of(row) matches Ok(meta) && {
            &&& meta.id == request.id
            &&& meta.version == request.expected_version + 1
            &&& meta.state == CertificateState::Active
            &&& meta.sealing_key_id == Some(sealer.active_id)
            &&& bundle_of(reader, row, meta) == Ok::<CertificateBundleView, StoreErrorView>(
                request.bundle,
            )
        },
{
    let meta = metadata_of(row)->Ok_0;
    reveal_strlit("active");
    reveal_strlit("deleted");
    seal::lemma_open_undoes_seal(
        sealer,
        reader,
        request.id,
        request.expected_version + 1,
        chain_digest_of(request.bundle.chain_der),
        request.bundle.private_key_pkcs8_der,
        envelope_of(row),
    );
    assert(SealedPrivateKeyView { key_id: meta.sealing_key_id->0, ..envelope_of(row) }
        =~= envelope_of(row));
}

/// Sealing anew changes neither the version nor the material, and the sealing
/// revision goes up by one.
pub proof fn lemma_reencryption_keeps_the_material(
    sealer: CertificateSealerView,
    reader: CertificateSealerView,
    request: ReencryptCertificateRequestView,
    row: CertificateRowView,
    result: CertificateRowView,
)
    requires
        reencryption_source(Some(sealer), request, Some(row)) is Ok,
        next_revision(metadata_of(row)->Ok_0.sealing_revision) is Ok,
        resealed(
            sealer,
            row,
            metadata_of(row)->Ok_0,
            bundle_of(sealer, row, metadata_of(row)->Ok_0)->Ok_0,
            result,
        ),
        seal::key_named(reader.keys, sealer.active_id) is Some,
        seal::key_named(reader.keys, sealer.active_id)->0.bytes == sealer.active_key(),
    ensures
        metadata_of(result) == Ok::<CertificateMetadataView, StoreErrorView>(
            CertificateMetadataView {
                sealing_key_id: Some(sealer.active_id),
                sealing_revision: metadata_of(row)->Ok_0.sealing_revision + 1,
                ..metadata_of(row)->Ok_0
            },
        ),
        bundle_of(reader, result, metadata_of(result)->Ok_0) == bundle_of(
            sealer,
            row,
            metadata_of(row)->Ok_0,
        ),
{
    let meta = metadata_of(row)->Ok_0;
    let bundle = bundle_of(sealer, row, meta)->Ok_0;
    seal::lemma_open_undoes_seal(
        sealer,
        reader,
        meta.id,
        meta.version,
        chain_digest_of(bundle.chain_der),
        bundle.private_key_pkcs8_der,
        envelope_of(result),
    );
    let resealed_meta = metadata_of(result)->Ok_0;
    assert(SealedPrivateKeyView { key_id: resealed_meta.sealing_key_id->0, ..envelope_of(result) }
        =~= envelope_of(result));
}

/// Under the ID of a certificate that was removed nothing is published again, and
/// nothing of its material is left.
pub proof fn lemma_removed_certificate_stays_retired(
    id: Seq<char>,
    expected: nat,
    row: CertificateRowView,
    later: nat,
)
    requires
        removal(id, expected, Some(row)) is Ok,
        id == row.certificate_id,
    ensures
        publish_admission(later, Some(removal(id, expected, Some(row))->Ok_0)) is Err,
        active_metadata(Some(removal(id, expected, Some(row))->Ok_0)) is Err,
        metadata_of(removal(id, expected, Some(row))->Ok_0) matches Ok(meta) && meta.version
            == expected + 1 && meta.state == CertificateState::Deleted,
        removal(id, expected, Some(row))->Ok_0.chain_der is None,
        removal(id, expected, Some(row))->Ok_0.sealed_private_key is None,
{
    reveal_strlit("active");
    reveal_strlit("deleted");
    assert("active"@.len() != "deleted"@.len());
}

} // verus!
