//! The messages of the certificate API. No error says anything of what a request
//! holds.
use tonic::metadata::MetadataMap;
use vstd::prelude::*;

use super::pb;
use super::status;
use super::status::ApiStatus;
use super::status::ApiStatusView;
use super::status::StatusCode;
use crate::auth;
use crate::auth::CallerRole;
use crate::auth::HeaderText;
use crate::auth::HeaderTextView;
use crate::certificate;
use crate::certificate::CertificateBundle;
use crate::certificate::CertificateBundleView;
use crate::certificate::CertificateId;
use crate::certificate::CertificateMetadata;
use crate::certificate::CertificateMetadataView;
use crate::certificate::CertificateRevision;
use crate::certificate::CertificateState;
use crate::certificate::PublishCertificateRequest;
use crate::certificate::PublishCertificateRequestView;
use crate::certificate::ReencryptCertificateRequest;
use crate::certificate::ReencryptCertificateRequestView;
use crate::certificate::RemoveCertificateRequest;
use crate::certificate::RemoveCertificateRequestView;
use crate::certificate::ResolveTlsCertificateRequest;
use crate::certificate::ResolveTlsCertificateRequestView;
use crate::certificate::SetTlsBindingRequest;
use crate::certificate::SetTlsBindingRequestView;
use crate::certificate::TlsBinding;
use crate::certificate::TlsBindingView;
use crate::certificate::TlsCertificateResolution;
use crate::certificate::TlsCertificateResolutionView;
use crate::certificate::TlsCertificateValue;
use crate::certificate::TlsCertificateValueView;
use crate::certificate::TlsHostname;
use crate::outcome;
use crate::store::StoreError;
use crate::store::StoreErrorView;
use crate::text;

verus! {

/// Whether a content type is that of native gRPC.
pub open spec fn is_native(content_type: HeaderTextView) -> bool {
    match content_type {
        HeaderTextView::Text(text) => text == "application/grpc"@ || text
            == "application/grpc+proto"@,
        _ => false,
    }
}

/// What keeps a call from the certificate API: it has to come over TLS, by native
/// gRPC, from a caller of the role.
pub open spec fn secure_problem(
    tls: bool,
    content_type: HeaderTextView,
    caller: Option<CallerRole>,
    required: CallerRole,
) -> Option<ApiStatusView> {
    if !tls || !is_native(content_type) {
        Some(
            status::failure(
                StatusCode::PermissionDenied,
                "certificate operations require native TLS"@,
            ),
        )
    } else if caller != Some(required) {
        Some(
            status::failure(
                StatusCode::PermissionDenied,
                "certificate operations require authenticated role credentials"@,
            ),
        )
    } else {
        None
    }
}

/// Checks that a call may use the certificate API, by its content type.
pub fn check_secure(
    tls: bool,
    content_type: &HeaderText,
    caller: Option<CallerRole>,
    required: CallerRole,
) -> (r: Result<(), ApiStatus>)
    ensures
        outcome::problem(r) == secure_problem(tls, content_type.deep_view(), caller, required),
{
    let native = match content_type {
        HeaderText::Text(text) => text::same(text.as_str(), "application/grpc") || text::same(
            text.as_str(),
            "application/grpc+proto",
        ),
        _ => false,
    };
    if !tls || !native {
        return Err(
            ApiStatus::new(
                StatusCode::PermissionDenied,
                "certificate operations require native TLS",
            ),
        );
    }
    let authenticated = match caller {
        Some(caller) => caller == required,
        None => false,
    };
    if !authenticated {
        return Err(
            ApiStatus::new(
                StatusCode::PermissionDenied,
                "certificate operations require authenticated role credentials",
            ),
        );
    }
    Ok(())
}

/// Checks that a call may use the certificate API, by its metadata.
pub fn require_secure(
    tls: bool,
    metadata: &MetadataMap,
    caller: Option<CallerRole>,
    required: CallerRole,
) -> (r: Result<(), ApiStatus>)
    ensures
        outcome::problem(r) == secure_problem(
            tls,
            auth::header_of(*metadata, "content-type"@),
            caller,
            required,
        ),
{
    check_secure(tls, &auth::header_text(metadata, "content-type"), caller, required)
}

/// What is said of every certificate, host and revision that is not accepted.
pub open spec fn invalid_resource() -> ApiStatusView {
    status::invalid_argument("invalid certificate resource"@)
}

fn invalid() -> (r: ApiStatus)
    ensures
        r.deep_view() == invalid_resource(),
{
    ApiStatus::invalid_argument("invalid certificate resource")
}

/// A revision that has to be given.
pub open spec fn required(value: Option<u64>) -> Result<nat, ApiStatusView> {
    match value {
        None => Err(status::invalid_argument("expected revision is required"@)),
        Some(value) => if value <= i64::MAX {
            Ok(value as nat)
        } else {
            Err(invalid_resource())
        },
    }
}

fn required_revision(value: Option<u64>) -> (r: Result<CertificateRevision, ApiStatus>)
    ensures
        outcome::of(r) == required(value),
{
    match value {
        None => Err(ApiStatus::invalid_argument("expected revision is required")),
        Some(value) => match CertificateRevision::new(value) {
            Ok(revision) => Ok(revision),
            Err(_) => Err(invalid()),
        },
    }
}

fn certificate_id(value: &str) -> (r: Result<CertificateId, ApiStatus>)
    ensures
        outcome::of(r) == if text::is_blank(value@) {
            Err(invalid_resource())
        } else {
            Ok(value@)
        },
{
    match CertificateId::new(value) {
        Ok(id) => Ok(id),
        Err(_) => Err(invalid()),
    }
}

fn hostname(value: &str) -> (r: Result<TlsHostname, ApiStatus>)
    ensures
        outcome::of(r) == if certificate::names_host(value@) {
            Ok(certificate::canonical_name(value@))
        } else {
            Err(invalid_resource())
        },
{
    match TlsHostname::new(value) {
        Ok(hostname) => Ok(hostname),
        Err(_) => Err(invalid()),
    }
}

/// How a failure of the store is told.
pub open spec fn store_status(error: StoreErrorView) -> ApiStatusView {
    match error {
        StoreErrorView::InvalidArgument { message } => status::invalid_argument(
            "certificate validation failed"@,
        ),
        StoreErrorView::NotFound { resource } => status::failure(
            StatusCode::NotFound,
            "certificate not found"@,
        ),
        StoreErrorView::AlreadyExists { resource } => status::failure(
            StatusCode::AlreadyExists,
            "certificate identity is retired"@,
        ),
        StoreErrorView::GenerationConflict { expected, actual } => status::failure(
            StatusCode::FailedPrecondition,
            "certificate revision conflict: expected "@ + text::decimal(expected) + ", actual "@
                + text::decimal(actual),
        ),
        StoreErrorView::Unavailable { message } => status::failure(
            StatusCode::Unavailable,
            "certificate storage unavailable"@,
        ),
        _ => status::failure(StatusCode::Internal, "certificate operation failed"@),
    }
}

/// Whether two failures of the store are of one kind, and of the same revisions if they
/// are conflicts.
pub open spec fn same_failure(a: StoreErrorView, b: StoreErrorView) -> bool {
    match (a, b) {
        (StoreErrorView::InvalidArgument { .. }, StoreErrorView::InvalidArgument { .. }) => true,
        (StoreErrorView::NotFound { .. }, StoreErrorView::NotFound { .. }) => true,
        (StoreErrorView::AlreadyExists { .. }, StoreErrorView::AlreadyExists { .. }) => true,
        (StoreErrorView::Unavailable { .. }, StoreErrorView::Unavailable { .. }) => true,
        (StoreErrorView::Internal { .. }, StoreErrorView::Internal { .. }) => true,
        _ => a == b,
    }
}

/// A failure is told by its kind, and by the revisions of a conflict, alone: whatever
/// else the store says of the request or of the material is not passed on.
pub proof fn lemma_failures_tell_no_material(a: StoreErrorView, b: StoreErrorView)
    requires
        same_failure(a, b),
    ensures
        store_status(a) == store_status(b),
{
}

/// How a failure of the store is told.
pub fn store_error(error: &StoreError) -> (r: ApiStatus)
    ensures
        r.deep_view() == store_status(error.deep_view()),
{
    match error {
        StoreError::InvalidArgument { .. } => ApiStatus::invalid_argument(
            "certificate validation failed",
        ),
        StoreError::NotFound { .. } => ApiStatus::new(
            StatusCode::NotFound,
            "certificate not found",
        ),
        StoreError::AlreadyExists { .. } => ApiStatus::new(
            StatusCode::AlreadyExists,
            "certificate identity is retired",
        ),
        StoreError::GenerationConflict { expected, actual } => {
            let message = text::join4(
                "certificate revision conflict: expected ",
                text::number(expected.get()).as_str(),
                ", actual ",
                text::number(actual.get()).as_str(),
            );
            ApiStatus::new(StatusCode::FailedPrecondition, message.as_str())
        },
        StoreError::Unavailable { .. } => ApiStatus::new(
            StatusCode::Unavailable,
            "certificate storage unavailable",
        ),
        _ => ApiStatus::new(StatusCode::Internal, "certificate operation failed"),
    }
}

/// The message of a certificate's metadata.
pub open spec fn metadata_message(m: CertificateMetadataView) -> pb::CertificateMetadataView {
    pb::CertificateMetadataView {
        certificate_id: m.id,
        version: m.version as u64,
        deleted: m.state == CertificateState::Deleted,
        not_before_unix_millis: m.not_before_unix_millis,
        not_after_unix_millis: m.not_after_unix_millis,
        dns_names: m.dns_names,
        leaf_sha256: m.leaf_sha256,
        sealing_key_id: m.sealing_key_id,
        sealing_revision: m.sealing_revision as u64,
    }
}

/// The message of a certificate's metadata.
pub fn metadata(m: CertificateMetadata) -> (r: pb::CertificateMetadata)
    ensures
        r.deep_view() == metadata_message(m.deep_view()),
{
    pb::CertificateMetadata {
        certificate_id: m.id.to_string(),
        version: m.version.get(),
        deleted: m.state == CertificateState::Deleted,
        not_before_unix_millis: m.not_before_unix_millis,
        not_after_unix_millis: m.not_after_unix_millis,
        dns_names: m.dns_names,
        leaf_sha256: m.leaf_sha256,
        sealing_key_id: m.sealing_key_id,
        sealing_revision: m.sealing_revision.get(),
    }
}

/// The message of metadata that may not be there.
pub fn found_metadata(m: Option<CertificateMetadata>) -> (r: Result<
    pb::CertificateMetadata,
    ApiStatus,
>)
    ensures
        outcome::of(r) == match m.deep_view() {
            Some(m) => Ok(metadata_message(m)),
            None => Err(status::failure(StatusCode::NotFound, "certificate not found"@)),
        },
{
    match m {
        Some(m) => Ok(metadata(m)),
        None => Err(ApiStatus::new(StatusCode::NotFound, "certificate not found")),
    }
}

/// The message of a binding.
pub open spec fn binding_message(b: TlsBindingView) -> pb::TlsBindingView {
    pb::TlsBindingView {
        hostname: b.hostname,
        certificate_id: b.certificate_id,
        revision: b.revision as u64,
    }
}

/// The message of a binding.
pub fn binding(b: &TlsBinding) -> (r: pb::TlsBinding)
    ensures
        r.deep_view() == binding_message(b.deep_view()),
{
    pb::TlsBinding {
        hostname: b.hostname.to_string(),
        certificate_id: match &b.certificate_id {
            Some(id) => Some(id.to_string()),
            None => None,
        },
        revision: b.revision.get(),
    }
}

/// What a request to publish asks for.
pub open spec fn publish_request(request: pb::PublishCertificateRequestView) -> Result<
    PublishCertificateRequestView,
    ApiStatusView,
> {
    match request.bundle {
        None => Err(status::invalid_argument("bundle is required"@)),
        Some(bundle) => if !certificate::digestible(bundle.chain_der) || text::is_blank(
            request.certificate_id,
        ) {
            Err(invalid_resource())
        } else {
            match required(request.expected_version) {
                Err(error) => Err(error),
                Ok(expected_version) => Ok(
                    PublishCertificateRequestView {
                        id: request.certificate_id,
                        expected_version,
                        bundle: CertificateBundleView {
                            chain_der: bundle.chain_der,
                            private_key_pkcs8_der: bundle.private_key_pkcs8_der,
                        },
                    },
                ),
            }
        },
    }
}

/// What a request to publish asks for.
pub fn publish_request_from_proto(request: pb::PublishCertificateRequest) -> (r: Result<
    PublishCertificateRequest,
    ApiStatus,
>)
    ensures
        outcome::of(r) == publish_request(request.deep_view()),
{
    let bundle = match request.bundle {
        Some(bundle) => bundle,
        None => return Err(ApiStatus::invalid_argument("bundle is required")),
    };
    assert(bundle.private_key_pkcs8_der.deep_view() =~= bundle.private_key_pkcs8_der@);
    let bundle = match CertificateBundle::new(bundle.chain_der, bundle.private_key_pkcs8_der) {
        Ok(bundle) => bundle,
        Err(_) => return Err(invalid()),
    };
    let id = match certificate_id(request.certificate_id.as_str()) {
        Ok(id) => id,
        Err(error) => return Err(error),
    };
    let expected_version = match required_revision(request.expected_version) {
        Ok(expected_version) => expected_version,
        Err(error) => return Err(error),
    };
    Ok(PublishCertificateRequest { id, expected_version, bundle })
}

/// The ID that a request for metadata names.
pub fn metadata_request_from_proto(request: &pb::GetCertificateMetadataRequest) -> (r: Result<
    CertificateId,
    ApiStatus,
>)
    ensures
        outcome::of(r) == if text::is_blank(request.deep_view().certificate_id) {
            Err(invalid_resource())
        } else {
            Ok(request.deep_view().certificate_id)
        },
{
    certificate_id(request.certificate_id.as_str())
}

/// The host that a request for a binding names.
pub fn binding_request_from_proto(request: &pb::GetTlsBindingRequest) -> (r: Result<
    TlsHostname,
    ApiStatus,
>)
    ensures
        outcome::of(r) == if certificate::names_host(request.deep_view().hostname) {
            Ok(certificate::canonical_name(request.deep_view().hostname))
        } else {
            Err(invalid_resource())
        },
{
    hostname(request.hostname.as_str())
}

/// What a request to bind a host asks for.
pub open spec fn set_binding_request(request: pb::SetTlsBindingRequestView) -> Result<
    SetTlsBindingRequestView,
    ApiStatusView,
> {
    if !certificate::names_host(request.hostname) {
        Err(invalid_resource())
    } else {
        match required(request.expected_revision) {
            Err(error) => Err(error),
            Ok(expected_revision) => if request.certificate_id matches Some(id)
                && text::is_blank(id) {
                Err(invalid_resource())
            } else {
                Ok(
                    SetTlsBindingRequestView {
                        hostname: certificate::canonical_name(request.hostname),
                        expected_revision,
                        certificate_id: request.certificate_id,
                    },
                )
            },
        }
    }
}

/// What a request to bind a host asks for.
pub fn set_binding_request_from_proto(request: &pb::SetTlsBindingRequest) -> (r: Result<
    SetTlsBindingRequest,
    ApiStatus,
>)
    ensures
        outcome::of(r) == set_binding_request(request.deep_view()),
{
    let hostname = match hostname(request.hostname.as_str()) {
        Ok(hostname) => hostname,
        Err(error) => return Err(error),
    };
    let expected_revision = match required_revision(request.expected_revision) {
        Ok(expected_revision) => expected_revision,
        Err(error) => return Err(error),
    };
    let certificate_id = match &request.certificate_id {
        None => None,
        Some(id) => match certificate_id(id.as_str()) {
            Ok(id) => Some(id),
            Err(error) => return Err(error),
        },
    };
    Ok(SetTlsBindingRequest { hostname, expected_revision, certificate_id })
}

/// What a request to remove a certificate asks for.
pub open spec fn remove_request(request: pb::RemoveCertificateRequestView) -> Result<
    RemoveCertificateRequestView,
    ApiStatusView,
> {
    if text::is_blank(request.certificate_id) {
        Err(invalid_resource())
    } else {
        match required(request.expected_version) {
            Err(error) => Err(error),
            Ok(expected_version) => Ok(
                RemoveCertificateRequestView { id: request.certificate_id, expected_version },
            ),
        }
    }
}

/// What a request to remove a certificate asks for.
pub fn remove_request_from_proto(request: &pb::RemoveCertificateRequest) -> (r: Result<
    RemoveCertificateRequest,
    ApiStatus,
>)
    ensures
        outcome::of(r) == remove_request(request.deep_view()),
{
    let id = match certificate_id(request.certificate_id.as_str()) {
        Ok(id) => id,
        Err(error) => return Err(error),
    };
    match required_revision(request.expected_version) {
        Ok(expected_version) => Ok(RemoveCertificateRequest { id, expected_version }),
        Err(error) => Err(error),
    }
}

/// What a request to seal anew asks for.
pub open spec fn reencrypt_request(request: pb::ReencryptCertificateRequestView) -> Result<
    ReencryptCertificateRequestView,
    ApiStatusView,
> {
    if text::is_blank(request.certificate_id) {
        Err(invalid_resource())
    } else {
        match (required(request.expected_version), required(request.expected_sealing_revision)) {
            (Err(error), _) => Err(error),
            (_, Err(error)) => Err(error),
            (Ok(expected_version), Ok(expected_sealing_revision)) => Ok(
                ReencryptCertificateRequestView {
                    id: request.certificate_id,
                    expected_version,
                    expected_sealing_revision,
                },
            ),
        }
    }
}

/// What a request to seal anew asks for.
pub fn reencrypt_request_from_proto(request: &pb::ReencryptCertificateRequest) -> (r: Result<
    ReencryptCertificateRequest,
    ApiStatus,
>)
    ensures
        outcome::of(r) == reencrypt_request(request.deep_view()),
{
    let id = match certificate_id(request.certificate_id.as_str()) {
        Ok(id) => id,
        Err(error) => return Err(error),
    };
    let expected_version = match required_revision(request.expected_version) {
        Ok(expected_version) => expected_version,
        Err(error) => return Err(error),
    };
    match required_revision(request.expected_sealing_revision) {
        Ok(expected_sealing_revision) => Ok(
            ReencryptCertificateRequest { id, expected_version, expected_sealing_revision },
        ),
        Err(error) => Err(error),
    }
}

/// What a request for the certificate of a host asks for.
pub open spec fn resolve_request(request: pb::ResolveTlsCertificateRequestView) -> Result<
    ResolveTlsCertificateRequestView,
    ApiStatusView,
> {
    if !certificate::names_host(request.server_name) || (request.known_view_revision matches Some(
        revision,
    ) && revision > i64::MAX) {
        Err(invalid_resource())
    } else {
        Ok(
            ResolveTlsCertificateRequestView {
                hostname: certificate::canonical_name(request.server_name),
                known_view_revision: match request.known_view_revision {
                    Some(revision) => Some(revision as nat),
                    None => None,
                },
            },
        )
    }
}

/// What a request for the certificate of a host asks for.
pub fn resolve_request_from_proto(request: &pb::ResolveTlsCertificateRequest) -> (r: Result<
    ResolveTlsCertificateRequest,
    ApiStatus,
>)
    ensures
        outcome::of(r) == resolve_request(request.deep_view()),
{
    let hostname = match hostname(request.server_name.as_str()) {
        Ok(hostname) => hostname,
        Err(error) => return Err(error),
    };
    let known_view_revision = match request.known_view_revision {
        None => None,
        Some(revision) => match CertificateRevision::new(revision) {
            Ok(revision) => Some(revision),
            Err(_) => return Err(invalid()),
        },
    };
    Ok(ResolveTlsCertificateRequest { hostname, known_view_revision })
}

/// For how many milliseconds a certificate may be used without asking again: at
/// most five minutes, and not beyond its validity.
pub open spec fn authorization_ttl(
    not_after_unix_millis: i64,
    observed_at_unix_millis: i64,
) -> u64 {
    let left = not_after_unix_millis - observed_at_unix_millis;
    if left <= 0 {
        0
    } else if left >= 300_000 {
        300_000
    } else {
        left as u64
    }
}

fn ttl_millis(not_after_unix_millis: i64, observed_at_unix_millis: i64) -> (r: u64)
    ensures
        r == authorization_ttl(not_after_unix_millis, observed_at_unix_millis),
{
    let left: i128 = not_after_unix_millis as i128 - observed_at_unix_millis as i128;
    if left <= 0 {
        0
    } else if left >= 300_000 {
        300_000
    } else {
        left as u64
    }
}

/// The answer to a request for the certificate of a host. That there is none may
/// be kept for a second.
pub open spec fn resolution_message(
    result: TlsCertificateResolutionView,
) -> pb::ResolveTlsCertificateResponseView {
    let (value, ttl) = match result.value {
        TlsCertificateValueView::Missing => (pb::ResolveTlsCertificateValueView::Missing, 1000u64),
        TlsCertificateValueView::Found { metadata, bundle } => (
            pb::ResolveTlsCertificateValueView::Found(
                pb::FoundTlsCertificateView {
                    metadata: Some(metadata_message(metadata)),
                    bundle: Some(
                        pb::CertificateBundleView {
                            chain_der: bundle.chain_der,
                            private_key_pkcs8_der: bundle.private_key_pkcs8_der,
                        },
                    ),
                },
            ),
            authorization_ttl(metadata.not_after_unix_millis, result.observed_at_unix_millis),
        ),
        TlsCertificateValueView::Unchanged { metadata } => (
            pb::ResolveTlsCertificateValueView::Unchanged(metadata_message(metadata)),
            authorization_ttl(metadata.not_after_unix_millis, result.observed_at_unix_millis),
        ),
    };
    pb::ResolveTlsCertificateResponseView {
        server_name: result.hostname,
        view_revision: result.view_revision as u64,
        observed_at_unix_millis: result.observed_at_unix_millis,
        authorization_ttl_millis: ttl,
        value: Some(value),
    }
}

/// The answer to a request for the certificate of a host.
pub fn resolve_response(result: TlsCertificateResolution) -> (r: pb::ResolveTlsCertificateResponse)
    ensures
        r.deep_view() == resolution_message(result.deep_view()),
{
    let observed_at_unix_millis: i64 = result.observed_at_unix_millis;
    let (value, ttl): (pb::ResolveTlsCertificateValue, u64) = match result.value {
        TlsCertificateValue::Missing => (pb::ResolveTlsCertificateValue::Missing, 1000),
        TlsCertificateValue::Found { metadata: m, bundle } => {
            let ttl: u64 = ttl_millis(m.not_after_unix_millis, observed_at_unix_millis);
            let chain_der = bundle.chain_der().clone();
            let private_key_pkcs8_der = bundle.private_key_pkcs8_der().clone();
            proof {
                assert(chain_der.deep_view() =~~= bundle.deep_view().chain_der);
                assert(private_key_pkcs8_der.deep_view()
                    =~= bundle.deep_view().private_key_pkcs8_der);
            }
            (
                pb::ResolveTlsCertificateValue::Found(
                    pb::FoundTlsCertificate {
                        metadata: Some(metadata(m)),
                        bundle: Some(pb::CertificateBundle { chain_der, private_key_pkcs8_der }),
                    },
                ),
                ttl,
            )
        },
        TlsCertificateValue::Unchanged { metadata: m } => {
            let ttl: u64 = ttl_millis(m.not_after_unix_millis, observed_at_unix_millis);
            (pb::ResolveTlsCertificateValue::Unchanged(metadata(m)), ttl)
        },
    };
    pb::ResolveTlsCertificateResponse {
        server_name: result.hostname.to_string(),
        view_revision: result.view_revision.get(),
        observed_at_unix_millis,
        authorization_ttl_millis: ttl,
        value: Some(value),
    }
}

/// A certificate is never authorized beyond the end of its validity.
pub proof fn lemma_authorization_ends_with_validity(
    not_after_unix_millis: i64,
    observed_at_unix_millis: i64,
)
    ensures
        observed_at_unix_millis < not_after_unix_millis ==> observed_at_unix_millis
            + authorization_ttl(not_after_unix_millis, observed_at_unix_millis)
            <= not_after_unix_millis,
        observed_at_unix_millis >= not_after_unix_millis ==> authorization_ttl(
            not_after_unix_millis,
            observed_at_unix_millis,
        ) == 0,
        authorization_ttl(not_after_unix_millis, observed_at_unix_millis) <= 300_000,
{
}

} // verus!
