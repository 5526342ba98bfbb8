//! What holds of every message: what a request asks for, and what an answer says.
use std::time::Duration;

use vstd::prelude::*;

use super::certificate_watch;
use super::certificate_watch::WatchQueryView;
use super::certificate_watch::WatchStateView;
use super::certificates;
use super::pb;
use super::route_events;
use super::route_events::RouteBindingChangeView;
use super::server;
use super::sidecar;
use super::status::StatusCode;
use crate::auth::CallerRole;
use crate::auth::HeaderTextView;
use crate::certificate;
use crate::certificate::CertificateMetadataView;
use crate::certificate::CertificateState;
use crate::certificate::TlsBindingSnapshotView;
use crate::certificate::TlsBindingView;
use crate::certificate::TlsCertificateChangeKind;
use crate::certificate::TlsCertificateChangePageView;
use crate::certificate::TlsCertificateChangeView;
use crate::certificate::TlsCertificateResolutionView;
use crate::certificate::TlsCertificateValueView;
use crate::http01;
use crate::http01::Http01ChallengeRecordView;
use crate::idle::ReportIdleErrorView;
use crate::idle::ReportIdleResultView;
use crate::idle::ReportIdleUnavailableReason;
use crate::instance::InstanceRecord;
use crate::instance::InstanceState;
use crate::json;
use crate::json::Json;
use crate::materialization::MaterializationRecordView;
use crate::materialization::MaterializationState;
use crate::materialization::MaterializationTargetView;
use crate::route::ProtocolRoute;
use crate::route::RouteBindingRecordView;
use crate::store;
use crate::store::StoreErrorView;
use crate::text;
use crate::time;

verus! {

/// A report is taken as the sidecar sent it; it has to name an instance.
pub proof fn lemma_report_is_taken_as_sent(request: pb::SidecarReportIdleRequestView)
    ensures
        sidecar::report_of(request) is Ok <==> !text::is_blank(request.instance_id),
        sidecar::report_of(request) matches Ok(report) ==> {
            &&& report.instance_id == request.instance_id
            &&& report.expected_generation == request.expected_generation
            &&& report.active_count == request.active_count
            &&& report.pod_uid == request.pod_uid
        },
{
}

/// A sidecar is told what became of its report: that it was accepted, that the instance
/// drains already or that it cannot sleep and why, with the instance and the generation it
/// has.
pub proof fn lemma_sidecar_is_told_what_became_of_its_report(result: ReportIdleResultView)
    ensures
        result matches ReportIdleResultView::Accepted { instance } ==> {
            &&& sidecar::result_message(result).outcome matches Some(
                pb::SidecarReportIdleOutcomeView::Accepted(told),
            )
            &&& told.instance_id == instance.id
            &&& instance.generation <= u64::MAX ==> told.instance_generation == instance.generation
        },
        result matches ReportIdleResultView::AlreadyDraining { instance } ==> {
            &&& sidecar::result_message(result).outcome matches Some(
                pb::SidecarReportIdleOutcomeView::AlreadyDraining(told),
            )
            &&& told.instance_id == instance.id
            &&& instance.generation <= u64::MAX ==> told.instance_generation == instance.generation
        },
        result matches ReportIdleResultView::Unavailable { instance, reason } ==> {
            &&& sidecar::result_message(result).outcome matches Some(
                pb::SidecarReportIdleOutcomeView::Unavailable(told),
            )
            &&& told.instance_id == instance.id
            &&& instance.generation <= u64::MAX ==> told.instance_generation == instance.generation
            &&& told.reason == pb::SidecarReportIdleUnavailableReason::Cold <==> reason
                == ReportIdleUnavailableReason::Cold
            &&& told.reason == pb::SidecarReportIdleUnavailableReason::Waking <==> reason
                == ReportIdleUnavailableReason::Waking
            &&& told.reason == pb::SidecarReportIdleUnavailableReason::Draining <==> reason
                == ReportIdleUnavailableReason::Draining
            &&& told.reason == pb::SidecarReportIdleUnavailableReason::Failed <==> reason
                == ReportIdleUnavailableReason::Failed
            &&& told.reason == pb::SidecarReportIdleUnavailableReason::Deleting <==> reason
                == ReportIdleUnavailableReason::Deleting
            &&& told.reason == pb::SidecarReportIdleUnavailableReason::Deleted <==> reason
                == ReportIdleUnavailableReason::Deleted
        },
{
}

/// A sidecar whose report is on another generation is told both; any other failure is a
/// status of its own kind, and a sleep that is deferred says when to report again.
pub proof fn lemma_sidecar_is_told_why_its_report_failed(
    asked: Seq<char>,
    error: ReportIdleErrorView,
    timeout: Duration,
)
    ensures
        error matches ReportIdleErrorView::GenerationConflict { expected, actual } ==> {
            &&& sidecar::error_response(asked, error, timeout) is Ok
            &&& sidecar::error_response(asked, error, timeout)->Ok_0.outcome matches Some(
                pb::SidecarReportIdleOutcomeView::GenerationConflict(told),
            )
            &&& told.instance_id == asked
            &&& expected <= u64::MAX ==> told.expected_generation == expected
            &&& actual <= u64::MAX ==> told.actual_generation == actual
        },
        !(error is GenerationConflict) ==> sidecar::error_response(asked, error, timeout) is Err,
        error is ActiveRequestsPresent || error is UnsupportedSleep || error is SleepPolicy
            ==> sidecar::error_response(asked, error, timeout)->Err_0.code
            == StatusCode::FailedPrecondition,
        error is NotFound || error is WorkloadClassNotFound ==> sidecar::error_response(
            asked,
            error,
            timeout,
        )->Err_0.code == StatusCode::NotFound,
        error matches ReportIdleErrorView::Store(error) ==> sidecar::error_response(
            asked,
            ReportIdleErrorView::Store(error),
            timeout,
        )->Err_0 == store::status_of(error, timeout),
{
}

/// Every failure of the store has a status of its kind. Only a sleep that is deferred says
/// when to try again: after what is left to wait, and never later than an activation takes.
pub proof fn lemma_failures_have_a_status_of_their_kind(error: StoreErrorView, timeout: Duration)
    ensures
        ({
            let status = store::status_of(error, timeout);
            &&& status.code == StatusCode::InvalidArgument <==> error is InvalidArgument
            &&& status.code == StatusCode::NotFound <==> error is NotFound
            &&& status.code == StatusCode::AlreadyExists <==> error is AlreadyExists
                || error is IdempotencyConflict
            &&& status.code == StatusCode::FailedPrecondition <==> error is SleepDeferred
                || error is GenerationConflict || error is ExclusivityConflict
                || error is IdempotencyResourceDeleted
            &&& status.code == StatusCode::Aborted <==> error is LeaseConflict
            &&& status.code == StatusCode::Unavailable <==> error is Unavailable
            &&& status.code == StatusCode::Internal <==> error is Internal
            &&& status.retry_after_millis is Some <==> error is SleepDeferred
            &&& error matches StoreErrorView::SleepDeferred { retry_after } ==> exists|wait: nat|
                status.retry_after_millis == Some(#[trigger] text::decimal(wait)) && wait
                    <= retry_after / 1_000_000 && wait <= time::millis(timeout) && (wait
                    == retry_after / 1_000_000 || wait == time::millis(timeout))
        }),
{
    if let StoreErrorView::SleepDeferred { retry_after } = error {
        let wait = store::smaller((retry_after / 1_000_000) as nat, time::millis(timeout));
        assert(store::status_of(error, timeout).retry_after_millis == Some(text::decimal(wait)));
    }
}

/// An instance is asked for under its id, for its class, with its values, once per
/// idempotency key; all of them have to be named.
pub proof fn lemma_instance_is_asked_for_as_sent(request: pb::CreateInstanceRequestView)
    ensures
        server::create_instance_problem(request) is None <==> {
            &&& request.workload_class is Some
            &&& !text::is_blank(request.workload_class->0.class_id)
            &&& !text::is_blank(request.idempotency_key)
            &&& !text::is_blank(request.instance_id)
        },
        ({
            let asked = server::create_instance_of(request);
            &&& asked.idempotency_key == request.idempotency_key
            &&& asked.instance_id == request.instance_id
            &&& asked.workload_class.class_id == request.workload_class->0.class_id
            &&& asked.workload_class.version == request.workload_class->0.version
            &&& asked.route_bindings.len() == 0
        }),
{
}

/// The last entry of a message for a key is the value of the key, and no other key has one.
pub proof fn lemma_last_entry_counts(entries: Seq<pb::StringEntryView>, key: Seq<char>)
    ensures
        server::strings_of(entries).contains_key(key) <==> exists|i: int|
            0 <= i < entries.len() && (#[trigger] entries[i]).key == key,
        server::strings_of(entries).contains_key(key) ==> exists|i: int|
            0 <= i < entries.len() && (#[trigger] entries[i]).key == key && entries[i].value
                == server::strings_of(entries)[key] && forall|j: int|
                i < j < entries.len() ==> (#[trigger] entries[j]).key != key,
    decreases entries.len(),
{
    let pairs = server::string_pairs(entries);
    if entries.len() > 0 {
        let before = entries.drop_last();
        let last = entries.len() - 1;
        lemma_last_entry_counts(before, key);
        assert(pairs.drop_last() =~= server::string_pairs(before));
        assert(pairs.last() == (entries[last].key, entries[last].value));
        if entries[last].key == key {
            assert(entries[last].value == server::strings_of(entries)[key]);
        } else {
            assert(server::strings_of(entries).contains_key(key) == server::strings_of(
                before,
            ).contains_key(key));
            if server::strings_of(before).contains_key(key) {
                let i = choose|i: int|
                    0 <= i < before.len() && (#[trigger] before[i]).key == key && before[i].value
                        == server::strings_of(before)[key] && forall|j: int|
                        i < j < before.len() ==> (#[trigger] before[j]).key != key;
                assert(entries[i] == before[i]);
                assert forall|j: int| i < j < entries.len() implies (#[trigger] entries[j]).key
                    != key by {
                    if j < last {
                        assert(before[j] == entries[j]);
                    }
                }
            } else {
                assert forall|i: int| 0 <= i < entries.len() implies (#[trigger] entries[i]).key
                    != key by {
                    if i < last {
                        assert(before[i] == entries[i]);
                    }
                }
            }
        }
    }
}

/// A deletion is asked for the instance and the generation that were sent; both have to be
/// there.
pub proof fn lemma_deletion_is_asked_for_as_sent(request: pb::DeleteInstanceRequestView)
    ensures
        server::delete_instance_problem(request) is None <==> {
            &&& request.expected_generation is Some
            &&& request.expected_generation->0 <= i64::MAX
            &&& !text::is_blank(request.instance_id)
        },
        server::delete_instance_of(request).instance_id == request.instance_id,
        request.expected_generation matches Some(generation) ==> server::delete_instance_of(
            request,
        ).expected_generation == generation,
{
}

/// A route is asked for under its id, for its instance, with its identity and protocol, once
/// per idempotency key.
pub proof fn lemma_route_is_asked_for_as_sent(request: pb::CreateRouteBindingRequestView)
    ensures
        ({
            let asked = server::create_route_of(request);
            &&& asked.idempotency_key == request.idempotency_key
            &&& asked.route_binding_id == request.route_binding_id
            &&& asked.instance_id == request.instance_id
            &&& server::create_route_problem(request) is None ==> {
                &&& request.identity is Some
                &&& asked.identity == server::identity_of(request.identity->0)
                &&& asked.protocol == ProtocolRoute::Http <==> request.protocol
                    == pb::ProtocolRoute::Http
                &&& asked.protocol == ProtocolRoute::TlsSni <==> request.protocol
                    == pb::ProtocolRoute::TlsSni
                &&& !text::is_blank(request.idempotency_key)
                &&& !text::is_blank(request.route_binding_id)
                &&& !text::is_blank(request.instance_id)
            }
        }),
{
}

/// An instance is told as it is stored: its class, its values, its state and generation.
pub proof fn lemma_instance_is_told_as_it_is(instance: InstanceRecord)
    ensures
        ({
            let told = server::instance_message(instance);
            &&& told.instance_id == instance.id@
            &&& told.workload_class is Some
            &&& told.workload_class->0.class_id == instance.workload_class.class_id@
            &&& told.workload_class->0.version == instance.workload_class.version@
            &&& server::strings_of(told.values) == instance.values.deep_view()
            &&& told.generation == instance.generation@
            &&& told.state == pb::InstanceState::Cold <==> instance.state == InstanceState::Cold
            &&& told.state == pb::InstanceState::Waking <==> instance.state
                == InstanceState::Waking
            &&& told.state == pb::InstanceState::Running <==> instance.state
                == InstanceState::Running
            &&& told.state == pb::InstanceState::Draining <==> instance.state
                == InstanceState::Draining
            &&& told.state == pb::InstanceState::Failed <==> instance.state
                == InstanceState::Failed
            &&& told.state == pb::InstanceState::Deleting <==> instance.state
                == InstanceState::Deleting
            &&& told.state == pb::InstanceState::Deleted <==> instance.state
                == InstanceState::Deleted
        }),
{
    server::lemma_strings_round_trip(instance.values);
}

/// A route is told as it is stored.
pub proof fn lemma_route_is_told_as_it_is(binding: RouteBindingRecordView)
    ensures
        ({
            let told = server::route_binding_message(binding);
            &&& told.route_binding_id == binding.id
            &&& told.instance_id == binding.instance_id
            &&& told.identity == Some(server::identity_message(binding.identity))
            &&& told.protocol == pb::ProtocolRoute::Http <==> binding.protocol
                == ProtocolRoute::Http
            &&& told.protocol == pb::ProtocolRoute::TlsSni <==> binding.protocol
                == ProtocolRoute::TlsSni
        }),
{
}

/// A materialization is put to work where more than its status is asked for and it is on
/// the target that is worked on.
pub proof fn lemma_materialization_is_put_to_work_on_its_target(
    request: pb::ReconcileMaterializationRequestView,
    target: MaterializationTargetView,
    materialization: MaterializationRecordView,
)
    ensures
        server::is_put_to_work(request, target, materialization) <==> {
            &&& !request.status_only
            &&& materialization.target.cluster_id == target.cluster_id
            &&& materialization.target.namespace == target.namespace
        },
{
}

/// What is said of a materialization is what is stored of it, and how far the work on it is.
/// Its last failure is uncertain as long as an effect is.
pub proof fn lemma_materialization_is_told_as_it_is(
    materialization: MaterializationRecordView,
    lease: Option<server::ReconciliationLease>,
    attempted: bool,
    observations: Seq<pb::ProjectionObservationView>,
    status: Option<server::MaterializationWorkStatus>,
)
    ensures
        ({
            let told = server::found_response(
                materialization,
                lease,
                attempted,
                observations,
                status,
            );
            &&& told.found
            &&& told.materialization_id == materialization.id
            &&& told.attempted == attempted
            &&& told.observed_refs.len() == materialization.rendered_objects.len()
            &&& forall|i: int|
                0 <= i < told.observed_refs.len() ==> {
                    let shown = #[trigger] told.observed_refs[i];
                    let object = materialization.rendered_objects[i];
                    &&& shown.api_version == object.api_version
                    &&& shown.kind == object.kind
                    &&& shown.namespace == object.namespace
                    &&& shown.name == object.name
                }
            &&& told.projection_observations == observations
            &&& lease matches Some(lease) ==> told.lease_owner == lease.owner@
                && told.lease_attempt == lease.attempt
            &&& lease is None ==> told.lease_owner.len() == 0 && told.lease_attempt == 0
            &&& status matches Some(status) ==> {
                &&& told.next_attempt_at_unix_millis == status.next_attempt_at_unix_millis
                &&& told.operation_deadline_unix_millis == status.operation_deadline_unix_millis
                &&& told.failure_count == status.failure_count
                &&& told.uncertain_effect is Some <==> status.uncertain_effect is Some
                &&& status.uncertain_effect is Some ==> told.failure_kind == "uncertain"@
                &&& status.uncertain_effect is None && status.failure_kind is Some
                    ==> told.failure_kind == status.failure_kind->0@
                &&& status.uncertain_effect is None && status.failure_kind is None
                    ==> told.failure_kind.len() == 0
            }
            &&& status is None ==> told.failure_count == 0 && told.failure_kind.len() == 0
                && told.uncertain_effect is None
        }),
        !server::not_found_response(materialization.id).found,
        server::not_found_response(materialization.id).materialization_id == materialization.id,
{
}

/// States of materializations are told apart by their names.
pub proof fn lemma_materialization_states_are_told_apart(
    one: MaterializationState,
    other: MaterializationState,
)
    ensures
        server::materialization_state_text(one) == server::materialization_state_text(other)
            <==> one == other,
{
    reveal_strlit("Pending");
    reveal_strlit("Ready");
    reveal_strlit("Failed");
    reveal_strlit("Deleting");
    reveal_strlit("Deleted");
    assert("Pending"@[0] == 'P' && "Ready"@[0] == 'R' && "Failed"@[0] == 'F');
    assert("Deleting"@.len() == 8 && "Deleted"@.len() == 7 && "Deleted"@[0] == 'D');
    assert("Deleting"@[0] == 'D');
}

/// The certificate API is open only over TLS and native gRPC, to a caller of the role that
/// the call is for.
pub proof fn lemma_certificates_need_tls_and_the_role(
    tls: bool,
    content_type: HeaderTextView,
    caller: Option<CallerRole>,
    required: CallerRole,
)
    ensures
        certificates::secure_problem(tls, content_type, caller, required) is None <==> {
            &&& tls
            &&& caller == Some(required)
            &&& content_type matches HeaderTextView::Text(text)
            &&& text == "application/grpc"@ || text == "application/grpc+proto"@
        },
        certificates::secure_problem(tls, content_type, caller, required) matches Some(status)
            ==> status.code == StatusCode::PermissionDenied,
{
}

/// A publication is asked for as it was sent: under its id, over the version that is
/// expected, with its chain and its key.
pub proof fn lemma_publication_is_asked_for_as_sent(request: pb::PublishCertificateRequestView)
    ensures
        certificates::publish_request(request) is Ok <==> {
            &&& request.bundle is Some
            &&& certificate::digestible(request.bundle->0.chain_der)
            &&& !text::is_blank(request.certificate_id)
            &&& request.expected_version is Some
            &&& request.expected_version->0 <= i64::MAX
        },
        certificates::publish_request(request) matches Ok(asked) ==> {
            &&& asked.id == request.certificate_id
            &&& asked.expected_version == request.expected_version->0
            &&& asked.bundle.chain_der == request.bundle->0.chain_der
            &&& asked.bundle.private_key_pkcs8_der == request.bundle->0.private_key_pkcs8_der
        },
{
}

/// A binding is asked for as it was sent: of the host in its normal form, over the revision
/// that is expected, to the certificate that is named or to none.
pub proof fn lemma_binding_is_asked_for_as_sent(request: pb::SetTlsBindingRequestView)
    ensures
        certificates::set_binding_request(request) is Ok <==> {
            &&& certificate::names_host(request.hostname)
            &&& request.expected_revision is Some
            &&& request.expected_revision->0 <= i64::MAX
            &&& request.certificate_id matches Some(id) ==> !text::is_blank(id)
        },
        certificates::set_binding_request(request) matches Ok(asked) ==> {
            &&& asked.hostname == certificate::canonical_name(request.hostname)
            &&& asked.expected_revision == request.expected_revision->0
            &&& asked.certificate_id == request.certificate_id
        },
{
}

/// A removal and a new seal are asked for as they were sent.
pub proof fn lemma_removal_and_seal_are_asked_for_as_sent(
    removal: pb::RemoveCertificateRequestView,
    seal: pb::ReencryptCertificateRequestView,
)
    ensures
        certificates::remove_request(removal) is Ok <==> {
            &&& !text::is_blank(removal.certificate_id)
            &&& removal.expected_version is Some
            &&& removal.expected_version->0 <= i64::MAX
        },
        certificates::remove_request(removal) matches Ok(asked) ==> {
            &&& asked.id == removal.certificate_id
            &&& asked.expected_version == removal.expected_version->0
        },
        certificates::reencrypt_request(seal) is Ok <==> {
            &&& !text::is_blank(seal.certificate_id)
            &&& seal.expected_version is Some
            &&& seal.expected_version->0 <= i64::MAX
            &&& seal.expected_sealing_revision is Some
            &&& seal.expected_sealing_revision->0 <= i64::MAX
        },
        certificates::reencrypt_request(seal) matches Ok(asked) ==> {
            &&& asked.id == seal.certificate_id
            &&& asked.expected_version == seal.expected_version->0
            &&& asked.expected_sealing_revision == seal.expected_sealing_revision->0
        },
{
}

/// The certificate of a host is asked for under the host's normal form, with the revision
/// that the proxy knows.
pub proof fn lemma_certificate_is_asked_for_as_sent(
    request: pb::ResolveTlsCertificateRequestView,
)
    ensures
        certificates::resolve_request(request) is Ok <==> {
            &&& certificate::names_host(request.server_name)
            &&& request.known_view_revision matches Some(revision) ==> revision <= i64::MAX
        },
        certificates::resolve_request(request) matches Ok(asked) ==> {
            &&& asked.hostname == certificate::canonical_name(request.server_name)
            &&& (asked.known_view_revision is Some) == (request.known_view_revision is Some)
            &&& request.known_view_revision matches Some(revision) ==> asked.known_view_revision->0
                == revision
        },
{
}

/// A proxy is told of a host what was found: the host, the revision and the time, and the
/// chain and key where they were found. What it has may be used until it ends, at most for
/// five minutes, and that there is none for a second.
pub proof fn lemma_certificate_is_told_as_it_was_found(result: TlsCertificateResolutionView)
    requires
        result.view_revision <= u64::MAX,
    ensures
        ({
            let told = certificates::resolution_message(result);
            &&& told.server_name == result.hostname
            &&& told.view_revision == result.view_revision
            &&& told.observed_at_unix_millis == result.observed_at_unix_millis
            &&& told.value is Some
            &&& told.value->0 is Missing <==> result.value is Missing
            &&& told.value->0 is Unchanged <==> result.value is Unchanged
            &&& result.value is Missing ==> told.authorization_ttl_millis == 1000
            &&& result.value matches TlsCertificateValueView::Found { metadata, bundle } ==> {
                &&& told.value->0 matches pb::ResolveTlsCertificateValueView::Found(found)
                &&& found.metadata == Some(certificates::metadata_message(metadata))
                &&& found.bundle is Some
                &&& found.bundle->0.chain_der == bundle.chain_der
                &&& found.bundle->0.private_key_pkcs8_der == bundle.private_key_pkcs8_der
                &&& lasts_until(
                    told.authorization_ttl_millis,
                    result.observed_at_unix_millis,
                    metadata.not_after_unix_millis,
                )
            }
            &&& result.value matches TlsCertificateValueView::Unchanged { metadata } ==> {
                &&& told.value->0 == pb::ResolveTlsCertificateValueView::Unchanged(
                    certificates::metadata_message(metadata),
                )
                &&& lasts_until(
                    told.authorization_ttl_millis,
                    result.observed_at_unix_millis,
                    metadata.not_after_unix_millis,
                )
            }
        }),
{
}

/// Whether a time to live is the longest that neither passes the end nor five minutes.
pub open spec fn lasts_until(ttl: u64, from: i64, end: i64) -> bool {
    &&& ttl <= 300_000
    &&& from >= end ==> ttl == 0
    &&& from < end ==> from + ttl <= end
    &&& from < end ==> ttl == 300_000 || from + ttl == end
}

/// The metadata of a certificate is told as it is.
pub proof fn lemma_metadata_is_told_as_it_is(metadata: CertificateMetadataView)
    requires
        metadata.version <= u64::MAX,
        metadata.sealing_revision <= u64::MAX,
    ensures
        ({
            let told = certificates::metadata_message(metadata);
            &&& told.certificate_id == metadata.id
            &&& told.version == metadata.version
            &&& told.deleted <==> metadata.state == CertificateState::Deleted
            &&& told.not_before_unix_millis == metadata.not_before_unix_millis
            &&& told.not_after_unix_millis == metadata.not_after_unix_millis
            &&& told.dns_names == metadata.dns_names
            &&& told.leaf_sha256 == metadata.leaf_sha256
            &&& told.sealing_key_id == metadata.sealing_key_id
            &&& told.sealing_revision == metadata.sealing_revision
        }),
{
}

/// A binding is told as it is.
pub proof fn lemma_binding_is_told_as_it_is(binding: TlsBindingView)
    requires
        binding.revision <= u64::MAX,
    ensures
        certificates::binding_message(binding).hostname == binding.hostname,
        certificates::binding_message(binding).certificate_id == binding.certificate_id,
        certificates::binding_message(binding).revision == binding.revision,
{
}

/// A failure of the certificate store has a status of its kind.
pub proof fn lemma_certificate_failures_have_a_status_of_their_kind(error: StoreErrorView)
    ensures
        ({
            let code = certificates::store_status(error).code;
            &&& code == StatusCode::InvalidArgument <==> error is InvalidArgument
            &&& code == StatusCode::NotFound <==> error is NotFound
            &&& code == StatusCode::AlreadyExists <==> error is AlreadyExists
            &&& code == StatusCode::FailedPrecondition <==> error is GenerationConflict
            &&& code == StatusCode::Unavailable <==> error is Unavailable
        }),
{
}

/// A watch that takes a registration reads the bindings of its hosts next, and keeps telling
/// of the hosts that it had until then. Hosts have to be in their normal form, each once, and
/// no more than may be.
pub proof fn lemma_registration_asks_for_its_hosts(
    state: WatchStateView,
    request: pb::WatchTlsCertificatesRequestView,
)
    ensures
        certificate_watch::registered(state, request) is Ok <==> {
            &&& request.registration > state.registration
            &&& request.hostnames.len() <= 1024
            &&& request.hostnames.no_duplicates()
            &&& forall|i: int|
                0 <= i < request.hostnames.len() ==> certificate::names_host(
                    #[trigger] request.hostnames[i],
                ) && certificate::canonical_name(request.hostnames[i]) == request.hostnames[i]
        },
        certificate_watch::registered(state, request) matches Ok(after) ==> {
            &&& after.registration == request.registration
            &&& after.hosts == state.hosts
            &&& after.cursor == state.cursor
            &&& certificate_watch::next_query_of(after) == WatchQueryView::Snapshot(
                request.hostnames,
            )
        },
{
}

/// A watch that has hosts and no registration to answer reads what changed behind where it
/// is; one without hosts reads nothing.
pub proof fn lemma_watch_reads_on_from_its_cursor(state: WatchStateView)
    requires
        state.pending is None,
    ensures
        state.hosts.len() == 0 ==> certificate_watch::next_query_of(state)
            == WatchQueryView::Nothing,
        state.hosts.len() > 0 && state.cursor is Some ==> {
            &&& certificate_watch::next_query_of(state) matches WatchQueryView::Changes {
                after,
                limit,
            }
            &&& after == state.cursor->0
            &&& limit == 256
        },
{
}

/// A snapshot answers the registration that asked for it: the watch then tells of its hosts,
/// from the revision of the snapshot on. Where the store is busy the watch stays as it is and
/// tells nothing.
pub proof fn lemma_snapshot_answers_its_registration(
    state: WatchStateView,
    snapshot: TlsBindingSnapshotView,
    message: Seq<char>,
)
    requires
        state.pending is Some,
        snapshot.revision <= u64::MAX,
    ensures
        ({
            let (after, answer) = certificate_watch::snapshot_step(state, Ok(snapshot));
            &&& after.hosts == state.pending->0
            &&& after.cursor == Some(snapshot.revision)
            &&& after.registration == state.registration
            &&& after.pending is None
            &&& answer is Ok
            &&& answer->Ok_0 is Some
            &&& answer->Ok_0->0.value matches Some(
                pb::WatchTlsCertificatesValueView::Snapshot(told),
            )
            &&& told.registration == state.registration
            &&& told.cursor == snapshot.revision
            &&& told.bindings.len() == snapshot.bindings.len()
            &&& forall|i: int|
                0 <= i < told.bindings.len() ==> (#[trigger] told.bindings[i]).hostname
                    == snapshot.bindings[i].hostname && told.bindings[i].certificate_id
                    == snapshot.bindings[i].certificate_id
        }),
        certificate_watch::snapshot_step(state, Err(StoreErrorView::Unavailable { message })).0
            == state,
        certificate_watch::snapshot_step(state, Err(StoreErrorView::Unavailable { message })).1
            matches Ok(None),
{
}

/// A watch that read changes goes on behind them. It tells those of its hosts, and nothing
/// where there are none; where changes were lost it says so. A binding that was set or
/// removed makes invalid what a proxy has, one that was published anew does not.
pub proof fn lemma_changes_move_the_cursor(
    state: WatchStateView,
    page: TlsCertificateChangePageView,
    hostname: Seq<char>,
    change: TlsCertificateChangeView,
)
    requires
        page.cursor <= u64::MAX,
    ensures
        ({
            let (after, answer) = certificate_watch::changes_step(state, Ok(page));
            &&& after.cursor == Some(page.cursor)
            &&& after.hosts == state.hosts
            &&& after.registration == state.registration
            &&& after.pending == state.pending
            &&& answer is Ok
            &&& page.reset ==> (answer->Ok_0 matches Some(told) && told.value matches Some(
                pb::WatchTlsCertificatesValueView::Reset(reset),
            ) && reset.cursor == page.cursor)
            &&& !page.reset && answer->Ok_0 is Some ==> (answer->Ok_0->0.value matches Some(
                pb::WatchTlsCertificatesValueView::Changes(told),
            ) && told.cursor == page.cursor && told.events == certificate_watch::watched_events(
                state.hosts,
                page.events,
            ))
            &&& !page.reset ==> (answer->Ok_0 is None <==> certificate_watch::watched_events(
                state.hosts,
                page.events,
            ).len() == 0)
        }),
        ({
            let told = certificate_watch::event_message(hostname, change);
            &&& told.hostname == hostname
            &&& told.certificate_id == change.certificate_id
            &&& change.revision <= u64::MAX ==> told.view_revision == change.revision
            &&& told.invalidate <==> change.kind == TlsCertificateChangeKind::Bound || change.kind
                == TlsCertificateChangeKind::Removed
        }),
{
}

/// A stored change is told as it is stored: that an instance changed, that a route was
/// removed, or that it was bound anew, with the identity and the protocol that it has.
pub proof fn lemma_stored_change_is_told(payload: Json)
    ensures
        ({
            let kind = json::json_text(json::json_member(payload, "kind"@));
            let id = json::json_text(json::json_member(payload, "route_binding_id"@));
            let removed = json::json_bool(json::json_member(payload, "removed"@)) == Some(true);
            match route_events::durable_change_of(payload) {
                Err(_) => true,
                Ok(RouteBindingChangeView::Instance(instance)) => {
                    &&& kind == Some("instance"@)
                    &&& json::json_text(json::json_member(payload, "instance_id"@)) == Some(
                        instance,
                    )
                },
                Ok(
                    RouteBindingChangeView::Route {
                        route_binding_id,
                        removed: told,
                        identity,
                        protocol,
                    },
                ) => {
                    &&& kind != Some("instance"@)
                    &&& id == Some(route_binding_id)
                    &&& told == removed
                    &&& removed ==> identity is None && protocol is None
                    &&& !removed ==> identity is Some && protocol is Some && (identity->0 is Http
                        <==> json::json_text(json::json_member(payload, "identity_kind"@)) == Some(
                        "http"@,
                    )) && (protocol->0 == ProtocolRoute::Http <==> identity->0 is Http)
                },
                Ok(RouteBindingChangeView::Reset) => false,
            }
        }),
{
}

/// The answer to a challenge is put as it was sent, and told as it is stored.
pub proof fn lemma_challenge_is_put_and_told_as_it_is(
    request: pb::PutHttp01ChallengeRequestView,
    now: i64,
    challenge: Http01ChallengeRecordView,
)
    ensures
        server::put_challenge(request, now) matches Ok(put) ==> {
            &&& request.key is Some
            &&& http01::challenge_key(request.key->0.host, request.key->0.token) == Ok::<
                http01::Http01ChallengeKeyView,
                http01::InvalidHttp01ChallengeView,
            >(put.key)
            &&& put.key_authorization == request.key_authorization
            &&& !text::is_blank(put.key_authorization)
            &&& put.expires_at_unix_millis == request.expires_at_unix_millis
            &&& put.expires_at_unix_millis > now
        },
        ({
            let told = server::challenge_message(challenge);
            &&& told.key is Some
            &&& told.key->0.host == challenge.key.host
            &&& told.key->0.token == challenge.key.token
            &&& told.key_authorization == challenge.key_authorization
            &&& told.expires_at_unix_millis == challenge.expires_at_unix_millis
        }),
{
}

/// Challenges are dropped that had ended at the time that is given, as many as is said.
pub proof fn lemma_expiry_is_asked_for_as_sent(request: pb::ExpireHttp01ChallengesRequestView)
    ensures
        server::expire_of(request) matches Ok(asked) ==> {
            &&& asked.now_unix_millis == request.now_unix_millis
            &&& (asked.limit is Some) == (request.limit is Some)
            &&& request.limit matches Some(limit) ==> asked.limit->0 == limit
        },
        request.limit is None ==> server::expire_of(request) is Ok,
        request.limit matches Some(limit) ==> (server::expire_of(request) is Ok <==> limit
            <= usize::MAX),
{
}

} // verus!
