//! What holds of certificates from their publication to the proxy that serves them.
use vstd::prelude::*;

use super::certificate_ops;
use super::certificate_ops::CertificateRowView;
use super::certificate_ops::TlsBindingRowView;
use super::certificate_ops::TlsCertificateRowView;
use super::certificate_ops::TlsChangeRowView;
use crate::certificate;
use crate::certificate::seal;
use crate::certificate::seal::CertificateSealerView;
use crate::certificate::validate;
use crate::certificate::CertificateBundleView;
use crate::certificate::CertificateMetadataView;
use crate::certificate::CertificateState;
use crate::certificate::PublishCertificateRequestView;
use crate::certificate::ReencryptCertificateRequestView;
use crate::certificate::ResolveTlsCertificateRequestView;
use crate::certificate::SetTlsBindingRequestView;
use crate::certificate::TlsBindingView;
use crate::certificate::TlsCertificateChangeKind;
use crate::certificate::TlsCertificateValueView;
use crate::json;
use crate::json::Json;
use crate::outcome;
use crate::store::StoreErrorView;
use crate::text;

verus! {

/// The revision of a host's view as it is stored; zero where the host has none.
pub open spec fn stored_view_revision(row: TlsCertificateRowView) -> i64 {
    match row.view_revision {
        Some(revision) => revision,
        None => 0i64,
    }
}

/// A host is answered for itself, with the revision that is stored for it and the time at
/// which it was read. It has a certificate in the answer where it is bound to one.
pub proof fn lemma_resolution_is_of_the_host(
    sealer: Option<CertificateSealerView>,
    request: ResolveTlsCertificateRequestView,
    row: TlsCertificateRowView,
)
    ensures
        certificate_ops::resolution(sealer, request, row) matches Ok(resolution) ==> {
            &&& resolution.hostname == request.hostname
            &&& resolution.view_revision == stored_view_revision(row)
            &&& resolution.observed_at_unix_millis == row.observed_at
            &&& resolution.value is Missing <==> row.certificate is None
        },
        stored_view_revision(row) >= 0 && row.certificate is None ==> certificate_ops::resolution(
            sealer,
            request,
            row,
        ) is Ok,
        stored_view_revision(row) < 0 ==> certificate_ops::resolution(sealer, request, row) is Err,
{
}

/// A proxy is told that nothing changed only if the revision that it knows is the one that
/// is stored. Whoever knows another revision, or none, is given the material that is
/// stored.
pub proof fn lemma_unchanged_only_for_the_stored_revision(
    sealer: Option<CertificateSealerView>,
    request: ResolveTlsCertificateRequestView,
    row: TlsCertificateRowView,
)
    requires
        certificate_ops::resolution(sealer, request, row) is Ok,
        row.certificate is Some,
    ensures
        ({
            let value = certificate_ops::resolution(sealer, request, row)->Ok_0.value;
            let stored = stored_view_revision(row);
            let certificate = row.certificate->0;
            &&& value is Unchanged <==> request.known_view_revision is Some
                && request.known_view_revision->0 == stored
            &&& value is Found <==> request.known_view_revision is None
                || request.known_view_revision->0 != stored
            &&& value matches TlsCertificateValueView::Unchanged { metadata }
                ==> certificate_ops::metadata_of(certificate) == Ok::<
                CertificateMetadataView,
                StoreErrorView,
            >(metadata)
            &&& value matches TlsCertificateValueView::Found { metadata, bundle } ==> {
                &&& certificate_ops::metadata_of(certificate) == Ok::<
                    CertificateMetadataView,
                    StoreErrorView,
                >(metadata)
                &&& certificate.chain_der == Some(bundle.chain_der)
                &&& sealer is Some
                &&& certificate_ops::bundle_of(sealer->0, certificate, metadata) == Ok::<
                    CertificateBundleView,
                    StoreErrorView,
                >(bundle)
            }
        }),
{
}

/// What a proxy knows has no bearing on whether it is answered: where one is, all are, with
/// the same metadata, and where one is not, none is, for the same reason.
pub proof fn lemma_what_is_known_decides_only_what_is_sent(
    sealer: Option<CertificateSealerView>,
    request: ResolveTlsCertificateRequestView,
    other: ResolveTlsCertificateRequestView,
    row: TlsCertificateRowView,
)
    requires
        request.hostname == other.hostname,
    ensures
        ({
            let first = certificate_ops::resolution(sealer, request, row);
            let second = certificate_ops::resolution(sealer, other, row);
            &&& first is Ok <==> second is Ok
            &&& first is Err ==> first == second
            &&& first is Ok ==> first->Ok_0.view_revision == second->Ok_0.view_revision
            &&& first is Ok && first->Ok_0.value is Found && second->Ok_0.value is Unchanged
                ==> first->Ok_0.value->Found_metadata == second->Ok_0.value->Unchanged_metadata
            &&& first is Ok && first->Ok_0.value is Found && second->Ok_0.value is Found
                ==> first->Ok_0.value == second->Ok_0.value
        }),
{
}

/// A rotation reaches the proxy: who knows the revision that it was answered with is told
/// that nothing changed as long as that is the stored one, and is given the new material as
/// soon as another is.
pub proof fn lemma_rotation_reaches_the_proxy(
    sealer: Option<CertificateSealerView>,
    request: ResolveTlsCertificateRequestView,
    before: TlsCertificateRowView,
    after: TlsCertificateRowView,
)
    requires
        certificate_ops::resolution(sealer, request, before) is Ok,
        before.certificate is Some,
        after.certificate is Some,
    ensures
        ({
            let known = certificate_ops::resolution(sealer, request, before)->Ok_0.view_revision;
            let again = ResolveTlsCertificateRequestView {
                known_view_revision: Some(known),
                ..request
            };
            &&& certificate_ops::resolution(sealer, again, before) is Ok
            &&& certificate_ops::resolution(sealer, again, before)->Ok_0.value is Unchanged
            &&& stored_view_revision(after) != stored_view_revision(before) ==> (
            certificate_ops::resolution(sealer, again, after) matches Ok(resolution) ==> {
                &&& resolution.value is Found
                &&& after.certificate->0.chain_der == Some(
                    resolution.value->Found_bundle.chain_der,
                )
            })
        }),
{
}

/// A proxy gets material only of a certificate that is in use, whose key could be opened,
/// that is valid for a server at the time it was read, and that covers the host. Where one
/// of these fails it gets an error, whatever it knows.
pub proof fn lemma_only_material_that_serves_is_delivered(
    sealer: Option<CertificateSealerView>,
    request: ResolveTlsCertificateRequestView,
    row: TlsCertificateRowView,
)
    requires
        row.certificate is Some,
    ensures
        certificate_ops::resolution(sealer, request, row) is Ok ==> {
            let certificate = row.certificate->0;
            let metadata = certificate_ops::metadata_of(certificate)->Ok_0;
            let bundle = certificate_ops::bundle_of(sealer->0, certificate, metadata)->Ok_0;
            &&& certificate.state == "active"@
            &&& certificate_ops::metadata_of(certificate) is Ok
            &&& sealer is Some
            &&& certificate_ops::bundle_of(sealer->0, certificate, metadata) is Ok
            &&& validate::validated(bundle, row.observed_at) is Ok
            &&& bundle.chain_der.len() > 0
            &&& validate::is_server_name(request.hostname)
            &&& validate::covers(bundle.chain_der[0], request.hostname)
        },
        ({
            let certificate = row.certificate->0;
            let metadata = certificate_ops::metadata_of(certificate)->Ok_0;
            let bundle = certificate_ops::bundle_of(sealer->0, certificate, metadata)->Ok_0;
            &&& stored_view_revision(row) >= 0
            &&& certificate.state == "active"@
            &&& certificate_ops::metadata_of(certificate) is Ok
            &&& sealer is Some
            &&& certificate_ops::bundle_of(sealer->0, certificate, metadata) is Ok
            &&& validate::validated(bundle, row.observed_at) is Ok
            &&& bundle.chain_der.len() > 0
            &&& validate::is_end_entity(bundle.chain_der[0])
            &&& validate::is_server_name(request.hostname)
            &&& validate::covers(bundle.chain_der[0], request.hostname)
        }) ==> certificate_ops::resolution(sealer, request, row) is Ok,
{
    lemma_states_differ();
}

/// What was published is what a proxy gets: the chain and the key of the publication, under
/// its id and its version, from every ring that still has the key that it was sealed with.
pub proof fn lemma_published_certificate_is_delivered(
    sealer: CertificateSealerView,
    reader: CertificateSealerView,
    publication: PublishCertificateRequestView,
    old: Option<CertificateMetadataView>,
    published_at: i64,
    hosts: Seq<Seq<char>>,
    certificate: CertificateRowView,
    request: ResolveTlsCertificateRequestView,
    row: TlsCertificateRowView,
)
    requires
        certificate_ops::publish_problem(Some(sealer), publication, old, published_at, hosts)
            is None,
        certificate_ops::published(sealer, publication, old, published_at, certificate),
        !text::is_blank(publication.id),
        certificate::digestible(publication.bundle.chain_der),
        seal::key_named(reader.keys, sealer.active_id) is Some,
        seal::key_named(reader.keys, sealer.active_id)->0.bytes == sealer.active_key(),
        row.certificate == Some(certificate),
        stored_view_revision(row) >= 0,
        request.known_view_revision is None,
        validate::validated(publication.bundle, row.observed_at) is Ok,
        validate::is_end_entity(publication.bundle.chain_der[0]),
        validate::is_server_name(request.hostname),
        validate::covers(publication.bundle.chain_der[0], request.hostname),
        publication.bundle.chain_der.len() > 0,
    ensures
        certificate_ops::resolution(Some(reader), request, row) matches Ok(resolution) && {
            &&& resolution.value matches TlsCertificateValueView::Found { metadata, bundle }
            &&& bundle == publication.bundle
            &&& metadata.id == publication.id
            &&& metadata.version == publication.expected_version + 1
        },
{
    certificate_ops::lemma_published_material_is_read_back(
        sealer,
        reader,
        publication,
        old,
        published_at,
        hosts,
        certificate,
    );
}

/// What a publication writes: the next version of the certificate, in use, with the chain
/// that was published, its first certificate's digest, and the names and the time for which
/// it is valid. It is sealed one revision behind the seal before.
pub proof fn lemma_publication_writes_the_next_version(
    sealer: CertificateSealerView,
    request: PublishCertificateRequestView,
    old: Option<CertificateMetadataView>,
    observed_at: i64,
    hosts: Seq<Seq<char>>,
    row: CertificateRowView,
)
    requires
        certificate_ops::publish_problem(Some(sealer), request, old, observed_at, hosts) is None,
        certificate_ops::published(sealer, request, old, observed_at, row),
    ensures
        ({
            let valid = validate::validated(request.bundle, observed_at);
            &&& row.certificate_id == request.id
            &&& row.version == request.expected_version + 1
            &&& row.state == "active"@
            &&& row.chain_der == Some(request.bundle.chain_der)
            &&& valid is Ok
            &&& row.not_before_unix_millis == valid->Ok_0.not_before_unix_millis
            &&& row.not_after_unix_millis == valid->Ok_0.not_after_unix_millis
            &&& row.dns_names == valid->Ok_0.dns_names
            &&& row.leaf_sha256 == Some(valid->Ok_0.leaf_sha256)
            &&& row.leaf_sha256 == Some(validate::sha256_of(request.bundle.chain_der[0]))
            &&& row.seal_key_id == Some(sealer.active_id)
            &&& old is None ==> row.sealing_revision == 1
            &&& old is Some ==> row.sealing_revision == old->0.sealing_revision + 1
            &&& hosts.len() <= 1024
        }),
{
}

/// What is published has to cover every host that is bound to the certificate.
pub proof fn lemma_publication_covers_its_hosts(
    sealer: Option<CertificateSealerView>,
    request: PublishCertificateRequestView,
    old: Option<CertificateMetadataView>,
    observed_at: i64,
    hosts: Seq<Seq<char>>,
    i: int,
)
    requires
        certificate_ops::publish_problem(sealer, request, old, observed_at, hosts) is None,
        0 <= i < hosts.len(),
    ensures
        certificate::names_host(hosts[i]),
        request.bundle.chain_der.len() > 0,
        validate::covers(request.bundle.chain_der[0], certificate::canonical_name(hosts[i])),
{
    let problems = certificate_ops::host_problems(request.bundle.chain_der, hosts);
    lemma_no_problem(problems, 0, i);
    assert(problems[i] == certificate_ops::host_problem(request.bundle.chain_der, hosts[i]));
}

proof fn lemma_no_problem<E>(problems: Seq<Option<E>>, from: int, i: int)
    requires
        0 <= from <= i < problems.len(),
        outcome::first_problem(problems, from) is None,
    ensures
        problems[i] is None,
    decreases i - from,
{
    if from < i {
        lemma_no_problem(problems, from + 1, i);
    }
}

proof fn lemma_states_differ()
    ensures
        "active"@ != "deleted"@,
{
    reveal_strlit("active");
    reveal_strlit("deleted");
    assert("active"@.len() != "deleted"@.len());
}

/// A version is published over the one that is expected, or as the first one where there is
/// none, and never over one that was removed.
pub proof fn lemma_publication_needs_the_expected_version(expected: nat, row: CertificateRowView)
    ensures
        certificate_ops::publish_admission(expected, None) is Ok <==> expected == 0,
        expected != 0 ==> certificate_ops::publish_admission(expected, None) == Err::<
            Option<CertificateMetadataView>,
            StoreErrorView,
        >(StoreErrorView::GenerationConflict { expected, actual: 0 }),
        certificate_ops::metadata_of(row) is Ok ==> {
            &&& certificate_ops::publish_admission(expected, Some(row)) is Ok <==> expected
                == row.version && row.state == "active"@
            &&& certificate_ops::publish_admission(expected, Some(row)) matches Ok(old)
                ==> certificate_ops::metadata_of(row) == Ok::<
                CertificateMetadataView,
                StoreErrorView,
            >(old->0) && old is Some
            &&& expected != row.version ==> certificate_ops::publish_admission(expected, Some(row))
                == Err::<Option<CertificateMetadataView>, StoreErrorView>(
                StoreErrorView::GenerationConflict { expected, actual: row.version as nat },
            )
        },
{
    lemma_states_differ();
}

/// What is said of a certificate is what is stored of it.
pub proof fn lemma_metadata_is_what_is_stored(row: CertificateRowView)
    ensures
        certificate_ops::metadata_of(row) matches Ok(metadata) ==> {
            &&& metadata.id == row.certificate_id
            &&& metadata.version == row.version
            &&& (metadata.state == CertificateState::Active) == (row.state == "active"@)
            &&& (metadata.state == CertificateState::Deleted) == (row.state == "deleted"@)
            &&& metadata.not_before_unix_millis == row.not_before_unix_millis
            &&& metadata.not_after_unix_millis == row.not_after_unix_millis
            &&& metadata.dns_names == row.dns_names
            &&& row.leaf_sha256 matches Some(digest) ==> metadata.leaf_sha256 == digest
            &&& row.leaf_sha256 is None ==> metadata.leaf_sha256.len() == 0
            &&& metadata.sealing_key_id == row.seal_key_id
            &&& metadata.sealing_revision == row.sealing_revision
        },
        !text::is_blank(row.certificate_id) && row.version >= 0 && row.sealing_revision >= 0 && (
        row.state == "active"@ || row.state == "deleted"@) ==> certificate_ops::metadata_of(row)
            is Ok,
{
    lemma_states_differ();
}

/// Only a certificate that is in use, in the version that is expected, is removed. What is
/// left of it is its id, the next version and the next revision of its seal, and none of
/// its material.
pub proof fn lemma_removal_leaves_no_material(
    id: Seq<char>,
    expected: nat,
    row: CertificateRowView,
)
    requires
        certificate_ops::metadata_of(row) is Ok,
    ensures
        certificate_ops::removal(id, expected, None) is Err,
        certificate_ops::removal(id, expected, Some(row)) is Ok <==> {
            &&& row.version == expected
            &&& row.state == "active"@
            &&& row.version < i64::MAX
            &&& row.sealing_revision < i64::MAX
        },
        certificate_ops::removal(id, expected, Some(row)) matches Ok(left) ==> {
            &&& left.certificate_id == id
            &&& left.version == row.version + 1
            &&& left.state == "deleted"@
            &&& left.sealing_revision == row.sealing_revision + 1
            &&& left.dns_names.len() == 0
            &&& left.leaf_sha256 is None
            &&& left.chain_der is None
            &&& left.seal_format is None
            &&& left.seal_key_id is None
            &&& left.seal_nonce is None
            &&& left.sealed_private_key is None
        },
{
    lemma_states_differ();
}

/// A key is sealed anew only for a certificate that is in use, in the version and with the
/// seal that are expected. All but the seal stays, and the seal is the next one, made with
/// the active key.
pub proof fn lemma_only_the_seal_is_renewed(
    sealer: CertificateSealerView,
    request: ReencryptCertificateRequestView,
    row: CertificateRowView,
    result: CertificateRowView,
)
    requires
        certificate_ops::reencryption_source(Some(sealer), request, Some(row)) is Ok,
        certificate_ops::next_revision(certificate_ops::metadata_of(row)->Ok_0.sealing_revision)
            is Ok,
        certificate_ops::resealed(
            sealer,
            row,
            certificate_ops::reencryption_source(Some(sealer), request, Some(row))->Ok_0.0,
            certificate_ops::reencryption_source(Some(sealer), request, Some(row))->Ok_0.1,
            result,
        ),
    ensures
        row.state == "active"@,
        row.version == request.expected_version,
        row.sealing_revision == request.expected_sealing_revision,
        result.certificate_id == row.certificate_id,
        result.version == row.version,
        result.state == row.state,
        result.not_before_unix_millis == row.not_before_unix_millis,
        result.not_after_unix_millis == row.not_after_unix_millis,
        result.dns_names == row.dns_names,
        result.leaf_sha256 == row.leaf_sha256,
        result.chain_der == row.chain_der,
        result.seal_key_id == Some(sealer.active_id),
        result.sealing_revision == row.sealing_revision + 1,
{
    lemma_states_differ();
}

/// A host is bound to the certificate that was asked for, or to none where none was, at the
/// revision that the binding was given, and what was known of the host before no longer
/// holds.
pub proof fn lemma_host_is_bound_as_asked(request: SetTlsBindingRequestView, revision: i64)
    ensures
        revision >= 0 <==> certificate_ops::bound_at(request, revision) is Ok,
        certificate_ops::bound_at(request, revision) matches Ok(binding) ==> {
            &&& binding.hostname == request.hostname
            &&& binding.certificate_id == request.certificate_id
            &&& binding.revision == revision
            &&& binding.last_invalidating_revision == revision
        },
{
}

/// A host may be bound only over the revision that is expected, and where it has no binding
/// only over zero.
pub proof fn lemma_binding_needs_the_expected_revision(expected: nat, stored: i64)
    requires
        stored >= 0,
    ensures
        certificate_ops::binding_revision_problem(expected, None) is None <==> expected == 0,
        certificate_ops::binding_revision_problem(expected, Some(stored)) is None <==> expected
            == stored,
        expected != stored ==> certificate_ops::binding_revision_problem(expected, Some(stored))
            == Some(StoreErrorView::GenerationConflict { expected, actual: stored as nat }),
{
}

/// A host may be bound only to a certificate that is in use and that would be delivered for
/// the host at that time.
pub proof fn lemma_host_is_bound_to_what_serves_it(
    sealer: Option<CertificateSealerView>,
    certificate: CertificateRowView,
    hostname: Seq<char>,
    observed_at: i64,
    row: TlsCertificateRowView,
)
    requires
        row.certificate == Some(certificate),
        row.observed_at == observed_at,
        stored_view_revision(row) >= 0,
    ensures
        certificate_ops::binding_material_problem(sealer, None, hostname, observed_at) is Some,
        certificate_ops::binding_material_problem(
            sealer,
            Some(certificate),
            hostname,
            observed_at,
        ) is None <==> certificate_ops::resolution(
            sealer,
            ResolveTlsCertificateRequestView { hostname, known_view_revision: None },
            row,
        ) is Ok,
{
}

/// No certificate serves more hosts than it may: one more is let in only below the bound.
pub proof fn lemma_hosts_are_bounded(others: i64, count: int)
    ensures
        certificate_ops::room_problem(others) is None <==> others < 1024,
        certificate_ops::inventory_problem(count) is None <==> count <= 1024,
{
}

/// A host's binding is what is stored of it, and a host without one has none since revision
/// zero.
pub proof fn lemma_binding_is_what_is_stored(hostname: Seq<char>, row: TlsBindingRowView)
    ensures
        certificate_ops::binding_of(hostname, None) matches Ok(binding) && binding.hostname
            == hostname && binding.certificate_id is None && binding.revision == 0
            && binding.last_invalidating_revision == 0,
        certificate_ops::binding_of(hostname, Some(row)) matches Ok(binding) ==> {
            &&& binding.hostname == hostname
            &&& binding.certificate_id == row.certificate_id
            &&& binding.revision == row.revision
            &&& binding.last_invalidating_revision == row.last_invalidating_revision
        },
        row.revision >= 0 && row.last_invalidating_revision >= 0 && (row.certificate_id matches Some(
            id,
        ) ==> !text::is_blank(id)) ==> certificate_ops::binding_of(hostname, Some(row)) is Ok,
{
}

/// What a host's last change was can be told from its binding: a binding that was set at
/// the revision it has is new where it names a certificate and gone where it names none; one
/// that has come further since was published anew.
pub proof fn lemma_changes_tell_what_happened(row: TlsChangeRowView)
    ensures
        certificate_ops::change_of(row) matches Ok(change) ==> {
            &&& change.hostname == Some(certificate::canonical_name(row.hostname))
            &&& change.revision == row.binding.revision
            &&& change.certificate_id == row.binding.certificate_id
            &&& change.kind == TlsCertificateChangeKind::Published <==> row.binding.revision
                != row.binding.last_invalidating_revision
            &&& change.kind == TlsCertificateChangeKind::Bound <==> row.binding.revision
                == row.binding.last_invalidating_revision && row.binding.certificate_id is Some
            &&& change.kind == TlsCertificateChangeKind::Removed <==> row.binding.revision
                == row.binding.last_invalidating_revision && row.binding.certificate_id is None
        },
{
}

/// A page of changes tells every stored change, in the order of the rows, and goes on from
/// the revision of the last; an empty one goes on from where it began.
pub proof fn lemma_page_tells_every_change(after: nat, rows: Seq<TlsChangeRowView>, i: int)
    requires
        certificate_ops::change_page_of(after, rows) is Ok,
    ensures
        ({
            let page = certificate_ops::change_page_of(after, rows)->Ok_0;
            &&& !page.reset
            &&& page.events.len() == rows.len()
            &&& rows.len() == 0 ==> page.cursor == after
            &&& rows.len() > 0 ==> page.cursor == rows.last().binding.revision
            &&& 0 <= i < rows.len() ==> certificate_ops::change_of(rows[i]) == Ok::<
                certificate::TlsCertificateChangeView,
                StoreErrorView,
            >(page.events[i])
        }),
{
    let problems = certificate_ops::change_problems(rows);
    if rows.len() > 0 {
        let last = rows.len() - 1;
        lemma_no_problem(problems, 0, last);
        assert(problems[last] == outcome::err_of(certificate_ops::change_of(rows[last])));
        assert(certificate_ops::change_of(rows[last]) is Ok);
    }
    if 0 <= i < rows.len() {
        lemma_no_problem(problems, 0, i);
        assert(problems[i] == outcome::err_of(certificate_ops::change_of(rows[i])));
    }
}

/// A snapshot has the revision that is stored, and a binding for each entry: its host in
/// normal form, and the certificate and revisions that the entry gives.
pub proof fn lemma_snapshot_is_what_is_stored(revision: i64, values: Seq<Json>, i: int)
    requires
        certificate_ops::snapshot_of(revision, Some(Json::Array(values))) is Ok,
    ensures
        certificate_ops::snapshot_of(revision, None) matches Ok(None),
        ({
            let snapshot = certificate_ops::snapshot_of(
                revision,
                Some(Json::Array(values)),
            )->Ok_0->0;
            &&& certificate_ops::snapshot_of(revision, Some(Json::Array(values)))->Ok_0 is Some
            &&& snapshot.revision == revision
            &&& snapshot.bindings.len() == values.len()
            &&& 0 <= i < values.len() ==> {
                let binding = snapshot.bindings[i];
                let hostname = json::json_text(json::json_member(values[i], "hostname"@));
                &&& hostname is Some
                &&& binding.hostname == certificate::canonical_name(hostname->0)
                &&& binding.certificate_id == json::json_text(
                    json::json_member(values[i], "certificate_id"@),
                )
                &&& json::json_integer(json::json_member(values[i], "revision"@)) is Some
                &&& binding.revision == json::json_integer(
                    json::json_member(values[i], "revision"@),
                )->0
                &&& json::json_integer(
                    json::json_member(values[i], "last_invalidating_revision"@),
                ) is Some
                &&& binding.last_invalidating_revision == json::json_integer(
                    json::json_member(values[i], "last_invalidating_revision"@),
                )->0
            }
        }),
{
    let problems = certificate_ops::snapshot_problems(values);
    if 0 <= i < values.len() {
        lemma_no_problem(problems, 0, i);
        assert(problems[i] == outcome::err_of(certificate_ops::snapshot_binding(values[i])));
    }
}

/// An entry of a snapshot is read if and only if it names a host, gives no blank
/// certificate, and gives both of its revisions.
pub proof fn lemma_snapshot_entry_in_order_is_read(value: Json)
    ensures
        ({
            let hostname = json::json_text(json::json_member(value, "hostname"@));
            let id = json::json_text(json::json_member(value, "certificate_id"@));
            let revision = json::json_integer(json::json_member(value, "revision"@));
            let last = json::json_integer(
                json::json_member(value, "last_invalidating_revision"@),
            );
            certificate_ops::snapshot_binding(value) is Ok <==> {
                &&& hostname is Some
                &&& certificate::names_host(hostname->0)
                &&& id is None || !text::is_blank(id->0)
                &&& revision is Some
                &&& revision->0 >= 0
                &&& last is Some
                &&& last->0 >= 0
            }
        }),
{
}

} // verus!
