//! Certificates as they are stored.
use control_plane::certificate::seal::{CertificateSealer, SealingKey};
use control_plane::certificate::{
    CertificateBundle, CertificateId, CertificateRevision, CertificateState,
    PublishCertificateRequest, ReencryptCertificateRequest, RemoveCertificateRequest,
    InvalidCertificateResource, ResolveTlsCertificateRequest, SetTlsBindingRequest,
    TlsCertificateChangeKind, TlsCertificateValue, TlsHostname,
};
use control_plane::postgres::certificate_ops::{
    admit_binding, admit_publish, binding, bound, bundle, change_page, check_binding_material,
    check_binding_room, check_bound_inventory, check_snapshot_size, finish_reencryption, metadata,
    publish, reencrypt, remove, resolve, snapshot, CertificateRow, TlsBindingRow,
    TlsCertificateRow, TlsChangeRow,
};
use control_plane::store::StoreError;
use rcgen::{CertificateParams, ExtendedKeyUsagePurpose, KeyPair, KeyUsagePurpose};

const NOW: i64 = 1_767_225_600_000;

#[test]
fn published_keys_are_read_back() {
    let sealer = sealer("a");
    let request = publish_request(0);
    let row = published(&sealer, &request);
    assert_eq!(row.version, 1);
    assert_eq!(row.state, "active");
    assert_eq!(row.dns_names, vec!["api.example.test".to_owned()]);
    assert_ne!(
        row.sealed_private_key.as_ref(),
        Some(request.bundle.private_key_pkcs8_der())
    );
    let meta = metadata(&row).expect("the row is valid");
    assert_eq!(meta.state, CertificateState::Active);
    let read = bundle(&sealer, &row, &meta).expect("the key opens");
    assert_eq!(
        read.private_key_pkcs8_der(),
        request.bundle.private_key_pkcs8_der()
    );
    assert_eq!(read.chain_der(), request.bundle.chain_der());
    let stranger = CertificateSealer::new("b", vec![SealingKey::new("b", [9; 32]).unwrap()]);
    assert!(bundle(&stranger.unwrap(), &row, &meta).is_err());
}

#[test]
fn publishing_needs_the_version_that_is_stored() {
    let sealer = sealer("a");
    let row = published(&sealer, &publish_request(0));
    assert!(admit_publish(CertificateRevision::zero(), &None).unwrap().is_none());
    assert!(admit_publish(CertificateRevision::zero(), &Some(copy(&row))).is_err());
    let old = admit_publish(CertificateRevision::new(1).unwrap(), &Some(row)).unwrap();
    let next = publish(
        Some(&sealer),
        &publish_request(1),
        &old,
        NOW,
        &vec!["api.example.test".to_owned()],
    )
    .expect("the name is covered");
    assert_eq!(next.version, 2);
    assert!(publish(
        Some(&sealer),
        &publish_request(1),
        &old,
        NOW,
        &vec!["other.example.test".to_owned()],
    )
    .is_err());
    assert!(publish(None, &publish_request(1), &old, NOW, &vec![]).is_err());
    assert!(publish(Some(&sealer), &publish_request(1), &old, 0, &vec![]).is_err());
}

#[test]
fn keys_are_sealed_again_without_a_change() {
    let first = sealer("a");
    let row = published(&first, &publish_request(0));
    let rotated = sealer("b");
    let request = ReencryptCertificateRequest {
        id: CertificateId::new("cert-a").unwrap(),
        expected_version: CertificateRevision::new(1).unwrap(),
        expected_sealing_revision: CertificateRevision::new(row.sealing_revision as u64).unwrap(),
    };
    let before = bundle(&first, &row, &metadata(&row).unwrap()).unwrap();
    let resealed = reencrypt(Some(&rotated), &request, Some(copy(&row))).expect("it is stored");
    assert_eq!(resealed.version, row.version);
    assert_eq!(resealed.seal_key_id.as_deref(), Some("b"));
    let after = bundle(&rotated, &resealed, &metadata(&resealed).unwrap()).unwrap();
    assert_eq!(
        before.private_key_pkcs8_der(),
        after.private_key_pkcs8_der()
    );
    assert!(reencrypt(Some(&rotated), &request, Some(resealed)).is_err());
    assert!(reencrypt(Some(&rotated), &request, None).is_err());
    assert!(reencrypt(None, &request, Some(row)).is_err());
}

#[test]
fn a_new_seal_needs_a_next_sealing_revision() {
    let sealer = sealer("a");
    let row = published(&sealer, &publish_request(0));
    let id = CertificateId::new("cert-a").unwrap();
    let version = CertificateRevision::new(1).unwrap();
    let envelope = sealer.seal_with_nonce([7; 12], &id, version, b"digest", b"key").unwrap();
    let last = CertificateRevision::new(i64::MAX as u64).unwrap();
    let resealed = finish_reencryption(copy(&row), version, Ok(envelope.clone())).unwrap();
    assert_eq!(resealed.sealing_revision, 2);
    assert_eq!(resealed.seal_nonce, Some(vec![7; 12]));
    assert_eq!(resealed.sealed_private_key, Some(envelope.ciphertext.clone()));
    assert_eq!(resealed.chain_der, row.chain_der);
    assert!(finish_reencryption(copy(&row), last, Ok(envelope)).is_err());
    assert_eq!(
        finish_reencryption(row, version, Err(InvalidCertificateResource("not sealed"))),
        Err(StoreError::internal("not sealed"))
    );
}

#[test]
fn changes_are_told_up_to_the_last_revision() {
    let after = CertificateRevision::new(4).unwrap();
    let row = |hostname: &str, id: Option<&str>, revision, last_invalidating_revision| {
        TlsChangeRow {
            hostname: hostname.to_owned(),
            binding: TlsBindingRow {
                certificate_id: id.map(str::to_owned),
                revision,
                last_invalidating_revision,
            },
        }
    };
    let page = change_page(after, &vec![]).unwrap();
    assert_eq!((page.cursor.get(), page.events.len()), (4, 0));
    let page = change_page(
        after,
        &vec![
            row("A.example.test", Some("cert-a"), 5, 3),
            row("b.example.test", Some("cert-a"), 6, 6),
            row("c.example.test", None, 7, 7),
        ],
    )
    .unwrap();
    assert_eq!(page.cursor.get(), 7);
    assert!(!page.reset);
    let kinds: Vec<_> = page.events.iter().map(|event| event.kind).collect();
    assert_eq!(
        kinds,
        vec![
            TlsCertificateChangeKind::Published,
            TlsCertificateChangeKind::Bound,
            TlsCertificateChangeKind::Removed,
        ]
    );
    assert_eq!(
        page.events[0].hostname.as_ref().map(TlsHostname::as_str),
        Some("a.example.test")
    );
    assert!(change_page(after, &vec![row("not a host", None, 5, 5)]).is_err());
    assert!(change_page(after, &vec![row("a.example.test", None, -5, 5)]).is_err());
}

#[test]
fn removed_certificates_are_not_published_again() {
    let sealer = sealer("a");
    let row = published(&sealer, &publish_request(0));
    let request = RemoveCertificateRequest {
        id: CertificateId::new("cert-a").unwrap(),
        expected_version: CertificateRevision::new(1).unwrap(),
    };
    let removed = remove(&request, &Some(row)).expect("it is stored");
    assert_eq!(removed.state, "deleted");
    assert!(removed.sealed_private_key.is_none());
    let version = CertificateRevision::new(removed.version as u64).unwrap();
    assert!(admit_publish(version, &Some(copy(&removed))).is_err());
    assert!(remove(&request, &Some(removed)).is_err());
    assert!(remove(&request, &None).is_err());
}

#[test]
fn bindings_need_their_revision_and_a_certificate_that_covers() {
    let sealer = sealer("a");
    let row = Some(published(&sealer, &publish_request(0)));
    let host = TlsHostname::new("api.example.test").unwrap();
    let other = TlsHostname::new("other.example.test").unwrap();
    assert!(check_binding_material(Some(&sealer), &row, &host, NOW).is_ok());
    assert!(check_binding_material(Some(&sealer), &row, &other, NOW).is_err());
    assert!(check_binding_material(Some(&sealer), &None, &host, NOW).is_err());
    assert!(check_binding_material(None, &row, &host, NOW).is_err());

    let request = || SetTlsBindingRequest {
        hostname: TlsHostname::new("api.example.test").unwrap(),
        expected_revision: CertificateRevision::new(3).unwrap(),
        certificate_id: Some(CertificateId::new("cert-a").unwrap()),
    };
    assert!(admit_binding(&request(), Some(3)).is_ok());
    assert!(admit_binding(&request(), Some(4)).is_err());
    assert!(admit_binding(&request(), None).is_err());
    assert!(check_binding_room(1023).is_ok());
    assert!(check_binding_room(1024).is_err());
    assert!(check_bound_inventory(1024).is_ok());
    assert!(check_bound_inventory(1025).is_err());
    assert_eq!(bound(request(), 9).unwrap().revision.get(), 9);
    let stored = TlsBindingRow {
        certificate_id: Some("cert-a".to_owned()),
        revision: 9,
        last_invalidating_revision: 4,
    };
    assert_eq!(
        binding(host, &Some(stored))
            .unwrap()
            .last_invalidating_revision
            .get(),
        4
    );
}

#[test]
fn names_resolve_to_what_is_bound() {
    let sealer = sealer("a");
    let row = published(&sealer, &publish_request(0));
    let request = |known| ResolveTlsCertificateRequest {
        hostname: TlsHostname::new("api.example.test").unwrap(),
        known_view_revision: known,
    };
    let stored = TlsCertificateRow {
        view_revision: Some(5),
        observed_at: NOW,
        certificate: Some(row),
    };
    let found = resolve(Some(&sealer), request(None), &stored).expect("it is bound");
    assert!(matches!(found.value, TlsCertificateValue::Found { .. }));
    assert_eq!(found.view_revision.get(), 5);
    let known = Some(CertificateRevision::new(5).unwrap());
    let unchanged = resolve(Some(&sealer), request(known), &stored).expect("it is bound");
    assert!(matches!(
        unchanged.value,
        TlsCertificateValue::Unchanged { .. }
    ));
    let unbound = TlsCertificateRow {
        view_revision: None,
        observed_at: NOW,
        certificate: None,
    };
    let missing = resolve(Some(&sealer), request(None), &unbound).expect("nothing is bound");
    assert!(matches!(missing.value, TlsCertificateValue::Missing));
}

#[test]
fn snapshots_are_read_from_what_the_database_gathers() {
    let value = serde_json::from_str(
        r#"[{"hostname":"a.example","certificate_id":"cert-a","revision":3,
             "last_invalidating_revision":2},
            {"hostname":"b.example","certificate_id":null,"revision":0,
             "last_invalidating_revision":0}]"#,
    )
    .expect("valid JSON");
    let read = snapshot(7, &Some(value))
        .expect("the bindings are valid")
        .expect("there are bindings");
    assert_eq!(read.revision.get(), 7);
    assert_eq!(read.bindings.len(), 2);
    assert_eq!(read.bindings[0].hostname.as_str(), "a.example");
    assert_eq!(read.bindings[0].last_invalidating_revision.get(), 2);
    assert!(read.bindings[1].certificate_id.is_none());
    assert_eq!(snapshot(7, &None), Ok(None));
    let broken = serde_json::from_str(r#"[{"hostname":"a.example"}]"#).expect("valid JSON");
    assert!(matches!(
        snapshot(7, &Some(broken)),
        Err(StoreError::Internal { .. })
    ));
    assert!(check_snapshot_size(&vec![TlsHostname::new("a.example").unwrap()]).is_ok());
}

fn sealer(active: &str) -> CertificateSealer {
    CertificateSealer::new(
        active,
        vec![
            SealingKey::new("a", [7; 32]).unwrap(),
            SealingKey::new("b", [8; 32]).unwrap(),
        ],
    )
    .unwrap()
}

fn published(sealer: &CertificateSealer, request: &PublishCertificateRequest) -> CertificateRow {
    publish(Some(sealer), request, &None, NOW, &vec![]).expect("the certificate is valid")
}

fn copy(row: &CertificateRow) -> CertificateRow {
    CertificateRow {
        certificate_id: row.certificate_id.clone(),
        version: row.version,
        state: row.state.clone(),
        not_before_unix_millis: row.not_before_unix_millis,
        not_after_unix_millis: row.not_after_unix_millis,
        dns_names: row.dns_names.clone(),
        leaf_sha256: row.leaf_sha256.clone(),
        chain_der: row.chain_der.clone(),
        seal_format: row.seal_format,
        seal_key_id: row.seal_key_id.clone(),
        seal_nonce: row.seal_nonce.clone(),
        sealed_private_key: row.sealed_private_key.clone(),
        sealing_revision: row.sealing_revision,
    }
}

fn publish_request(expected_version: u64) -> PublishCertificateRequest {
    let mut params = CertificateParams::new(vec!["api.example.test".to_owned()]).unwrap();
    params.not_before = rcgen::date_time_ymd(2025, 1, 1);
    params.not_after = rcgen::date_time_ymd(2030, 1, 1);
    params.extended_key_usages = vec![ExtendedKeyUsagePurpose::ServerAuth];
    params.key_usages = vec![KeyUsagePurpose::DigitalSignature];
    let key = KeyPair::generate().unwrap();
    let chain = vec![params.self_signed(&key).unwrap().der().to_vec()];
    PublishCertificateRequest {
        id: CertificateId::new("cert-a").unwrap(),
        expected_version: if expected_version == 0 {
            CertificateRevision::zero()
        } else {
            CertificateRevision::new(expected_version).unwrap()
        },
        bundle: CertificateBundle::new(chain, key.serialize_der()).unwrap(),
    }
}
