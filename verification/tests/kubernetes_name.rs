//! Names of Kubernetes objects.
use control_plane::ids::InstanceId;
use control_plane::kubernetes_name::{
    is_dns_label, render_instance_scoped_name, DNS_LABEL_MAX_LEN,
};

#[test]
fn dns_label_validation_matches_kubernetes_name_budget() {
    assert!(is_dns_label("a"));
    assert!(is_dns_label("tenant-123"));
    assert!(is_dns_label(&"a".repeat(DNS_LABEL_MAX_LEN)));

    for value in ["", "A", "a_b", "a.b", "-a", "a-"] {
        assert!(!is_dns_label(value), "{value:?} should be invalid");
    }
    let overlong = "a".repeat(64);
    assert!(!is_dns_label(&overlong));
}

#[test]
fn instance_scoped_name_preserves_short_instance_id_suffix() {
    assert_eq!(
        render_instance_scoped_name("api", &instance_id("inst")),
        "api-inst"
    );
}

#[test]
fn instance_scoped_name_preserves_eight_character_prefix_for_long_instance_id() {
    assert_eq!(
        render_instance_scoped_name("api", &instance_id("instance-a")),
        "api-instance"
    );
}

#[test]
fn instance_scoped_name_extends_suffix_when_eight_character_prefix_ends_in_hyphen() {
    assert_eq!(
        render_instance_scoped_name("api", &instance_id("restart-wake")),
        "api-restart-w"
    );
}

#[test]
fn instance_scoped_name_trims_suffix_when_extended_prefix_still_ends_in_hyphen() {
    assert_eq!(
        render_instance_scoped_name("api", &instance_id("a----------------b")),
        "api-a"
    );
}

#[test]
fn instance_scoped_name_truncates_base_before_suffix() {
    let rendered = render_instance_scoped_name(&"a".repeat(80), &instance_id("instance-a"));

    assert_eq!(rendered.len(), DNS_LABEL_MAX_LEN);
    assert!(rendered.ends_with("-instance"));
    assert!(is_dns_label(&rendered));
}

fn instance_id(value: &str) -> InstanceId {
    InstanceId::new(value).expect("valid instance ID")
}
