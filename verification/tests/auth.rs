//! Who may call.
use control_plane::auth::{
    AuthConfig, AuthDecision, AuthFailureReason, AuthProvider, BearerToken, CallerRole,
    ControlPlaneAuth, ControlPlaneAuthInterceptor, InvalidBearerToken, InvalidStaticBearerTokens,
    OptionalBearerTokenInterceptor, StaticBearerAuthProvider, StaticBearerTokens,
};
use control_plane::api::status::StatusCode;
use tonic::metadata::{MetadataMap, MetadataValue};

const SERVICE: &str = "sleepypods.controlplane.v1.ProxyControlPlane";

#[test]
fn static_provider_accepts_distinct_role_tokens() {
    let provider = StaticBearerAuthProvider::new(tokens());

    assert_eq!(
        provider.authenticate(&metadata("Bearer operator-secret")),
        Ok(CallerRole::Operator)
    );
    assert_eq!(
        provider.authenticate(&metadata("Bearer proxy-secret")),
        Ok(CallerRole::Proxy)
    );
    assert_eq!(
        provider.authenticate(&metadata("Bearer sidecar-secret")),
        Ok(CallerRole::Sidecar)
    );
}

#[test]
fn static_provider_classifies_missing_malformed_and_invalid_credentials() {
    let provider = StaticBearerAuthProvider::new(tokens());

    assert_eq!(
        provider.authenticate(&MetadataMap::new()),
        Err(AuthFailureReason::Missing)
    );
    assert_eq!(
        provider.authenticate(&metadata("Basic proxy-secret")),
        Err(AuthFailureReason::Malformed)
    );
    assert_eq!(
        provider.authenticate(&metadata("Bearer proxy-secret extra")),
        Err(AuthFailureReason::Malformed)
    );
    assert_eq!(
        provider.authenticate(&metadata("Bearer wrong-secret")),
        Err(AuthFailureReason::Invalid)
    );
}

#[test]
fn sidecars_are_given_their_own_token() {
    let config = AuthConfig::static_bearer_tokens(tokens());
    let token = config.sidecar_bearer_token().expect("tokens are configured");

    assert_eq!(token.as_secret_str(), "sidecar-secret");
    assert!(AuthConfig::no_auth().sidecar_bearer_token().is_none());
}

#[test]
fn without_authentication_every_caller_has_the_required_role() {
    for auth in [
        ControlPlaneAuth::no_auth_for_tests(),
        ControlPlaneAuth::from_config(AuthConfig::no_auth()),
    ] {
        let (result, decision) =
            auth.authorize(&MetadataMap::new(), SERVICE, CallerRole::Proxy);

        assert_eq!(result, Ok(CallerRole::Proxy));
        assert_eq!((decision.decision, decision.reason), ("accepted", "accepted"));
    }
}

#[test]
fn interceptor_maps_wrong_role_to_permission_denied_before_handler() {
    let auth = ControlPlaneAuth::from_config(AuthConfig::static_bearer_tokens(tokens()));
    let interceptor = auth.interceptor(SERVICE, CallerRole::Proxy);

    let error = interceptor
        .check(&metadata("Bearer operator-secret"))
        .0
        .expect_err("operator credentials cannot call proxy service");

    assert_eq!(error.code(), StatusCode::PermissionDenied);
    assert!(!error.message().contains("operator-secret"));
}

#[test]
fn no_auth_mode_accepts_without_credentials_and_records_explicit_decision() {
    let auth = ControlPlaneAuth::from_config(AuthConfig::NoAuth);
    let interceptor = auth.interceptor(SERVICE, CallerRole::Sidecar);

    let (answer, decision) = interceptor.check(&MetadataMap::new());
    answer.expect("no-auth mode accepts missing authorization");

    assert_eq!(decision.decision, "accepted");
    assert_eq!(decision.reason, "accepted");
    assert_eq!(decision.required_role.as_str(), "sidecar");
    assert_eq!(decision.caller_role.map(CallerRole::as_str), Some("sidecar"));
    assert_eq!(decision.service_name, SERVICE);
}

#[test]
fn observability_records_rejections_without_credential_material() {
    let auth = ControlPlaneAuth::from_config(AuthConfig::static_bearer_tokens(tokens()));
    let interceptor = auth.interceptor(SERVICE, CallerRole::Proxy);

    let (_, decision) = interceptor.check(&metadata("Bearer very-secret-wrong-token"));

    let debug = format!("{decision:?}");
    assert!(debug.contains("invalid"));
    assert!(!debug.contains("very-secret-wrong-token"));
    assert!(!debug.contains("proxy-secret"));
}

#[test]
fn observability_records_all_auth_decisions_without_secrets() {
    let auth = ControlPlaneAuth::from_config(AuthConfig::static_bearer_tokens(tokens()));
    assert!(auth.asks_for_credentials());
    assert!(!ControlPlaneAuth::no_auth_for_tests().asks_for_credentials());
    let interceptor: ControlPlaneAuthInterceptor = auth.interceptor(SERVICE, CallerRole::Proxy);

    let decisions: Vec<AuthDecision> = vec![
        interceptor.check(&metadata("Bearer proxy-secret")).1,
        interceptor.check(&MetadataMap::new()).1,
        interceptor.check(&metadata("Bearer very-secret-wrong-token")).1,
        interceptor.check(&metadata("Bearer operator-secret")).1,
    ];

    let reasons = decisions
        .iter()
        .map(|decision| decision.reason)
        .collect::<Vec<_>>();
    assert_eq!(reasons, ["accepted", "missing", "invalid", "wrong_role"]);

    let debug = format!("{decisions:?}");
    for secret in [
        "operator-secret",
        "proxy-secret",
        "sidecar-secret",
        "very-secret-wrong-token",
    ] {
        assert!(!debug.contains(secret), "auth logs leaked {secret}");
    }
}

#[test]
fn static_token_config_rejects_malformed_or_duplicate_tokens() {
    assert!(matches!(
        BearerToken::new("test", "has space"),
        Err(InvalidBearerToken::ContainsWhitespace { field: "test" })
    ));
    assert!(matches!(
        BearerToken::new("test", "unicodé"),
        Err(InvalidBearerToken::ContainsNonAscii { field: "test" })
    ));
    assert!(matches!(
        StaticBearerTokens::new("same", "same", "other"),
        Err(InvalidStaticBearerTokens::DuplicateToken {
            first: CallerRole::Operator,
            second: CallerRole::Proxy
        })
    ));
    assert!(!tokens().to_debug_string().contains("operator-secret"));
}

fn tokens() -> StaticBearerTokens {
    StaticBearerTokens::new("operator-secret", "proxy-secret", "sidecar-secret")
        .expect("tokens are valid")
}

fn metadata(authorization: &'static str) -> MetadataMap {
    let mut metadata = MetadataMap::new();
    metadata.insert("authorization", MetadataValue::from_static(authorization));
    metadata
}

#[test]
fn headers_that_are_not_text_are_malformed() {
    let provider = StaticBearerAuthProvider::new(tokens());
    let mut metadata = MetadataMap::new();
    metadata.insert(
        "authorization",
        MetadataValue::try_from(&b"Bearer \xffsecret"[..]).expect("opaque header value"),
    );

    assert_eq!(
        provider.authenticate(&metadata),
        Err(AuthFailureReason::Malformed)
    );
}

#[test]
fn the_scheme_is_matched_in_any_case_and_the_token_exactly() {
    let provider = StaticBearerAuthProvider::new(tokens());

    assert_eq!(
        provider.authenticate(&metadata("bEaReR proxy-secret")),
        Ok(CallerRole::Proxy)
    );
    assert_eq!(
        provider.authenticate(&metadata("Bearer PROXY-SECRET")),
        Err(AuthFailureReason::Invalid)
    );
    assert_eq!(
        provider.authenticate(&metadata("Bearer")),
        Err(AuthFailureReason::Malformed)
    );
    assert_eq!(
        provider.authenticate(&metadata("Bearer ")),
        Err(AuthFailureReason::Malformed)
    );
}

#[test]
fn tokens_of_every_role_are_checked() {
    assert!(matches!(
        StaticBearerTokens::new("a", "b", "a"),
        Err(InvalidStaticBearerTokens::DuplicateToken {
            first: CallerRole::Operator,
            second: CallerRole::Sidecar
        })
    ));
    assert!(matches!(
        StaticBearerTokens::new("a", "b", "b"),
        Err(InvalidStaticBearerTokens::DuplicateToken {
            first: CallerRole::Proxy,
            second: CallerRole::Sidecar
        })
    ));
    assert!(matches!(
        BearerToken::new("test", ""),
        Err(InvalidBearerToken::Empty { field: "test" })
    ));
    assert!(matches!(
        BearerToken::new("test", "a\u{7f}b"),
        Err(InvalidBearerToken::ContainsControl { field: "test" })
    ));
    assert!(matches!(
        StaticBearerTokens::new("a", "", "b"),
        Err(InvalidStaticBearerTokens::InvalidToken { .. })
    ));
}

#[test]
fn outgoing_calls_carry_the_token() {
    let token = BearerToken::new("test", "proxy-secret").expect("valid token");
    let interceptor = OptionalBearerTokenInterceptor::new(Some(&token)).expect("valid header");
    assert_eq!(interceptor.authorization(), Some("Bearer proxy-secret"));

    let interceptor = OptionalBearerTokenInterceptor::new(None).expect("no header");
    assert_eq!(interceptor.authorization(), None);
}
