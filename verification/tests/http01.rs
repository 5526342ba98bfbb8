//! Answers to HTTP-01 challenges: requests, rows and messages.
use std::time::{Duration, SystemTime};

use control_plane::api::pb;
use control_plane::api::server::{
    delete_http01_request_from_proto, expire_http01_request_from_proto, http01_to_proto,
    put_http01_request_from_proto,
};
use control_plane::api::status::StatusCode;
use control_plane::http01::{
    DeleteHttp01ChallengeRequest, ExpireHttp01ChallengesRequest, Http01ChallengeKey,
    Http01ChallengeRecord, InvalidHttp01Challenge, PutHttp01ChallengeRequest,
};
use control_plane::postgres::http01_ops::{http01_from_row, Http01Row};
use control_plane::route::InvalidRoute;
use control_plane::store::StoreError;
use control_plane::time::{system_time_from_unix_millis, unix_millis};

#[test]
fn challenges_have_a_host_and_a_token() {
    let key = key("App.Example.com", "token-1");

    assert_eq!(key.host().as_str(), "app.example.com");
    assert_eq!(key.token(), "token-1");
    assert_eq!(
        Http01ChallengeKey::new(" ", "token-1"),
        Err(InvalidHttp01Challenge::Host(InvalidRoute::EmptyHost)),
    );
    assert_eq!(
        Http01ChallengeKey::new("app.example.com", " "),
        Err(InvalidHttp01Challenge::EmptyToken),
    );
}

#[test]
fn answers_that_are_out_of_date_are_refused() {
    let key = key("app.example.com", "token-1");

    assert_eq!(
        Http01ChallengeRecord::new(key.clone(), "", 2_000, 1_000),
        Err(InvalidHttp01Challenge::EmptyKeyAuthorization),
    );
    assert_eq!(
        Http01ChallengeRecord::new(key.clone(), "answer", 1_000, 1_000),
        Err(InvalidHttp01Challenge::Expired),
    );
    let record = Http01ChallengeRecord::new(key, "answer", 1_001, 1_000).expect("it still holds");
    assert_eq!(record.key_authorization, "answer");
    assert_eq!(record.expires_at_unix_millis, 1_001);
}

#[test]
fn refusals_of_challenges_are_explained() {
    assert_eq!(
        InvalidHttp01Challenge::Host(InvalidRoute::EmptyHost).to_string(),
        "route host must not be empty",
    );
    assert_eq!(
        InvalidHttp01Challenge::EmptyToken.to_string(),
        "HTTP-01 token must not be empty",
    );
    assert_eq!(
        InvalidHttp01Challenge::EmptyKeyAuthorization.to_string(),
        "HTTP-01 key authorization must not be empty",
    );
    assert_eq!(
        InvalidHttp01Challenge::Expired.to_string(),
        "HTTP-01 challenge is already expired",
    );
}

#[test]
fn challenge_requests_are_read() {
    let request = pb::PutHttp01ChallengeRequest {
        key: Some(pb_key()),
        key_authorization: "answer".to_owned(),
        expires_at_unix_millis: 2_000,
    };

    assert_eq!(
        put_http01_request_from_proto(&request, 1_000),
        Ok(PutHttp01ChallengeRequest {
            key: key("app.example.com", "token-1"),
            key_authorization: "answer".to_owned(),
            expires_at_unix_millis: 2_000,
        }),
    );
    let error = put_http01_request_from_proto(&request, 2_000).expect_err("it is out of date");
    assert_eq!(error.code(), StatusCode::InvalidArgument);
    assert_eq!(error.message(), "HTTP-01 challenge is already expired");

    let error = delete_http01_request_from_proto(&pb::DeleteHttp01ChallengeRequest { key: None })
        .expect_err("a key is required");
    assert_eq!(error.message(), "key is required");
    assert_eq!(
        delete_http01_request_from_proto(&pb::DeleteHttp01ChallengeRequest {
            key: Some(pb_key()),
        }),
        Ok(DeleteHttp01ChallengeRequest::new(key("app.example.com", "token-1"))),
    );

    assert_eq!(
        expire_http01_request_from_proto(&pb::ExpireHttp01ChallengesRequest {
            now_unix_millis: 5,
            limit: Some(10),
        }),
        Ok(ExpireHttp01ChallengesRequest::new(5).with_limit(10)),
    );
}

#[test]
fn stored_answers_are_read_and_sent() {
    let row = Http01Row {
        host: "app.example.com".to_owned(),
        token: "token-1".to_owned(),
        key_authorization: "answer".to_owned(),
        expires_at_unix_millis: 1,
    };
    let record = http01_from_row(&row).expect("the row is valid");

    assert_eq!(record.key, key("app.example.com", "token-1"));
    assert_eq!(
        http01_to_proto(&record),
        pb::Http01Challenge {
            key: Some(pb_key()),
            key_authorization: "answer".to_owned(),
            expires_at_unix_millis: 1,
        },
    );
    assert_eq!(
        http01_from_row(&Http01Row { expires_at_unix_millis: 0, ..row }),
        Err(StoreError::Internal {
            message: "stored Postgres data is invalid: HTTP-01 challenge is already expired"
                .to_owned(),
        }),
    );
}

#[test]
fn points_in_time_are_told_in_milliseconds_and_back() {
    let at = system_time_from_unix_millis(1_700_000_000_123).expect("the machine has it");

    assert_eq!(at, SystemTime::UNIX_EPOCH + Duration::from_millis(1_700_000_000_123));
    assert_eq!(unix_millis(at), Some(1_700_000_000_123));
    let before = system_time_from_unix_millis(-1_500).expect("the machine has it");
    assert_eq!(unix_millis(before), Some(-1_500));
}

fn key(host: &str, token: &str) -> Http01ChallengeKey {
    Http01ChallengeKey::new(host, token).expect("valid challenge key")
}

fn pb_key() -> pb::Http01ChallengeKey {
    pb::Http01ChallengeKey {
        host: "app.example.com".to_owned(),
        token: "token-1".to_owned(),
    }
}
