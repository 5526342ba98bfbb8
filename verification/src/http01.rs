//! Answers to HTTP-01 challenges.
use vstd::prelude::*;

use crate::outcome;
use crate::route;
use crate::route::InvalidRoute;
use crate::route::RouteHost;
use crate::route::RouteHostKind;
use crate::text;

verus! {

/// Why a challenge or its answer is not accepted.
#[derive(Debug, PartialEq, Eq)]
pub enum InvalidHttp01Challenge {
    Host(InvalidRoute),
    EmptyToken,
    EmptyKeyAuthorization,
    Expired,
}

/// What an [`InvalidHttp01Challenge`] holds.
#[verifier::ext_equal]
pub enum InvalidHttp01ChallengeView {
    Host(InvalidRoute),
    EmptyToken,
    EmptyKeyAuthorization,
    Expired,
}

impl DeepView for InvalidHttp01Challenge {
    type V = InvalidHttp01ChallengeView;

    open spec fn deep_view(&self) -> InvalidHttp01ChallengeView {
        match self {
            InvalidHttp01Challenge::Host(value) => InvalidHttp01ChallengeView::Host(
                value.deep_view(),
            ),
            InvalidHttp01Challenge::EmptyToken => InvalidHttp01ChallengeView::EmptyToken,
            InvalidHttp01Challenge::EmptyKeyAuthorization => {
                InvalidHttp01ChallengeView::EmptyKeyAuthorization
            },
            InvalidHttp01Challenge::Expired => InvalidHttp01ChallengeView::Expired,
        }
    }
}

impl Clone for InvalidHttp01Challenge {
    fn clone(&self) -> (r: Self)
        ensures
            r.deep_view() == self.deep_view(),
    {
        match self {
            InvalidHttp01Challenge::Host(value) => InvalidHttp01Challenge::Host(*value),
            InvalidHttp01Challenge::EmptyToken => InvalidHttp01Challenge::EmptyToken,
            InvalidHttp01Challenge::EmptyKeyAuthorization => {
                InvalidHttp01Challenge::EmptyKeyAuthorization
            },
            InvalidHttp01Challenge::Expired => InvalidHttp01Challenge::Expired,
        }
    }
}

/// What is shown for a challenge that is not accepted.
pub open spec fn invalid_challenge_message(error: InvalidHttp01ChallengeView) -> Seq<char> {
    match error {
        InvalidHttp01ChallengeView::Host(error) => route::invalid_route_message(error),
        InvalidHttp01ChallengeView::EmptyToken => "HTTP-01 token must not be empty"@,
        InvalidHttp01ChallengeView::EmptyKeyAuthorization => {
            "HTTP-01 key authorization must not be empty"@
        },
        InvalidHttp01ChallengeView::Expired => "HTTP-01 challenge is already expired"@,
    }
}

impl InvalidHttp01Challenge {
    pub fn to_string(&self) -> (r: String)
        ensures
            r@ == invalid_challenge_message(self.deep_view()),
    {
        match self {
            InvalidHttp01Challenge::Host(error) => error.to_string(),
            InvalidHttp01Challenge::EmptyToken => "HTTP-01 token must not be empty".to_owned(),
            InvalidHttp01Challenge::EmptyKeyAuthorization => {
                "HTTP-01 key authorization must not be empty".to_owned()
            },
            InvalidHttp01Challenge::Expired => "HTTP-01 challenge is already expired".to_owned(),
        }
    }
}

/// Names a challenge: the host that is challenged and the token.
#[derive(Debug, PartialEq, Eq)]
pub struct Http01ChallengeKey {
    host: RouteHost,
    token: String,
}

/// What a [`Http01ChallengeKey`] holds.
#[verifier::ext_equal]
pub struct Http01ChallengeKeyView {
    pub host: Seq<char>,
    pub token: Seq<char>,
}

impl DeepView for Http01ChallengeKey {
    type V = Http01ChallengeKeyView;

    closed spec fn deep_view(&self) -> Http01ChallengeKeyView {
        Http01ChallengeKeyView { host: self.host.deep_view().host, token: self.token@ }
    }
}

impl Clone for Http01ChallengeKey {
    fn clone(&self) -> (r: Self)
        ensures
            r.deep_view() == self.deep_view(),
    {
        proof {
            use_type_invariant(self);
        }
        Http01ChallengeKey { host: self.host.clone(), token: self.token.clone() }
    }
}

/// The key of a host and a token, or why there is none.
pub open spec fn challenge_key(host: Seq<char>, token: Seq<char>) -> Result<
    Http01ChallengeKeyView,
    InvalidHttp01ChallengeView,
> {
    if text::is_blank(route::normal_host(host)) {
        Err(InvalidHttp01ChallengeView::Host(InvalidRoute::EmptyHost))
    } else if text::is_blank(token) {
        Err(InvalidHttp01ChallengeView::EmptyToken)
    } else {
        Ok(Http01ChallengeKeyView { host: route::normal_host(host), token })
    }
}

impl Http01ChallengeKey {
    #[verifier::type_invariant]
    spec fn names_one_host(&self) -> bool {
        self.host.deep_view().kind == RouteHostKind::Exact
    }

    /// The key of a host, in its normal form, and a token.
    pub fn new(host: &str, token: &str) -> (r: Result<Self, InvalidHttp01Challenge>)
        ensures
            outcome::of(r) == challenge_key(host@, token@),
    {
        let host = match RouteHost::exact(host) {
            Ok(host) => host,
            Err(error) => return Err(InvalidHttp01Challenge::Host(error)),
        };
        if text::blank(token) {
            return Err(InvalidHttp01Challenge::EmptyToken);
        }
        Ok(Http01ChallengeKey { host, token: token.to_owned() })
    }

    pub fn host(&self) -> (r: &RouteHost)
        ensures
            r.deep_view().kind == RouteHostKind::Exact,
            r.deep_view().host == self.deep_view().host,
    {
        proof {
            use_type_invariant(self);
        }
        &self.host
    }

    pub fn token(&self) -> (r: &str)
        ensures
            r@ == self.deep_view().token,
    {
        self.token.as_str()
    }
}

/// A challenge, its answer, and until when it holds.
#[derive(Debug, PartialEq, Eq)]
pub struct Http01ChallengeRecord {
    pub key: Http01ChallengeKey,
    pub key_authorization: String,
    pub expires_at_unix_millis: i64,
}

/// What a [`Http01ChallengeRecord`] holds.
#[verifier::ext_equal]
pub struct Http01ChallengeRecordView {
    pub key: Http01ChallengeKeyView,
    pub key_authorization: Seq<char>,
    pub expires_at_unix_millis: i64,
}

impl DeepView for Http01ChallengeRecord {
    type V = Http01ChallengeRecordView;

    open spec fn deep_view(&self) -> Http01ChallengeRecordView {
        Http01ChallengeRecordView {
            key: self.key.deep_view(),
            key_authorization: self.key_authorization.deep_view(),
            expires_at_unix_millis: self.expires_at_unix_millis.deep_view(),
        }
    }
}

impl Clone for Http01ChallengeRecord {
    fn clone(&self) -> (r: Self)
        ensures
            r.deep_view() == self.deep_view(),
    {
        Http01ChallengeRecord {
            key: self.key.clone(),
            key_authorization: self.key_authorization.clone(),
            expires_at_unix_millis: self.expires_at_unix_millis,
        }
    }
}

/// What keeps an answer from being accepted.
pub open spec fn answer_problem(
    key_authorization: Seq<char>,
    expires_at_unix_millis: i64,
    now_unix_millis: i64,
) -> Option<InvalidHttp01ChallengeView> {
    if text::is_blank(key_authorization) {
        Some(InvalidHttp01ChallengeView::EmptyKeyAuthorization)
    } else if expires_at_unix_millis <= now_unix_millis {
        Some(InvalidHttp01ChallengeView::Expired)
    } else {
        None
    }
}

impl Http01ChallengeRecord {
    /// The answer to a challenge, if it still holds.
    pub fn new(
        key: Http01ChallengeKey,
        key_authorization: &str,
        expires_at_unix_millis: i64,
        now_unix_millis: i64,
    ) -> (r: Result<Self, InvalidHttp01Challenge>)
        ensures
            outcome::of(r) == match answer_problem(
                key_authorization@,
                expires_at_unix_millis,
                now_unix_millis,
            ) {
                Some(error) => Err(error),
                None => Ok(
                    Http01ChallengeRecordView {
                        key: key.deep_view(),
                        key_authorization: key_authorization@,
                        expires_at_unix_millis,
                    },
                ),
            },
    {
        if text::blank(key_authorization) {
            return Err(InvalidHttp01Challenge::EmptyKeyAuthorization);
        }
        if expires_at_unix_millis <= now_unix_millis {
            return Err(InvalidHttp01Challenge::Expired);
        }
        Ok(
            Http01ChallengeRecord {
                key,
                key_authorization: key_authorization.to_owned(),
                expires_at_unix_millis,
            },
        )
    }
}

/// Puts the answer to a challenge.
#[derive(Debug, PartialEq, Eq)]
pub struct PutHttp01ChallengeRequest {
    pub key: Http01ChallengeKey,
    pub key_authorization: String,
    pub expires_at_unix_millis: i64,
}

/// What a [`PutHttp01ChallengeRequest`] holds.
#[verifier::ext_equal]
pub struct PutHttp01ChallengeRequestView {
    pub key: Http01ChallengeKeyView,
    pub key_authorization: Seq<char>,
    pub expires_at_unix_millis: i64,
}

impl DeepView for PutHttp01ChallengeRequest {
    type V = PutHttp01ChallengeRequestView;

    open spec fn deep_view(&self) -> PutHttp01ChallengeRequestView {
        PutHttp01ChallengeRequestView {
            key: self.key.deep_view(),
            key_authorization: self.key_authorization.deep_view(),
            expires_at_unix_millis: self.expires_at_unix_millis.deep_view(),
        }
    }
}

impl Clone for PutHttp01ChallengeRequest {
    fn clone(&self) -> (r: Self)
        ensures
            r.deep_view() == self.deep_view(),
    {
        PutHttp01ChallengeRequest {
            key: self.key.clone(),
            key_authorization: self.key_authorization.clone(),
            expires_at_unix_millis: self.expires_at_unix_millis,
        }
    }
}

impl PutHttp01ChallengeRequest {
    /// Puts the answer to a challenge, if it still holds.
    pub fn new(
        key: Http01ChallengeKey,
        key_authorization: &str,
        expires_at_unix_millis: i64,
        now_unix_millis: i64,
    ) -> (r: Result<Self, InvalidHttp01Challenge>)
        ensures
            outcome::of(r) == match answer_problem(
                key_authorization@,
                expires_at_unix_millis,
                now_unix_millis,
            ) {
                Some(error) => Err(error),
                None => Ok(
                    PutHttp01ChallengeRequestView {
                        key: key.deep_view(),
                        key_authorization: key_authorization@,
                        expires_at_unix_millis,
                    },
                ),
            },
    {
        if text::blank(key_authorization) {
            return Err(InvalidHttp01Challenge::EmptyKeyAuthorization);
        }
        if expires_at_unix_millis <= now_unix_millis {
            return Err(InvalidHttp01Challenge::Expired);
        }
        Ok(
            PutHttp01ChallengeRequest {
                key,
                key_authorization: key_authorization.to_owned(),
                expires_at_unix_millis,
            },
        )
    }
}

/// Drops the answer to a challenge.
#[derive(Debug, PartialEq, Eq)]
pub struct DeleteHttp01ChallengeRequest {
    pub key: Http01ChallengeKey,
}

/// What a [`DeleteHttp01ChallengeRequest`] holds.
#[verifier::ext_equal]
pub struct DeleteHttp01ChallengeRequestView {
    pub key: Http01ChallengeKeyView,
}

impl DeepView for DeleteHttp01ChallengeRequest {
    type V = DeleteHttp01ChallengeRequestView;

    open spec fn deep_view(&self) -> DeleteHttp01ChallengeRequestView {
        DeleteHttp01ChallengeRequestView {
            key: self.key.deep_view(),
        }
    }
}

impl Clone for DeleteHttp01ChallengeRequest {
    fn clone(&self) -> (r: Self)
        ensures
            r.deep_view() == self.deep_view(),
    {
        DeleteHttp01ChallengeRequest {
            key: self.key.clone(),
        }
    }
}

impl DeleteHttp01ChallengeRequest {
    pub fn new(key: Http01ChallengeKey) -> (r: Self)
        ensures
            r.key == key,
    {
        DeleteHttp01ChallengeRequest { key }
    }
}

/// Drops the answers that are out of date, so many at once.
#[derive(Debug, PartialEq, Eq)]
pub struct ExpireHttp01ChallengesRequest {
    pub now_unix_millis: i64,
    pub limit: Option<usize>,
}

/// What an [`ExpireHttp01ChallengesRequest`] holds.
#[verifier::ext_equal]
pub struct ExpireHttp01ChallengesRequestView {
    pub now_unix_millis: i64,
    pub limit: Option<usize>,
}

impl DeepView for ExpireHttp01ChallengesRequest {
    type V = ExpireHttp01ChallengesRequestView;

    open spec fn deep_view(&self) -> ExpireHttp01ChallengesRequestView {
        ExpireHttp01ChallengesRequestView {
            now_unix_millis: self.now_unix_millis.deep_view(),
            limit: self.limit.deep_view(),
        }
    }
}

impl Clone for ExpireHttp01ChallengesRequest {
    fn clone(&self) -> (r: Self)
        ensures
            r.deep_view() == self.deep_view(),
    {
        ExpireHttp01ChallengesRequest {
            now_unix_millis: self.now_unix_millis,
            limit: self.limit,
        }
    }
}

impl ExpireHttp01ChallengesRequest {
    /// Drops all answers that are out of date.
    pub fn new(now_unix_millis: i64) -> (r: Self)
        ensures
            r.deep_view() == (ExpireHttp01ChallengesRequestView { now_unix_millis, limit: None }),
    {
        ExpireHttp01ChallengesRequest { now_unix_millis, limit: None }
    }

    /// Drops so many of them at once.
    pub fn with_limit(self, limit: usize) -> (r: Self)
        ensures
            r.deep_view() == (ExpireHttp01ChallengesRequestView {
                limit: Some(limit),
                ..self.deep_view()
            }),
    {
        ExpireHttp01ChallengesRequest { now_unix_millis: self.now_unix_millis, limit: Some(limit) }
    }
}

/// The key of a challenge keeps its token as it is and names the host in its normal
/// form, so that a host finds its challenge however it is written.
pub proof fn lemma_key_is_of_its_host_and_token(
    host: Seq<char>,
    other: Seq<char>,
    token: Seq<char>,
)
    ensures
        challenge_key(host, token) matches Ok(key) ==> key.token == token && key.host
            == route::normal_host(host) && !text::is_blank(key.host) && !text::is_blank(key.token),
        challenge_key(host, token) is Ok <==> !text::is_blank(token) && !text::is_blank(
            route::normal_host(host),
        ),
        route::normal_host(host) == route::normal_host(other) ==> challenge_key(host, token)
            == challenge_key(other, token),
{
}

/// An answer is accepted if and only if it says something and has not expired yet.
pub proof fn lemma_answer_in_order_is_accepted(
    key_authorization: Seq<char>,
    expires_at_unix_millis: i64,
    now_unix_millis: i64,
)
    ensures
        answer_problem(key_authorization, expires_at_unix_millis, now_unix_millis) is None
            <==> now_unix_millis < expires_at_unix_millis && !text::is_blank(key_authorization),
        answer_problem(key_authorization, expires_at_unix_millis, now_unix_millis) == Some(
            InvalidHttp01ChallengeView::Expired,
        ) ==> expires_at_unix_millis <= now_unix_millis,
        answer_problem(key_authorization, expires_at_unix_millis, now_unix_millis) == Some(
            InvalidHttp01ChallengeView::EmptyKeyAuthorization,
        ) ==> text::is_blank(key_authorization),
{
}

} // verus!
