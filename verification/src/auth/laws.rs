//! What holds of tokens and of who is let through.
use vstd::prelude::*;

use crate::api::status::StatusCode;
use crate::auth;
use crate::auth::AuthConfigView;
use crate::auth::AuthFailureReason;
use crate::auth::AuthorizationFailureReason;
use crate::auth::CallerRole;
use crate::auth::HeaderTextView;
use crate::auth::InvalidStaticBearerTokensView;
use crate::auth::StaticBearerTokensView;
use crate::text;

verus! {

/// Whether a text may be a token: printable ASCII without spaces.
pub open spec fn is_token(value: Seq<char>) -> bool {
    value.len() > 0 && forall|i: int| 0 <= i < value.len() ==> '!' <= #[trigger] value[i] <= '~'
}

/// A text is accepted as a token if and only if it is some printable ASCII without
/// spaces.
pub proof fn lemma_tokens_are_printable(field: Seq<char>, value: Seq<char>)
    ensures
        auth::token_problem(field, value) is None <==> is_token(value),
{
    if is_token(value) {
        assert forall|i: int| 0 <= i < value.len() implies !text::is_white_space(
            #[trigger] value[i],
        ) && !text::is_control_char(value[i]) && (value[i] as u32) < 128 by {}
        assert(vstd::utf8::is_ascii_chars(value));
    }
    if auth::token_problem(field, value) is None {
        assert forall|i: int| 0 <= i < value.len() implies '!' <= #[trigger] value[i] <= '~' by {
            assert(!text::is_white_space(value[i]));
            assert(!text::is_control_char(value[i]));
            assert(0 <= (value[i] as u32) < 128);
        }
    }
}

/// Three texts are accepted as tokens if and only if each is a token and no two are
/// alike; the roles of two that are alike are named.
pub proof fn lemma_tokens_are_different(
    operator: Seq<char>,
    proxy: Seq<char>,
    sidecar: Seq<char>,
)
    ensures
        auth::tokens_problem(operator, proxy, sidecar) is None <==> {
            &&& is_token(operator)
            &&& is_token(proxy)
            &&& is_token(sidecar)
            &&& operator != proxy
            &&& operator != sidecar
            &&& proxy != sidecar
        },
        match auth::tokens_problem(operator, proxy, sidecar) {
            Some(InvalidStaticBearerTokensView::DuplicateToken { first, second }) => {
                let tokens = StaticBearerTokensView { operator, proxy, sidecar };
                first != second && token_of(tokens, first) == token_of(tokens, second)
            },
            Some(InvalidStaticBearerTokensView::InvalidToken { role, .. }) => !is_token(
                token_of(StaticBearerTokensView { operator, proxy, sidecar }, role),
            ),
            None => true,
        },
{
    lemma_tokens_are_printable("operator_token"@, operator);
    lemma_tokens_are_printable("proxy_token"@, proxy);
    lemma_tokens_are_printable("sidecar_token"@, sidecar);
}

/// The token that belongs to a role.
pub open spec fn token_of(tokens: StaticBearerTokensView, role: CallerRole) -> Seq<char> {
    match role {
        CallerRole::Operator => tokens.operator,
        CallerRole::Proxy => tokens.proxy,
        CallerRole::Sidecar => tokens.sidecar,
    }
}

/// Whether a header carries a token: the word `bearer`, in any case, one space, and the
/// token.
pub open spec fn bears(header: HeaderTextView, token: Seq<char>) -> bool {
    match header {
        HeaderTextView::Text(value) => {
            &&& value.len() == token.len() + 7
            &&& text::ascii_lower(value.take(6)) == "bearer"@
            &&& value[6] == ' '
            &&& value.skip(7) == token
        },
        _ => false,
    }
}

proof fn lemma_first_index(s: Seq<char>, c: char)
    ensures
        text::first_index(s, c) matches Some(at) ==> 0 <= at < s.len() && s[at] == c,
    decreases s.len(),
{
    if s.len() > 0 && s[0] != c {
        lemma_first_index(s.skip(1), c);
    }
}

/// A caller is let through, where tokens are asked for, if and only if the header
/// carries the token of the role that is required.
pub proof fn lemma_caller_bears_the_token_of_its_role(
    tokens: StaticBearerTokensView,
    header: HeaderTextView,
    required: CallerRole,
)
    requires
        is_token(tokens.operator),
        is_token(tokens.proxy),
        is_token(tokens.sidecar),
        tokens.operator != tokens.proxy,
        tokens.operator != tokens.sidecar,
        tokens.proxy != tokens.sidecar,
    ensures
        auth::authorization(
            auth::caller_of(AuthConfigView::StaticBearerTokens(tokens), header, required),
            required,
        ) is Ok <==> bears(header, token_of(tokens, required)),
{
    let config = AuthConfigView::StaticBearerTokens(tokens);
    let token = token_of(tokens, required);
    reveal_strlit("bearer");
    if let HeaderTextView::Text(value) = header {
        lemma_first_index(value, ' ');
        if bears(header, token) {
            assert forall|i: int| 0 <= i < 6 implies value[i] != ' ' by {
                assert(text::ascii_lower(value.take(6))[i] == "bearer"@[i]);
                assert(value.take(6)[i] == value[i]);
            }
            text::lemma_first_index_at(value, ' ', 6);
            lemma_tokens_are_printable("token"@, token);
            assert(value.take(6) =~= value.take(6));
        }
        if auth::credential_in(header) is Ok {
            let at = text::first_index(value, ' ')->0;
            assert(text::ascii_lower(value.take(at)).len() == value.take(at).len());
            assert("bearer"@.len() == 6);
            assert(at == 6);
        }
    }
}

/// A caller without a header, with one that is no text, with a credential of nobody, or
/// with that of another role is refused for that reason.
pub proof fn lemma_refusals_tell_their_reason(
    tokens: StaticBearerTokensView,
    header: HeaderTextView,
    required: CallerRole,
    actual: CallerRole,
)
    requires
        is_token(tokens.operator),
        is_token(tokens.proxy),
        is_token(tokens.sidecar),
        tokens.operator != tokens.proxy,
        tokens.operator != tokens.sidecar,
        tokens.proxy != tokens.sidecar,
    ensures
        ({
            let answer = auth::authorization(
                auth::caller_of(AuthConfigView::StaticBearerTokens(tokens), header, required),
                required,
            );
            &&& header is Missing ==> answer == Err::<CallerRole, _>(
                AuthorizationFailureReason::Authentication(AuthFailureReason::Missing),
            )
            &&& header is NotText ==> answer == Err::<CallerRole, _>(
                AuthorizationFailureReason::Authentication(AuthFailureReason::Malformed),
            )
            &&& bears(header, token_of(tokens, actual)) && actual != required ==> answer == Err::<
                CallerRole,
                _,
            >(AuthorizationFailureReason::WrongRole { actual, required })
            &&& answer == Err::<CallerRole, _>(
                AuthorizationFailureReason::Authentication(AuthFailureReason::Invalid),
            ) ==> header is Text && !bears(header, tokens.operator) && !bears(
                header,
                tokens.proxy,
            ) && !bears(header, tokens.sidecar)
        }),
{
    lemma_caller_bears_the_token_of_its_role(tokens, header, actual);
    lemma_caller_bears_the_token_of_its_role(tokens, header, CallerRole::Operator);
    lemma_caller_bears_the_token_of_its_role(tokens, header, CallerRole::Proxy);
    lemma_caller_bears_the_token_of_its_role(tokens, header, CallerRole::Sidecar);
}

/// A caller that does not say who it is, is told so; one that may not call is told
/// that. No answer tells anything else.
pub proof fn lemma_refusal_has_its_code(reason: AuthorizationFailureReason)
    ensures
        reason is Authentication <==> auth::refusal_status(reason).code
            == StatusCode::Unauthenticated,
        reason is WrongRole <==> auth::refusal_status(reason).code
            == StatusCode::PermissionDenied,
{
}

/// What is recorded of a call is the service, the role that it asks for, the role of
/// the caller, if it is known, and whether the call was let through.
pub proof fn lemma_decision_is_recorded(
    service_name: Seq<char>,
    caller: Result<CallerRole, AuthFailureReason>,
    required: CallerRole,
)
    ensures
        auth::recorded(service_name, caller, required).service_name == service_name,
        auth::recorded(service_name, caller, required).required_role == required,
        auth::recorded(service_name, caller, required).caller_role == (match caller {
            Ok(role) => Some(role),
            Err(_) => None,
        }),
        auth::recorded(service_name, caller, required).decision == "accepted"@
            <==> auth::authorization(caller, required) is Ok,
        auth::recorded(service_name, caller, required).decision == "rejected"@
            <==> auth::authorization(caller, required) is Err,
        auth::recorded(service_name, caller, required).reason == "wrong_role"@
            <==> caller is Ok && caller->Ok_0 != required,
{
    reveal_strlit("accepted");
    reveal_strlit("rejected");
    reveal_strlit("wrong_role");
    reveal_strlit("missing");
    reveal_strlit("malformed");
    reveal_strlit("invalid");
    assert("accepted"@[0] == 'a');
    assert("rejected"@[0] == 'r');
    assert("wrong_role"@[0] == 'w');
    if let Err(reason) = caller {
        assert(auth::reason_name(reason)[0] != 'w');
    }
}

} // verus!
