//! Who may call which service.
use tonic::metadata::AsciiMetadataValue;
use tonic::metadata::MetadataMap;
use vstd::prelude::*;
use vstd::string::*;
use vstd::utf8::*;

use crate::api::status;
use crate::api::status::ApiStatus;
use crate::api::status::ApiStatusView;
use crate::api::status::StatusCode;
use crate::outcome;
use crate::text;

pub mod laws;

verus! {

/// What a caller is.
#[derive(Clone, Copy, Debug, PartialEq, Eq, Hash, Structural)]
pub enum CallerRole {
    Operator,
    Proxy,
    Sidecar,
}

impl DeepView for CallerRole {
    type V = CallerRole;

    open spec fn deep_view(&self) -> CallerRole {
        *self
    }
}

/// The name of a role.
pub open spec fn role_name(role: CallerRole) -> Seq<char> {
    match role {
        CallerRole::Operator => "operator"@,
        CallerRole::Proxy => "proxy"@,
        CallerRole::Sidecar => "sidecar"@,
    }
}

impl CallerRole {
    pub fn as_str(self) -> (r: &'static str)
        ensures
            r@ == role_name(self),
    {
        match self {
            CallerRole::Operator => "operator",
            CallerRole::Proxy => "proxy",
            CallerRole::Sidecar => "sidecar",
        }
    }

    /// The name of the role.
    pub fn to_string(self) -> (r: String)
        ensures
            r@ == role_name(self),
    {
        self.as_str().to_owned()
    }
}

/// Why a text is no bearer token.
#[derive(Debug, PartialEq, Eq)]
pub enum InvalidBearerToken {
    Empty { field: &'static str },
    ContainsNonAscii { field: &'static str },
    ContainsWhitespace { field: &'static str },
    ContainsControl { field: &'static str },
}

/// What an [`InvalidBearerToken`] holds.
#[verifier::ext_equal]
pub enum InvalidBearerTokenView {
    Empty { field: Seq<char> },
    ContainsNonAscii { field: Seq<char> },
    ContainsWhitespace { field: Seq<char> },
    ContainsControl { field: Seq<char> },
}

impl DeepView for InvalidBearerToken {
    type V = InvalidBearerTokenView;

    open spec fn deep_view(&self) -> InvalidBearerTokenView {
        match self {
            InvalidBearerToken::Empty { field } => InvalidBearerTokenView::Empty {
                field: field.deep_view(),
            },
            InvalidBearerToken::ContainsNonAscii {
                field,
            } => InvalidBearerTokenView::ContainsNonAscii {
                field: field.deep_view(),
            },
            InvalidBearerToken::ContainsWhitespace {
                field,
            } => InvalidBearerTokenView::ContainsWhitespace {
                field: field.deep_view(),
            },
            InvalidBearerToken::ContainsControl {
                field,
            } => InvalidBearerTokenView::ContainsControl {
                field: field.deep_view(),
            },
        }
    }
}

impl Clone for InvalidBearerToken {
    fn clone(&self) -> (r: Self)
        ensures
            r.deep_view() == self.deep_view(),
    {
        match self {
            InvalidBearerToken::Empty { field } => InvalidBearerToken::Empty { field: *field },
            InvalidBearerToken::ContainsNonAscii { field } => InvalidBearerToken::ContainsNonAscii {
                field: *field,
            },
            InvalidBearerToken::ContainsWhitespace {
                field,
            } => InvalidBearerToken::ContainsWhitespace {
                field: *field,
            },
            InvalidBearerToken::ContainsControl { field } => InvalidBearerToken::ContainsControl {
                field: *field,
            },
        }
    }
}

/// What is said of a text that is no bearer token.
pub open spec fn invalid_token_message(error: InvalidBearerTokenView) -> Seq<char> {
    match error {
        InvalidBearerTokenView::Empty { field } => field + " must not be empty"@,
        InvalidBearerTokenView::ContainsNonAscii { field } => field + " must contain only ASCII"@,
        InvalidBearerTokenView::ContainsWhitespace { field } => field
            + " must not contain whitespace"@,
        InvalidBearerTokenView::ContainsControl { field } => field
            + " must not contain control characters"@,
    }
}

impl InvalidBearerToken {
    /// What the error says.
    pub fn to_string(&self) -> (r: String)
        ensures
            r@ == invalid_token_message(self.deep_view()),
    {
        match self {
            InvalidBearerToken::Empty { field } => text::join2(field, " must not be empty"),
            InvalidBearerToken::ContainsNonAscii { field } => text::join2(
                field,
                " must contain only ASCII",
            ),
            InvalidBearerToken::ContainsWhitespace { field } => text::join2(
                field,
                " must not contain whitespace",
            ),
            InvalidBearerToken::ContainsControl { field } => text::join2(
                field,
                " must not contain control characters",
            ),
        }
    }
}

/// Why three texts are no set of tokens.
#[derive(Debug, PartialEq, Eq)]
pub enum InvalidStaticBearerTokens {
    InvalidToken { role: CallerRole, source: InvalidBearerToken },
    DuplicateToken { first: CallerRole, second: CallerRole },
}

/// What an [`InvalidStaticBearerTokens`] holds.
#[verifier::ext_equal]
pub enum InvalidStaticBearerTokensView {
    InvalidToken { role: CallerRole, source: InvalidBearerTokenView },
    DuplicateToken { first: CallerRole, second: CallerRole },
}

impl DeepView for InvalidStaticBearerTokens {
    type V = InvalidStaticBearerTokensView;

    open spec fn deep_view(&self) -> InvalidStaticBearerTokensView {
        match self {
            InvalidStaticBearerTokens::InvalidToken {
                role,
                source,
            } => InvalidStaticBearerTokensView::InvalidToken {
                role: role.deep_view(),
                source: source.deep_view(),
            },
            InvalidStaticBearerTokens::DuplicateToken {
                first,
                second,
            } => InvalidStaticBearerTokensView::DuplicateToken {
                first: first.deep_view(),
                second: second.deep_view(),
            },
        }
    }
}

impl Clone for InvalidStaticBearerTokens {
    fn clone(&self) -> (r: Self)
        ensures
            r.deep_view() == self.deep_view(),
    {
        match self {
            InvalidStaticBearerTokens::InvalidToken {
                role,
                source,
            } => InvalidStaticBearerTokens::InvalidToken {
                role: *role,
                source: source.clone(),
            },
            InvalidStaticBearerTokens::DuplicateToken {
                first,
                second,
            } => InvalidStaticBearerTokens::DuplicateToken {
                first: *first,
                second: *second,
            },
        }
    }
}

/// What is said of texts that are no set of tokens.
pub open spec fn invalid_tokens_message(error: InvalidStaticBearerTokensView) -> Seq<char> {
    match error {
        InvalidStaticBearerTokensView::InvalidToken { role, source } => role_name(role)
            + " bearer token is invalid: "@ + invalid_token_message(source),
        InvalidStaticBearerTokensView::DuplicateToken { first, second } => role_name(first)
            + " and "@ + role_name(second) + " bearer tokens must be distinct"@,
    }
}

impl InvalidStaticBearerTokens {
    /// What the error says.
    pub fn to_string(&self) -> (r: String)
        ensures
            r@ == invalid_tokens_message(self.deep_view()),
    {
        match self {
            InvalidStaticBearerTokens::InvalidToken { role, source } => text::join3(
                role.as_str(),
                " bearer token is invalid: ",
                source.to_string().as_str(),
            ),
            InvalidStaticBearerTokens::DuplicateToken { first, second } => text::join4(
                first.as_str(),
                " and ",
                second.as_str(),
                " bearer tokens must be distinct",
            ),
        }
    }

    /// The invalid token behind the error, where there is one.
    pub fn source(&self) -> (r: Option<&InvalidBearerToken>)
        ensures
            r.deep_view() == (match self.deep_view() {
                InvalidStaticBearerTokensView::InvalidToken { source, .. } => Some(source),
                InvalidStaticBearerTokensView::DuplicateToken { .. } => None,
            }),
    {
        match self {
            InvalidStaticBearerTokens::InvalidToken { source, .. } => Some(source),
            InvalidStaticBearerTokens::DuplicateToken { .. } => None,
        }
    }
}

/// A secret that stands for a role. It is ASCII without white space and control
/// characters, and is never shown.
#[derive(PartialEq, Eq)]
pub struct BearerToken {
    value: String,
}

impl View for BearerToken {
    type V = Seq<char>;

    closed spec fn view(&self) -> Seq<char> {
        self.value@
    }
}

impl DeepView for BearerToken {
    type V = Seq<char>;

    open spec fn deep_view(&self) -> Seq<char> {
        self@
    }
}

/// Whether some character is white space.
pub open spec fn has_white_space(s: Seq<char>) -> bool {
    exists|i: int| 0 <= i < s.len() && text::is_white_space(#[trigger] s[i])
}

/// Whether some character is a control character.
pub open spec fn has_control(s: Seq<char>) -> bool {
    exists|i: int| 0 <= i < s.len() && text::is_control_char(#[trigger] s[i])
}

/// What keeps a text from being a bearer token.
pub open spec fn token_problem(field: Seq<char>, value: Seq<char>) -> Option<
    InvalidBearerTokenView,
> {
    if value.len() == 0 {
        Some(InvalidBearerTokenView::Empty { field })
    } else if !is_ascii_chars(value) {
        Some(InvalidBearerTokenView::ContainsNonAscii { field })
    } else if has_white_space(value) {
        Some(InvalidBearerTokenView::ContainsWhitespace { field })
    } else if has_control(value) {
        Some(InvalidBearerTokenView::ContainsControl { field })
    } else {
        None
    }
}

fn contains_white_space(value: &str) -> (r: bool)
    ensures
        r == has_white_space(value@),
{
    let chars = text::chars_of(value);
    let mut i: usize = 0;
    while i < chars.len()
        invariant
            0 <= i <= chars.len(),
            chars@ == value@,
            forall|j: int| 0 <= j < i ==> !text::is_white_space(#[trigger] value@[j]),
        decreases chars.len() - i,
    {
        if chars[i].is_whitespace() {
            assert(text::is_white_space(value@[i as int]));
            return true;
        }
        i = i + 1;
    }
    false
}

fn contains_control(value: &str) -> (r: bool)
    ensures
        r == has_control(value@),
{
    let chars = text::chars_of(value);
    let mut i: usize = 0;
    while i < chars.len()
        invariant
            0 <= i <= chars.len(),
            chars@ == value@,
            forall|j: int| 0 <= j < i ==> !text::is_control_char(#[trigger] value@[j]),
        decreases chars.len() - i,
    {
        if chars[i].is_control() {
            assert(text::is_control_char(value@[i as int]));
            return true;
        }
        i = i + 1;
    }
    false
}

/// Whether two byte strings are the same. Strings of one length are read to their
/// ends, so that the time it takes does not tell where they differ.
fn token_eq(left: &[u8], right: &[u8]) -> (r: bool)
    ensures
        r == (left@ == right@),
{
    if left.len() != right.len() {
        return false;
    }
    let mut difference: u8 = 0;
    let mut i: usize = 0;
    while i < left.len()
        invariant
            0 <= i <= left.len(),
            left.len() == right.len(),
            difference == 0 <==> (forall|j: int|
                0 <= j < i ==> #[trigger] left@[j] == #[trigger] right@[j]),
        decreases left.len() - i,
    {
        let a: u8 = left[i];
        let b: u8 = right[i];
        proof {
            assert((difference | (a ^ b)) == 0 <==> difference == 0 && a == b) by (bit_vector);
            assert(left@[i as int] == a && right@[i as int] == b);
        }
        difference = difference | (a ^ b);
        i = i + 1;
    }
    assert(difference == 0 ==> left@ =~= right@);
    difference == 0
}

proof fn lemma_same_bytes(a: Seq<char>, b: Seq<char>)
    ensures
        encode_utf8(a) == encode_utf8(b) <==> a == b,
{
    encode_utf8_decode_utf8(a);
    encode_utf8_decode_utf8(b);
}

/// Whether a text may be the value of a header: no control character but the
/// tab.
pub open spec fn is_header_text(s: Seq<char>) -> bool {
    forall|i: int|
        0 <= i < s.len() ==> (#[trigger] s[i] >= ' ' && s[i] != '\u{7f}') || s[i] == '\t'
}

/// `AsciiMetadataValue::from_str` takes a text whose bytes are all 32 or more
/// and not 127, or the tab.
#[verifier::external_body]
pub(crate) fn is_metadata_value(value: &str) -> (r: bool)
    ensures
        r == is_header_text(value@),
{
    value.parse::<AsciiMetadataValue>().is_ok()
}

impl BearerToken {
    #[verifier::type_invariant]
    spec fn valid(&self) -> bool {
        token_problem(""@, self.value@) is None
    }

    pub fn new(field: &'static str, value: &str) -> (r: Result<Self, InvalidBearerToken>)
        ensures
            outcome::of(r) == match token_problem(field@, value@) {
                Some(error) => Err(error),
                None => Ok(value@),
            },
    {
        if value.is_empty() {
            return Err(InvalidBearerToken::Empty { field });
        }
        if !value.is_ascii() {
            return Err(InvalidBearerToken::ContainsNonAscii { field });
        }
        if contains_white_space(value) {
            return Err(InvalidBearerToken::ContainsWhitespace { field });
        }
        if contains_control(value) {
            return Err(InvalidBearerToken::ContainsControl { field });
        }
        Ok(BearerToken { value: value.to_owned() })
    }

    /// The value of an `authorization` header that carries the token. A token
    /// always makes one.
    pub fn authorization_header_value(&self) -> (r: Result<String, InvalidBearerToken>)
        ensures
            outcome::of(r) == Ok::<Seq<char>, InvalidBearerTokenView>("Bearer "@ + self@),
    {
        proof {
            use_type_invariant(self);
            reveal_strlit("Bearer ");
        }
        let text = text::join2("Bearer ", self.value.as_str());
        if !is_metadata_value(text.as_str()) {
            proof {
                let i = choose|i: int|
                    0 <= i < text@.len() && !((#[trigger] text@[i] >= ' ' && text@[i] != '\u{7f}')
                        || text@[i] == '\t');
                assert(i >= 7);
                assert(text@[i] == self@[i - 7]);
                assert(text::is_control_char(self@[i - 7]));
                assert(false);
            }
            return Err(InvalidBearerToken::ContainsControl { field: "authorization" });
        }
        Ok(text)
    }

    /// The secret itself.
    pub fn as_secret_str(&self) -> (r: &str)
        ensures
            r@ == self@,
    {
        self.value.as_str()
    }

    /// How the token is shown: without the secret.
    pub fn to_debug_string(&self) -> (r: String)
        ensures
            r@ == "BearerToken([redacted])"@,
    {
        "BearerToken([redacted])".to_owned()
    }
}

impl Clone for BearerToken {
    fn clone(&self) -> (r: Self)
        ensures
            r.deep_view() == self.deep_view(),
    {
        proof {
            use_type_invariant(self);
        }
        BearerToken { value: self.value.clone() }
    }
}

/// One token for each role, no two alike.
#[derive(PartialEq, Eq)]
pub struct StaticBearerTokens {
    operator: BearerToken,
    proxy: BearerToken,
    sidecar: BearerToken,
}

/// What [`StaticBearerTokens`] hold.
#[verifier::ext_equal]
pub struct StaticBearerTokensView {
    pub operator: Seq<char>,
    pub proxy: Seq<char>,
    pub sidecar: Seq<char>,
}

impl StaticBearerTokensView {
    /// The token of a role.
    pub open spec fn token(self, role: CallerRole) -> Seq<char> {
        match role {
            CallerRole::Operator => self.operator,
            CallerRole::Proxy => self.proxy,
            CallerRole::Sidecar => self.sidecar,
        }
    }

    /// Whether no two tokens are alike.
    pub open spec fn distinct(self) -> bool {
        &&& self.operator != self.proxy
        &&& self.operator != self.sidecar
        &&& self.proxy != self.sidecar
    }
}

impl DeepView for StaticBearerTokens {
    type V = StaticBearerTokensView;

    closed spec fn deep_view(&self) -> StaticBearerTokensView {
        StaticBearerTokensView {
            operator: self.operator@,
            proxy: self.proxy@,
            sidecar: self.sidecar@,
        }
    }
}

/// What is wrong with the token of a role.
pub open spec fn role_token_problem(
    role: CallerRole,
    field: Seq<char>,
    value: Seq<char>,
) -> Option<InvalidStaticBearerTokensView> {
    match token_problem(field, value) {
        Some(source) => Some(InvalidStaticBearerTokensView::InvalidToken { role, source }),
        None => None,
    }
}

/// What is wrong with two tokens that are alike.
pub open spec fn duplicate_problem(
    first_token: Seq<char>,
    second_token: Seq<char>,
    first: CallerRole,
    second: CallerRole,
) -> Option<InvalidStaticBearerTokensView> {
    if first_token == second_token {
        Some(InvalidStaticBearerTokensView::DuplicateToken { first, second })
    } else {
        None
    }
}

/// What keeps three texts from being a set of tokens.
pub open spec fn tokens_problem(
    operator: Seq<char>,
    proxy: Seq<char>,
    sidecar: Seq<char>,
) -> Option<InvalidStaticBearerTokensView> {
    outcome::first_of(
        role_token_problem(CallerRole::Operator, "operator_token"@, operator),
        outcome::first_of(
            role_token_problem(CallerRole::Proxy, "proxy_token"@, proxy),
            outcome::first_of(
                role_token_problem(CallerRole::Sidecar, "sidecar_token"@, sidecar),
                outcome::first_of(
                    duplicate_problem(operator, proxy, CallerRole::Operator, CallerRole::Proxy),
                    outcome::first_of(
                        duplicate_problem(
                            operator,
                            sidecar,
                            CallerRole::Operator,
                            CallerRole::Sidecar,
                        ),
                        duplicate_problem(proxy, sidecar, CallerRole::Proxy, CallerRole::Sidecar),
                    ),
                ),
            ),
        ),
    )
}

fn role_token(role: CallerRole, field: &'static str, value: &str) -> (r: Result<
    BearerToken,
    InvalidStaticBearerTokens,
>)
    ensures
        outcome::of(r) == match role_token_problem(role, field@, value@) {
            Some(error) => Err(error),
            None => Ok(value@),
        },
{
    match BearerToken::new(field, value) {
        Ok(token) => Ok(token),
        Err(source) => Err(InvalidStaticBearerTokens::InvalidToken { role, source }),
    }
}

fn ensure_distinct(
    first_token: &BearerToken,
    second_token: &BearerToken,
    first: CallerRole,
    second: CallerRole,
) -> (r: Result<(), InvalidStaticBearerTokens>)
    ensures
        outcome::problem(r) == duplicate_problem(first_token@, second_token@, first, second),
{
    proof {
        lemma_same_bytes(first_token@, second_token@);
    }
    if token_eq(first_token.value.as_str().as_bytes(), second_token.value.as_str().as_bytes()) {
        Err(InvalidStaticBearerTokens::DuplicateToken { first, second })
    } else {
        Ok(())
    }
}

impl StaticBearerTokens {
    #[verifier::type_invariant]
    spec fn no_two_alike(&self) -> bool {
        self.deep_view().distinct()
    }

    pub fn new(operator: &str, proxy: &str, sidecar: &str) -> (r: Result<
        Self,
        InvalidStaticBearerTokens,
    >)
        ensures
            outcome::of(r) == match tokens_problem(operator@, proxy@, sidecar@) {
                Some(error) => Err(error),
                None => Ok(
                    StaticBearerTokensView {
                        operator: operator@,
                        proxy: proxy@,
                        sidecar: sidecar@,
                    },
                ),
            },
    {
        let operator = match role_token(CallerRole::Operator, "operator_token", operator) {
            Ok(token) => token,
            Err(error) => {
                return Err(error);
            },
        };
        let proxy = match role_token(CallerRole::Proxy, "proxy_token", proxy) {
            Ok(token) => token,
            Err(error) => {
                return Err(error);
            },
        };
        let sidecar = match role_token(CallerRole::Sidecar, "sidecar_token", sidecar) {
            Ok(token) => token,
            Err(error) => {
                return Err(error);
            },
        };
        if let Err(error) = ensure_distinct(
            &operator,
            &proxy,
            CallerRole::Operator,
            CallerRole::Proxy,
        ) {
            return Err(error);
        }
        if let Err(error) = ensure_distinct(
            &operator,
            &sidecar,
            CallerRole::Operator,
            CallerRole::Sidecar,
        ) {
            return Err(error);
        }
        if let Err(error) = ensure_distinct(
            &proxy,
            &sidecar,
            CallerRole::Proxy,
            CallerRole::Sidecar,
        ) {
            return Err(error);
        }
        Ok(StaticBearerTokens { operator, proxy, sidecar })
    }

    pub fn token_for(&self, role: CallerRole) -> (r: &BearerToken)
        ensures
            r@ == self.deep_view().token(role),
            self.deep_view().distinct(),
    {
        proof {
            use_type_invariant(self);
        }
        match role {
            CallerRole::Operator => &self.operator,
            CallerRole::Proxy => &self.proxy,
            CallerRole::Sidecar => &self.sidecar,
        }
    }

    /// How the tokens are shown: without the secrets.
    pub fn to_debug_string(&self) -> (r: String)
        ensures
            r@ == "StaticBearerTokens { operator: BearerToken([redacted]), proxy: BearerToken([redacted]), sidecar: BearerToken([redacted]) }"@,
    {
        "StaticBearerTokens { operator: BearerToken([redacted]), proxy: BearerToken([redacted]), sidecar: BearerToken([redacted]) }".to_owned()
    }
}

impl Clone for StaticBearerTokens {
    fn clone(&self) -> (r: Self)
        ensures
            r.deep_view() == self.deep_view(),
    {
        proof {
            use_type_invariant(self);
        }
        StaticBearerTokens {
            operator: self.operator.clone(),
            proxy: self.proxy.clone(),
            sidecar: self.sidecar.clone(),
        }
    }
}

/// How callers are told apart.
#[derive(PartialEq, Eq)]
pub enum AuthConfig {
    NoAuth,
    StaticBearerTokens(StaticBearerTokens),
}

/// What an [`AuthConfig`] holds.
#[verifier::ext_equal]
pub enum AuthConfigView {
    NoAuth,
    StaticBearerTokens(StaticBearerTokensView),
}

impl DeepView for AuthConfig {
    type V = AuthConfigView;

    open spec fn deep_view(&self) -> AuthConfigView {
        match self {
            AuthConfig::NoAuth => AuthConfigView::NoAuth,
            AuthConfig::StaticBearerTokens(tokens) => AuthConfigView::StaticBearerTokens(
                tokens.deep_view(),
            ),
        }
    }
}

impl Clone for AuthConfig {
    fn clone(&self) -> (r: Self)
        ensures
            r.deep_view() == self.deep_view(),
    {
        match self {
            AuthConfig::NoAuth => AuthConfig::NoAuth,
            AuthConfig::StaticBearerTokens(tokens) => AuthConfig::StaticBearerTokens(
                tokens.clone(),
            ),
        }
    }
}

impl AuthConfig {
    pub fn no_auth() -> (r: Self)
        ensures
            r.deep_view() == AuthConfigView::NoAuth,
    {
        AuthConfig::NoAuth
    }

    pub fn static_bearer_tokens(tokens: StaticBearerTokens) -> (r: Self)
        ensures
            r.deep_view() == AuthConfigView::StaticBearerTokens(tokens.deep_view()),
    {
        AuthConfig::StaticBearerTokens(tokens)
    }

    /// The token that sidecars are given, where callers are told apart.
    pub fn sidecar_bearer_token(&self) -> (r: Option<&BearerToken>)
        ensures
            r.deep_view() == (match self.deep_view() {
                AuthConfigView::NoAuth => None,
                AuthConfigView::StaticBearerTokens(tokens) => Some(tokens.sidecar),
            }),
    {
        match self {
            AuthConfig::NoAuth => None,
            AuthConfig::StaticBearerTokens(tokens) => Some(tokens.token_for(CallerRole::Sidecar)),
        }
    }
}

/// Why credentials were not taken.
#[derive(Clone, Copy, Debug, PartialEq, Eq, Structural)]
pub enum AuthFailureReason {
    Missing,
    Malformed,
    Invalid,
}

impl DeepView for AuthFailureReason {
    type V = AuthFailureReason;

    open spec fn deep_view(&self) -> AuthFailureReason {
        *self
    }
}

/// The name of a reason.
pub open spec fn reason_name(reason: AuthFailureReason) -> Seq<char> {
    match reason {
        AuthFailureReason::Missing => "missing"@,
        AuthFailureReason::Malformed => "malformed"@,
        AuthFailureReason::Invalid => "invalid"@,
    }
}

impl AuthFailureReason {
    pub fn as_str(self) -> (r: &'static str)
        ensures
            r@ == reason_name(self),
    {
        match self {
            AuthFailureReason::Missing => "missing",
            AuthFailureReason::Malformed => "malformed",
            AuthFailureReason::Invalid => "invalid",
        }
    }
}

/// Why a caller may not call a service.
#[derive(Clone, Copy, Debug, PartialEq, Eq, Structural)]
pub enum AuthorizationFailureReason {
    Authentication(AuthFailureReason),
    WrongRole { actual: CallerRole, required: CallerRole },
}

impl DeepView for AuthorizationFailureReason {
    type V = AuthorizationFailureReason;

    open spec fn deep_view(&self) -> AuthorizationFailureReason {
        *self
    }
}

/// The metadata of a gRPC request.
#[verifier::external_type_specification]
#[verifier::external_body]
pub struct ExMetadataMap(MetadataMap);

/// A header of a request: left out, not text, or a text.
#[derive(Debug, PartialEq, Eq)]
pub enum HeaderText {
    Missing,
    NotText,
    Text(String),
}

/// What a [`HeaderText`] holds.
#[verifier::ext_equal]
pub enum HeaderTextView {
    Missing,
    NotText,
    Text(Seq<char>),
}

impl DeepView for HeaderText {
    type V = HeaderTextView;

    open spec fn deep_view(&self) -> HeaderTextView {
        match self {
            HeaderText::Missing => HeaderTextView::Missing,
            HeaderText::NotText => HeaderTextView::NotText,
            HeaderText::Text(value) => HeaderTextView::Text(value.deep_view()),
        }
    }
}

impl Clone for HeaderText {
    fn clone(&self) -> (r: Self)
        ensures
            r.deep_view() == self.deep_view(),
    {
        match self {
            HeaderText::Missing => HeaderText::Missing,
            HeaderText::NotText => HeaderText::NotText,
            HeaderText::Text(value) => HeaderText::Text(value.clone()),
        }
    }
}

/// What `MetadataMap::get` and `MetadataValue::to_str` find under a name.
pub uninterp spec fn header_of(metadata: MetadataMap, name: Seq<char>) -> HeaderTextView;

/// `MetadataMap::get` finds the header of that name, and
/// `MetadataValue::to_str` its text.
#[verifier::external_body]
pub(crate) fn header_text(metadata: &MetadataMap, name: &str) -> (r: HeaderText)
    ensures
        r.deep_view() == header_of(*metadata, name@),
{
    match metadata.get(name) {
        None => HeaderText::Missing,
        Some(value) => match value.to_str() {
            Ok(text) => HeaderText::Text(text.to_owned()),
            Err(_) => HeaderText::NotText,
        },
    }
}

/// The credential in an `authorization` header: what follows the word `bearer`,
/// in any case, and one space.
pub open spec fn credential_in(header: HeaderTextView) -> Result<Seq<char>, AuthFailureReason> {
    match header {
        HeaderTextView::Missing => Err(AuthFailureReason::Missing),
        HeaderTextView::NotText => Err(AuthFailureReason::Malformed),
        HeaderTextView::Text(value) => match text::first_index(value, ' ') {
            None => Err(AuthFailureReason::Malformed),
            Some(at) => {
                let scheme = value.take(at);
                let credential = value.skip(at + 1);
                if text::ascii_lower(scheme) != "bearer"@ || credential.len() == 0
                    || has_white_space(credential) {
                    Err(AuthFailureReason::Malformed)
                } else {
                    Ok(credential)
                }
            },
        },
    }
}

fn bearer_credential(header: &HeaderText) -> (r: Result<&str, AuthFailureReason>)
    ensures
        outcome::of(r) == credential_in(header.deep_view()),
{
    match header {
        HeaderText::Missing => Err(AuthFailureReason::Missing),
        HeaderText::NotText => Err(AuthFailureReason::Malformed),
        HeaderText::Text(value) => match text::split_once(value.as_str(), ' ') {
            None => Err(AuthFailureReason::Malformed),
            Some((scheme, credential)) => {
                let scheme = scheme.to_ascii_lowercase();
                if !text::same(scheme.as_str(), "bearer") || credential.is_empty()
                    || contains_white_space(credential) {
                    return Err(AuthFailureReason::Malformed);
                }
                Ok(credential)
            },
        },
    }
}

/// The role whose token a credential is.
pub open spec fn role_of(tokens: StaticBearerTokensView, credential: Seq<char>) -> Result<
    CallerRole,
    AuthFailureReason,
> {
    if credential == tokens.operator {
        Ok(CallerRole::Operator)
    } else if credential == tokens.proxy {
        Ok(CallerRole::Proxy)
    } else if credential == tokens.sidecar {
        Ok(CallerRole::Sidecar)
    } else {
        Err(AuthFailureReason::Invalid)
    }
}

/// Who the caller is, by the `authorization` header.
pub open spec fn authenticated(tokens: StaticBearerTokensView, header: HeaderTextView) -> Result<
    CallerRole,
    AuthFailureReason,
> {
    match credential_in(header) {
        Err(reason) => Err(reason),
        Ok(credential) => role_of(tokens, credential),
    }
}

/// Tells who a caller is.
pub trait AuthProvider {
    fn authenticate(&self, metadata: &MetadataMap) -> (r: Result<CallerRole, AuthFailureReason>);
}

/// Tells callers apart by their tokens.
pub struct StaticBearerAuthProvider {
    tokens: StaticBearerTokens,
}

impl View for StaticBearerAuthProvider {
    type V = StaticBearerTokensView;

    closed spec fn view(&self) -> StaticBearerTokensView {
        self.tokens.deep_view()
    }
}

impl StaticBearerAuthProvider {
    pub fn new(tokens: StaticBearerTokens) -> (r: Self)
        ensures
            r@ == tokens.deep_view(),
    {
        StaticBearerAuthProvider { tokens }
    }

    /// Who the caller is, by the `authorization` header.
    pub fn authenticate_header(&self, header: &HeaderText) -> (r: Result<
        CallerRole,
        AuthFailureReason,
    >)
        ensures
            r == authenticated(self@, header.deep_view()),
    {
        let credential = match bearer_credential(header) {
            Ok(credential) => credential,
            Err(reason) => {
                return Err(reason);
            },
        };
        let tokens = &self.tokens;
        proof {
            lemma_same_bytes(credential@, self@.operator);
            lemma_same_bytes(credential@, self@.proxy);
            lemma_same_bytes(credential@, self@.sidecar);
        }
        if token_eq(credential.as_bytes(), tokens.operator.value.as_str().as_bytes()) {
            return Ok(CallerRole::Operator);
        }
        if token_eq(credential.as_bytes(), tokens.proxy.value.as_str().as_bytes()) {
            return Ok(CallerRole::Proxy);
        }
        if token_eq(credential.as_bytes(), tokens.sidecar.value.as_str().as_bytes()) {
            return Ok(CallerRole::Sidecar);
        }
        Err(AuthFailureReason::Invalid)
    }
}

impl AuthProvider for StaticBearerAuthProvider {
    fn authenticate(&self, metadata: &MetadataMap) -> (r: Result<CallerRole, AuthFailureReason>)
        ensures
            r == authenticated(self@, header_of(*metadata, "authorization"@)),
    {
        self.authenticate_header(&header_text(metadata, "authorization"))
    }
}

impl Clone for StaticBearerAuthProvider {
    fn clone(&self) -> (r: Self)
        ensures
            r@ == self@,
    {
        StaticBearerAuthProvider { tokens: self.tokens.clone() }
    }
}

/// What was decided about a call, as it is recorded. No credential is in it.
#[derive(Clone, Copy, Debug)]
pub struct AuthDecision {
    pub service_name: &'static str,
    pub required_role: CallerRole,
    pub caller_role: Option<CallerRole>,
    pub decision: &'static str,
    pub reason: &'static str,
}

/// What an [`AuthDecision`] holds.
#[verifier::ext_equal]
pub struct AuthDecisionView {
    pub service_name: Seq<char>,
    pub required_role: CallerRole,
    pub caller_role: Option<CallerRole>,
    pub decision: Seq<char>,
    pub reason: Seq<char>,
}

impl DeepView for AuthDecision {
    type V = AuthDecisionView;

    open spec fn deep_view(&self) -> AuthDecisionView {
        AuthDecisionView {
            service_name: self.service_name@,
            required_role: self.required_role,
            caller_role: self.caller_role,
            decision: self.decision@,
            reason: self.reason@,
        }
    }
}

/// Whether a caller that says who it is may call a service.
pub open spec fn authorization(
    caller: Result<CallerRole, AuthFailureReason>,
    required: CallerRole,
) -> Result<CallerRole, AuthorizationFailureReason> {
    match caller {
        Ok(actual) => if actual == required {
            Ok(actual)
        } else {
            Err(AuthorizationFailureReason::WrongRole { actual, required })
        },
        Err(reason) => Err(AuthorizationFailureReason::Authentication(reason)),
    }
}

/// How the decision on a caller is recorded.
pub open spec fn recorded(
    service_name: Seq<char>,
    caller: Result<CallerRole, AuthFailureReason>,
    required_role: CallerRole,
) -> AuthDecisionView {
    AuthDecisionView {
        service_name,
        required_role,
        caller_role: match caller {
            Ok(actual) => Some(actual),
            Err(_) => None,
        },
        decision: if caller == Ok::<CallerRole, AuthFailureReason>(required_role) {
            "accepted"@
        } else {
            "rejected"@
        },
        reason: match caller {
            Ok(actual) => if actual == required_role {
                "accepted"@
            } else {
                "wrong_role"@
            },
            Err(reason) => reason_name(reason),
        },
    }
}

/// Whether a caller that says who it is may call a service, and how that is
/// recorded.
pub fn authorize_caller(
    caller: Result<CallerRole, AuthFailureReason>,
    service_name: &'static str,
    required_role: CallerRole,
) -> (r: (Result<CallerRole, AuthorizationFailureReason>, AuthDecision))
    ensures
        r.0 == authorization(caller, required_role),
        r.1.deep_view() == recorded(service_name@, caller, required_role),
{
    match caller {
        Ok(actual) => {
            if actual == required_role {
                let decision = AuthDecision {
                    service_name,
                    required_role,
                    caller_role: Some(actual),
                    decision: "accepted",
                    reason: "accepted",
                };
                (Ok(actual), decision)
            } else {
                let decision = AuthDecision {
                    service_name,
                    required_role,
                    caller_role: Some(actual),
                    decision: "rejected",
                    reason: "wrong_role",
                };
                (
                    Err(
                        AuthorizationFailureReason::WrongRole { actual, required: required_role },
                    ),
                    decision,
                )
            }
        },
        Err(reason) => {
            let decision = AuthDecision {
                service_name,
                required_role,
                caller_role: None,
                decision: "rejected",
                reason: reason.as_str(),
            };
            (Err(AuthorizationFailureReason::Authentication(reason)), decision)
        },
    }
}

/// How a refused caller is answered.
pub open spec fn refusal_status(reason: AuthorizationFailureReason) -> ApiStatusView {
    match reason {
        AuthorizationFailureReason::Authentication(AuthFailureReason::Missing) => status::failure(
            StatusCode::Unauthenticated,
            "authorization bearer token is required"@,
        ),
        AuthorizationFailureReason::Authentication(AuthFailureReason::Malformed) => {
            status::failure(
                StatusCode::Unauthenticated,
                "authorization bearer token is malformed"@,
            )
        },
        AuthorizationFailureReason::Authentication(AuthFailureReason::Invalid) => status::failure(
            StatusCode::Unauthenticated,
            "authorization bearer token is invalid"@,
        ),
        AuthorizationFailureReason::WrongRole { .. } => status::failure(
            StatusCode::PermissionDenied,
            "credentials are not authorized for this service"@,
        ),
    }
}

fn auth_failure_to_status(reason: AuthorizationFailureReason) -> (r: ApiStatus)
    ensures
        r.deep_view() == refusal_status(reason),
{
    match reason {
        AuthorizationFailureReason::Authentication(AuthFailureReason::Missing) => ApiStatus::new(
            StatusCode::Unauthenticated,
            "authorization bearer token is required",
        ),
        AuthorizationFailureReason::Authentication(AuthFailureReason::Malformed) => {
            ApiStatus::new(StatusCode::Unauthenticated, "authorization bearer token is malformed")
        },
        AuthorizationFailureReason::Authentication(AuthFailureReason::Invalid) => ApiStatus::new(
            StatusCode::Unauthenticated,
            "authorization bearer token is invalid",
        ),
        AuthorizationFailureReason::WrongRole { .. } => ApiStatus::new(
            StatusCode::PermissionDenied,
            "credentials are not authorized for this service",
        ),
    }
}

enum AuthMode {
    NoAuth,
    Provider(StaticBearerAuthProvider),
}

/// Decides which callers may call.
pub struct ControlPlaneAuth {
    mode: AuthMode,
}

impl View for ControlPlaneAuth {
    type V = AuthConfigView;

    closed spec fn view(&self) -> AuthConfigView {
        match self.mode {
            AuthMode::NoAuth => AuthConfigView::NoAuth,
            AuthMode::Provider(provider) => AuthConfigView::StaticBearerTokens(provider@),
        }
    }
}

/// Who the caller is taken for: with no tokens configured, the one that is
/// required.
pub open spec fn caller_of(
    config: AuthConfigView,
    header: HeaderTextView,
    required: CallerRole,
) -> Result<CallerRole, AuthFailureReason> {
    match config {
        AuthConfigView::NoAuth => Ok(required),
        AuthConfigView::StaticBearerTokens(tokens) => authenticated(tokens, header),
    }
}

impl ControlPlaneAuth {
    pub fn from_config(config: AuthConfig) -> (r: Self)
        ensures
            r@ == config.deep_view(),
    {
        let mode = match config {
            AuthConfig::NoAuth => AuthMode::NoAuth,
            AuthConfig::StaticBearerTokens(tokens) => AuthMode::Provider(
                StaticBearerAuthProvider::new(tokens),
            ),
        };
        ControlPlaneAuth { mode }
    }

    /// Whether callers have to show credentials.
    pub fn asks_for_credentials(&self) -> (r: bool)
        ensures
            r == !(self@ is NoAuth),
    {
        match &self.mode {
            AuthMode::NoAuth => false,
            AuthMode::Provider(_) => true,
        }
    }

    pub fn no_auth_for_tests() -> (r: Self)
        ensures
            r@ == AuthConfigView::NoAuth,
    {
        ControlPlaneAuth::from_config(AuthConfig::NoAuth)
    }

    pub fn interceptor(&self, service_name: &'static str, required_role: CallerRole) -> (r:
        ControlPlaneAuthInterceptor)
        ensures
            r.auth@ == self@,
            r.service_name@ == service_name@,
            r.required_role == required_role,
    {
        ControlPlaneAuthInterceptor { auth: self.clone(), service_name, required_role }
    }

    /// Whether a call may be made, and how that is recorded.
    pub fn authorize_header(
        &self,
        header: &HeaderText,
        service_name: &'static str,
        required_role: CallerRole,
    ) -> (r: (Result<CallerRole, AuthorizationFailureReason>, AuthDecision))
        ensures
            r.0 == authorization(
                caller_of(self@, header.deep_view(), required_role),
                required_role,
            ),
            r.1.deep_view() == recorded(
                service_name@,
                caller_of(self@, header.deep_view(), required_role),
                required_role,
            ),
    {
        let caller = match &self.mode {
            AuthMode::NoAuth => Ok(required_role),
            AuthMode::Provider(provider) => provider.authenticate_header(header),
        };
        authorize_caller(caller, service_name, required_role)
    }

    /// Whether the call with this metadata may be made, and how that is
    /// recorded.
    pub fn authorize(
        &self,
        metadata: &MetadataMap,
        service_name: &'static str,
        required_role: CallerRole,
    ) -> (r: (Result<CallerRole, AuthorizationFailureReason>, AuthDecision))
        ensures
            r.0 == authorization(
                caller_of(self@, header_of(*metadata, "authorization"@), required_role),
                required_role,
            ),
            r.1.deep_view() == recorded(
                service_name@,
                caller_of(self@, header_of(*metadata, "authorization"@), required_role),
                required_role,
            ),
    {
        let header = header_text(metadata, "authorization");
        self.authorize_header(&header, service_name, required_role)
    }
}

impl Clone for ControlPlaneAuth {
    fn clone(&self) -> (r: Self)
        ensures
            r@ == self@,
    {
        let mode = match &self.mode {
            AuthMode::NoAuth => AuthMode::NoAuth,
            AuthMode::Provider(provider) => AuthMode::Provider(provider.clone()),
        };
        ControlPlaneAuth { mode }
    }
}

/// Lets through the calls of one service that may be made.
pub struct ControlPlaneAuthInterceptor {
    pub auth: ControlPlaneAuth,
    pub service_name: &'static str,
    pub required_role: CallerRole,
}

impl ControlPlaneAuthInterceptor {
    /// Whether a call is let through, how it is answered if not, and how that is
    /// recorded.
    pub fn check(&self, metadata: &MetadataMap) -> (r: (Result<(), ApiStatus>, AuthDecision))
        ensures
            outcome::problem(r.0) == (match authorization(
                caller_of(self.auth@, header_of(*metadata, "authorization"@), self.required_role),
                self.required_role,
            ) {
                Ok(_) => None,
                Err(reason) => Some(refusal_status(reason)),
            }),
            r.1.deep_view() == recorded(
                self.service_name@,
                caller_of(self.auth@, header_of(*metadata, "authorization"@), self.required_role),
                self.required_role,
            ),
    {
        let (result, decision) = self.auth.authorize(
            metadata,
            self.service_name,
            self.required_role,
        );
        let answer = match result {
            Ok(_) => Ok(()),
            Err(reason) => Err(auth_failure_to_status(reason)),
        };
        (answer, decision)
    }
}

/// Adds a token to outgoing calls, where there is one.
#[derive(Debug)]
pub struct OptionalBearerTokenInterceptor {
    authorization: Option<String>,
}

impl View for OptionalBearerTokenInterceptor {
    type V = Option<Seq<char>>;

    closed spec fn view(&self) -> Option<Seq<char>> {
        self.authorization.deep_view()
    }
}

impl OptionalBearerTokenInterceptor {
    pub fn new(token: Option<&BearerToken>) -> (r: Result<Self, InvalidBearerToken>)
        ensures
            r matches Ok(interceptor) && interceptor@ == (match token {
                Some(token) => Some("Bearer "@ + token@),
                None => None,
            }),
    {
        let authorization = match token {
            None => None,
            Some(token) => match token.authorization_header_value() {
                Ok(value) => Some(value),
                Err(error) => {
                    return Err(error);
                },
            },
        };
        Ok(OptionalBearerTokenInterceptor { authorization })
    }

    /// The value of the `authorization` header of a call; none leaves it out.
    pub fn authorization(&self) -> (r: Option<&str>)
        ensures
            r.deep_view() == self@,
    {
        match &self.authorization {
            Some(value) => Some(value.as_str()),
            None => None,
        }
    }
}

/// The caller that carries the token of a role is taken for that role, and for no
/// other.
pub proof fn lemma_token_tells_role(tokens: StaticBearerTokensView, role: CallerRole)
    requires
        tokens.distinct(),
        token_problem("token"@, tokens.token(role)) is None,
    ensures
        authenticated(tokens, HeaderTextView::Text("Bearer "@ + tokens.token(role))) == Ok::<
            CallerRole,
            AuthFailureReason,
        >(role),
{
    let credential = tokens.token(role);
    let value = "Bearer "@ + credential;
    reveal_strlit("Bearer ");
    reveal_strlit("bearer");
    text::lemma_first_index_at(value, ' ', 6);
    assert(value.skip(7) =~= credential);
    assert(text::ascii_lower(value.take(6)) =~= "bearer"@);
}

/// A caller is let through only as the role that is required, whatever the
/// credentials, and is else answered without them.
pub proof fn lemma_only_required_role_passes(
    config: AuthConfigView,
    header: HeaderTextView,
    required: CallerRole,
)
    ensures
        authorization(caller_of(config, header, required), required) matches Ok(role)
            ==> role == required,
        config is NoAuth ==> authorization(caller_of(config, header, required), required) is Ok,
        config matches AuthConfigView::StaticBearerTokens(tokens) ==> (authorization(
            caller_of(config, header, required),
            required,
        ) is Ok ==> credential_in(header) == Ok::<Seq<char>, AuthFailureReason>(
            tokens.token(required),
        )),
{
}

} // verus!
