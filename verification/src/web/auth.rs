//! Logging in through the external identity service.
//!
//! The login takes two requests. The first sends the caller to the service
//! with an authorization URL. The second brings the caller back with a
//! code, which is exchanged for an access token, which fetches a profile,
//! whose email finds the principal, for whom a token is issued. The calls
//! to the service and to the directory are the caller's part: the flow
//! says which call comes next and takes its answer as an event.

use crate::config::Config;
use crate::error::{AuthError, Error, OAuthError, Result};
use crate::oid::ObjectId;
use crate::schema::get_token;
use crate::token::{token_text, Claims, Lifetime, TokenCodec};
use vstd::prelude::*;
use vstd::string::StringExecFns;
use vstd::utf8::{encode_utf8, is_ascii_chars, is_ascii_chars_encode_utf8};

verus! {

/// The profile that the identity service gives of a person.
#[derive(Clone, Debug, PartialEq, Eq)]
pub struct UserData {
    pub sub: String,
    pub name: String,
    pub given_name: String,
    pub family_name: String,
    pub picture: String,
    pub email: String,
    pub email_verified: bool,
}

/// What this service is to the identity service, and where that service
/// is found.
pub struct OAuthClient {
    pub client_id: String,
    pub client_secret: String,
    pub auth_url: String,
    pub token_url: String,
    pub redirect_url: String,
    pub revocation_url: String,
}

/// The most bytes that a text may have that goes into an authorization
/// URL. The `url` crate counts the bytes of a URL in thirty-two bits; with
/// texts of this size a URL stays far below what they hold.
pub const MAX_TEXT: usize = 65_536;

/// The most scopes that an authorization URL may ask for.
pub const MAX_SCOPES: usize = 16;

/// `text` is short enough to go into an authorization URL.
pub open spec fn fits(text: Seq<char>) -> bool {
    encode_utf8(text).len() <= MAX_TEXT
}

/// A character of URL-safe base64 text.
pub open spec fn is_token_char(c: char) -> bool {
    ('A' <= c <= 'Z') || ('a' <= c <= 'z') || ('0' <= c <= '9') || c == '-' || c == '_'
}

/// `state` has the shape of a fresh anti-forgery token: the base64 text of
/// sixteen bytes.
pub open spec fn is_state_token(state: Seq<char>) -> bool {
    state.len() == 22 && forall|i: int| 0 <= i < state.len() ==> is_token_char(#[trigger] state[i])
}

/// Whether `text` is a URL, as the `url` crate reads one.
pub uninterp spec fn is_url(text: Seq<char>) -> bool;

/// The authorization URL that `oauth2` builds for a client with the
/// authorization endpoint `auth_url`, the id `client_id` and the
/// redirection endpoint `redirect_url`, asking for `scopes` and carrying
/// the anti-forgery token `state`. None where an endpoint is no URL.
pub uninterp spec fn authorization_url(
    auth_url: Seq<char>,
    client_id: Seq<char>,
    redirect_url: Seq<char>,
    scopes: Seq<Seq<char>>,
    state: Seq<char>,
) -> Option<Seq<char>>;

/// Calls `Url::parse` of the `url` crate, by the path under which `oauth2`
/// hands it on. The constructors `AuthUrl::new`, `TokenUrl::new`,
/// `RedirectUrl::new` and `RevocationUrl::new` succeed exactly where this
/// call does. The contract only names the outcome.
#[verifier::external_body]
fn parses_as_url(text: &str) -> (parsed: bool)
    ensures
        parsed == is_url(text@),
{
    oauth2::url::Url::parse(text).is_ok()
}

/// Calls `CsrfToken::new_random`, which draws sixteen random bytes and
/// gives their URL-safe base64 text without padding. Which bytes is
/// chance; the contract claims the shape of the text only: twenty-two
/// characters of that alphabet.
#[verifier::external_body]
fn random_state() -> (state: String)
    ensures
        is_state_token(state@),
{
    oauth2::CsrfToken::new_random().secret().clone()
}

/// Builds a client with `BasicClient::new` and `set_redirect_uri`, and
/// asks it for the URL of an authorization request for the given scopes
/// with `authorize_url`, `add_scopes` and `url`. The URL is made of the
/// arguments alone; the contract names it. The two endpoints are read by
/// `AuthUrl::new` and `RedirectUrl::new`, which fail exactly where
/// `Url::parse` does, and nothing after them can fail: the contract claims
/// that there is a URL exactly where both endpoints are URLs. The `url`
/// crate stops the process on a URL of more bytes than thirty-two bits
/// count, so the texts are bounded: with at most twenty texts of at most
/// 64 KiB, each at most tripled by escaping, the URL stays below four
/// megabytes.
#[verifier::external_body]
fn authorize_url(
    auth_url: &String,
    client_id: &String,
    redirect_url: &String,
    scopes: &Vec<String>,
    state: &String,
) -> (url: Option<String>)
    requires
        fits(auth_url@),
        fits(client_id@),
        fits(redirect_url@),
        fits(state@),
        scopes@.len() <= MAX_SCOPES,
        forall|i: int| 0 <= i < scopes@.len() ==> fits(#[trigger] scopes@[i]@),
    ensures
        url.deep_view() == authorization_url(
            auth_url@,
            client_id@,
            redirect_url@,
            scopes.deep_view(),
            state@,
        ),
        (url is Some) == (is_url(auth_url@) && is_url(redirect_url@)),
{
    let auth = oauth2::AuthUrl::new(auth_url.clone()).ok()?;
    let redirect = oauth2::RedirectUrl::new(redirect_url.clone()).ok()?;
    let id = oauth2::ClientId::new(client_id.clone());
    let client = oauth2::basic::BasicClient::new(id, None, auth, None).set_redirect_uri(redirect);
    let token = oauth2::CsrfToken::new(state.clone());
    let request = client.authorize_url(|| token).add_scopes(
        scopes.iter().cloned().map(oauth2::Scope::new),
    );
    Some(request.url().0.to_string())
}

/// The authorization endpoint of the identity service.
pub open spec fn auth_endpoint() -> Seq<char> {
    "https://accounts.google.com/o/oauth2/v2/auth"@
}

/// The token endpoint of the identity service.
pub open spec fn token_endpoint() -> Seq<char> {
    "https://www.googleapis.com/oauth2/v3/token"@
}

/// The revocation endpoint of the identity service.
pub open spec fn revocation_endpoint() -> Seq<char> {
    "https://oauth2.googleapis.com/revoke"@
}

/// The profile endpoint of the identity service.
pub open spec fn profile_endpoint() -> Seq<char> {
    "https://www.googleapis.com/oauth2/v3/userinfo"@
}

/// The scopes that a login asks for.
pub open spec fn login_scopes() -> Seq<Seq<char>> {
    seq!["profile"@, "email"@]
}

/// The profile endpoint of the identity service.
pub fn userinfo_url() -> (url: &'static str)
    ensures
        url@ == profile_endpoint(),
{
    "https://www.googleapis.com/oauth2/v3/userinfo"
}

/// `client` is the client that `config` describes.
pub open spec fn client_of(config: Config, client: OAuthClient) -> bool {
    &&& client.client_id@ == config.GOOGLE_OAUTH_CLIENT@
    &&& client.client_secret@ == config.GOOGLE_OAUTH_SECRET@
    &&& client.auth_url@ == auth_endpoint()
    &&& client.token_url@ == token_endpoint()
    &&& client.redirect_url@ == config.GOOGLE_OAUTH_RETURN@
    &&& client.revocation_url@ == revocation_endpoint()
}

/// Every address that a client for `config` has is a URL, and the
/// client's id and return address are short enough to go into an
/// authorization URL.
pub open spec fn usable(config: Config) -> bool {
    &&& is_url(auth_endpoint())
    &&& is_url(token_endpoint())
    &&& is_url(config.GOOGLE_OAUTH_RETURN@)
    &&& is_url(revocation_endpoint())
    &&& fits(config.GOOGLE_OAUTH_CLIENT@)
    &&& fits(config.GOOGLE_OAUTH_RETURN@)
}

/// A login can start with `client`: the two addresses that the
/// authorization URL is made of are URLs, and they and the client's id are
/// short enough to go into one.
pub open spec fn ready(client: OAuthClient) -> bool {
    &&& is_url(client.auth_url@)
    &&& is_url(client.redirect_url@)
    &&& fits(client.auth_url@)
    &&& fits(client.client_id@)
    &&& fits(client.redirect_url@)
}

/// Whether `text` is short enough to go into an authorization URL.
pub fn text_fits(text: &String) -> (short: bool)
    ensures
        short == fits(text@),
{
    text.as_str().as_bytes().len() <= MAX_TEXT
}

/// Text of ASCII characters has as many bytes as characters.
proof fn lemma_ascii_fits(text: Seq<char>)
    requires
        is_ascii_chars(text),
        text.len() <= MAX_TEXT,
    ensures
        fits(text),
{
    is_ascii_chars_encode_utf8(text);
}

/// The authorization endpoint and the two scopes of a login are short
/// enough to go into an authorization URL, and so is every fresh
/// anti-forgery token.
pub proof fn lemma_fixed_texts_fit()
    ensures
        fits(auth_endpoint()),
        fits("profile"@),
        fits("email"@),
        forall|state: Seq<char>| #[trigger] is_state_token(state) ==> fits(state),
{
    reveal_strlit("https://accounts.google.com/o/oauth2/v2/auth");
    reveal_strlit("profile");
    reveal_strlit("email");
    lemma_ascii_fits(auth_endpoint());
    lemma_ascii_fits("profile"@);
    lemma_ascii_fits("email"@);
    assert forall|state: Seq<char>| #[trigger] is_state_token(state) implies fits(state) by {
        assert forall|i: int| 0 <= i < state.len() implies '\0' <= #[trigger] state[i]
            <= '\u{7f}' by {
            assert(is_token_char(state[i]));
        }
        lemma_ascii_fits(state);
    }
}

/// The client that `config` describes. Fails where one of its addresses
/// is no URL, or where its id or its return address is too long; a client
/// that it gives is ready to start logins.
pub fn get_oauth_client(config: &Config) -> (client: Result<OAuthClient>)
    ensures
        match client {
            Ok(client) => usable(*config) && client_of(*config, client) && ready(client),
            Err(e) => !usable(*config) && e == Error::MiscError,
        },
{
    let auth_url = String::from_str("https://accounts.google.com/o/oauth2/v2/auth");
    if !parses_as_url(auth_url.as_str()) {
        return Err(Error::MiscError);
    }
    let token_url = String::from_str("https://www.googleapis.com/oauth2/v3/token");
    if !parses_as_url(token_url.as_str()) {
        return Err(Error::MiscError);
    }
    let redirect_url = config.GOOGLE_OAUTH_RETURN.clone();
    if !parses_as_url(redirect_url.as_str()) {
        return Err(Error::MiscError);
    }
    if !text_fits(&config.GOOGLE_OAUTH_CLIENT) || !text_fits(&redirect_url) {
        return Err(Error::MiscError);
    }
    let revocation_url = String::from_str("https://oauth2.googleapis.com/revoke");
    if !parses_as_url(revocation_url.as_str()) {
        return Err(Error::MiscError);
    }
    proof {
        lemma_fixed_texts_fit();
    }
    Ok(
        OAuthClient {
            client_id: config.GOOGLE_OAUTH_CLIENT.clone(),
            client_secret: config.GOOGLE_OAUTH_SECRET.clone(),
            auth_url,
            token_url,
            redirect_url,
            revocation_url,
        },
    )
}

/// Where a login with the anti-forgery token `state` sends the caller.
pub open spec fn redirect_of(client: OAuthClient, state: Seq<char>) -> Option<Seq<char>> {
    authorization_url(
        client.auth_url@,
        client.client_id@,
        client.redirect_url@,
        login_scopes(),
        state,
    )
}

/// The authorization URL of a login that carries the anti-forgery token
/// `state` and asks for the profile and the email. There is one exactly
/// where the client is ready and the token is short enough.
pub fn login_redirect(client: &OAuthClient, state: &String) -> (url: Result<String>)
    ensures
        url is Ok <==> ready(*client) && fits(state@),
        match url {
            Ok(url) => redirect_of(*client, state@) == Some(url@),
            Err(e) => e == Error::MiscError,
        },
{
    if !text_fits(&client.auth_url) || !text_fits(&client.client_id) || !text_fits(
        &client.redirect_url,
    ) || !text_fits(state) {
        return Err(Error::MiscError);
    }
    let mut scopes: Vec<String> = Vec::new();
    scopes.push(String::from_str("profile"));
    scopes.push(String::from_str("email"));
    proof {
        lemma_fixed_texts_fit();
        assert(scopes.deep_view() =~= login_scopes());
        assert(scopes@[0]@ == "profile"@ && scopes@[1]@ == "email"@);
    }
    match authorize_url(&client.auth_url, &client.client_id, &client.redirect_url, &scopes, state) {
        Some(url) => Ok(url),
        None => Err(Error::MiscError),
    }
}

/// Starts a login: the URL to send the caller to, and the fresh random
/// anti-forgery token that it carries. A login starts exactly where the
/// client is ready, whatever token is drawn, and the token has the shape
/// of a fresh one.
pub fn login_handler(client: &OAuthClient) -> (start: Result<(String, String)>)
    ensures
        start is Ok <==> ready(*client),
        start matches Ok((url, state)) ==> is_state_token(state@) && redirect_of(
            *client,
            state@,
        ) == Some(url@),
        start matches Err(e) ==> e == Error::MiscError,
{
    let state = random_state();
    proof {
        lemma_fixed_texts_fit();
    }
    let url = login_redirect(client, &state)?;
    Ok((url, state))
}

/// How far a login has come after the caller's return.
#[derive(Clone, Copy, Debug, PartialEq, Eq, Structural)]
pub enum LoginState {
    /// The caller has not returned yet.
    AwaitCallback,
    /// The code is being exchanged for an access token.
    AwaitExchange,
    /// The profile is being fetched.
    AwaitProfile,
    /// The principal is being looked up.
    AwaitPrincipal,
    /// The login has ended, with a token or a failure.
    Finished,
}

/// What the identity service answered to the request for the profile.
#[derive(Clone, Debug, PartialEq, Eq)]
pub struct ProfileReply {
    /// The status of the response.
    pub status: u16,
    /// The profile, if the body could be read as one.
    pub profile: Option<UserData>,
}

/// What happened outside since the flow was last asked.
#[derive(Clone, Debug, PartialEq, Eq)]
pub enum LoginEvent {
    /// The caller came back, with or without each parameter.
    Callback { code: Option<String>, state: Option<String> },
    /// The exchange gave an access token, or failed.
    Exchanged(Option<String>),
    /// The profile request was answered, or failed in transport.
    ProfileFetched(Option<ProfileReply>),
    /// The directory gave the id of the principal with the email, or has
    /// no such principal.
    PrincipalFound(Option<ObjectId>),
}

/// What the flow asks for next.
#[derive(Clone, Debug, PartialEq, Eq)]
pub enum LoginAction {
    /// Exchange this code for an access token.
    ExchangeCode(String),
    /// Fetch the profile with this access token.
    FetchProfile(String),
    /// Look up the principal with this email.
    FindPrincipal(String),
    /// Answer the caller with this token.
    Respond(Vec<u8>),
    /// Answer the caller with this failure.
    Fail(Error),
}

/// What a `LoginEvent` holds, as far as the flow reads it.
pub ghost enum EventView {
    Callback { code: Option<Seq<char>>, state: Option<Seq<char>> },
    Exchanged(Option<Seq<char>>),
    /// The status and the profile's email.
    ProfileFetched(Option<(u16, Option<Seq<char>>)>),
    PrincipalFound(Option<ObjectId>),
}

/// What a `LoginAction` holds.
pub ghost enum ActionView {
    ExchangeCode(Seq<char>),
    FetchProfile(Seq<char>),
    FindPrincipal(Seq<char>),
    Respond(Seq<u8>),
    Fail(Error),
}

/// The text of a string that may be absent.
pub open spec fn text_of(text: Option<String>) -> Option<Seq<char>> {
    match text {
        Some(t) => Some(t@),
        None => None,
    }
}

impl View for LoginEvent {
    type V = EventView;

    open spec fn view(&self) -> EventView {
        match *self {
            LoginEvent::Callback { code, state } => EventView::Callback {
                code: text_of(code),
                state: text_of(state),
            },
            LoginEvent::Exchanged(token) => EventView::Exchanged(text_of(token)),
            LoginEvent::ProfileFetched(reply) => EventView::ProfileFetched(
                match reply {
                    Some(r) => Some(
                        (
                            r.status,
                            match r.profile {
                                Some(p) => Some(p.email@),
                                None => None,
                            },
                        ),
                    ),
                    None => None,
                },
            ),
            LoginEvent::PrincipalFound(id) => EventView::PrincipalFound(id),
        }
    }
}

impl View for LoginAction {
    type V = ActionView;

    open spec fn view(&self) -> ActionView {
        match *self {
            LoginAction::ExchangeCode(code) => ActionView::ExchangeCode(code@),
            LoginAction::FetchProfile(token) => ActionView::FetchProfile(token@),
            LoginAction::FindPrincipal(email) => ActionView::FindPrincipal(email@),
            LoginAction::Respond(token) => ActionView::Respond(token@),
            LoginAction::Fail(e) => ActionView::Fail(e),
        }
    }
}

/// The flow ends with the failure `e`.
pub open spec fn fails(e: Error) -> (LoginState, ActionView) {
    (LoginState::Finished, ActionView::Fail(e))
}

/// The flow after the caller's return: the state and the action that
/// follow on `event` in `state`, for a token codec with the secret
/// `secret` and the lifetime `lifetime`, at time `now`. An event that does
/// not answer what the flow asked for ends it as a failed exchange.
pub open spec fn login_step(
    state: LoginState,
    event: EventView,
    secret: Seq<u8>,
    lifetime: Lifetime,
    now: u64,
) -> (LoginState, ActionView) {
    match (state, event) {
        (LoginState::AwaitCallback, EventView::Callback { code: Some(code), state: Some(_) }) => (
            LoginState::AwaitExchange,
            ActionView::ExchangeCode(code),
        ),
        (LoginState::AwaitCallback, EventView::Callback { .. }) => fails(
            Error::OAuth(OAuthError::MissingParameter),
        ),
        (LoginState::AwaitExchange, EventView::Exchanged(Some(token))) => (
            LoginState::AwaitProfile,
            ActionView::FetchProfile(token),
        ),
        (LoginState::AwaitExchange, EventView::Exchanged(None)) => fails(
            Error::OAuth(OAuthError::ExchangeFailed),
        ),
        (LoginState::AwaitProfile, EventView::ProfileFetched(None)) => fails(
            Error::OAuth(OAuthError::ProfileFetchFailed),
        ),
        (LoginState::AwaitProfile, EventView::ProfileFetched(Some((status, email)))) => if status
            < 200 || status >= 300 {
            fails(Error::OAuth(OAuthError::ProfileFetchFailed))
        } else {
            match email {
                Some(email) => (LoginState::AwaitPrincipal, ActionView::FindPrincipal(email)),
                None => fails(Error::OAuth(OAuthError::ProfileParseFailed)),
            }
        },
        (LoginState::AwaitPrincipal, EventView::PrincipalFound(None)) => fails(
            Error::Auth(AuthError::NoSuchPrincipal),
        ),
        (LoginState::AwaitPrincipal, EventView::PrincipalFound(Some(id))) => match lifetime.expiry(
            now,
        ) {
            Some(exp) => (
                LoginState::Finished,
                ActionView::Respond(token_text(Claims { user_id: id, exp }, secret)),
            ),
            None => fails(Error::MiscError),
        },
        _ => fails(Error::OAuth(OAuthError::ExchangeFailed)),
    }
}

fn failed(e: Error) -> (next: (LoginState, LoginAction))
    ensures
        (next.0, next.1@) == fails(e),
{
    (LoginState::Finished, LoginAction::Fail(e))
}

/// One step of the flow after the caller's return: takes what happened
/// and says what to do next. The flow starts in `AwaitCallback` with the
/// parameters of the callback and ends in `Finished`, with a token to
/// answer with or with a failure.
pub fn login_return_handler(
    state: LoginState,
    event: LoginEvent,
    codec: &TokenCodec,
    now: u64,
) -> (next: (LoginState, LoginAction))
    ensures
        (next.0, next.1@) == login_step(state, event@, codec.secret(), codec.lifetime(), now),
{
    match state {
        LoginState::AwaitCallback => match event {
            LoginEvent::Callback { code, state } => match (code, state) {
                (Some(code), Some(_)) => (LoginState::AwaitExchange, LoginAction::ExchangeCode(code)),
                _ => failed(Error::OAuth(OAuthError::MissingParameter)),
            },
            _ => failed(Error::OAuth(OAuthError::ExchangeFailed)),
        },
        LoginState::AwaitExchange => match event {
            LoginEvent::Exchanged(Some(token)) => (
                LoginState::AwaitProfile,
                LoginAction::FetchProfile(token),
            ),
            _ => failed(Error::OAuth(OAuthError::ExchangeFailed)),
        },
        LoginState::AwaitProfile => match event {
            LoginEvent::ProfileFetched(None) => failed(
                Error::OAuth(OAuthError::ProfileFetchFailed),
            ),
            LoginEvent::ProfileFetched(Some(reply)) => {
                if reply.status < 200 || reply.status >= 300 {
                    failed(Error::OAuth(OAuthError::ProfileFetchFailed))
                } else {
                    match reply.profile {
                        Some(profile) => (
                            LoginState::AwaitPrincipal,
                            LoginAction::FindPrincipal(profile.email),
                        ),
                        None => failed(Error::OAuth(OAuthError::ProfileParseFailed)),
                    }
                }
            },
            _ => failed(Error::OAuth(OAuthError::ExchangeFailed)),
        },
        LoginState::AwaitPrincipal => match event {
            LoginEvent::PrincipalFound(None) => failed(Error::Auth(AuthError::NoSuchPrincipal)),
            LoginEvent::PrincipalFound(Some(id)) => match get_token(id, now, codec) {
                Ok(token) => (LoginState::Finished, LoginAction::Respond(token)),
                Err(e) => failed(e),
            },
            _ => failed(Error::OAuth(OAuthError::ExchangeFailed)),
        },
        LoginState::Finished => failed(Error::OAuth(OAuthError::ExchangeFailed)),
    }
}

/// A client that was made of a usable configuration starts logins with
/// every anti-forgery token.
pub proof fn lemma_configured_client_is_ready(config: Config, client: OAuthClient)
    requires
        client_of(config, client),
    ensures
        usable(config) ==> ready(client),
{
    lemma_fixed_texts_fit();
}

/// The flow reaches out only with both parameters at hand: a callback
/// that lacks the code or the state ends it at once, and as that failure.
pub proof fn lemma_callback_needs_both(
    code: Option<Seq<char>>,
    state: Option<Seq<char>>,
    secret: Seq<u8>,
    lifetime: Lifetime,
    now: u64,
)
    requires
        code is None || state is None,
    ensures
        login_step(
            LoginState::AwaitCallback,
            EventView::Callback { code, state },
            secret,
            lifetime,
            now,
        ) == fails(Error::OAuth(OAuthError::MissingParameter)),
{
}

/// A token is issued in one case only: the directory has found the
/// principal of the profile's email. In particular none is issued where
/// the email belongs to no principal.
pub proof fn lemma_token_needs_principal(
    state: LoginState,
    event: EventView,
    secret: Seq<u8>,
    lifetime: Lifetime,
    now: u64,
)
    ensures
        login_step(state, event, secret, lifetime, now).1 is Respond ==> state
            == LoginState::AwaitPrincipal && (event matches EventView::PrincipalFound(Some(_))),
        login_step(
            LoginState::AwaitPrincipal,
            EventView::PrincipalFound(None),
            secret,
            lifetime,
            now,
        ) == fails(Error::Auth(AuthError::NoSuchPrincipal)),
{
}

/// A failure ends the flow, and so does the token: the flow goes on only
/// with a call to make.
pub proof fn lemma_flow_ends(
    state: LoginState,
    event: EventView,
    secret: Seq<u8>,
    lifetime: Lifetime,
    now: u64,
)
    ensures
        ({
            let (next, action) = login_step(state, event, secret, lifetime, now);
            (action is Fail || action is Respond) <==> next == LoginState::Finished
        }),
{
}

} // verus!
