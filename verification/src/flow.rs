//! The authorization-code login flow with PKCE and CSRF protection.
//!
//! A login attempt starts with a redirect of the browser to the identity
//! provider and ends when the provider sends the browser back with a code.
//! What is sent over the network is left to the caller: this module says
//! what to send, and whether a callback belongs to the attempt.

use vstd::prelude::*;
use vstd::string::*;
use vstd::utf8::*;
use crate::config::{required_scope, AuthConfig};
use crate::error::{AuthError, ConfigError};
use crate::json::{json_document, parse, read_text_member, text_member, JsonModel};
use crate::text::{constant_time_eq, is_plain_identifier, optional_str_text, optional_text,
    plain_identifier, same_text};

verus! {

/// What one login attempt has to remember between the redirect and the
/// callback.
#[derive(Debug)]
pub struct FlowState {
    /// The address the browser is sent to.
    pub authorize_url: String,
    /// The CSRF token that has to come back unchanged.
    pub csrf_state: String,
    /// The PKCE code verifier that goes with the code to the token endpoint.
    pub pkce_code_verifier: String,
    /// When the attempt began, in seconds since the epoch.
    pub created_at: u64,
}

/// The query of the provider's callback.
#[derive(Debug)]
pub struct AuthRequest {
    pub code: String,
    pub state: String,
}

/// What the caller sends to the provider's token endpoint.
#[derive(Debug)]
pub struct TokenExchange {
    pub code: String,
    pub pkce_code_verifier: String,
}

/// The profile the identity provider returns for a signed-in user.
#[derive(Debug)]
pub struct User {
    pub display_name: String,
    pub given_name: String,
    pub surname: String,
    pub user_principal_name: String,
    pub id: String,
}

/// A profile, as text.
pub ghost struct UserModel {
    pub display_name: Seq<char>,
    pub given_name: Seq<char>,
    pub surname: Seq<char>,
    pub user_principal_name: Seq<char>,
    pub id: Seq<char>,
}

impl View for User {
    type V = UserModel;

    open spec fn view(&self) -> UserModel {
        UserModel {
            display_name: self.display_name@,
            given_name: self.given_name@,
            surname: self.surname@,
            user_principal_name: self.user_principal_name@,
            id: self.id@,
        }
    }
}

/// The profile that a document of the user-info endpoint holds: its
/// `displayName`, `givenName`, `surname`, `userPrincipalName` and `id`, all
/// of them strings. A document that lacks one holds no profile.
pub open spec fn profile_of_document(doc: JsonModel) -> Option<UserModel> {
    match (
        text_member(doc, "displayName"@),
        text_member(doc, "givenName"@),
        text_member(doc, "surname"@),
        text_member(doc, "userPrincipalName"@),
        text_member(doc, "id"@),
    ) {
        (Some(display_name), Some(given_name), Some(surname), Some(user_principal_name), Some(id)) =>
            Some(UserModel { display_name, given_name, surname, user_principal_name, id }),
        _ => None,
    }
}

/// The profile that a response body of the user-info endpoint holds.
pub open spec fn profile_of_body(body: Seq<char>) -> Option<UserModel> {
    match json_document(body) {
        Some(doc) => profile_of_document(doc),
        None => None,
    }
}

impl User {
    /// Reads the profile out of a response body of the user-info endpoint.
    pub fn from_body(body: &str) -> (user: Option<User>)
        ensures
            match user {
                Some(u) => profile_of_body(body@) == Some(u@),
                None => profile_of_body(body@).is_none(),
            },
    {
        let doc = match parse(body) {
            Some(doc) => doc,
            None => { return None; },
        };
        let display_name = match read_text_member(&doc, "displayName") {
            Some(v) => v,
            None => { return None; },
        };
        let given_name = match read_text_member(&doc, "givenName") {
            Some(v) => v,
            None => { return None; },
        };
        let surname = match read_text_member(&doc, "surname") {
            Some(v) => v,
            None => { return None; },
        };
        let user_principal_name = match read_text_member(&doc, "userPrincipalName") {
            Some(v) => v,
            None => { return None; },
        };
        let id = match read_text_member(&doc, "id") {
            Some(v) => v,
            None => { return None; },
        };
        Some(User { display_name, given_name, surname, user_principal_name, id })
    }
}

/// The serialization of the URL that `Url::parse` reads from a text.
/// `None` where the text is no URL.
pub uninterp spec fn redirect_url_read(text: Seq<char>) -> Option<Seq<char>>;

/// Whether form encoding leaves a byte as it stands: a letter or digit of
/// ASCII, `*`, `-`, `.` or `_`.
pub open spec fn stands_for_itself(byte: u8) -> bool {
    ||| 0x30 <= byte <= 0x39
    ||| 0x41 <= byte <= 0x5a
    ||| 0x61 <= byte <= 0x7a
    ||| byte == 0x2a
    ||| byte == 0x2d
    ||| byte == 0x2e
    ||| byte == 0x5f
}

/// The digit of base 16, in upper case, for a number below 16.
pub open spec fn hex_digit(n: u8) -> char {
    if n < 10 {
        ((0x30 + n) as u8) as char
    } else {
        ((0x41 + n - 10) as u8) as char
    }
}

/// A byte in form encoding: itself, `+` for a space, or `%` and its two
/// digits of base 16.
pub open spec fn form_encoded_byte(byte: u8) -> Seq<char> {
    if stands_for_itself(byte) {
        seq![byte as char]
    } else if byte == 0x20 {
        seq!['+']
    } else {
        seq!['%', hex_digit(byte / 16), hex_digit(byte % 16)]
    }
}

/// Bytes in form encoding, one after the other.
pub open spec fn form_encoded_bytes(bytes: Seq<u8>) -> Seq<char>
    decreases bytes.len(),
{
    if bytes.len() == 0 {
        Seq::empty()
    } else {
        form_encoded_bytes(bytes.drop_last()) + form_encoded_byte(bytes.last())
    }
}

/// A text as it is written into the query of a URL: the form encoding of
/// its bytes in UTF-8.
pub open spec fn form_encoded(text: Seq<char>) -> Seq<char> {
    form_encoded_bytes(encode_utf8(text))
}

/// The S256 challenge that `oauth2::PkceCodeChallenge` derives from a code
/// verifier.
pub uninterp spec fn pkce_challenge_of(verifier: Seq<char>) -> Seq<char>;

/// `Url::parse`, then `Url::to_string`: the redirect address as the
/// provider is given it.
#[verifier::external_body]
fn read_redirect(text: &str) -> (read: Option<String>)
    ensures
        optional_text(read) == redirect_url_read(text@),
{
    match url::Url::parse(text) {
        Ok(redirect) => Some(redirect.to_string()),
        Err(_) => None,
    }
}

/// `url::form_urlencoded::byte_serialize` over the bytes of a text: each
/// byte is written as `form_encoded_byte` says.
#[verifier::external_body]
fn form_encode(text: &str) -> (encoded: String)
    ensures
        encoded@ == form_encoded(text@),
{
    url::form_urlencoded::byte_serialize(text.as_bytes()).collect()
}

/// `oauth2::PkceCodeChallenge::from_code_verifier_sha256`, then
/// `PkceCodeChallenge::as_str`. The outside function refuses a verifier of
/// fewer than 43 or more than 128 bytes by a panic, so such a verifier is
/// kept out.
#[verifier::external_body]
fn pkce_challenge(verifier: &str) -> (challenge: String)
    requires
        verifier_fits(verifier@),
    ensures
        challenge@ == pkce_challenge_of(verifier@),
{
    let verifier = oauth2::PkceCodeVerifier::new(verifier.to_string());
    oauth2::PkceCodeChallenge::from_code_verifier_sha256(&verifier).as_str().to_string()
}

/// Whether a code verifier has a length PKCE allows: 43 to 128 bytes.
pub open spec fn verifier_fits(verifier: Seq<char>) -> bool {
    43 <= encode_utf8(verifier).len() <= 128
}

/// The address a browser is sent to for a login: the tenant's authorize
/// endpoint, asked for a code for the client, with the CSRF token as
/// state, the PKCE challenge with its method S256, the redirect address
/// and the scope.
pub open spec fn authorize_address(
    tenant: Seq<char>,
    client_id: Seq<char>,
    state: Seq<char>,
    challenge: Seq<char>,
    redirect_uri: Seq<char>,
    scope: Seq<char>,
) -> Seq<char> {
    "https://login.microsoftonline.com/"@ + tenant + "/oauth2/v2.0/authorize"@
        + "?response_type=code&client_id="@ + form_encoded(client_id) + "&state="@ + form_encoded(
        state,
    ) + "&code_challenge="@ + form_encoded(challenge)
        + "&code_challenge_method=S256&redirect_uri="@ + form_encoded(redirect_uri) + "&scope="@
        + form_encoded(scope)
}

/// Writes the address a browser is sent to for a login.
pub fn authorize_address_of(
    tenant: &str,
    client_id: &str,
    state: &str,
    challenge: &str,
    redirect_uri: &str,
    scope: &str,
) -> (address: String)
    ensures
        address@ == authorize_address(
            tenant@,
            client_id@,
            state@,
            challenge@,
            redirect_uri@,
            scope@,
        ),
{
    let mut address = String::from_str("https://login.microsoftonline.com/");
    address.append(tenant);
    address.append("/oauth2/v2.0/authorize");
    address.append("?response_type=code&client_id=");
    address.append(form_encode(client_id).as_str());
    address.append("&state=");
    address.append(form_encode(state).as_str());
    address.append("&code_challenge=");
    address.append(form_encode(challenge).as_str());
    address.append("&code_challenge_method=S256&redirect_uri=");
    address.append(form_encode(redirect_uri).as_str());
    address.append("&scope=");
    address.append(form_encode(scope).as_str());
    address
}

/// Whether an address, a CSRF token and a code verifier are those of a
/// login that was asked for with the given values: the redirect address is
/// a URL, the verifier has a fitting length, and the address is the
/// authorize address with that token as state and the challenge of that
/// verifier.
pub open spec fn login_as_asked(
    tenant: Seq<char>,
    client_id: Seq<char>,
    redirect_url: Seq<char>,
    scope: Seq<char>,
    authorize_url: Seq<char>,
    csrf_state: Seq<char>,
    pkce_code_verifier: Seq<char>,
) -> bool {
    match redirect_url_read(redirect_url) {
        Some(redirect_uri) => verifier_fits(pkce_code_verifier) && authorize_url
            == authorize_address(
            tenant,
            client_id,
            csrf_state,
            pkce_challenge_of(pkce_code_verifier),
            redirect_uri,
            scope,
        ),
        None => false,
    }
}

/// `azure_identity::authorization_code_flow::start`, with the redirect
/// address read by `Url::parse`: the authorize address, the CSRF token and
/// the PKCE code verifier of a new login attempt, in this order.
///
/// A flow is started exactly when the redirect address is a URL. Token
/// and verifier are drawn at random. Whatever is drawn, the address is the
/// one `oauth2` writes for an authorization request: the tenant's authorize
/// endpoint with the pairs `response_type`, `client_id`, `state`,
/// `code_challenge`, `code_challenge_method`, `redirect_uri` and `scope`,
/// in this order, each value form-encoded; the challenge is that of the
/// verifier, which has 43 bytes.
///
/// The tenant id has to be a plain identifier: the endpoint is then a URL
/// whose path holds the id as it stands. The scope has to be a text that is
/// not empty: for an empty one no `scope` pair is written.
#[verifier::external_body]
fn start_code_flow(
    client_id: &str,
    client_secret: &str,
    tenant_id: &str,
    redirect_url: &str,
    scope: &str,
) -> (started: Option<(String, String, String)>)
    requires
        plain_identifier(tenant_id@),
        scope@.len() > 0,
    ensures
        started.is_some() == redirect_url_read(redirect_url@).is_some(),
        match started {
            Some(s) => login_as_asked(
                tenant_id@,
                client_id@,
                redirect_url@,
                scope@,
                s.0@,
                s.1@,
                s.2@,
            ),
            None => true,
        },
{
    let redirect = azure_core::Url::parse(redirect_url).ok()?;
    let id = oauth2::ClientId::new(client_id.to_string());
    let secret = oauth2::ClientSecret::new(client_secret.to_string());
    let flow =
        azure_identity::authorization_code_flow::start(id, Some(secret), tenant_id, redirect, &[scope]);
    let csrf = flow.csrf_state.secret().clone();
    let verifier = flow.pkce_code_verifier.secret().clone();
    Some((flow.authorize_url.to_string(), csrf, verifier))
}

/// Whether a flow state is that of a login asked for with a
/// configuration: its address is the tenant's authorize endpoint, asked
/// for a code for the configured client, redirect address and scopes, and
/// binds the login to the state's own CSRF token and code verifier.
pub open spec fn binds_login(config: AuthConfig, flow: FlowState) -> bool {
    login_as_asked(
        config.tenant_id@,
        config.client_id@,
        config.redirect_url@,
        "openid profile email"@,
        flow.authorize_url@,
        flow.csrf_state@,
        flow.pkce_code_verifier@,
    )
}

/// Takes what the provider's library gave for a new login attempt and
/// makes the flow state of it, if it binds the login as the configuration
/// asks. Anything else is refused: a login without that binding must not
/// begin.
pub fn accept_code_flow(
    config: &AuthConfig,
    authorize_url: String,
    csrf_state: String,
    pkce_code_verifier: String,
    now: u64,
) -> (flow: Option<FlowState>)
    ensures
        match flow {
            Some(f) => f == (FlowState {
                authorize_url,
                csrf_state,
                pkce_code_verifier,
                created_at: now,
            }) && binds_login(*config, f),
            None => !binds_login(
                *config,
                FlowState { authorize_url, csrf_state, pkce_code_verifier, created_at: now },
            ),
        },
{
    let redirect_uri = match read_redirect(config.redirect_url.as_str()) {
        Some(redirect_uri) => redirect_uri,
        None => { return None; },
    };
    let length = pkce_code_verifier.as_str().as_bytes().len();
    if length < 43 || length > 128 {
        return None;
    }
    let challenge = pkce_challenge(pkce_code_verifier.as_str());
    let expected = authorize_address_of(
        config.tenant_id.as_str(),
        config.client_id.as_str(),
        csrf_state.as_str(),
        challenge.as_str(),
        redirect_uri.as_str(),
        required_scope(),
    );
    if same_text(authorize_url.as_str(), expected.as_str()) {
        Some(FlowState { authorize_url, csrf_state, pkce_code_verifier, created_at: now })
    } else {
        None
    }
}

/// Begins a login attempt at time `now`: has the address built that the
/// browser is sent to, with a fresh CSRF token and PKCE challenge and the
/// scopes `openid profile email`.
///
/// A flow is returned exactly when the tenant id is a plain identifier
/// and the redirect address is a URL; the two faults are told apart.
pub fn get_code_flow(config: &AuthConfig, now: u64) -> (flow: Result<FlowState, ConfigError>)
    ensures
        match flow {
            Ok(f) => {
                &&& plain_identifier(config.tenant_id@)
                &&& redirect_url_read(config.redirect_url@).is_some()
                &&& f.created_at == now
                &&& binds_login(*config, f)
            },
            Err(e) => if !plain_identifier(config.tenant_id@) {
                e == ConfigError::InvalidTenantId
            } else {
                e == ConfigError::InvalidRedirectUrl && redirect_url_read(
                    config.redirect_url@,
                ).is_none()
            },
        },
{
    if !is_plain_identifier(config.tenant_id.as_str()) {
        return Err(ConfigError::InvalidTenantId);
    }
    let scope = required_scope();
    proof {
        reveal_strlit("openid profile email");
    }
    let started = start_code_flow(
        config.client_id.as_str(),
        config.client_secret.as_str(),
        config.tenant_id.as_str(),
        config.redirect_url.as_str(),
        scope,
    );
    let accepted = match started {
        Some((authorize_url, csrf_state, pkce_code_verifier)) => accept_code_flow(
            config,
            authorize_url,
            csrf_state,
            pkce_code_verifier,
            now,
        ),
        None => None,
    };
    match accepted {
        Some(flow) => Ok(flow),
        None => Err(ConfigError::InvalidRedirectUrl),
    }
}

/// Where a login attempt stands.
#[derive(Clone, Copy, Debug, PartialEq, Eq, Structural)]
pub enum FlowPhase {
    /// No redirect was issued yet.
    Idle,
    /// The browser was sent to the provider; the callback is awaited.
    AwaitingCallback,
    /// The callback was accepted. The attempt cannot be used again.
    Completed,
}

/// One login attempt.
#[derive(Debug)]
pub struct MyAuth {
    pub phase: FlowPhase,
    pub code_flow: Option<FlowState>,
}

impl Clone for FlowState {
    fn clone(&self) -> (copy: FlowState)
        ensures
            copy == *self,
    {
        FlowState {
            authorize_url: self.authorize_url.clone(),
            csrf_state: self.csrf_state.clone(),
            pkce_code_verifier: self.pkce_code_verifier.clone(),
            created_at: self.created_at,
        }
    }
}

impl Clone for MyAuth {
    /// The copy stands where the attempt stands, with the same token and
    /// verifier.
    fn clone(&self) -> (copy: MyAuth)
        ensures
            copy == *self,
    {
        MyAuth {
            phase: self.phase,
            code_flow: match &self.code_flow {
                Some(flow) => Some(flow.clone()),
                None => None,
            },
        }
    }
}

/// What a callback with the given `state` meets at an attempt.
pub open spec fn callback_accepted(auth: MyAuth, state: Seq<char>) -> bool {
    match auth.code_flow {
        Some(flow) => auth.phase == FlowPhase::AwaitingCallback && flow.csrf_state@ == state,
        None => false,
    }
}

impl MyAuth {
    /// An attempt that has not begun.
    pub fn new() -> (auth: MyAuth)
        ensures
            auth.phase == FlowPhase::Idle,
            auth.code_flow.is_none(),
    {
        MyAuth { phase: FlowPhase::Idle, code_flow: None }
    }

    /// Begins the attempt with a flow state and returns the address the
    /// browser is redirected to. An attempt that had begun before starts
    /// over: its earlier state is dropped.
    pub fn initiate(&mut self, flow: FlowState) -> (authorize_url: String)
        ensures
            authorize_url@ == flow.authorize_url@,
            final(self).phase == FlowPhase::AwaitingCallback,
            final(self).code_flow == Some(flow),
    {
        let authorize_url = flow.authorize_url.clone();
        self.phase = FlowPhase::AwaitingCallback;
        self.code_flow = Some(flow);
        authorize_url
    }

    /// Takes the provider's callback.
    ///
    /// The callback is accepted if the attempt awaits one and the `state`
    /// of the query is the CSRF token of the attempt, compared without
    /// stopping at the first difference. The attempt is then completed and
    /// gives up its flow state, and the caller is told what to send to the
    /// token endpoint. Any other callback is `CsrfMismatch`, changes
    /// nothing, and no exchange is made.
    pub fn handle_callback(&mut self, query: &AuthRequest) -> (exchange: Result<
        TokenExchange,
        AuthError,
    >)
        ensures
            if callback_accepted(*old(self), query.state@) {
                &&& exchange matches Ok(x) && x.code@ == query.code@ && x.pkce_code_verifier@
                    == old(self).code_flow.unwrap().pkce_code_verifier@
                &&& final(self).phase == FlowPhase::Completed
                &&& final(self).code_flow.is_none()
            } else {
                &&& exchange == Err::<TokenExchange, AuthError>(AuthError::CsrfMismatch)
                &&& *final(self) == *old(self)
            },
    {
        match self.phase {
            FlowPhase::AwaitingCallback => {},
            _ => { return Err(AuthError::CsrfMismatch); },
        }
        let matched = match &self.code_flow {
            Some(flow) => constant_time_eq(flow.csrf_state.as_str(), query.state.as_str()),
            None => false,
        };
        if !matched {
            return Err(AuthError::CsrfMismatch);
        }
        match self.code_flow.take() {
            Some(flow) => {
                self.phase = FlowPhase::Completed;
                Ok(
                    TokenExchange {
                        code: query.code.clone(),
                        pkce_code_verifier: flow.pkce_code_verifier,
                    },
                )
            },
            None => Err(AuthError::CsrfMismatch),
        }
    }
}

/// The login attempts of a service that await their callback, each known
/// by its own CSRF token: no two pending attempts share a token. An
/// attempt stays for `max_age` seconds at most.
#[derive(Debug)]
pub struct LoginAttempts {
    pending: Vec<FlowState>,
    max_age: u64,
}

impl View for LoginAttempts {
    type V = Seq<FlowState>;

    /// The pending attempts, oldest first.
    closed spec fn view(&self) -> Seq<FlowState> {
        self.pending@
    }
}

/// Whether an attempt that began at `created_at` may still complete at
/// `now`.
pub open spec fn in_time(created_at: u64, max_age: u64, now: u64) -> bool {
    now <= created_at || now - created_at <= max_age
}

/// Whether some pending attempt has the given CSRF token.
pub open spec fn awaits(pending: Seq<FlowState>, state: Seq<char>) -> bool {
    exists|i: int| 0 <= i < pending.len() && (#[trigger] pending[i]).csrf_state@ == state
}

/// Whether the attempt at `i` is the first with the given CSRF token.
pub open spec fn awaits_at(pending: Seq<FlowState>, state: Seq<char>, i: int) -> bool {
    &&& 0 <= i < pending.len()
    &&& pending[i].csrf_state@ == state
    &&& forall|j: int| 0 <= j < i ==> (#[trigger] pending[j]).csrf_state@ != state
}

/// Whether no two attempts share a CSRF token.
pub open spec fn distinct_tokens(pending: Seq<FlowState>) -> bool {
    forall|a: int, b: int|
        0 <= a < b < pending.len() ==> (#[trigger] pending[a]).csrf_state@ != (
        #[trigger] pending[b]).csrf_state@
}

/// The attempts that may still complete at `now`, in order.
pub open spec fn still_in_time(pending: Seq<FlowState>, max_age: u64, now: u64) -> Seq<FlowState> {
    pending.filter(|f: FlowState| in_time(f.created_at, max_age, now))
}

impl LoginAttempts {
    #[verifier::type_invariant]
    spec fn tokens_differ(&self) -> bool {
        distinct_tokens(self.pending@)
    }

    /// How long an attempt is kept, in seconds.
    pub closed spec fn spec_max_age(&self) -> u64 {
        self.max_age
    }

    #[verifier::when_used_as_spec(spec_max_age)]
    pub fn max_age(&self) -> (max_age: u64)
        ensures
            max_age == self.spec_max_age(),
    {
        self.max_age
    }

    /// No attempts; each will be kept for `max_age` seconds.
    pub fn new(max_age: u64) -> (attempts: LoginAttempts)
        ensures
            attempts@.len() == 0,
            attempts.max_age() == max_age,
    {
        LoginAttempts { pending: Vec::new(), max_age }
    }

    /// How many attempts are pending.
    pub fn len(&self) -> (n: usize)
        ensures
            n == self@.len(),
    {
        self.pending.len()
    }

    /// Whether an attempt with the given CSRF token is pending. Every
    /// pending token is compared, each without stopping at the first
    /// difference.
    pub fn holds(&self, state: &str) -> (pending: bool)
        ensures
            pending == awaits(self@, state@),
            distinct_tokens(self@),
    {
        proof {
            use_type_invariant(self);
        }
        let mut found = false;
        let mut i: usize = 0;
        while i < self.pending.len()
            invariant
                i <= self.pending.len(),
                found == awaits(self.pending@.take(i as int), state@),
            decreases self.pending.len() - i,
        {
            let ghost upto = self.pending@.take(i as int + 1);
            let same = constant_time_eq(self.pending[i].csrf_state.as_str(), state);
            proof {
                assert(upto[i as int] == self.pending@[i as int]);
                if awaits(upto, state@) && !same {
                    let k = choose|k: int|
                        0 <= k < upto.len() && (#[trigger] upto[k]).csrf_state@ == state@;
                    assert(self.pending@.take(i as int)[k] == upto[k]);
                }
                if found {
                    let k = choose|k: int|
                        0 <= k < i && (#[trigger] self.pending@.take(i as int)[k]).csrf_state@
                            == state@;
                    assert(upto[k] == self.pending@.take(i as int)[k]);
                }
            }
            found = found || same;
            i += 1;
        }
        assert(self.pending@.take(i as int) =~= self.pending@);
        found
    }

    /// Drops the attempts that began more than `max_age` seconds before
    /// `now`, so that abandoned logins do not pile up.
    pub fn evict(&mut self, now: u64)
        ensures
            final(self).max_age() == old(self).max_age(),
            final(self)@ == still_in_time(old(self)@, old(self).max_age(), now),
            distinct_tokens(final(self)@),
    {
        proof {
            use_type_invariant(&*self);
        }
        let max_age = self.max_age;
        let mut pending: Vec<FlowState> = Vec::new();
        core::mem::swap(&mut self.pending, &mut pending);
        let ghost all = pending@;
        let ghost keep = |f: FlowState| in_time(f.created_at, max_age, now);
        let ghost mut seen: int = 0;
        let mut kept: usize = 0;
        proof {
            reveal(Seq::filter);
            assert(all.take(0) =~= Seq::empty());
            assert(all.skip(0) =~= all);
        }
        while kept < pending.len()
            invariant
                0 <= seen <= all.len(),
                kept <= pending.len(),
                keep == |f: FlowState| in_time(f.created_at, max_age, now),
                kept == all.take(seen).filter(keep).len(),
                pending@ =~= all.take(seen).filter(keep) + all.skip(seen),
                distinct_tokens(pending@),
            decreases pending.len() - kept,
        {
            proof {
                assert(pending@[kept as int] == all.skip(seen)[0]);
                lemma_filter_last(all.take(seen), all[seen], keep);
                assert(all.take(seen + 1) =~= all.take(seen).push(all[seen]));
                assert(all.skip(seen + 1) =~= all.skip(seen).drop_first());
            }
            let created_at = pending[kept].created_at;
            if now <= created_at || now - created_at <= max_age {
                kept += 1;
            } else {
                proof {
                    lemma_remove_keeps_distinct(pending@, kept as int);
                }
                pending.remove(kept);
            }
            proof {
                seen = seen + 1;
            }
        }
        proof {
            assert(all.skip(seen).len() == 0);
            assert(all.take(seen) =~= all);
        }
        core::mem::swap(&mut self.pending, &mut pending);
    }

    /// Begins an attempt: the flow state joins the pending ones, and the
    /// address the browser is sent to is returned.
    ///
    /// A flow state whose CSRF token is that of a pending attempt is
    /// refused, and nothing changes: the caller draws another. So every
    /// pending attempt is known by a token of its own.
    pub fn begin(&mut self, flow: FlowState) -> (authorize_url: Option<String>)
        ensures
            final(self).max_age() == old(self).max_age(),
            distinct_tokens(old(self)@),
            distinct_tokens(final(self)@),
            match authorize_url {
                Some(url) => {
                    &&& !awaits(old(self)@, flow.csrf_state@)
                    &&& url@ == flow.authorize_url@
                    &&& final(self)@ == old(self)@.push(flow)
                },
                None => awaits(old(self)@, flow.csrf_state@) && final(self)@ == old(self)@,
            },
    {
        if self.holds(flow.csrf_state.as_str()) {
            return None;
        }
        let authorize_url = flow.authorize_url.clone();
        let mut pending: Vec<FlowState> = Vec::new();
        core::mem::swap(&mut self.pending, &mut pending);
        proof {
            lemma_push_keeps_distinct(pending@, flow);
        }
        pending.push(flow);
        core::mem::swap(&mut self.pending, &mut pending);
        Some(authorize_url)
    }

    /// Takes a callback of the provider at time `now`.
    ///
    /// The pending attempt whose CSRF token is the `state` of the query is
    /// taken out, whatever follows: no attempt with that token is pending
    /// afterwards, so the callback cannot be used again. If the attempt
    /// began no more than `max_age` seconds ago, the caller is told what to
    /// send to the token endpoint. A callback that matches no attempt, or
    /// one that has timed out, is `CsrfMismatch`.
    pub fn handle_callback(&mut self, query: &AuthRequest, now: u64) -> (exchange: Result<
        TokenExchange,
        AuthError,
    >)
        ensures
            final(self).max_age() == old(self).max_age(),
            distinct_tokens(old(self)@),
            distinct_tokens(final(self)@),
            !awaits(final(self)@, query.state@),
            !awaits(old(self)@, query.state@) ==> {
                &&& exchange == Err::<TokenExchange, AuthError>(AuthError::CsrfMismatch)
                &&& final(self)@ == old(self)@
            },
            forall|i: int| #[trigger]
                awaits_at(old(self)@, query.state@, i) ==> {
                    &&& final(self)@ == old(self)@.remove(i)
                    &&& if in_time(old(self)@[i].created_at, old(self).max_age(), now) {
                        exchange matches Ok(x) && x.code@ == query.code@ && x.pkce_code_verifier@
                            == old(self)@[i].pkce_code_verifier@
                    } else {
                        exchange == Err::<TokenExchange, AuthError>(AuthError::CsrfMismatch)
                    }
                },
    {
        proof {
            use_type_invariant(&*self);
        }
        let mut i: usize = 0;
        while i < self.pending.len()
            invariant
                i <= self.pending.len(),
                *self == *old(self),
                distinct_tokens(self.pending@),
                forall|j: int| 0 <= j < i ==> (#[trigger] self.pending@[j]).csrf_state@ != query.state@,
            decreases self.pending.len() - i,
        {
            if constant_time_eq(self.pending[i].csrf_state.as_str(), query.state.as_str()) {
                proof {
                    assert(awaits_at(self.pending@, query.state@, i as int));
                    lemma_remove_keeps_distinct(self.pending@, i as int);
                    lemma_taken_attempt_is_gone(self.pending@, query.state@, i as int);
                }
                let mut pending: Vec<FlowState> = Vec::new();
                core::mem::swap(&mut self.pending, &mut pending);
                let flow = pending.remove(i);
                core::mem::swap(&mut self.pending, &mut pending);
                if now <= flow.created_at || now - flow.created_at <= self.max_age {
                    return Ok(
                        TokenExchange {
                            code: query.code.clone(),
                            pkce_code_verifier: flow.pkce_code_verifier,
                        },
                    );
                } else {
                    return Err(AuthError::CsrfMismatch);
                }
            }
            i += 1;
        }
        Err(AuthError::CsrfMismatch)
    }
}

proof fn lemma_filter_last(earlier: Seq<FlowState>, last: FlowState, keep: spec_fn(FlowState) -> bool)
    ensures
        earlier.push(last).filter(keep) == if keep(last) {
            earlier.filter(keep).push(last)
        } else {
            earlier.filter(keep)
        },
{
    reveal(Seq::filter);
    assert(earlier.push(last).drop_last() =~= earlier);
}

proof fn lemma_remove_keeps_distinct(pending: Seq<FlowState>, i: int)
    requires
        distinct_tokens(pending),
        0 <= i < pending.len(),
    ensures
        distinct_tokens(pending.remove(i)),
{
    let after = pending.remove(i);
    assert forall|a: int, b: int| 0 <= a < b < after.len() implies (#[trigger] after[a]).csrf_state@
        != (#[trigger] after[b]).csrf_state@ by {
        let a0 = if a < i { a } else { a + 1 };
        let b0 = if b < i { b } else { b + 1 };
        assert(after[a] == pending[a0]);
        assert(after[b] == pending[b0]);
    }
}

proof fn lemma_push_keeps_distinct(pending: Seq<FlowState>, flow: FlowState)
    requires
        distinct_tokens(pending),
        !awaits(pending, flow.csrf_state@),
    ensures
        distinct_tokens(pending.push(flow)),
{
    let after = pending.push(flow);
    assert forall|a: int, b: int| 0 <= a < b < after.len() implies (#[trigger] after[a]).csrf_state@
        != (#[trigger] after[b]).csrf_state@ by {
        assert(after[a] == pending[a]);
        if b < pending.len() {
            assert(after[b] == pending[b]);
        } else {
            assert(after[b] == flow);
        }
    }
}

proof fn lemma_taken_attempt_is_gone(pending: Seq<FlowState>, state: Seq<char>, i: int)
    requires
        distinct_tokens(pending),
        awaits_at(pending, state, i),
    ensures
        !awaits(pending.remove(i), state),
{
    let after = pending.remove(i);
    assert forall|j: int| 0 <= j < after.len() implies (#[trigger] after[j]).csrf_state@
        != state by {
        if j < i {
            assert(after[j] == pending[j]);
        } else {
            assert(after[j] == pending[j + 1]);
        }
    }
}

/// A callback whose `state` is not the CSRF token of any pending attempt
/// matches none of them.
pub proof fn lemma_unknown_state_awaits_nothing(pending: Seq<FlowState>, state: Seq<char>)
    requires
        forall|i: int| 0 <= i < pending.len() ==> (#[trigger] pending[i]).csrf_state@ != state,
    ensures
        !awaits(pending, state),
        forall|i: int| !awaits_at(pending, state, i),
{
}

/// Two attempts that were begun one after the other, the first still
/// pending when the second was taken, have different CSRF tokens.
pub proof fn lemma_two_begun_attempts_differ(
    pending: Seq<FlowState>,
    first: FlowState,
    second: FlowState,
)
    requires
        !awaits(pending.push(first), second.csrf_state@),
    ensures
        first.csrf_state@ != second.csrf_state@,
{
    let with_first = pending.push(first);
    assert(with_first[pending.len() as int] == first);
}

/// The user-info endpoint, which is asked for the profile of the user an
/// access token stands for.
pub fn profile_url() -> (url: &'static str)
    ensures
        url@ == "https://graph.microsoft.com/v1.0/me"@,
{
    "https://graph.microsoft.com/v1.0/me"
}

/// A callback whose `state` is not the CSRF token of the attempt that was
/// just begun is never accepted.
pub proof fn lemma_tampered_state_is_refused(flow: FlowState, state: Seq<char>)
    requires
        state != flow.csrf_state@,
    ensures
        !callback_accepted(
            MyAuth { phase: FlowPhase::AwaitingCallback, code_flow: Some(flow) },
            state,
        ),
{
}

/// A completed attempt accepts no callback: a code cannot be replayed.
pub proof fn lemma_completed_attempt_is_closed(auth: MyAuth, state: Seq<char>)
    requires
        auth.phase == FlowPhase::Completed,
    ensures
        !callback_accepted(auth, state),
{
}

/// The access token of a code exchange, where `None` stands for a call to
/// the token endpoint that failed, was refused or timed out: the login has
/// then no credential, and may be tried again.
pub fn exchanged_token(answer: Option<String>) -> (token: Result<String, AuthError>)
    ensures
        match answer {
            Some(t) => token == Ok::<String, AuthError>(t),
            None => token == Err::<String, AuthError>(AuthError::MissingCredential),
        },
{
    match answer {
        Some(token) => Ok(token),
        None => Err(AuthError::MissingCredential),
    }
}

/// The value of the `Authorization` header that presents an access token
/// to the user-info endpoint.
pub fn bearer_header(access_token: &str) -> (header: String)
    ensures
        header@ == "Bearer "@ + access_token@,
{
    String::from_str("Bearer ").concat(access_token)
}

/// What the answer of the user-info endpoint says of the user.
pub open spec fn profile_answer(body: Option<Seq<char>>) -> Result<UserModel, AuthError> {
    match body {
        None => Err(AuthError::MissingCredential),
        Some(b) => match profile_of_body(b) {
            Some(user) => Ok(user),
            None => Err(AuthError::MalformedToken),
        },
    }
}

/// The profile of a signed-in user, from the body of the user-info
/// endpoint's answer, where `None` stands for a call that failed or timed
/// out. A call without answer is `MissingCredential` and may be tried
/// again; an answer that holds no profile is `MalformedToken`.
pub fn profile_of_answer(body: Option<&str>) -> (profile: Result<User, AuthError>)
    ensures
        match profile {
            Ok(user) => profile_answer(optional_str_text(body)) == Ok::<UserModel, AuthError>(
                user@,
            ),
            Err(e) => profile_answer(optional_str_text(body)) == Err::<UserModel, AuthError>(e),
        },
{
    match body {
        None => Err(AuthError::MissingCredential),
        Some(body) => match User::from_body(body) {
            Some(user) => Ok(user),
            None => Err(AuthError::MalformedToken),
        },
    }
}

} // verus!
