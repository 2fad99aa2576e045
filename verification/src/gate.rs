//! The stage every request to a protected route passes first.
//!
//! A deployment picks one of two policies. Under the bearer policy a
//! request carries a signed token and is answered with 401 when the token
//! does not verify. Under the session policy a request carries a session
//! cookie, and a browser without a usable one is sent to the login page.

use vstd::prelude::*;
use crate::error::{AuthError, AuthRedirect};
use crate::keys::{issuer_text, KeyCache, KeyModel};
use crate::session::{created, destroyed, id_in_use, loaded, session_cookie_header, SessionStore};
use crate::text::{optional_str_text, optional_text};
use crate::token::{outcome_is, verdict, verify_cached, IdentityModel, RequireAuth};

verus! {

/// Name of the cookie that carries the session.
pub const COOKIE_NAME: &'static str = "SESSION";

/// The value that `headers::Cookie::get` finds under a name in one line of
/// a `Cookie` header. `None` where the line holds no such cookie or is no
/// header value.
pub uninterp spec fn cookie_in_header(header: Seq<char>, name: Seq<char>) -> Option<Seq<char>>;

/// `headers::Cookie`, decoded from one header line, then `Cookie::get`.
#[verifier::external_body]
fn cookie_value(header: &str, name: &str) -> (value: Option<String>)
    ensures
        optional_text(value) == cookie_in_header(header@, name@),
{
    let line = axum_extra::headers::HeaderValue::from_str(header).ok()?;
    let mut lines = std::iter::once(&line);
    let cookies: axum_extra::headers::Cookie = axum_extra::headers::Header::decode(&mut lines).ok()?;
    cookies.get(name).map(|v| v.to_string())
}

/// The token that `headers::Authorization<Bearer>` reads from one line of
/// an `Authorization` header. `None` where the line is not of the form
/// `Bearer <token>` or is no header value.
pub uninterp spec fn bearer_credential(header: Seq<char>) -> Option<Seq<char>>;

/// `headers::Authorization<Bearer>`, decoded from one header line, then
/// `Authorization::token`.
#[verifier::external_body]
fn bearer_value(header: &str) -> (token: Option<String>)
    ensures
        optional_text(token) == bearer_credential(header@),
{
    let line = axum_extra::headers::HeaderValue::from_str(header).ok()?;
    let mut lines = std::iter::once(&line);
    let bearer: axum_extra::headers::Authorization<axum_extra::headers::authorization::Bearer> =
        axum_extra::headers::Header::decode(&mut lines).ok()?;
    Some(bearer.token().to_string())
}

/// The token a request presents, or why it presents none.
pub open spec fn presented_token(authorization: Option<Seq<char>>) -> Result<
    Seq<char>,
    AuthError,
> {
    match authorization {
        None => Err(AuthError::MissingCredential),
        Some(header) => match bearer_credential(header) {
            Some(token) => Ok(token),
            None => Err(AuthError::MalformedToken),
        },
    }
}

/// Reads the bearer token out of the `Authorization` header of a request,
/// where `None` stands for a request without that header.
pub fn bearer_token(authorization: Option<&str>) -> (token: Result<String, AuthError>)
    ensures
        match token {
            Ok(t) => presented_token(optional_str_text(authorization)) == Ok::<
                Seq<char>,
                AuthError,
            >(t@),
            Err(e) => presented_token(optional_str_text(authorization)) == Err::<
                Seq<char>,
                AuthError,
            >(e),
        },
{
    let header = match authorization {
        Some(header) => header,
        None => { return Err(AuthError::MissingCredential); },
    };
    match bearer_value(header) {
        Some(token) => Ok(token),
        None => Err(AuthError::MalformedToken),
    }
}

/// The outcome of the bearer policy for a request.
pub open spec fn bearer_verdict(
    authorization: Option<Seq<char>>,
    keys: Seq<KeyModel>,
    audience: Seq<char>,
    issuer: Seq<char>,
    now: u64,
) -> Result<IdentityModel, AuthError> {
    match presented_token(authorization) {
        Err(e) => Err(e),
        Ok(token) => verdict(token, keys, audience, issuer, now),
    }
}

/// The bearer policy: the request must carry a token that verifies
/// against the keys of the tenant's cache that may be used at `now`, for
/// the tenant as issuer.
pub fn require_bearer(authorization: Option<&str>, cache: &KeyCache, audience: &str, now: u64) -> (outcome:
    Result<RequireAuth, AuthError>)
    ensures
        outcome_is(
            outcome,
            bearer_verdict(
                optional_str_text(authorization),
                cache.usable_keys(now),
                audience@,
                issuer_text(cache.tenant@),
                now,
            ),
        ),
{
    match bearer_token(authorization) {
        Ok(token) => verify_cached(token.as_str(), cache, audience, now),
        Err(e) => Err(e),
    }
}

/// The session cookie's value in a request's `Cookie` header.
pub open spec fn presented_cookie(cookie_header: Option<Seq<char>>) -> Option<Seq<char>> {
    match cookie_header {
        Some(header) => cookie_in_header(header, "SESSION"@),
        None => None,
    }
}

/// The payload of the session a request belongs to, if it belongs to one.
pub open spec fn session_verdict(
    sessions: Map<Seq<char>, Seq<u8>>,
    cookie_header: Option<Seq<char>>,
) -> Option<Seq<u8>> {
    match presented_cookie(cookie_header) {
        Some(cookie) => match loaded(sessions, cookie) {
            Ok(payload) => Some(payload),
            Err(_) => None,
        },
        None => None,
    }
}

/// Reads the session cookie's value out of the `Cookie` header of a
/// request, where `None` stands for a request without that header.
pub fn session_cookie(cookie_header: Option<&str>) -> (cookie: Option<String>)
    ensures
        optional_text(cookie) == presented_cookie(optional_str_text(cookie_header)),
{
    match cookie_header {
        Some(header) => cookie_value(header, COOKIE_NAME),
        None => None,
    }
}

/// The session policy: the request must carry the cookie of a stored
/// session. A request without the cookie, or with one that names no
/// session, is redirected to the login page.
pub fn require_session(store: &SessionStore, cookie_header: Option<&str>) -> (outcome: Result<
    Vec<u8>,
    AuthRedirect,
>)
    ensures
        match outcome {
            Ok(payload) => session_verdict(store@, optional_str_text(cookie_header)) == Some(
                payload@,
            ),
            Err(_) => session_verdict(store@, optional_str_text(cookie_header)).is_none(),
        },
{
    let cookie = match session_cookie(cookie_header) {
        Some(cookie) => cookie,
        None => { return Err(AuthRedirect); },
    };
    match store.load(cookie.as_str()) {
        Ok(payload) => Ok(payload),
        Err(_) => Err(AuthRedirect),
    }
}

/// The policy of a deployment. It is fixed by configuration, not chosen
/// per request.
#[derive(Clone, Copy, Debug, PartialEq, Eq, Structural)]
pub enum GateMode {
    Bearer,
    CookieSession,
}

/// What a request that passed is known by.
#[derive(Debug)]
pub enum Admitted {
    /// The identity of a verified token.
    Identity(RequireAuth),
    /// The payload of the request's session.
    Session(Vec<u8>),
}

/// How a request that did not pass is answered.
#[derive(Clone, Copy, Debug, PartialEq, Eq, Structural)]
pub enum Rejected {
    /// 401, with nothing that tells the failures apart.
    Unauthorized(AuthError),
    /// A redirect to the login page.
    Redirect(AuthRedirect),
}

impl Rejected {
    /// The status of the answer.
    pub fn status_code(&self) -> (code: u16)
        ensures
            code == match *self {
                Rejected::Unauthorized(_) => 401u16,
                Rejected::Redirect(_) => 307u16,
            },
    {
        match self {
            Rejected::Unauthorized(e) => e.status_code(),
            Rejected::Redirect(r) => r.status_code(),
        }
    }
}

/// Applies the policy of the deployment to a request.
///
/// Under `Bearer` only the `Authorization` header is read, under
/// `CookieSession` only the `Cookie` header.
pub fn authorize(
    mode: GateMode,
    authorization: Option<&str>,
    cookie_header: Option<&str>,
    cache: &KeyCache,
    store: &SessionStore,
    audience: &str,
    now: u64,
) -> (outcome: Result<Admitted, Rejected>)
    ensures
        match mode {
            GateMode::Bearer => match bearer_verdict(
                optional_str_text(authorization),
                cache.usable_keys(now),
                audience@,
                issuer_text(cache.tenant@),
                now,
            ) {
                Ok(identity) => outcome matches Ok(Admitted::Identity(who)) && who@ == identity,
                Err(e) => outcome matches Err(Rejected::Unauthorized(why)) && why == e,
            },
            GateMode::CookieSession => match session_verdict(
                store@,
                optional_str_text(cookie_header),
            ) {
                Some(payload) => outcome matches Ok(Admitted::Session(p)) && p@ == payload,
                None => outcome matches Err(Rejected::Redirect(_)),
            },
        },
{
    match mode {
        GateMode::Bearer => match require_bearer(authorization, cache, audience, now) {
            Ok(identity) => Ok(Admitted::Identity(identity)),
            Err(e) => Err(Rejected::Unauthorized(e)),
        },
        GateMode::CookieSession => match require_session(store, cookie_header) {
            Ok(payload) => Ok(Admitted::Session(payload)),
            Err(redirect) => Err(Rejected::Redirect(redirect)),
        },
    }
}

/// Whether the first answer to a request is the one that a fetch of the
/// signing keys may change: the token named a key that is not known.
pub open spec fn refresh_wanted(first: Result<Admitted, Rejected>) -> bool {
    match first {
        Err(Rejected::Unauthorized(AuthError::UnknownKey)) => true,
        _ => false,
    }
}

/// Whether the caller fetches the signing keys and has the request judged
/// once more. That is so for a token whose key is not known, to tolerate a
/// rotation of the keys, and for no other answer: a request that passed, or
/// failed for another reason, causes no outbound call.
pub fn wants_refresh(first: &Result<Admitted, Rejected>) -> (refresh: bool)
    ensures
        refresh == refresh_wanted(*first),
{
    match first {
        Err(Rejected::Unauthorized(AuthError::UnknownKey)) => true,
        _ => false,
    }
}

/// Ends a successful login: stores the user's profile as a new session and
/// returns the `Set-Cookie` value that hands the session to the browser.
///
/// `None`, with nothing stored, only where the cookie value drawn for the
/// session has an id that is in use.
pub fn establish_session(store: &mut SessionStore, profile: Vec<u8>) -> (set_cookie: Option<
    String,
>)
    ensures
        match set_cookie {
            Some(header) => exists|cookie: Seq<char>|
                {
                    &&& #[trigger] created(old(store)@, cookie, profile@) == Some(final(store)@)
                    &&& header@ == "SESSION="@ + cookie + "; SameSite=Lax; Path=/"@
                },
            None => final(store)@ == old(store)@ && exists|drawn: Seq<char>|
                id_in_use(old(store)@, drawn),
        },
{
    match store.create(profile) {
        Some(cookie) => {
            let header = session_cookie_header(cookie.as_str());
            assert(created(old(store)@, cookie@, profile@) == Some(final(store)@));
            Some(header)
        },
        None => None,
    }
}

/// Logs a browser out: destroys the session its cookie names, if any, and
/// returns the path it is redirected to.
pub fn logout(store: &mut SessionStore, cookie_header: Option<&str>) -> (location: &'static str)
    ensures
        location@ == "/"@,
        final(store)@ == match presented_cookie(optional_str_text(cookie_header)) {
            Some(cookie) => destroyed(old(store)@, cookie),
            None => old(store)@,
        },
{
    match session_cookie(cookie_header) {
        Some(cookie) => {
            store.destroy(cookie.as_str());
        },
        None => {},
    }
    "/"
}

/// Once a session was created for a profile, a request whose `Cookie`
/// header presents the session's cookie value passes the session policy
/// with that profile, byte for byte.
pub proof fn lemma_issued_cookie_is_accepted(
    before: Map<Seq<char>, Seq<u8>>,
    cookie: Seq<char>,
    profile: Seq<u8>,
    cookie_header: Seq<char>,
)
    requires
        created(before, cookie, profile) is Some,
        presented_cookie(Some(cookie_header)) == Some(cookie),
    ensures
        session_verdict(created(before, cookie, profile).unwrap(), Some(cookie_header)) == Some(
            profile,
        ),
{
}

/// After a logout, the request that presented the session's cookie value
/// is sent to the login page again.
pub proof fn lemma_logged_out_cookie_is_refused(
    before: Map<Seq<char>, Seq<u8>>,
    cookie: Seq<char>,
    cookie_header: Seq<char>,
)
    requires
        presented_cookie(Some(cookie_header)) == Some(cookie),
    ensures
        session_verdict(destroyed(before, cookie), Some(cookie_header)).is_none(),
{
}

} // verus!
