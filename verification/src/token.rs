//! Verification of a bearer token: header, signing key, claims, signature.
//!
//! `jsonwebtoken` decodes the token and checks the signature; which token is
//! accepted, and which failure is reported for one that is not, is decided
//! here.

use vstd::prelude::*;
use vstd::string::*;
use vstd::utf8::*;
use crate::error::AuthError;
use crate::json::{items, items_of, json_tree, member, member_of, number, number_of, text, text_of,
    read_text_member, text_member, trees, JsonModel};
use crate::keys::{first_with_kid, has_kid, issuer_text, issuer_url, lemma_first_with_kid, KeyCache,
    KeyModel, SigningKeySet};
use crate::text::{contains_text, optional_text, same_text, texts};

verus! {

/// The two header fields of a token that verification reads.
#[derive(Debug)]
pub struct TokenHeader {
    pub alg: String,
    pub kid: Option<String>,
}

/// A token header, as text.
pub ghost struct HeaderModel {
    pub alg: Seq<char>,
    pub kid: Option<Seq<char>>,
}

/// The header that `jsonwebtoken::decode_header` reads from a token: its
/// algorithm by name and its key id. `None` where the token has no readable
/// header.
pub uninterp spec fn token_header(token: Seq<char>) -> Option<HeaderModel>;

/// The claims document that `jsonwebtoken::decode` reads from a token when
/// it checks neither signature nor claims. `None` where the token has no
/// readable claims.
pub uninterp spec fn token_claims(token: Seq<char>) -> Option<JsonModel>;

/// Whether `jsonwebtoken::crypto::verify` finds that a signature, in the
/// base64 text a token carries it in, is the RS256 signature of a message
/// under the RSA key of a PEM certificate. `false` also where the signature
/// is no base64 text or the certificate holds no RSA key.
pub uninterp spec fn signature_accepted(
    signature: Seq<char>,
    message: Seq<char>,
    certificate_pem: Seq<char>,
) -> bool;

/// `jsonwebtoken::decode_header`. No signature is checked. The algorithm is
/// given by the name of its variant.
#[verifier::external_body]
fn read_header(token: &str) -> (header: Option<TokenHeader>)
    ensures
        match header {
            Some(h) => token_header(token@) == Some(
                HeaderModel { alg: h.alg@, kid: optional_text(h.kid) },
            ),
            None => token_header(token@).is_none(),
        },
{
    match jsonwebtoken::decode_header(token) {
        Ok(h) => Some(TokenHeader { alg: format!("{:?}", h.alg), kid: h.kid }),
        Err(_) => None,
    }
}

/// `jsonwebtoken::decode` at type `serde_json::Value`, with the signature
/// check and every claim check switched off: the claims as a document.
#[verifier::external_body]
fn read_claims(token: &str) -> (claims: Option<serde_json::Value>)
    ensures
        match claims {
            Some(doc) => token_claims(token@) == Some(json_tree(doc)),
            None => token_claims(token@).is_none(),
        },
{
    let mut lenient = jsonwebtoken::Validation::new(jsonwebtoken::Algorithm::RS256);
    lenient.insecure_disable_signature_validation();
    lenient.validate_exp = false;
    lenient.validate_aud = false;
    lenient.required_spec_claims.clear();
    let key = jsonwebtoken::DecodingKey::from_secret(&[]);
    match jsonwebtoken::decode::<serde_json::Value>(token, &key, &lenient) {
        Ok(data) => Some(data.claims),
        Err(_) => None,
    }
}

/// `jsonwebtoken::crypto::verify` for RS256, under the key that
/// `DecodingKey::from_rsa_pem` reads from the certificate. An error of
/// either call counts as a signature that was not accepted.
#[verifier::external_body]
fn check_signature(signature: &str, message: &str, certificate_pem: &str) -> (accepted: bool)
    ensures
        accepted == signature_accepted(signature@, message@, certificate_pem@),
{
    let key = match jsonwebtoken::DecodingKey::from_rsa_pem(certificate_pem.as_bytes()) {
        Ok(key) => key,
        Err(_) => return false,
    };
    let rs256 = jsonwebtoken::Algorithm::RS256;
    match jsonwebtoken::crypto::verify(signature, message.as_bytes(), &key, rs256) {
        Ok(accepted) => accepted,
        Err(_) => false,
    }
}

/// The claims of a token that verification consumes.
#[derive(Debug)]
pub struct Claims {
    pub oid: String,
    pub name: String,
    pub preferred_username: String,
    pub sub: String,
    pub exp: u64,
    pub roles: Vec<String>,
    pub iss: Option<String>,
    pub aud: Vec<String>,
}

/// Claims, as text and numbers.
pub ghost struct ClaimsModel {
    pub oid: Seq<char>,
    pub name: Seq<char>,
    pub preferred_username: Seq<char>,
    pub sub: Seq<char>,
    pub exp: u64,
    pub roles: Seq<Seq<char>>,
    pub iss: Option<Seq<char>>,
    pub aud: Seq<Seq<char>>,
}

impl View for Claims {
    type V = ClaimsModel;

    open spec fn view(&self) -> ClaimsModel {
        ClaimsModel {
            oid: self.oid@,
            name: self.name@,
            preferred_username: self.preferred_username@,
            sub: self.sub@,
            exp: self.exp,
            roles: texts(self.roles@),
            iss: optional_text(self.iss),
            aud: texts(self.aud@),
        }
    }
}

/// The authenticated principal that a verified token stands for.
#[derive(Debug)]
pub struct RequireAuth {
    pub oid: String,
    pub name: String,
    pub preferred_username: String,
    pub sub: String,
    pub exp: u64,
    pub roles: Vec<String>,
}

/// An identity, as text and numbers.
pub ghost struct IdentityModel {
    pub oid: Seq<char>,
    pub name: Seq<char>,
    pub preferred_username: Seq<char>,
    pub sub: Seq<char>,
    pub exp: u64,
    pub roles: Seq<Seq<char>>,
}

impl View for RequireAuth {
    type V = IdentityModel;

    open spec fn view(&self) -> IdentityModel {
        IdentityModel {
            oid: self.oid@,
            name: self.name@,
            preferred_username: self.preferred_username@,
            sub: self.sub@,
            exp: self.exp,
            roles: texts(self.roles@),
        }
    }
}

/// The identity that a set of claims names.
pub open spec fn identity_of(claims: ClaimsModel) -> IdentityModel {
    IdentityModel {
        oid: claims.oid,
        name: claims.name,
        preferred_username: claims.preferred_username,
        sub: claims.sub,
        exp: claims.exp,
        roles: claims.roles,
    }
}

/// Whether every element of a JSON array is a string.
pub open spec fn all_text(elements: Seq<JsonModel>) -> bool {
    forall|i: int| 0 <= i < elements.len() ==> (#[trigger] text_of(elements[i])).is_some()
}

/// The list of strings a JSON value holds, if it is an array of strings.
pub open spec fn text_list(value: JsonModel) -> Option<Seq<Seq<char>>> {
    match items_of(value) {
        Some(elements) => if all_text(elements) {
            Some(Seq::new(elements.len(), |i: int| text_of(elements[i]).unwrap()))
        } else {
            None
        },
        None => None,
    }
}

/// The user name of a claims document: `preferred_username`, or `upn`
/// where that is absent.
pub open spec fn username_of(doc: JsonModel) -> Option<Seq<char>> {
    match text_member(doc, "preferred_username"@) {
        Some(name) => Some(name),
        None => text_member(doc, "upn"@),
    }
}

/// The expiry of a claims document.
pub open spec fn expiry_of(doc: JsonModel) -> Option<u64> {
    match member_of(doc, "exp"@) {
        Some(v) => number_of(v),
        None => None,
    }
}

/// The roles of a claims document.
pub open spec fn roles_of(doc: JsonModel) -> Option<Seq<Seq<char>>> {
    match member_of(doc, "roles"@) {
        Some(v) => text_list(v),
        None => None,
    }
}

/// The audiences of a claims document: the one string of `aud`, or the
/// strings of its array; none where `aud` is absent or of another shape.
pub open spec fn audience_of(doc: JsonModel) -> Seq<Seq<char>> {
    match member_of(doc, "aud"@) {
        Some(v) => match text_of(v) {
            Some(single) => seq![single],
            None => match text_list(v) {
                Some(many) => many,
                None => Seq::empty(),
            },
        },
        None => Seq::empty(),
    }
}

/// The claims that a document holds. `oid`, `name`, `sub`, `exp`, `roles`
/// and a user name are required; a document that lacks one holds no claims.
pub open spec fn claims_of(doc: JsonModel) -> Option<ClaimsModel> {
    match (
        text_member(doc, "oid"@),
        text_member(doc, "name"@),
        username_of(doc),
        text_member(doc, "sub"@),
        expiry_of(doc),
        roles_of(doc),
    ) {
        (Some(oid), Some(name), Some(preferred_username), Some(sub), Some(exp), Some(roles)) => Some(
            ClaimsModel {
                oid,
                name,
                preferred_username,
                sub,
                exp,
                roles,
                iss: text_member(doc, "iss"@),
                aud: audience_of(doc),
            },
        ),
        _ => None,
    }
}

fn read_text_list(value: &serde_json::Value) -> (list: Option<Vec<String>>)
    ensures
        match list {
            Some(l) => text_list(json_tree(*value)) == Some(texts(l@)),
            None => text_list(json_tree(*value)).is_none(),
        },
{
    let elements = match items(value) {
        Some(elements) => elements,
        None => { return None; },
    };
    let ghost all = trees(elements@);
    let mut out: Vec<String> = Vec::new();
    let mut i: usize = 0;
    while i < elements.len()
        invariant
            i <= elements.len(),
            out@.len() == i,
            all == trees(elements@),
            items_of(json_tree(*value)) == Some(all),
            forall|j: int| 0 <= j < i ==> (#[trigger] text_of(all[j])) == Some(out@[j]@),
        decreases elements.len() - i,
    {
        assert(all[i as int] == json_tree(elements@[i as int]));
        match text(&elements[i]) {
            Some(s) => {
                out.push(s.to_owned());
            },
            None => {
                assert(text_of(all[i as int]).is_none());
                assert(!all_text(all));
                return None;
            },
        }
        i += 1;
    }
    assert(all_text(all));
    assert(texts(out@) =~= Seq::new(all.len(), |i: int| text_of(all[i]).unwrap()));
    Some(out)
}

fn read_audience(doc: &serde_json::Value) -> (aud: Vec<String>)
    ensures
        texts(aud@) == audience_of(json_tree(*doc)),
{
    let mut aud: Vec<String> = Vec::new();
    match member(doc, "aud") {
        Some(v) => match text(v) {
            Some(single) => {
                aud.push(single.to_owned());
                assert(texts(aud@) =~= seq![single@]);
                aud
            },
            None => match read_text_list(v) {
                Some(many) => many,
                None => {
                    assert(texts(aud@) =~= Seq::empty());
                    aud
                },
            },
        },
        None => {
            assert(texts(aud@) =~= Seq::empty());
            aud
        },
    }
}

impl Claims {
    /// Reads the claims out of a claims document.
    pub fn from_document(doc: &serde_json::Value) -> (claims: Option<Claims>)
        ensures
            match claims {
                Some(c) => claims_of(json_tree(*doc)) == Some(c@),
                None => claims_of(json_tree(*doc)).is_none(),
            },
    {
        let oid = match read_text_member(doc, "oid") {
            Some(v) => v,
            None => { return None; },
        };
        let name = match read_text_member(doc, "name") {
            Some(v) => v,
            None => { return None; },
        };
        let preferred_username = match read_text_member(doc, "preferred_username") {
            Some(v) => v,
            None => match read_text_member(doc, "upn") {
                Some(v) => v,
                None => { return None; },
            },
        };
        let sub = match read_text_member(doc, "sub") {
            Some(v) => v,
            None => { return None; },
        };
        let exp = match member(doc, "exp") {
            Some(v) => match number(v) {
                Some(n) => n,
                None => { return None; },
            },
            None => { return None; },
        };
        let roles = match member(doc, "roles") {
            Some(v) => match read_text_list(v) {
                Some(l) => l,
                None => { return None; },
            },
            None => { return None; },
        };
        let iss = read_text_member(doc, "iss");
        let aud = read_audience(doc);
        Some(Claims { oid, name, preferred_username, sub, exp, roles, iss, aud })
    }
}

/// What the claims alone say of a token at time `now`: expired when `exp`
/// is not in the future, then a wrong audience, then a wrong issuer.
pub open spec fn claims_verdict(
    claims: ClaimsModel,
    audience: Seq<char>,
    issuer: Seq<char>,
    now: u64,
) -> Option<AuthError> {
    if claims.exp <= now {
        Some(AuthError::ExpiredToken)
    } else if !claims.aud.contains(audience) {
        Some(AuthError::AudienceMismatch)
    } else if claims.iss != Some(issuer) {
        Some(AuthError::IssuerMismatch)
    } else {
        None
    }
}

/// The outcome for a token with the given claims and signature check: the
/// verdict of the claims where they fail, else `InvalidSignature` where the
/// signature was not accepted, else the identity the claims name.
pub open spec fn judgement(
    claims: ClaimsModel,
    signature_ok: bool,
    audience: Seq<char>,
    issuer: Seq<char>,
    now: u64,
) -> Result<IdentityModel, AuthError> {
    match claims_verdict(claims, audience, issuer, now) {
        Some(e) => Err(e),
        None => if signature_ok {
            Ok(identity_of(claims))
        } else {
            Err(AuthError::InvalidSignature)
        },
    }
}

/// The key id of a token whose header names RS256 and a key; a token with
/// any other header is malformed.
pub open spec fn token_kid(token: Seq<char>) -> Result<Seq<char>, AuthError> {
    match token_header(token) {
        Some(h) => if h.alg == "RS256"@ {
            match h.kid {
                Some(kid) => Ok(kid),
                None => Err(AuthError::MalformedToken),
            }
        } else {
            Err(AuthError::MalformedToken)
        },
        None => Err(AuthError::MalformedToken),
    }
}

/// Where the last `.` of a text stands.
pub open spec fn last_dot(text: Seq<char>) -> Option<int>
    decreases text.len(),
{
    if text.len() == 0 {
        None
    } else if text.last() == '.' {
        Some(text.len() - 1)
    } else {
        last_dot(text.drop_last())
    }
}

/// The two parts of a token that its signature relates.
pub ghost struct SignedParts {
    /// What was signed: the token up to its last `.`.
    pub message: Seq<char>,
    /// The signature: what follows the last `.`.
    pub signature: Seq<char>,
}

/// The signed message and the signature of a token. A text with
/// characters outside ASCII, or without a `.`, has neither.
pub open spec fn signed_parts(token: Seq<char>) -> Option<SignedParts> {
    if is_ascii_chars(token) {
        match last_dot(token) {
            Some(i) => Some(
                SignedParts {
                    message: token.subrange(0, i),
                    signature: token.subrange(i + 1, token.len() as int),
                },
            ),
            None => None,
        }
    } else {
        None
    }
}

/// Whether the signature of a token is accepted under a certificate.
pub open spec fn token_signature_accepted(token: Seq<char>, certificate_pem: Seq<char>) -> bool {
    match signed_parts(token) {
        Some(parts) => signature_accepted(parts.signature, parts.message, certificate_pem),
        None => false,
    }
}

/// Splits a token at its last `.` into the signed message and the
/// signature.
pub fn split_signature(token: &str) -> (parts: Option<(&str, &str)>)
    ensures
        match parts {
            Some((message, signature)) => signed_parts(token@) == Some(
                SignedParts { message: message@, signature: signature@ },
            ),
            None => signed_parts(token@).is_none(),
        },
{
    if !token.is_ascii() {
        return None;
    }
    proof {
        assert(is_ascii_chars(token@));
        is_ascii_chars_encode_utf8(token@);
        assert(token.spec_bytes().len() == token@.len());
    }
    let n = token.as_bytes().len();
    let mut i: usize = n;
    assert(token@.take(i as int) =~= token@);
    while i > 0
        invariant
            i <= n,
            n == token@.len(),
            token.is_ascii(),
            last_dot(token@) == last_dot(token@.take(i as int)),
        decreases i,
    {
        i -= 1;
        let b = token.get_ascii(i);
        let ghost c = token@[i as int];
        assert('\0' <= c <= '\u{7f}');
        assert(c as u8 == b);
        assert((b == 46) == (c == '.'));
        assert(token@.take(i as int + 1).last() == c);
        assert(token@.take(i as int + 1).drop_last() =~= token@.take(i as int));
        if b == 46 {
            let message = token.substring_ascii(0, i);
            let signature = token.substring_ascii(i + 1, n);
            return Some((message, signature));
        }
    }
    None
}

/// Checks the signature of a token under a certificate in PEM armour.
pub fn signature_is_accepted(token: &str, certificate_pem: &str) -> (accepted: bool)
    ensures
        accepted == token_signature_accepted(token@, certificate_pem@),
{
    match split_signature(token) {
        Some((message, signature)) => check_signature(signature, message, certificate_pem),
        None => false,
    }
}

/// The text of a certificate in PEM armour.
pub open spec fn pem_text(certificate: Seq<char>) -> Seq<char> {
    "-----BEGIN CERTIFICATE-----\n"@ + certificate + "\n-----END CERTIFICATE-----"@
}

/// The outcome of verifying a token against a key set.
///
/// The header is read first and must name RS256 and a key id. The key is
/// then looked up: a token whose key the set does not hold is `UnknownKey`,
/// whatever else it says. Then the claims are read and judged, and the
/// signature is checked under the key's certificate.
pub open spec fn verdict(
    token: Seq<char>,
    keys: Seq<KeyModel>,
    audience: Seq<char>,
    issuer: Seq<char>,
    now: u64,
) -> Result<IdentityModel, AuthError> {
    match token_kid(token) {
        Err(e) => Err(e),
        Ok(kid) => match first_with_kid(keys, kid) {
            None => Err(AuthError::UnknownKey),
            Some(key) => match token_claims(token) {
                None => Err(AuthError::MalformedToken),
                Some(doc) => match claims_of(doc) {
                    None => Err(AuthError::MalformedToken),
                    Some(claims) => judgement(
                        claims,
                        token_signature_accepted(token, pem_text(key.certificate)),
                        audience,
                        issuer,
                        now,
                    ),
                },
            },
        },
    }
}

/// Whether an outcome of verification is the given model of it.
pub open spec fn outcome_is(
    outcome: Result<RequireAuth, AuthError>,
    model: Result<IdentityModel, AuthError>,
) -> bool {
    match outcome {
        Ok(identity) => model == Ok::<IdentityModel, AuthError>(identity@),
        Err(e) => model == Err::<IdentityModel, AuthError>(e),
    }
}

/// Checks the claims of a token at time `now`.
pub fn check_claims(claims: &Claims, audience: &str, issuer: &str, now: u64) -> (failure: Option<
    AuthError,
>)
    ensures
        failure == claims_verdict(claims@, audience@, issuer@, now),
{
    if claims.exp <= now {
        return Some(AuthError::ExpiredToken);
    }
    if !contains_text(&claims.aud, audience) {
        return Some(AuthError::AudienceMismatch);
    }
    match &claims.iss {
        Some(iss) => {
            if !same_text(iss.as_str(), issuer) {
                return Some(AuthError::IssuerMismatch);
            }
        },
        None => {
            return Some(AuthError::IssuerMismatch);
        },
    }
    None
}

/// Decides on a token from its claims and the result of its signature
/// check.
pub fn judge(claims: Claims, signature_ok: bool, audience: &str, issuer: &str, now: u64) -> (outcome:
    Result<RequireAuth, AuthError>)
    ensures
        outcome_is(outcome, judgement(claims@, signature_ok, audience@, issuer@, now)),
{
    match check_claims(&claims, audience, issuer, now) {
        Some(e) => Err(e),
        None => {
            if signature_ok {
                Ok(
                    RequireAuth {
                        oid: claims.oid,
                        name: claims.name,
                        preferred_username: claims.preferred_username,
                        sub: claims.sub,
                        exp: claims.exp,
                        roles: claims.roles,
                    },
                )
            } else {
                Err(AuthError::InvalidSignature)
            }
        },
    }
}

/// Reads the key id of a token, without checking its signature.
pub fn key_id(token: &str) -> (kid: Result<String, AuthError>)
    ensures
        match kid {
            Ok(k) => token_kid(token@) == Ok::<Seq<char>, AuthError>(k@),
            Err(e) => token_kid(token@) == Err::<Seq<char>, AuthError>(e),
        },
{
    match read_header(token) {
        Some(header) => {
            if same_text(header.alg.as_str(), "RS256") {
                match header.kid {
                    Some(kid) => Ok(kid),
                    None => Err(AuthError::MalformedToken),
                }
            } else {
                Err(AuthError::MalformedToken)
            }
        },
        None => Err(AuthError::MalformedToken),
    }
}

/// Verifies a bearer token against a key set, for an audience and an
/// issuer, at time `now` (seconds since the epoch).
///
/// The signature is only checked for a token whose claims pass.
pub fn verify(token: &str, keys: &SigningKeySet, audience: &str, issuer: &str, now: u64) -> (outcome:
    Result<RequireAuth, AuthError>)
    ensures
        outcome_is(outcome, verdict(token@, keys.key_models(), audience@, issuer@, now)),
{
    let kid = match key_id(token) {
        Ok(kid) => kid,
        Err(e) => { return Err(e); },
    };
    let key = match keys.find(kid.as_str()) {
        Some(key) => key,
        None => { return Err(AuthError::UnknownKey); },
    };
    let doc = match read_claims(token) {
        Some(doc) => doc,
        None => { return Err(AuthError::MalformedToken); },
    };
    let claims = match Claims::from_document(&doc) {
        Some(claims) => claims,
        None => { return Err(AuthError::MalformedToken); },
    };
    match check_claims(&claims, audience, issuer, now) {
        Some(e) => Err(e),
        None => {
            let pem = key.certificate_pem();
            let signature_ok = signature_is_accepted(token, pem.as_str());
            judge(claims, signature_ok, audience, issuer, now)
        },
    }
}

/// Verifies a bearer token for a tenant against the keys of its cache that
/// may be used at `now`. The issuer expected is the tenant's.
///
/// The cache is only read. A caller that is answered `UnknownKey` asks the
/// cache for the token's key, fetches where it is told to, and verifies
/// again.
pub fn verify_cached(token: &str, cache: &KeyCache, audience: &str, now: u64) -> (outcome: Result<
    RequireAuth,
    AuthError,
>)
    ensures
        outcome_is(
            outcome,
            verdict(token@, cache.usable_keys(now), audience@, issuer_text(cache.tenant@), now),
        ),
{
    let issuer = issuer_url(cache.tenant.as_str());
    match &cache.current {
        Some(set) => {
            if now <= set.fetched_at || now - set.fetched_at <= cache.max_age {
                return verify(token, set, audience, issuer.as_str(), now);
            }
        },
        None => {},
    }
    let none = SigningKeySet::new("", now, Vec::new());
    assert(none.key_models() =~= Seq::<KeyModel>::empty());
    verify(token, &none, audience, issuer.as_str(), now)
}

/// A token whose header names a key that the key set does not hold is
/// refused as `UnknownKey`, whatever its claims and its signature.
pub proof fn lemma_unknown_key(
    token: Seq<char>,
    keys: Seq<KeyModel>,
    audience: Seq<char>,
    issuer: Seq<char>,
    now: u64,
)
    requires
        token_kid(token) is Ok,
        !has_kid(keys, token_kid(token)->Ok_0),
    ensures
        verdict(token, keys, audience, issuer, now) == Err::<IdentityModel, AuthError>(
            AuthError::UnknownKey,
        ),
{
    lemma_first_with_kid(keys, token_kid(token)->Ok_0);
}

/// Claims whose expiry lies in the past are judged `ExpiredToken`, whether
/// the signature was accepted or not.
pub proof fn lemma_expired_whatever_the_signature(
    claims: ClaimsModel,
    signature_ok: bool,
    audience: Seq<char>,
    issuer: Seq<char>,
    now: u64,
)
    requires
        claims.exp < now,
    ensures
        judgement(claims, signature_ok, audience, issuer, now) == Err::<IdentityModel, AuthError>(
            AuthError::ExpiredToken,
        ),
{
}

/// A token signed with a key of the set, with readable claims whose expiry
/// lies in the past, is refused as `ExpiredToken`: the signature is not
/// asked.
pub proof fn lemma_expired_token(
    token: Seq<char>,
    keys: Seq<KeyModel>,
    audience: Seq<char>,
    issuer: Seq<char>,
    now: u64,
)
    requires
        token_kid(token) is Ok,
        has_kid(keys, token_kid(token)->Ok_0),
        token_claims(token) is Some,
        claims_of(token_claims(token).unwrap()) is Some,
        claims_of(token_claims(token).unwrap()).unwrap().exp < now,
    ensures
        verdict(token, keys, audience, issuer, now) == Err::<IdentityModel, AuthError>(
            AuthError::ExpiredToken,
        ),
{
    lemma_first_with_kid(keys, token_kid(token)->Ok_0);
}

/// A token signed with a key of the set, with readable claims that have not
/// expired and whose audiences do not include the expected one, is refused
/// as `AudienceMismatch`, whatever its issuer and signature.
pub proof fn lemma_audience_mismatch(
    token: Seq<char>,
    keys: Seq<KeyModel>,
    audience: Seq<char>,
    issuer: Seq<char>,
    now: u64,
)
    requires
        token_kid(token) is Ok,
        has_kid(keys, token_kid(token)->Ok_0),
        token_claims(token) is Some,
        claims_of(token_claims(token).unwrap()) is Some,
        claims_of(token_claims(token).unwrap()).unwrap().exp > now,
        !claims_of(token_claims(token).unwrap()).unwrap().aud.contains(audience),
    ensures
        verdict(token, keys, audience, issuer, now) == Err::<IdentityModel, AuthError>(
            AuthError::AudienceMismatch,
        ),
{
    lemma_first_with_kid(keys, token_kid(token)->Ok_0);
}

/// A token is accepted only if its key is in the set, its claims have not
/// expired, name the audience and the issuer, and its signature was
/// accepted under that key; the identity is then the one its claims name.
pub proof fn lemma_accepted_token(
    token: Seq<char>,
    keys: Seq<KeyModel>,
    audience: Seq<char>,
    issuer: Seq<char>,
    now: u64,
)
    requires
        verdict(token, keys, audience, issuer, now) is Ok,
    ensures
        token_kid(token) is Ok,
        has_kid(keys, token_kid(token)->Ok_0),
        claims_of(token_claims(token).unwrap()) matches Some(claims) && claims.exp > now
            && claims.aud.contains(audience) && claims.iss == Some(issuer) && verdict(
            token,
            keys,
            audience,
            issuer,
            now,
        ) == Ok::<IdentityModel, AuthError>(identity_of(claims)),
        token_signature_accepted(
            token,
            pem_text(first_with_kid(keys, token_kid(token)->Ok_0).unwrap().certificate),
        ),
{
    lemma_first_with_kid(keys, token_kid(token)->Ok_0);
}

} // verus!
