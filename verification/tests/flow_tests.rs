use tsm::config::AuthConfig;
use tsm::error::{AuthError, ConfigError};
use tsm::flow::{
    accept_code_flow, authorize_address_of, bearer_header, exchanged_token, get_code_flow,
    profile_of_answer, profile_url, AuthRequest, FlowPhase, FlowState, LoginAttempts, MyAuth, User,
};

fn config() -> AuthConfig {
    AuthConfig::from_values(
        Some("contoso".to_string()),
        Some("client-1".to_string()),
        Some("hunter2".to_string()),
        Some("api://tsm".to_string()),
        None,
    )
    .unwrap()
}

fn flow() -> FlowState {
    FlowState {
        authorize_url: "https://idp.example/authorize?state=token-1".to_string(),
        csrf_state: "token-1".to_string(),
        pkce_code_verifier: "verifier-1".to_string(),
        created_at: 10,
    }
}

fn query(code: &str, state: &str) -> AuthRequest {
    AuthRequest { code: code.to_string(), state: state.to_string() }
}

#[test]
fn code_flow_carries_token_challenge_scopes_and_redirect() {
    let flow = get_code_flow(&config(), 1234).unwrap();
    assert_eq!(flow.created_at, 1234);
    assert!(!flow.csrf_state.is_empty());
    assert!(flow.pkce_code_verifier.len() >= 43);
    let url = &flow.authorize_url;
    assert!(url.starts_with("https://login.microsoftonline.com/contoso/oauth2/v2.0/authorize?"), "{url}");
    assert!(url.contains("response_type=code"), "{url}");
    assert!(url.contains("client_id=client-1"), "{url}");
    assert!(url.contains(&format!("state={}", flow.csrf_state)), "{url}");
    assert!(url.contains("code_challenge="), "{url}");
    assert!(url.contains("code_challenge_method=S256"), "{url}");
    assert!(url.contains("scope=openid+profile+email"), "{url}");
    assert!(url.contains("redirect_uri=http%3A%2F%2Flocalhost%3A3000%2Fauth%2Fauthorized"), "{url}");
    assert!(!url.contains("hunter2"), "{url}");
    assert!(!url.contains(&flow.pkce_code_verifier), "{url}");
}

#[test]
fn each_code_flow_has_its_own_token_and_verifier() {
    let a = get_code_flow(&config(), 1).unwrap();
    let b = get_code_flow(&config(), 1).unwrap();
    assert_ne!(a.csrf_state, b.csrf_state);
    assert_ne!(a.pkce_code_verifier, b.pkce_code_verifier);
}

#[test]
fn code_flow_needs_a_redirect_address_that_is_a_url() {
    let mut config = config();
    for redirect in ["not a url", "", "/auth/authorized", "//app.example/cb", "http://"] {
        config.redirect_url = redirect.to_string();
        assert_eq!(get_code_flow(&config, 1).unwrap_err(), ConfigError::InvalidRedirectUrl, "{redirect}");
    }
}

#[test]
fn code_flow_needs_a_plain_tenant_id() {
    for tenant in ["", "con toso", "contoso/../evil", "contoso?x=1", "cont\u{f6}so", ".", "..", "-x"] {
        let mut config = config();
        config.tenant_id = tenant.to_string();
        assert_eq!(get_code_flow(&config, 1).unwrap_err(), ConfigError::InvalidTenantId, "{tenant}");
        config.redirect_url = "not a url".to_string();
        assert_eq!(get_code_flow(&config, 1).unwrap_err(), ConfigError::InvalidTenantId, "{tenant}");
    }
}

#[test]
fn attempt_begins_idle() {
    let auth = MyAuth::new();
    assert_eq!(auth.phase, FlowPhase::Idle);
    assert!(auth.code_flow.is_none());
}

#[test]
fn callback_before_initiate_is_csrf_mismatch() {
    let mut auth = MyAuth::new();
    assert_eq!(auth.handle_callback(&query("code", "token-1")).unwrap_err(), AuthError::CsrfMismatch);
    assert_eq!(auth.handle_callback(&query("code", "")).unwrap_err(), AuthError::CsrfMismatch);
    assert_eq!(auth.phase, FlowPhase::Idle);
}

#[test]
fn initiate_hands_out_the_authorize_address_and_awaits_the_callback() {
    let mut auth = MyAuth::new();
    let url = auth.initiate(flow());
    assert_eq!(url, "https://idp.example/authorize?state=token-1");
    assert_eq!(auth.phase, FlowPhase::AwaitingCallback);
    assert_eq!(auth.code_flow.as_ref().unwrap().csrf_state, "token-1");
}

#[test]
fn callback_with_matching_state_yields_the_exchange() {
    let mut auth = MyAuth::new();
    auth.initiate(flow());
    let exchange = auth.handle_callback(&query("the-code", "token-1")).unwrap();
    assert_eq!(exchange.code, "the-code");
    assert_eq!(exchange.pkce_code_verifier, "verifier-1");
    assert_eq!(auth.phase, FlowPhase::Completed);
    assert!(auth.code_flow.is_none());
}

#[test]
fn callback_with_tampered_state_is_csrf_mismatch_and_completes_nothing() {
    for tampered in ["", "token-2", "token-", "token-11", "Token-1", " token-1", "token-1 ", "t\u{f6}ken-1"] {
        let mut auth = MyAuth::new();
        auth.initiate(flow());
        assert_eq!(
            auth.handle_callback(&query("the-code", tampered)).unwrap_err(),
            AuthError::CsrfMismatch,
            "{tampered}"
        );
        assert_eq!(auth.phase, FlowPhase::AwaitingCallback);
        assert_eq!(auth.code_flow.as_ref().unwrap().pkce_code_verifier, "verifier-1");
    }
}

#[test]
fn rightful_callback_still_succeeds_after_a_tampered_one() {
    let mut auth = MyAuth::new();
    auth.initiate(flow());
    assert!(auth.handle_callback(&query("evil-code", "guess")).is_err());
    assert_eq!(auth.handle_callback(&query("good-code", "token-1")).unwrap().code, "good-code");
}

#[test]
fn completed_attempt_cannot_be_replayed() {
    let mut auth = MyAuth::new();
    auth.initiate(flow());
    assert!(auth.handle_callback(&query("the-code", "token-1")).is_ok());
    assert_eq!(
        auth.handle_callback(&query("the-code", "token-1")).unwrap_err(),
        AuthError::CsrfMismatch
    );
    assert_eq!(auth.phase, FlowPhase::Completed);
}

#[test]
fn initiate_again_starts_over() {
    let mut auth = MyAuth::new();
    auth.initiate(flow());
    let mut second = flow();
    second.csrf_state = "token-2".to_string();
    second.pkce_code_verifier = "verifier-2".to_string();
    auth.initiate(second);
    assert_eq!(auth.handle_callback(&query("c", "token-1")).unwrap_err(), AuthError::CsrfMismatch);
    assert_eq!(auth.handle_callback(&query("c", "token-2")).unwrap().pkce_code_verifier, "verifier-2");
}

#[test]
fn csrf_mismatch_is_hostile_and_answered_with_401() {
    assert!(AuthError::CsrfMismatch.is_hostile());
    assert!(AuthError::InvalidSignature.is_hostile());
    assert!(!AuthError::ExpiredToken.is_hostile());
    assert_eq!(AuthError::CsrfMismatch.status_code(), 401);
}

fn attempt(token: &str, verifier: &str, created_at: u64) -> FlowState {
    FlowState {
        authorize_url: format!("https://idp.example/authorize?state={token}"),
        csrf_state: token.to_string(),
        pkce_code_verifier: verifier.to_string(),
        created_at,
    }
}

fn pending(attempts: &LoginAttempts, known: &[&str]) -> Vec<String> {
    known.iter().filter(|t| attempts.holds(t)).map(|t| t.to_string()).collect()
}

#[test]
fn new_table_holds_no_attempt() {
    let attempts = LoginAttempts::new(600);
    assert_eq!(attempts.len(), 0);
    assert_eq!(attempts.max_age(), 600);
    assert!(!attempts.holds("t-1"));
    assert!(!attempts.holds(""));
}

#[test]
fn simultaneous_attempts_are_told_apart_by_their_tokens() {
    let mut attempts = LoginAttempts::new(600);
    assert_eq!(
        attempts.begin(attempt("t-1", "v-1", 100)),
        Some("https://idp.example/authorize?state=t-1".to_string())
    );
    assert!(attempts.begin(attempt("t-2", "v-2", 101)).is_some());
    assert!(attempts.begin(attempt("t-3", "v-3", 102)).is_some());
    assert_eq!(attempts.len(), 3);
    let exchange = attempts.handle_callback(&query("code-2", "t-2"), 150).unwrap();
    assert_eq!(exchange.code, "code-2");
    assert_eq!(exchange.pkce_code_verifier, "v-2");
    assert_eq!(pending(&attempts, &["t-1", "t-2", "t-3"]), vec!["t-1".to_string(), "t-3".to_string()]);
    assert_eq!(attempts.handle_callback(&query("code-1", "t-1"), 150).unwrap().pkce_code_verifier, "v-1");
    assert_eq!(attempts.handle_callback(&query("code-3", "t-3"), 150).unwrap().pkce_code_verifier, "v-3");
    assert_eq!(attempts.len(), 0);
}

#[test]
fn attempt_with_a_pending_token_is_refused() {
    let mut attempts = LoginAttempts::new(600);
    assert!(attempts.begin(attempt("same", "v-1", 100)).is_some());
    assert_eq!(attempts.begin(attempt("same", "v-2", 101)), None);
    assert_eq!(attempts.begin(attempt("same", "v-1", 100)), None);
    assert_eq!(attempts.len(), 1);
    assert!(attempts.begin(attempt("Same", "v-3", 100)).is_some());
    assert!(attempts.begin(attempt("", "v-4", 100)).is_some());
    assert_eq!(attempts.begin(attempt("", "v-5", 100)), None);
    assert_eq!(attempts.len(), 3);
    // The state answers once, with the verifier of the attempt that was kept.
    assert_eq!(attempts.handle_callback(&query("c", "same"), 100).unwrap().pkce_code_verifier, "v-1");
    assert_eq!(attempts.handle_callback(&query("c", "same"), 100).unwrap_err(), AuthError::CsrfMismatch);
    // Once it was taken out, the token may come again.
    assert!(attempts.begin(attempt("same", "v-6", 100)).is_some());
    assert_eq!(attempts.handle_callback(&query("c", "same"), 100).unwrap().pkce_code_verifier, "v-6");
}

#[test]
fn drawn_attempts_are_all_kept() {
    let mut attempts = LoginAttempts::new(600);
    for i in 0..50 {
        let flow = get_code_flow(&config(), i).unwrap();
        let token = flow.csrf_state.clone();
        let url = flow.authorize_url.clone();
        assert_eq!(attempts.begin(flow), Some(url));
        assert!(attempts.holds(&token));
    }
    assert_eq!(attempts.len(), 50);
}

#[test]
fn callback_that_matches_no_attempt_is_csrf_mismatch() {
    let mut attempts = LoginAttempts::new(600);
    assert_eq!(attempts.handle_callback(&query("c", "t-1"), 0).unwrap_err(), AuthError::CsrfMismatch);
    attempts.begin(attempt("t-1", "v-1", 100));
    for tampered in ["", "t-2", "t-", "t-11", "T-1"] {
        assert_eq!(
            attempts.handle_callback(&query("c", tampered), 100).unwrap_err(),
            AuthError::CsrfMismatch
        );
        assert_eq!(attempts.len(), 1);
        assert!(attempts.holds("t-1"));
        assert!(!attempts.holds(tampered));
    }
}

#[test]
fn accepted_callback_cannot_be_replayed() {
    let mut attempts = LoginAttempts::new(600);
    attempts.begin(attempt("t-1", "v-1", 100));
    assert!(attempts.handle_callback(&query("c", "t-1"), 100).is_ok());
    assert!(!attempts.holds("t-1"));
    assert_eq!(attempts.handle_callback(&query("c", "t-1"), 100).unwrap_err(), AuthError::CsrfMismatch);
}

#[test]
fn attempt_that_timed_out_is_taken_out_and_refused() {
    let mut attempts = LoginAttempts::new(600);
    attempts.begin(attempt("t-1", "v-1", 100));
    attempts.begin(attempt("t-2", "v-2", 100));
    assert!(attempts.handle_callback(&query("c", "t-1"), 700).is_ok());
    assert_eq!(attempts.handle_callback(&query("c", "t-2"), 701).unwrap_err(), AuthError::CsrfMismatch);
    assert_eq!(attempts.len(), 0);
    attempts.begin(attempt("t-3", "v-3", 100));
    assert!(attempts.handle_callback(&query("c", "t-3"), 50).is_ok());
}

#[test]
fn evict_drops_the_attempts_that_timed_out() {
    let known = ["a", "b", "c", "d", "e", "f"];
    let mut attempts = LoginAttempts::new(10);
    for (token, created_at) in [("a", 100), ("b", 89), ("c", 90), ("d", 0), ("e", 200), ("f", 50)] {
        assert!(attempts.begin(attempt(token, "v", created_at)).is_some());
    }
    attempts.evict(100);
    assert_eq!(pending(&attempts, &known), vec!["a".to_string(), "c".to_string(), "e".to_string()]);
    assert_eq!(attempts.len(), 3);
    attempts.evict(100);
    assert_eq!(pending(&attempts, &known), vec!["a".to_string(), "c".to_string(), "e".to_string()]);
    attempts.evict(110);
    assert_eq!(pending(&attempts, &known), vec!["a".to_string(), "e".to_string()]);
    assert_eq!(attempts.len(), 2);
    attempts.evict(u64::MAX);
    assert_eq!(attempts.len(), 0);
    attempts.evict(0);
    assert_eq!(attempts.len(), 0);
    assert_eq!(attempts.max_age(), 10);
    // An evicted token may be used again.
    assert!(attempts.begin(attempt("a", "v", 0)).is_some());
}

#[test]
fn profile_is_read_from_the_body_of_the_user_info_response() {
    let body = r#"{"@odata.context":"x","displayName":"Ada Lovelace","givenName":"Ada",
        "surname":"Lovelace","userPrincipalName":"ada@contoso.example","id":"u-1","mail":null}"#;
    let user: User = User::from_body(body).unwrap();
    assert_eq!(user.display_name, "Ada Lovelace");
    assert_eq!(user.given_name, "Ada");
    assert_eq!(user.surname, "Lovelace");
    assert_eq!(user.user_principal_name, "ada@contoso.example");
    assert_eq!(user.id, "u-1");
}

#[test]
fn body_without_a_complete_profile_holds_none() {
    for body in [
        "", "not json", "[]", "{}",
        r#"{"displayName":"A","givenName":"A","surname":"L","userPrincipalName":"a"}"#,
        r#"{"displayName":"A","givenName":null,"surname":"L","userPrincipalName":"a","id":"1"}"#,
        r#"{"displayName":"A","givenName":"A","surname":"L","userPrincipalName":"a","id":1}"#,
        r#"{"displayname":"A","givenName":"A","surname":"L","userPrincipalName":"a","id":"1"}"#,
    ] {
        assert!(User::from_body(body).is_none(), "{body}");
    }
}

#[test]
fn copy_of_an_attempt_stands_where_the_attempt_stands() {
    let mut auth = MyAuth::new();
    auth.initiate(flow());
    let mut copy = auth.clone();
    assert_eq!(copy.phase, FlowPhase::AwaitingCallback);
    let kept = copy.code_flow.as_ref().unwrap();
    assert_eq!(kept.authorize_url, "https://idp.example/authorize?state=token-1");
    assert_eq!(kept.csrf_state, "token-1");
    assert_eq!(kept.pkce_code_verifier, "verifier-1");
    assert_eq!(kept.created_at, 10);
    assert!(copy.handle_callback(&query("c", "token-1")).is_ok());
    assert_eq!(auth.phase, FlowPhase::AwaitingCallback);
    assert!(auth.handle_callback(&query("c", "token-1")).is_ok());
    assert_eq!(MyAuth::new().clone().phase, FlowPhase::Idle);
}

fn challenge_in(url: &str) -> String {
    let start = url.find("code_challenge=").unwrap() + "code_challenge=".len();
    let end = start + url[start..].find('&').unwrap();
    url[start..end].to_string()
}

#[test]
fn code_flow_address_is_the_authorize_address_of_the_configuration() {
    let flow = get_code_flow(&config(), 7).unwrap();
    let expected = format!(
        "https://login.microsoftonline.com/contoso/oauth2/v2.0/authorize?response_type=code\
         &client_id=client-1&state={}&code_challenge={}&code_challenge_method=S256\
         &redirect_uri=http%3A%2F%2Flocalhost%3A3000%2Fauth%2Fauthorized&scope=openid+profile+email",
        flow.csrf_state,
        challenge_in(&flow.authorize_url),
    );
    assert_eq!(flow.authorize_url, expected);
    assert_eq!(flow.pkce_code_verifier.len(), 43);
    assert_eq!(challenge_in(&flow.authorize_url).len(), 43);
}

#[test]
fn code_flow_is_owed_for_every_client_id_and_redirect_that_is_a_url() {
    let client_ids = ["", "plain", "with space", "a&b=c", "sl/ash?#", "\u{fc}ml\u{e4}ut", "100%", "*-._~+"];
    let redirects = [
        "http://localhost:3000/auth/authorized",
        "HTTPS://App.Example:443/a/../b/./c?x=1&y=two words#frag",
        "https://app.example",
        "custom-scheme:/callback",
        "https://b\u{fc}cher.example/r\u{e9}sum\u{e9}",
    ];
    for tenant in ["contoso", "contoso.onmicrosoft.com", "72f988bf-86f1-41af-91ab-2d7cd011db47", "A_b", "a..b"] {
        for client_id in client_ids {
            for redirect in redirects {
                let mut config = config();
                config.tenant_id = tenant.to_string();
                config.client_id = client_id.to_string();
                config.redirect_url = redirect.to_string();
                let flow = get_code_flow(&config, 3).unwrap();
                assert_eq!(flow.created_at, 3);
                let prefix = format!("https://login.microsoftonline.com/{tenant}/oauth2/v2.0/authorize?");
                assert!(flow.authorize_url.starts_with(&prefix), "{}", flow.authorize_url);
            }
        }
    }
}

#[test]
fn authorize_address_has_its_pairs_in_order_and_form_encoded() {
    assert_eq!(
        authorize_address_of("t", "a b&c", "s/t", "ch=1", "https://x.example/cb?q=1", "openid profile"),
        "https://login.microsoftonline.com/t/oauth2/v2.0/authorize?response_type=code\
         &client_id=a+b%26c&state=s%2Ft&code_challenge=ch%3D1&code_challenge_method=S256\
         &redirect_uri=https%3A%2F%2Fx.example%2Fcb%3Fq%3D1&scope=openid+profile"
    );
    assert_eq!(
        authorize_address_of("", "", "", "", "", ""),
        "https://login.microsoftonline.com//oauth2/v2.0/authorize?response_type=code\
         &client_id=&state=&code_challenge=&code_challenge_method=S256&redirect_uri=&scope="
    );
    assert_eq!(
        authorize_address_of("t", "\u{fc}*-._~", "", "", "", ""),
        "https://login.microsoftonline.com/t/oauth2/v2.0/authorize?response_type=code\
         &client_id=%C3%BC*-._%7E&state=&code_challenge=&code_challenge_method=S256&redirect_uri=&scope="
    );
}

#[test]
fn flow_state_is_made_of_what_binds_the_login() {
    let config = config();
    let started = get_code_flow(&config, 1).unwrap();
    let flow = accept_code_flow(
        &config,
        started.authorize_url.clone(),
        started.csrf_state.clone(),
        started.pkce_code_verifier.clone(),
        5,
    )
    .unwrap();
    assert_eq!(flow.authorize_url, started.authorize_url);
    assert_eq!(flow.csrf_state, started.csrf_state);
    assert_eq!(flow.pkce_code_verifier, started.pkce_code_verifier);
    assert_eq!(flow.created_at, 5);
}

#[test]
fn what_does_not_bind_the_login_is_refused() {
    let config = config();
    let started = get_code_flow(&config, 1).unwrap();
    let other = get_code_flow(&config, 1).unwrap();
    let url = || started.authorize_url.clone();
    let token = || started.csrf_state.clone();
    let verifier = || started.pkce_code_verifier.clone();

    assert!(accept_code_flow(&config, url(), token(), verifier(), 5).is_some());
    // another token, another verifier, another address
    assert!(accept_code_flow(&config, url(), other.csrf_state.clone(), verifier(), 5).is_none());
    assert!(accept_code_flow(&config, url(), token(), other.pkce_code_verifier.clone(), 5).is_none());
    assert!(accept_code_flow(&config, other.authorize_url.clone(), token(), verifier(), 5).is_none());
    assert!(accept_code_flow(&config, format!("{}&prompt=none", url()), token(), verifier(), 5).is_none());
    assert!(accept_code_flow(&config, url().replace("S256", "plain"), token(), verifier(), 5).is_none());
    assert!(accept_code_flow(&config, url().replace("https://", "http://"), token(), verifier(), 5).is_none());
    assert!(accept_code_flow(&config, String::new(), token(), verifier(), 5).is_none());
    // a verifier of a length that is not allowed
    assert!(accept_code_flow(&config, url(), token(), "short".to_string(), 5).is_none());
    assert!(accept_code_flow(&config, url(), token(), "v".repeat(42), 5).is_none());
    assert!(accept_code_flow(&config, url(), token(), "v".repeat(129), 5).is_none());
    // another configuration
    for change in 0..3 {
        let mut changed = self::config();
        match change {
            0 => changed.tenant_id = "fabrikam".to_string(),
            1 => changed.client_id = "client-2".to_string(),
            _ => changed.redirect_url = "http://localhost:3000/other".to_string(),
        }
        assert!(accept_code_flow(&changed, url(), token(), verifier(), 5).is_none());
    }
    let mut unreadable = self::config();
    unreadable.redirect_url = "not a url".to_string();
    assert!(accept_code_flow(&unreadable, url(), token(), verifier(), 5).is_none());
}

#[test]
fn failed_exchange_is_a_missing_credential_that_may_be_retried() {
    assert_eq!(exchanged_token(Some("access".to_string())).unwrap(), "access");
    assert_eq!(exchanged_token(Some(String::new())).unwrap(), "");
    assert_eq!(exchanged_token(None).unwrap_err(), AuthError::MissingCredential);
    assert!(AuthError::MissingCredential.is_retryable());
    assert!(AuthError::UnknownKey.is_retryable());
    for e in [
        AuthError::MalformedToken, AuthError::InvalidSignature, AuthError::ExpiredToken,
        AuthError::AudienceMismatch, AuthError::IssuerMismatch, AuthError::CsrfMismatch,
    ] {
        assert!(!e.is_retryable(), "{e:?}");
    }
}

#[test]
fn access_token_is_presented_as_bearer() {
    assert_eq!(bearer_header("abc.def"), "Bearer abc.def");
    assert_eq!(bearer_header(""), "Bearer ");
}

#[test]
fn profile_answer_is_the_profile_or_a_typed_failure() {
    let body = r#"{"displayName":"Ada Lovelace","givenName":"Ada","surname":"Lovelace",
        "userPrincipalName":"ada@contoso.example","id":"u-1"}"#;
    let user = profile_of_answer(Some(body)).unwrap();
    assert_eq!(user.display_name, "Ada Lovelace");
    assert_eq!(user.id, "u-1");
    assert_eq!(profile_of_answer(None).unwrap_err(), AuthError::MissingCredential);
    assert_eq!(profile_of_answer(Some("")).unwrap_err(), AuthError::MalformedToken);
    assert_eq!(profile_of_answer(Some("{}")).unwrap_err(), AuthError::MalformedToken);
    assert_eq!(profile_of_answer(Some(r#"{"error":"InvalidAuthenticationToken"}"#)).unwrap_err(), AuthError::MalformedToken);
}

#[test]
fn profile_is_asked_of_the_user_info_endpoint() {
    assert_eq!(profile_url(), "https://graph.microsoft.com/v1.0/me");
}
