use simple_oauth::common::{GitHub, Twitch, TwitchUserInfo, TwitchUsers};
use simple_oauth::types::{
    AuthorizeUrl, OAuthCredentials, RevokeTokenType, StandardTokenResponse, TokenAuthMethod,
};
use std::sync::Arc;
use simple_oauth::{RevocableToken, SimpleOAuthClient, SimpleOAuthError, SimpleOAuthProvider};

#[derive(Debug, Clone)]
struct CustomProvider {
    auth: &'static str,
}

impl SimpleOAuthProvider for CustomProvider {
    fn authorize_url(&self) -> &str {
        self.auth
    }
    fn token_url(&self) -> &str {
        "https://provider.example/oauth/token"
    }
    fn revoke_url(&self) -> Option<&str> {
        None
    }
    fn default_scopes(&self) -> &'static [&'static str] {
        &[]
    }
    fn token_auth_method(&self) -> TokenAuthMethod {
        TokenAuthMethod::BasicAuth
    }
}

fn github_client() -> SimpleOAuthClient<GitHub> {
    SimpleOAuthClient::new(
        GitHub,
        OAuthCredentials::new("client-id", "client-secret"),
        "https://myserver/auth/github/callback".to_string(),
    )
    .ok()
    .unwrap()
}

fn query(url: &str) -> Vec<(String, String)> {
    let parsed = oauth2::url::Url::parse(url).unwrap();
    parsed.query_pairs().map(|(k, v)| (k.into_owned(), v.into_owned())).collect()
}

fn param(url: &str, name: &str) -> Option<String> {
    query(url).into_iter().find(|(k, _)| k == name).map(|(_, v)| v)
}

#[test]
fn new_keeps_configuration() {
    let client = github_client();
    assert_eq!(client.redirect_url(), "https://myserver/auth/github/callback");
    assert_eq!(client.credentials().client_id, "client-id");
    assert_eq!(client.provider().token_url(), "https://github.com/login/oauth/access_token");
}

#[test]
fn new_rejects_invalid_redirect_url() {
    let result = SimpleOAuthClient::new(
        GitHub,
        OAuthCredentials::new("a", "b"),
        "not a url".to_string(),
    );
    assert!(matches!(result, Err(SimpleOAuthError::ParseUrl(_))));
}

#[test]
fn new_reports_the_parse_error_of_a_relative_redirect_url() {
    let result = SimpleOAuthClient::new(
        GitHub,
        OAuthCredentials::new("client-id", "client-secret"),
        "/auth/github/callback".to_string(),
    );
    assert!(matches!(
        result,
        Err(SimpleOAuthError::ParseUrl(oauth2::url::ParseError::RelativeUrlWithoutBase))
    ));
    let client = github_client();
    assert!(matches!(
        client.authorize_url(Some("/cb".to_string()), None),
        Err(SimpleOAuthError::ParseUrl(oauth2::url::ParseError::RelativeUrlWithoutBase))
    ));
}

#[test]
fn new_rejects_invalid_provider_endpoint() {
    let result = SimpleOAuthClient::new(
        CustomProvider { auth: "/relative/authorize" },
        OAuthCredentials::new("a", "b"),
        "http://myserver/auth/custom/callback".to_string(),
    );
    assert!(matches!(result, Err(SimpleOAuthError::ParseUrl(_))));
    let ok = SimpleOAuthClient::new(
        CustomProvider { auth: "https://provider.example/oauth/authorize" },
        OAuthCredentials::new("a", "b"),
        "http://myserver/auth/custom/callback".to_string(),
    );
    assert!(ok.is_ok());
}

#[test]
fn authorize_url_with_given_scopes() {
    let client = github_client();
    let auth = client.authorize_url(None, Some(&["read:user", "user:email"])).ok().unwrap();
    assert!(auth.url.starts_with("https://github.com/login/oauth/authorize?"));
    assert_eq!(param(&auth.url, "response_type").as_deref(), Some("code"));
    assert_eq!(param(&auth.url, "client_id").as_deref(), Some("client-id"));
    assert_eq!(param(&auth.url, "state"), Some(auth.state.clone()));
    assert_eq!(param(&auth.url, "code_challenge_method").as_deref(), Some("S256"));
    assert_eq!(param(&auth.url, "code_challenge").map(|c| c.len()), Some(43));
    assert_eq!(
        param(&auth.url, "redirect_uri").as_deref(),
        Some("https://myserver/auth/github/callback")
    );
    assert_eq!(param(&auth.url, "scope").as_deref(), Some("read:user user:email"));
    assert_eq!(auth.state.len(), 22);
    assert_eq!(auth.pkce_verifier.len(), 43);
}

#[test]
fn authorize_url_defaults_to_provider_scopes() {
    let client = github_client();
    let auth = client.authorize_url(None, None).ok().unwrap();
    assert_eq!(param(&auth.url, "scope").as_deref(), Some("read:user"));
}

#[test]
fn authorize_url_without_scopes_has_no_scope_parameter() {
    let client = SimpleOAuthClient::new(
        CustomProvider { auth: "https://provider.example/oauth/authorize" },
        OAuthCredentials::new("a", "b"),
        "http://myserver/auth/custom/callback".to_string(),
    )
    .ok()
    .unwrap();
    let auth = client.authorize_url(None, None).ok().unwrap();
    assert_eq!(param(&auth.url, "scope"), None);
}

#[test]
fn authorize_url_redirect_override() {
    let client = github_client();
    let auth = client
        .authorize_url(Some("https://other/callback".to_string()), None)
        .ok()
        .unwrap();
    assert_eq!(param(&auth.url, "redirect_uri").as_deref(), Some("https://other/callback"));
    let bad = client.authorize_url(Some("::bad::".to_string()), None);
    assert!(matches!(bad, Err(SimpleOAuthError::ParseUrl(_))));
}

#[test]
fn authorize_url_states_are_fresh() {
    let client = github_client();
    let a = client.authorize_url(None, None).ok().unwrap();
    let b = client.authorize_url(None, None).ok().unwrap();
    assert_ne!(a.state, b.state);
    assert_ne!(a.pkce_verifier, b.pkce_verifier);
}

#[test]
fn code_exchange_request_carries_inputs() {
    let client = github_client();
    let req = client
        .code_exchange_request("code".to_string(), "verifier".to_string(), None)
        .ok()
        .unwrap();
    assert_eq!(req.code, "code");
    assert_eq!(req.pkce_verifier, "verifier");
    assert_eq!(req.redirect_url, "https://myserver/auth/github/callback");
    let req = client
        .code_exchange_request("c".to_string(), "v".to_string(), Some("https://x/cb".to_string()))
        .ok()
        .unwrap();
    assert_eq!(req.redirect_url, "https://x/cb");
    let bad = client.code_exchange_request("c".to_string(), "v".to_string(), Some("nope".to_string()));
    assert!(matches!(bad, Err(SimpleOAuthError::ParseUrl(_))));
}

#[test]
fn code_exchange_uses_the_authorization_redirect() {
    let client = github_client();
    for over in [None, Some("https://other/callback".to_string())] {
        let auth = client.authorize_url(over.clone(), None).ok().unwrap();
        let req = client
            .code_exchange_request("c".to_string(), auth.pkce_verifier.clone(), over)
            .ok()
            .unwrap();
        assert_eq!(param(&auth.url, "redirect_uri"), Some(req.redirect_url));
        assert_eq!(req.pkce_verifier, auth.pkce_verifier);
    }
}

#[test]
fn authorize_url_state_and_verifier_are_url_safe_base64() {
    let client = github_client();
    let auth = client.authorize_url(None, None).ok().unwrap();
    let url_safe = |s: &str| s.chars().all(|c| c.is_ascii_alphanumeric() || c == '-' || c == '_');
    assert!(url_safe(&auth.state));
    assert!(url_safe(&auth.pkce_verifier));
}

#[test]
fn refresh_request_scopes_only_when_given() {
    let client = github_client();
    let req = client.refresh_request("rt".to_string(), None);
    assert_eq!(req.refresh_token, "rt");
    assert!(req.scopes.is_empty());
    let req = client.refresh_request("rt".to_string(), Some(&["a", "b"]));
    assert_eq!(req.scopes, vec!["a".to_string(), "b".to_string()]);
}

#[test]
fn revocation_is_a_no_op_without_revocation_url() {
    let client = github_client();
    assert!(client.revocation_request("t".to_string(), RevokeTokenType::Access).is_none());
    assert!(client.revocation_request("t".to_string(), RevokeTokenType::Refresh).is_none());
}

#[test]
fn revocation_request_for_twitch() {
    let client = SimpleOAuthClient::new(
        Twitch,
        OAuthCredentials::new("twitch-id", "s"),
        "https://myserver/cb".to_string(),
    )
    .ok()
    .unwrap();
    let req = client.revocation_request("tok".to_string(), RevokeTokenType::Refresh).unwrap();
    assert_eq!(req.url, "https://id.twitch.tv/oauth2/revoke");
    assert!(matches!(req.token, RevocableToken::Refresh(ref t) if t == "tok"));
    let req = client.revocation_request("tok2".to_string(), RevokeTokenType::Access).unwrap();
    assert!(matches!(req.token, RevocableToken::Access(ref t) if t == "tok2"));
}

#[test]
fn user_info_request_and_extraction() {
    let client = SimpleOAuthClient::new(
        Twitch,
        OAuthCredentials::new("twitch-id", "s"),
        "https://myserver/cb".to_string(),
    )
    .ok()
    .unwrap();
    let req = client.user_info_request("access");
    assert_eq!(req.url, "https://api.twitch.tv/helix/users");
    assert_eq!(req.bearer_token, "access");
    assert_eq!(req.headers, vec![("Client-Id".to_string(), "twitch-id".to_string())]);
    let err = client.user_info(TwitchUsers { data: vec![] });
    match err {
        Err(SimpleOAuthError::Deserialization(e)) => {
            assert_eq!(e.to_string(), "missing Twitch user info")
        }
        _ => panic!("expected a deserialization error"),
    }
    let info = client
        .user_info(TwitchUsers {
            data: vec![TwitchUserInfo {
                id: "5".to_string(),
                login: "l".to_string(),
                display_name: None,
                email: None,
                profile_image_url: None,
            }],
        })
        .ok()
        .unwrap();
    assert_eq!(info.id, "5");
}

#[test]
fn dynamic_providers_behind_arc() {
    let providers: Vec<Arc<dyn SimpleOAuthProvider>> = vec![Arc::new(GitHub), Arc::new(Twitch)];
    assert_eq!(providers[0].authorize_url(), "https://github.com/login/oauth/authorize");
    assert_eq!(providers[1].revoke_url(), Some("https://id.twitch.tv/oauth2/revoke"));
    let client = SimpleOAuthClient::new(
        providers[1].clone(),
        OAuthCredentials::new("a", "b"),
        "https://myserver/cb".to_string(),
    )
    .ok()
    .unwrap();
    assert!(client.revocation_request("t".to_string(), RevokeTokenType::Access).is_some());
}

#[test]
fn redacted_debug_hides_secrets() {
    let creds = OAuthCredentials::new("my-id", "top-secret");
    assert_eq!(
        creds.redacted_debug(),
        "OAuthCredentials { client_id: \"my-id\", client_secret: \"[redacted]\" }"
    );
    let auth = AuthorizeUrl {
        url: "https://x/?secret".to_string(),
        state: "st".to_string(),
        pkce_verifier: "verifier-secret".to_string(),
    };
    assert_eq!(
        auth.redacted_debug(),
        "AuthorizeUrl { url: \"[redacted]\", state: \"st\", pkce_verifier: \"[redacted]\" }"
    );
    let token = StandardTokenResponse {
        access_token: "at".to_string(),
        refresh_token: Some("rt".to_string()),
        id_token: None,
        expires_in: Some(std::time::Duration::from_secs(3600)),
    };
    assert_eq!(
        token.redacted_debug(),
        "StandardTokenResponse { access_token: \"[redacted]\", refresh_token: \"[redacted]\", id_token: \"[redacted]\", expires_in: Some(3600s) }"
    );
}
