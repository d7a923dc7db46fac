use vstd::prelude::*;

use crate::provider::{header_texts, texts, SimpleOAuthProvider, UserInfoProvider};
use crate::types::{OAuthCredentials, OidcDiscovery, OidcUserInfo, TokenAuthMethod, UserInfo, UserInfoView};

verus! {

/// A provider configured from an OIDC discovery document.
#[derive(Debug, Clone)]
pub struct Oidc {
    auth_endpoint: String,
    token_endpoint: String,
    userinfo_endpoint: String,
}

impl Oidc {
    /// The provider whose endpoints are those of the discovery document.
    pub fn from_config(config: OidcDiscovery) -> (oidc: Self)
        ensures
            oidc.spec_authorize_url() == config.authorization_endpoint@,
            oidc.spec_token_url() == config.token_endpoint@,
            oidc.spec_user_info_url() == config.userinfo_endpoint@,
    {
        Oidc {
            auth_endpoint: config.authorization_endpoint,
            token_endpoint: config.token_endpoint,
            userinfo_endpoint: config.userinfo_endpoint,
        }
    }
}

impl SimpleOAuthProvider for Oidc {
    closed spec fn spec_authorize_url(&self) -> Seq<char> {
        self.auth_endpoint@
    }

    closed spec fn spec_token_url(&self) -> Seq<char> {
        self.token_endpoint@
    }

    open spec fn spec_revoke_url(&self) -> Option<Seq<char>> {
        None
    }

    open spec fn spec_default_scopes(&self) -> Seq<Seq<char>> {
        seq!["openid"@, "profile"@]
    }

    open spec fn spec_token_auth_method(&self) -> TokenAuthMethod {
        TokenAuthMethod::BasicAuth
    }

    fn authorize_url(&self) -> (url: &str) {
        self.auth_endpoint.as_str()
    }

    fn token_url(&self) -> (url: &str) {
        self.token_endpoint.as_str()
    }

    fn revoke_url(&self) -> (url: Option<&str>) {
        None
    }

    fn default_scopes(&self) -> (scopes: &'static [&'static str]) {
        let scopes: &'static [&'static str] = &["openid", "profile"];
        assert(texts(scopes@) =~= seq!["openid"@, "profile"@]);
        scopes
    }

    fn token_auth_method(&self) -> (method: TokenAuthMethod) {
        TokenAuthMethod::BasicAuth
    }
}

impl UserInfoProvider for Oidc {
    type RawUserInfo = OidcUserInfo;

    closed spec fn spec_user_info_url(&self) -> Seq<char> {
        self.userinfo_endpoint@
    }

    /// The standard OIDC claims; groups are not kept.
    open spec fn spec_user_info(&self, raw: OidcUserInfo) -> Result<UserInfoView, serde_json::Error> {
        Ok(
            UserInfoView {
                id: raw.sub@,
                name: raw.name.deep_view(),
                username: raw.preferred_username.deep_view(),
                email: raw.email.deep_view(),
                email_verified: raw.email_verified,
                avatar_url: raw.picture.deep_view(),
                groups: None,
            },
        )
    }

    open spec fn spec_user_info_headers(&self, credentials: OAuthCredentials) -> Seq<(Seq<char>, Seq<char>)> {
        Seq::empty()
    }

    fn user_info_url(&self) -> (url: &str) {
        self.userinfo_endpoint.as_str()
    }

    fn extract_user_info(&self, raw: OidcUserInfo) -> (info: Result<UserInfo, serde_json::Error>) {
        Ok(
            UserInfo {
                id: raw.sub,
                name: raw.name,
                username: raw.preferred_username,
                email: raw.email,
                email_verified: raw.email_verified,
                avatar_url: raw.picture,
                groups: None,
            },
        )
    }

    fn user_info_headers(&self, credentials: &OAuthCredentials) -> (headers: Vec<(String, String)>) {
        let headers = Vec::new();
        assert(header_texts(headers@) =~= self.spec_user_info_headers(*credentials));
        headers
    }
}

} // verus!
