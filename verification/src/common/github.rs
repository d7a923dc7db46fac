use vstd::prelude::*;

use crate::provider::{header, texts, SimpleOAuthProvider, UserInfoProvider};
use crate::text::{decimal_string, decimal_text};
use crate::types::{OAuthCredentials, TokenAuthMethod, UserInfo, UserInfoView};

verus! {

#[derive(Debug, Clone)]
pub struct GitHub;

/// User info returned from GitHub API
#[derive(Debug, Clone)]
pub struct GitHubUserInfo {
    pub id: u64,
    pub login: String,
    pub name: Option<String>,
    pub email: Option<String>,
    pub avatar_url: Option<String>,
}

impl SimpleOAuthProvider for GitHub {
    open spec fn spec_authorize_url(&self) -> Seq<char> {
        "https://github.com/login/oauth/authorize"@
    }

    open spec fn spec_token_url(&self) -> Seq<char> {
        "https://github.com/login/oauth/access_token"@
    }

    open spec fn spec_revoke_url(&self) -> Option<Seq<char>> {
        None
    }

    open spec fn spec_default_scopes(&self) -> Seq<Seq<char>> {
        seq!["read:user"@]
    }

    open spec fn spec_token_auth_method(&self) -> TokenAuthMethod {
        TokenAuthMethod::BasicAuth
    }

    fn authorize_url(&self) -> (url: &str) {
        "https://github.com/login/oauth/authorize"
    }

    fn token_url(&self) -> (url: &str) {
        "https://github.com/login/oauth/access_token"
    }

    fn revoke_url(&self) -> (url: Option<&str>) {
        None
    }

    fn default_scopes(&self) -> (scopes: &'static [&'static str]) {
        let scopes: &'static [&'static str] = &["read:user"];
        assert(texts(scopes@) =~= seq!["read:user"@]);
        scopes
    }

    fn token_auth_method(&self) -> (method: TokenAuthMethod) {
        TokenAuthMethod::BasicAuth
    }
}

impl UserInfoProvider for GitHub {
    type RawUserInfo = GitHubUserInfo;

    open spec fn spec_user_info_url(&self) -> Seq<char> {
        "https://api.github.com/user"@
    }

    /// The numeric id in decimal, the login as username; GitHub does not say
    /// whether the email is verified.
    open spec fn spec_user_info(&self, raw: GitHubUserInfo) -> Result<UserInfoView, serde_json::Error> {
        Ok(
            UserInfoView {
                id: decimal_text(raw.id as nat),
                name: raw.name.deep_view(),
                username: Some(raw.login@),
                email: raw.email.deep_view(),
                email_verified: None,
                avatar_url: raw.avatar_url.deep_view(),
                groups: None,
            },
        )
    }

    open spec fn spec_user_info_headers(&self, credentials: OAuthCredentials) -> Seq<(Seq<char>, Seq<char>)> {
        seq![("Accept"@, "application/vnd.github+json"@), ("User-Agent"@, "fa-sharp/simple-oauth"@)]
    }

    fn user_info_url(&self) -> (url: &str) {
        "https://api.github.com/user"
    }

    fn extract_user_info(&self, raw: GitHubUserInfo) -> (info: Result<UserInfo, serde_json::Error>) {
        Ok(
            UserInfo {
                id: decimal_string(raw.id),
                name: raw.name,
                username: Some(raw.login),
                email: raw.email,
                email_verified: None,
                avatar_url: raw.avatar_url,
                groups: None,
            },
        )
    }

    fn user_info_headers(&self, credentials: &OAuthCredentials) -> (headers: Vec<(String, String)>) {
        let mut headers = Vec::new();
        headers.push(header("Accept", "application/vnd.github+json"));
        headers.push(header("User-Agent", "fa-sharp/simple-oauth"));
        assert(crate::provider::header_texts(headers@) =~= self.spec_user_info_headers(*credentials));
        headers
    }
}

} // verus!
