use vstd::prelude::*;

use crate::provider::{header_texts, texts, SimpleOAuthProvider, UserInfoProvider};
use crate::types::{OAuthCredentials, OidcUserInfo, TokenAuthMethod, UserInfo, UserInfoView};

verus! {

#[derive(Debug, Clone)]
pub struct Google;

impl SimpleOAuthProvider for Google {
    open spec fn spec_authorize_url(&self) -> Seq<char> {
        "https://accounts.google.com/o/oauth2/v2/auth"@
    }

    open spec fn spec_token_url(&self) -> Seq<char> {
        "https://oauth2.googleapis.com/token"@
    }

    open spec fn spec_revoke_url(&self) -> Option<Seq<char>> {
        None
    }

    open spec fn spec_default_scopes(&self) -> Seq<Seq<char>> {
        seq!["openid"@, "profile"@]
    }

    open spec fn spec_token_auth_method(&self) -> TokenAuthMethod {
        TokenAuthMethod::BasicAuth
    }

    fn authorize_url(&self) -> (url: &str) {
        "https://accounts.google.com/o/oauth2/v2/auth"
    }

    fn token_url(&self) -> (url: &str) {
        "https://oauth2.googleapis.com/token"
    }

    fn revoke_url(&self) -> (url: Option<&str>) {
        None
    }

    fn default_scopes(&self) -> (scopes: &'static [&'static str]) {
        let scopes: &'static [&'static str] = &["openid", "profile"];
        assert(texts(scopes@) =~= seq!["openid"@, "profile"@]);
        scopes
    }

    fn token_auth_method(&self) -> (method: TokenAuthMethod) {
        TokenAuthMethod::BasicAuth
    }
}

impl UserInfoProvider for Google {
    type RawUserInfo = OidcUserInfo;

    open spec fn spec_user_info_url(&self) -> Seq<char> {
        "https://openidconnect.googleapis.com/v1/userinfo"@
    }

    /// The standard OIDC claims; groups are not kept.
    open spec fn spec_user_info(&self, raw: OidcUserInfo) -> Result<UserInfoView, serde_json::Error> {
        Ok(
            UserInfoView {
                id: raw.sub@,
                name: raw.name.deep_view(),
                username: raw.preferred_username.deep_view(),
                email: raw.email.deep_view(),
                email_verified: raw.email_verified,
                avatar_url: raw.picture.deep_view(),
                groups: None,
            },
        )
    }

    open spec fn spec_user_info_headers(&self, credentials: OAuthCredentials) -> Seq<(Seq<char>, Seq<char>)> {
        Seq::empty()
    }

    fn user_info_url(&self) -> (url: &str) {
        "https://openidconnect.googleapis.com/v1/userinfo"
    }

    fn extract_user_info(&self, raw: OidcUserInfo) -> (info: Result<UserInfo, serde_json::Error>) {
        Ok(
            UserInfo {
                id: raw.sub,
                name: raw.name,
                username: raw.preferred_username,
                email: raw.email,
                email_verified: raw.email_verified,
                avatar_url: raw.picture,
                groups: None,
            },
        )
    }

    fn user_info_headers(&self, credentials: &OAuthCredentials) -> (headers: Vec<(String, String)>) {
        let headers = Vec::new();
        assert(header_texts(headers@) =~= self.spec_user_info_headers(*credentials));
        headers
    }
}

} // verus!
