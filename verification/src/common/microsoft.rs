use vstd::prelude::*;

use crate::provider::{header_texts, texts, SimpleOAuthProvider, UserInfoProvider};
use crate::types::{OAuthCredentials, OidcUserInfo, TokenAuthMethod, UserInfo, UserInfoView};

verus! {

#[derive(Debug, Clone)]
pub struct Microsoft;

impl SimpleOAuthProvider for Microsoft {
    open spec fn spec_authorize_url(&self) -> Seq<char> {
        "https://login.microsoftonline.com/common/oauth2/v2.0/authorize"@
    }

    open spec fn spec_token_url(&self) -> Seq<char> {
        "https://login.microsoftonline.com/common/oauth2/v2.0/token"@
    }

    open spec fn spec_revoke_url(&self) -> Option<Seq<char>> {
        None
    }

    open spec fn spec_default_scopes(&self) -> Seq<Seq<char>> {
        seq!["openid"@, "profile"@]
    }

    open spec fn spec_token_auth_method(&self) -> TokenAuthMethod {
        TokenAuthMethod::RequestBody
    }

    fn authorize_url(&self) -> (url: &str) {
        "https://login.microsoftonline.com/common/oauth2/v2.0/authorize"
    }

    fn token_url(&self) -> (url: &str) {
        "https://login.microsoftonline.com/common/oauth2/v2.0/token"
    }

    fn revoke_url(&self) -> (url: Option<&str>) {
        None
    }

    fn default_scopes(&self) -> (scopes: &'static [&'static str]) {
        let scopes: &'static [&'static str] = &["openid", "profile"];
        assert(texts(scopes@) =~= seq!["openid"@, "profile"@]);
        scopes
    }

    fn token_auth_method(&self) -> (method: TokenAuthMethod) {
        TokenAuthMethod::RequestBody
    }
}

impl UserInfoProvider for Microsoft {
    type RawUserInfo = OidcUserInfo;

    open spec fn spec_user_info_url(&self) -> Seq<char> {
        "https://graph.microsoft.com/oidc/userinfo"@
    }

    /// The standard OIDC claims, groups included.
    open spec fn spec_user_info(&self, raw: OidcUserInfo) -> Result<UserInfoView, serde_json::Error> {
        Ok(
            UserInfoView {
                id: raw.sub@,
                name: raw.name.deep_view(),
                username: raw.preferred_username.deep_view(),
                email: raw.email.deep_view(),
                email_verified: raw.email_verified,
                avatar_url: raw.picture.deep_view(),
                groups: raw.groups.deep_view(),
            },
        )
    }

    open spec fn spec_user_info_headers(&self, credentials: OAuthCredentials) -> Seq<(Seq<char>, Seq<char>)> {
        Seq::empty()
    }

    fn user_info_url(&self) -> (url: &str) {
        "https://graph.microsoft.com/oidc/userinfo"
    }

    fn extract_user_info(&self, raw: OidcUserInfo) -> (info: Result<UserInfo, serde_json::Error>) {
        Ok(
            UserInfo {
                id: raw.sub,
                name: raw.name,
                username: raw.preferred_username,
                email: raw.email,
                email_verified: raw.email_verified,
                avatar_url: raw.picture,
                groups: raw.groups,
            },
        )
    }

    fn user_info_headers(&self, credentials: &OAuthCredentials) -> (headers: Vec<(String, String)>) {
        let headers = Vec::new();
        assert(header_texts(headers@) =~= self.spec_user_info_headers(*credentials));
        headers
    }
}

} // verus!
