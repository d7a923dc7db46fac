use vstd::prelude::*;

use crate::provider::{header_texts, texts, SimpleOAuthProvider, UserInfoProvider};
use crate::types::{OAuthCredentials, TokenAuthMethod, UserInfo, UserInfoView};
use crate::external::{custom_json_error, json_error};
use crate::provider::header;

verus! {

#[derive(Debug, Clone)]
pub struct Twitch;

/// User info returned from Twitch Helix API
#[derive(Debug, Clone)]
pub struct TwitchUsers {
    pub data: Vec<TwitchUserInfo>,
}

#[derive(Debug, Clone)]
pub struct TwitchUserInfo {
    pub id: String,
    pub login: String,
    pub display_name: Option<String>,
    pub email: Option<String>,
    pub profile_image_url: Option<String>,
}

impl SimpleOAuthProvider for Twitch {
    open spec fn spec_authorize_url(&self) -> Seq<char> {
        "https://id.twitch.tv/oauth2/authorize"@
    }

    open spec fn spec_token_url(&self) -> Seq<char> {
        "https://id.twitch.tv/oauth2/token"@
    }

    open spec fn spec_revoke_url(&self) -> Option<Seq<char>> {
        Some("https://id.twitch.tv/oauth2/revoke"@)
    }

    open spec fn spec_default_scopes(&self) -> Seq<Seq<char>> {
        Seq::empty()
    }

    open spec fn spec_token_auth_method(&self) -> TokenAuthMethod {
        TokenAuthMethod::RequestBody
    }

    fn authorize_url(&self) -> (url: &str) {
        "https://id.twitch.tv/oauth2/authorize"
    }

    fn token_url(&self) -> (url: &str) {
        "https://id.twitch.tv/oauth2/token"
    }

    fn revoke_url(&self) -> (url: Option<&str>) {
        Some("https://id.twitch.tv/oauth2/revoke")
    }

    fn default_scopes(&self) -> (scopes: &'static [&'static str]) {
        let scopes: &'static [&'static str] = &[];
        assert(texts(scopes@) =~= Seq::empty());
        scopes
    }

    fn token_auth_method(&self) -> (method: TokenAuthMethod) {
        TokenAuthMethod::RequestBody
    }
}

impl UserInfoProvider for Twitch {
    type RawUserInfo = TwitchUsers;

    open spec fn spec_user_info_url(&self) -> Seq<char> {
        "https://api.twitch.tv/helix/users"@
    }

    /// The first user of the response, with the login as username and the display
    /// name as name; where the response holds no user, the custom `serde_json`
    /// error whose message is "missing Twitch user info".
    open spec fn spec_user_info(&self, raw: TwitchUsers) -> Result<UserInfoView, serde_json::Error> {
        if raw.data@.len() == 0 {
            Err(custom_json_error("missing Twitch user info"@))
        } else {
            let user = raw.data@[0];
            Ok(
                UserInfoView {
                    id: user.id@,
                    name: user.display_name.deep_view(),
                    username: Some(user.login@),
                    email: user.email.deep_view(),
                    email_verified: None,
                    avatar_url: user.profile_image_url.deep_view(),
                    groups: None,
                },
            )
        }
    }

    open spec fn spec_user_info_headers(&self, credentials: OAuthCredentials) -> Seq<(Seq<char>, Seq<char>)> {
        seq![("Client-Id"@, credentials.client_id@)]
    }

    fn user_info_url(&self) -> (url: &str) {
        "https://api.twitch.tv/helix/users"
    }

    fn extract_user_info(&self, raw: TwitchUsers) -> (info: Result<UserInfo, serde_json::Error>) {
        let mut data = raw.data;
        if data.len() == 0 {
            return Err(json_error("missing Twitch user info"));
        }
        let user = data.remove(0);
        Ok(
            UserInfo {
                id: user.id,
                name: user.display_name,
                username: Some(user.login),
                email: user.email,
                email_verified: None,
                avatar_url: user.profile_image_url,
                groups: None,
            },
        )
    }

    fn user_info_headers(&self, credentials: &OAuthCredentials) -> (headers: Vec<(String, String)>) {
        let mut headers = Vec::new();
        headers.push(header("Client-Id", credentials.client_id.as_str()));
        assert(header_texts(headers@) =~= self.spec_user_info_headers(*credentials));
        headers
    }
}

} // verus!
