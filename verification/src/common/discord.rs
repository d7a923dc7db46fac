use vstd::prelude::*;

use crate::provider::{header_texts, texts, SimpleOAuthProvider, UserInfoProvider};
use crate::types::{OAuthCredentials, TokenAuthMethod, UserInfo, UserInfoView};

verus! {

#[derive(Debug, Clone)]
pub struct Discord;

/// User info returned from Discord API
#[derive(Debug, Clone)]
pub struct DiscordUserInfo {
    pub id: String,
    pub username: String,
    pub global_name: Option<String>,
    pub email: Option<String>,
    pub verified: Option<bool>,
    pub avatar: Option<String>,
}

/// The CDN address of the avatar `avatar` of the user `id`.
pub open spec fn discord_avatar_url(id: Seq<char>, avatar: Seq<char>) -> Seq<char> {
    "https://cdn.discordapp.com/avatars/"@ + id + "/"@ + avatar + ".png"@
}

/// The CDN address of the avatar `avatar` of the user `id`.
pub fn avatar_url(id: &str, avatar: &str) -> (url: String)
    ensures
        url@ == discord_avatar_url(id@, avatar@),
{
    let mut url = "https://cdn.discordapp.com/avatars/".to_owned();
    url.append(id);
    url.append("/");
    url.append(avatar);
    url.append(".png");
    url
}

impl SimpleOAuthProvider for Discord {
    open spec fn spec_authorize_url(&self) -> Seq<char> {
        "https://discord.com/oauth2/authorize"@
    }

    open spec fn spec_token_url(&self) -> Seq<char> {
        "https://discord.com/api/oauth2/token"@
    }

    open spec fn spec_revoke_url(&self) -> Option<Seq<char>> {
        None
    }

    open spec fn spec_default_scopes(&self) -> Seq<Seq<char>> {
        seq!["identify"@]
    }

    open spec fn spec_token_auth_method(&self) -> TokenAuthMethod {
        TokenAuthMethod::BasicAuth
    }

    fn authorize_url(&self) -> (url: &str) {
        "https://discord.com/oauth2/authorize"
    }

    fn token_url(&self) -> (url: &str) {
        "https://discord.com/api/oauth2/token"
    }

    fn revoke_url(&self) -> (url: Option<&str>) {
        None
    }

    fn default_scopes(&self) -> (scopes: &'static [&'static str]) {
        let scopes: &'static [&'static str] = &["identify"];
        assert(texts(scopes@) =~= seq!["identify"@]);
        scopes
    }

    fn token_auth_method(&self) -> (method: TokenAuthMethod) {
        TokenAuthMethod::BasicAuth
    }
}

impl UserInfoProvider for Discord {
    type RawUserInfo = DiscordUserInfo;

    open spec fn spec_user_info_url(&self) -> Seq<char> {
        "https://discord.com/api/v9/users/@me"@
    }

    /// The global name as display name, the username as username, and the
    /// avatar hash turned into its CDN address.
    open spec fn spec_user_info(&self, raw: DiscordUserInfo) -> Result<UserInfoView, serde_json::Error> {
        Ok(
            UserInfoView {
                id: raw.id@,
                name: raw.global_name.deep_view(),
                username: Some(raw.username@),
                email: raw.email.deep_view(),
                email_verified: raw.verified,
                avatar_url: match raw.avatar {
                    Some(a) => Some(discord_avatar_url(raw.id@, a@)),
                    None => None,
                },
                groups: None,
            },
        )
    }

    open spec fn spec_user_info_headers(&self, credentials: OAuthCredentials) -> Seq<(Seq<char>, Seq<char>)> {
        Seq::empty()
    }

    fn user_info_url(&self) -> (url: &str) {
        "https://discord.com/api/v9/users/@me"
    }

    fn extract_user_info(&self, raw: DiscordUserInfo) -> (info: Result<UserInfo, serde_json::Error>) {
        let avatar = match &raw.avatar {
            Some(avatar) => Some(avatar_url(raw.id.as_str(), avatar.as_str())),
            None => None,
        };
        Ok(
            UserInfo {
                id: raw.id,
                email: raw.email,
                email_verified: raw.verified,
                name: raw.global_name,
                username: Some(raw.username),
                avatar_url: avatar,
                groups: None,
            },
        )
    }

    fn user_info_headers(&self, credentials: &OAuthCredentials) -> (headers: Vec<(String, String)>) {
        let headers = Vec::new();
        assert(header_texts(headers@) =~= self.spec_user_info_headers(*credentials));
        headers
    }
}

} // verus!
