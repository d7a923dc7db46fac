use vstd::prelude::*;

use crate::provider::{header_texts, texts, SimpleOAuthProvider, UserInfoProvider};
use crate::types::{OAuthCredentials, TokenAuthMethod, UserInfo, UserInfoView};

verus! {

#[derive(Debug, Clone)]
pub struct Facebook;

/// User info returned from Facebook Graph API
#[derive(Debug, Clone)]
pub struct FacebookUserInfo {
    pub id: String,
    pub name: Option<String>,
    pub email: Option<String>,
    pub picture: Option<FacebookPicture>,
}

#[derive(Debug, Clone)]
pub struct FacebookPicture {
    pub data: Option<FacebookPictureData>,
}

#[derive(Debug, Clone)]
pub struct FacebookPictureData {
    pub url: Option<String>,
}

/// The picture's URL, where the response holds one at every level.
pub open spec fn facebook_picture_url(picture: Option<FacebookPicture>) -> Option<Seq<char>> {
    match picture {
        Some(FacebookPicture { data: Some(FacebookPictureData { url: Some(url) }) }) => Some(url@),
        _ => None,
    }
}

impl SimpleOAuthProvider for Facebook {
    open spec fn spec_authorize_url(&self) -> Seq<char> {
        "https://www.facebook.com/dialog/oauth"@
    }

    open spec fn spec_token_url(&self) -> Seq<char> {
        "https://graph.facebook.com/oauth/access_token"@
    }

    open spec fn spec_revoke_url(&self) -> Option<Seq<char>> {
        None
    }

    open spec fn spec_default_scopes(&self) -> Seq<Seq<char>> {
        seq!["public_profile"@]
    }

    open spec fn spec_token_auth_method(&self) -> TokenAuthMethod {
        TokenAuthMethod::RequestBody
    }

    fn authorize_url(&self) -> (url: &str) {
        "https://www.facebook.com/dialog/oauth"
    }

    fn token_url(&self) -> (url: &str) {
        "https://graph.facebook.com/oauth/access_token"
    }

    fn revoke_url(&self) -> (url: Option<&str>) {
        None
    }

    fn default_scopes(&self) -> (scopes: &'static [&'static str]) {
        let scopes: &'static [&'static str] = &["public_profile"];
        assert(texts(scopes@) =~= seq!["public_profile"@]);
        scopes
    }

    fn token_auth_method(&self) -> (method: TokenAuthMethod) {
        TokenAuthMethod::RequestBody
    }
}

impl UserInfoProvider for Facebook {
    type RawUserInfo = FacebookUserInfo;

    open spec fn spec_user_info_url(&self) -> Seq<char> {
        "https://graph.facebook.com/me?fields=id,name,email,picture"@
    }

    /// The id, name and email as given, and the picture's URL as avatar.
    open spec fn spec_user_info(&self, raw: FacebookUserInfo) -> Result<UserInfoView, serde_json::Error> {
        Ok(
            UserInfoView {
                id: raw.id@,
                name: raw.name.deep_view(),
                username: None,
                email: raw.email.deep_view(),
                email_verified: None,
                avatar_url: facebook_picture_url(raw.picture),
                groups: None,
            },
        )
    }

    open spec fn spec_user_info_headers(&self, credentials: OAuthCredentials) -> Seq<(Seq<char>, Seq<char>)> {
        Seq::empty()
    }

    fn user_info_url(&self) -> (url: &str) {
        "https://graph.facebook.com/me?fields=id,name,email,picture"
    }

    fn extract_user_info(&self, raw: FacebookUserInfo) -> (info: Result<UserInfo, serde_json::Error>) {
        let avatar_url = match raw.picture {
            Some(picture) => match picture.data {
                Some(data) => data.url,
                None => None,
            },
            None => None,
        };
        Ok(
            UserInfo {
                id: raw.id,
                name: raw.name,
                username: None,
                email: raw.email,
                email_verified: None,
                avatar_url,
                groups: None,
            },
        )
    }

    fn user_info_headers(&self, credentials: &OAuthCredentials) -> (headers: Vec<(String, String)>) {
        let headers = Vec::new();
        assert(header_texts(headers@) =~= self.spec_user_info_headers(*credentials));
        headers
    }
}

} // verus!
