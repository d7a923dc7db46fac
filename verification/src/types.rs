//! Plain data exchanged with the library: credentials, token responses,
//! normalized user info and the OIDC discovery document.
use vstd::prelude::*;

use crate::external::{duration_debug, duration_debug_text, str_debug, str_debug_text};

verus! {

/// What debug output shows in place of a secret.
pub const REDACTED: &'static str = "[redacted]";

/// The debug text of a secret: the placeholder, quoted.
pub open spec fn redacted_text() -> Seq<char> {
    str_debug_text(REDACTED@)
}

/// How the client authenticates to the provider's token endpoint.
#[derive(Clone, Copy, Debug, PartialEq, Eq, Structural)]
pub enum TokenAuthMethod {
    /// The client id and secret are sent in the request body.
    RequestBody,
    /// The client id and secret are sent with HTTP basic authentication.
    BasicAuth,
}

/// The type of token to revoke (refresh or access).
#[derive(Clone, Copy, Debug, PartialEq, Eq, Structural)]
pub enum RevokeTokenType {
    Refresh,
    Access,
}

/// OAuth2 authorization redirect URL, along with the state and PKCE verifier.
#[derive(Clone)]
pub struct AuthorizeUrl {
    /// The full authorization URL to send the user to.
    pub url: String,
    /// The CSRF state that the provider will hand back to the callback.
    pub state: String,
    /// The PKCE verifier to present when exchanging the returned code.
    pub pkce_verifier: String,
}

/// The debug text of an authorization URL with the given state: the URL and
/// the PKCE verifier are left out.
pub open spec fn authorize_url_debug_text(state: Seq<char>) -> Seq<char> {
    "AuthorizeUrl { url: "@ + redacted_text() + ", state: "@ + str_debug_text(state)
        + ", pkce_verifier: "@ + redacted_text() + " }"@
}

impl AuthorizeUrl {
    /// The debug text, with the URL and the PKCE verifier redacted.
    pub fn redacted_debug(&self) -> (text: String)
        ensures
            text@ == authorize_url_debug_text(self.state@),
    {
        let mut text = "AuthorizeUrl { url: ".to_owned();
        text.append(str_debug(REDACTED).as_str());
        text.append(", state: ");
        text.append(str_debug(self.state.as_str()).as_str());
        text.append(", pkce_verifier: ");
        text.append(str_debug(REDACTED).as_str());
        text.append(" }");
        text
    }
}

/// Normalized user info returned by the OAuth provider.
#[derive(Debug, Default, Clone)]
pub struct UserInfo {
    /// The ID of the user at the OAuth provider
    pub id: String,
    /// The user's display name
    pub name: Option<String>,
    /// The user's username
    pub username: Option<String>,
    /// The user's email. Will likely not be included unless you add the proper email scope for the provider.
    ///
    /// Do not rely on this for identifying the user. Use the `id` and the name of the provider.
    pub email: Option<String>,
    /// Whether the user's email is verified. Not all providers return this in the user info.
    pub email_verified: Option<bool>,
    /// The URL of the user's picture/avatar
    pub avatar_url: Option<String>,
    /// The groups the user is a part of. Only included for certain OIDC providers.
    pub groups: Option<Vec<String>>,
}

/// The mathematical content of a [`UserInfo`]: every text as a sequence of characters.
pub struct UserInfoView {
    pub id: Seq<char>,
    pub name: Option<Seq<char>>,
    pub username: Option<Seq<char>>,
    pub email: Option<Seq<char>>,
    pub email_verified: Option<bool>,
    pub avatar_url: Option<Seq<char>>,
    pub groups: Option<Seq<Seq<char>>>,
}

impl View for UserInfo {
    type V = UserInfoView;

    open spec fn view(&self) -> UserInfoView {
        UserInfoView {
            id: self.id@,
            name: self.name.deep_view(),
            username: self.username.deep_view(),
            email: self.email.deep_view(),
            email_verified: self.email_verified,
            avatar_url: self.avatar_url.deep_view(),
            groups: self.groups.deep_view(),
        }
    }
}

/// Standard OAuth2 token response.
#[derive(Clone)]
pub struct StandardTokenResponse {
    /// Access token
    pub access_token: String,
    /// Refresh token
    pub refresh_token: Option<String>,
    /// ID token. The ID token is not validated by this crate: validate it yourself.
    pub id_token: Option<String>,
    /// The valid duration of the access token
    pub expires_in: Option<std::time::Duration>,
}

/// The debug text of a token response that expires as given: every token is
/// left out.
pub open spec fn token_response_debug_text(expires_in: Option<std::time::Duration>) -> Seq<char> {
    "StandardTokenResponse { access_token: "@ + redacted_text() + ", refresh_token: "@
        + redacted_text() + ", id_token: "@ + redacted_text() + ", expires_in: "@
        + duration_debug_text(expires_in) + " }"@
}

impl StandardTokenResponse {
    /// The debug text, with the access, refresh and ID tokens redacted.
    pub fn redacted_debug(&self) -> (text: String)
        ensures
            text@ == token_response_debug_text(self.expires_in),
    {
        let redacted = str_debug(REDACTED);
        let mut text = "StandardTokenResponse { access_token: ".to_owned();
        text.append(redacted.as_str());
        text.append(", refresh_token: ");
        text.append(redacted.as_str());
        text.append(", id_token: ");
        text.append(redacted.as_str());
        text.append(", expires_in: ");
        text.append(duration_debug(self.expires_in).as_str());
        text.append(" }");
        text
    }
}

/// The debug text of credentials with the given client id: the secret is left out.
pub open spec fn credentials_debug_text(client_id: Seq<char>) -> Seq<char> {
    "OAuthCredentials { client_id: "@ + str_debug_text(client_id) + ", client_secret: "@
        + redacted_text() + " }"@
}

/// OAuth2 client ID and secret.
#[derive(Clone)]
pub struct OAuthCredentials {
    pub client_id: String,
    pub client_secret: String,
}

impl OAuthCredentials {
    /// Credentials made of the given client id and secret.
    pub fn new(client_id: &str, client_secret: &str) -> (credentials: Self)
        ensures
            credentials.client_id@ == client_id@,
            credentials.client_secret@ == client_secret@,
    {
        OAuthCredentials { client_id: client_id.to_owned(), client_secret: client_secret.to_owned() }
    }

    /// The debug text, with the client secret redacted.
    pub fn redacted_debug(&self) -> (text: String)
        ensures
            text@ == credentials_debug_text(self.client_id@),
    {
        let mut text = "OAuthCredentials { client_id: ".to_owned();
        text.append(str_debug(self.client_id.as_str()).as_str());
        text.append(", client_secret: ");
        text.append(str_debug(REDACTED).as_str());
        text.append(" }");
        text
    }
}

impl<'a> From<(&'a str, &'a str)> for OAuthCredentials {
    /// Same as [`OAuthCredentials::new`] on the two parts of the pair.
    fn from(pair: (&'a str, &'a str)) -> (credentials: Self)
        ensures
            credentials.client_id@ == pair.0@,
            credentials.client_secret@ == pair.1@,
    {
        Self::new(pair.0, pair.1)
    }
}

/// A borrowed pair has no spec-level counterpart that Verus can build (text is
/// only known through its view), so the exact result is stated on `from` itself.
impl<'a> vstd::std_specs::convert::FromSpecImpl<(&'a str, &'a str)> for OAuthCredentials {
    open spec fn obeys_from_spec() -> bool {
        false
    }

    open spec fn from_spec(pair: (&'a str, &'a str)) -> Self {
        arbitrary()
    }
}

impl From<(String, String)> for OAuthCredentials {
    /// Takes the pair as client id and client secret.
    fn from(pair: (String, String)) -> (credentials: Self) {
        OAuthCredentials { client_id: pair.0, client_secret: pair.1 }
    }
}

impl vstd::std_specs::convert::FromSpecImpl<(String, String)> for OAuthCredentials {
    open spec fn obeys_from_spec() -> bool {
        true
    }

    open spec fn from_spec(pair: (String, String)) -> Self {
        OAuthCredentials { client_id: pair.0, client_secret: pair.1 }
    }
}

/// OIDC discovery document.
#[derive(Debug, Clone, Default)]
pub struct OidcDiscovery {
    pub issuer: String,
    pub authorization_endpoint: String,
    pub token_endpoint: String,
    pub userinfo_endpoint: String,
    pub revocation_endpoint: Option<String>,
}

/// Standard OIDC user info shape.
#[derive(Debug, Clone, Default)]
pub struct OidcUserInfo {
    pub sub: String,
    pub name: Option<String>,
    pub preferred_username: Option<String>,
    pub email: Option<String>,
    pub email_verified: Option<bool>,
    pub picture: Option<String>,
    pub groups: Option<Vec<String>>,
}

} // verus!
