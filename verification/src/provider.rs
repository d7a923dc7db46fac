//! The provider traits: what the client needs to know of an OAuth provider.
use vstd::prelude::*;

use crate::types::{OAuthCredentials, TokenAuthMethod, UserInfo, UserInfoView};

verus! {

/// The text of each string of a slice of string slices.
pub open spec fn texts(strs: Seq<&str>) -> Seq<Seq<char>> {
    strs.map_values(|s: &str| s@)
}

/// The text of each (name, value) pair of a list of headers.
pub open spec fn header_texts(headers: Seq<(String, String)>) -> Seq<(Seq<char>, Seq<char>)> {
    headers.map_values(|h: (String, String)| (h.0@, h.1@))
}

/// A header of a request, made of its name and value.
pub fn header(name: &str, value: &str) -> (h: (String, String))
    ensures
        h.0@ == name@,
        h.1@ == value@,
{
    (name.to_owned(), value.to_owned())
}

/// Trait for all OAuth providers.
///
/// Each method's result is pinned down by a spec function of the same name,
/// so that code generic over the provider can speak of it.
pub trait SimpleOAuthProvider: core::fmt::Debug + Send + Sync {
    /// The authorization endpoint. (Defined by every provider of this crate; the
    /// default only lets providers written outside Verus leave it out.)
    open spec fn spec_authorize_url(&self) -> Seq<char> {
        arbitrary()
    }

    /// The token endpoint.
    open spec fn spec_token_url(&self) -> Seq<char> {
        arbitrary()
    }

    /// The token revocation endpoint, if the provider has one (by default none).
    open spec fn spec_revoke_url(&self) -> Option<Seq<char>> {
        None
    }

    /// The default scopes of the authorization URL (by default none).
    open spec fn spec_default_scopes(&self) -> Seq<Seq<char>> {
        Seq::empty()
    }

    /// How the client authenticates to the token endpoint (by default basic auth).
    open spec fn spec_token_auth_method(&self) -> TokenAuthMethod {
        TokenAuthMethod::BasicAuth
    }

    /// The authorization endpoint of the provider
    fn authorize_url(&self) -> (url: &str)
        ensures
            url@ == self.spec_authorize_url(),
    ;

    /// The token endpoint of the provider
    fn token_url(&self) -> (url: &str)
        ensures
            url@ == self.spec_token_url(),
    ;

    /// The token revocation endpoint of the provider (`None` where there is none)
    fn revoke_url(&self) -> (url: Option<&str>)
        ensures
            url is Some <==> self.spec_revoke_url() is Some,
            url matches Some(u) ==> self.spec_revoke_url() == Some(u@),
    ;

    /// Default scopes used when building the provider's authorization URL.
    fn default_scopes(&self) -> (scopes: &'static [&'static str])
        ensures
            texts(scopes@) == self.spec_default_scopes(),
    ;

    /// How the OAuth client should authenticate to the provider's token endpoint.
    fn token_auth_method(&self) -> (method: TokenAuthMethod)
        ensures
            method == self.spec_token_auth_method(),
    ;
}

/// Trait for OAuth providers that support fetching normalized user info.
///
/// The provider's user info response is first read into `RawUserInfo`, the shape
/// of the provider's JSON, and then normalized by `extract_user_info`.
pub trait UserInfoProvider: SimpleOAuthProvider {
    /// The provider's own shape of the user info response.
    type RawUserInfo;

    /// The URL to fetch the user info from.
    open spec fn spec_user_info_url(&self) -> Seq<char> {
        arbitrary()
    }

    /// The normalized user info of a response, or the `serde_json` error that
    /// extracting it gives.
    open spec fn spec_user_info(&self, raw: Self::RawUserInfo) -> Result<UserInfoView, serde_json::Error> {
        arbitrary()
    }

    /// The headers of a user info request, as (name, value) texts (by default none).
    open spec fn spec_user_info_headers(&self, credentials: OAuthCredentials) -> Seq<(Seq<char>, Seq<char>)> {
        Seq::empty()
    }

    /// The URL to fetch the user info from the provider
    fn user_info_url(&self) -> (url: &str)
        ensures
            url@ == self.spec_user_info_url(),
    ;

    /// Extract the user data from the provider's user response
    fn extract_user_info(&self, raw: Self::RawUserInfo) -> (info: Result<UserInfo, serde_json::Error>)
        ensures
            info is Ok <==> self.spec_user_info(raw) is Ok,
            info matches Ok(i) ==> self.spec_user_info(raw) == Ok::<UserInfoView, serde_json::Error>(i@),
            info matches Err(e) ==> self.spec_user_info(raw) == Err::<UserInfoView, serde_json::Error>(e),
    ;

    /// Additional headers to send when making user info requests to the provider
    fn user_info_headers(&self, credentials: &OAuthCredentials) -> (headers: Vec<(String, String)>)
        ensures
            header_texts(headers@) == self.spec_user_info_headers(*credentials),
    ;
}

impl<T: SimpleOAuthProvider + ?Sized> SimpleOAuthProvider for Box<T> {
    open spec fn spec_authorize_url(&self) -> Seq<char> {
        (**self).spec_authorize_url()
    }

    open spec fn spec_token_url(&self) -> Seq<char> {
        (**self).spec_token_url()
    }

    open spec fn spec_revoke_url(&self) -> Option<Seq<char>> {
        (**self).spec_revoke_url()
    }

    open spec fn spec_default_scopes(&self) -> Seq<Seq<char>> {
        (**self).spec_default_scopes()
    }

    open spec fn spec_token_auth_method(&self) -> TokenAuthMethod {
        (**self).spec_token_auth_method()
    }

    fn authorize_url(&self) -> (url: &str) {
        (**self).authorize_url()
    }

    fn token_url(&self) -> (url: &str) {
        (**self).token_url()
    }

    fn default_scopes(&self) -> (scopes: &'static [&'static str]) {
        (**self).default_scopes()
    }

    fn revoke_url(&self) -> (url: Option<&str>) {
        (**self).revoke_url()
    }

    fn token_auth_method(&self) -> (method: TokenAuthMethod) {
        (**self).token_auth_method()
    }
}

impl<T: UserInfoProvider + ?Sized> UserInfoProvider for Box<T> {
    type RawUserInfo = T::RawUserInfo;

    open spec fn spec_user_info_url(&self) -> Seq<char> {
        (**self).spec_user_info_url()
    }

    open spec fn spec_user_info(&self, raw: T::RawUserInfo) -> Result<UserInfoView, serde_json::Error> {
        (**self).spec_user_info(raw)
    }

    open spec fn spec_user_info_headers(&self, credentials: OAuthCredentials) -> Seq<(Seq<char>, Seq<char>)> {
        (**self).spec_user_info_headers(credentials)
    }

    fn user_info_url(&self) -> (url: &str) {
        (**self).user_info_url()
    }

    fn extract_user_info(&self, raw: T::RawUserInfo) -> (info: Result<UserInfo, serde_json::Error>) {
        (**self).extract_user_info(raw)
    }

    fn user_info_headers(&self, credentials: &OAuthCredentials) -> (headers: Vec<(String, String)>) {
        (**self).user_info_headers(credentials)
    }
}

impl<T: SimpleOAuthProvider + ?Sized> SimpleOAuthProvider for std::sync::Arc<T> {
    open spec fn spec_authorize_url(&self) -> Seq<char> {
        (**self).spec_authorize_url()
    }

    open spec fn spec_token_url(&self) -> Seq<char> {
        (**self).spec_token_url()
    }

    open spec fn spec_revoke_url(&self) -> Option<Seq<char>> {
        (**self).spec_revoke_url()
    }

    open spec fn spec_default_scopes(&self) -> Seq<Seq<char>> {
        (**self).spec_default_scopes()
    }

    open spec fn spec_token_auth_method(&self) -> TokenAuthMethod {
        (**self).spec_token_auth_method()
    }

    fn authorize_url(&self) -> (url: &str) {
        (**self).authorize_url()
    }

    fn token_url(&self) -> (url: &str) {
        (**self).token_url()
    }

    fn default_scopes(&self) -> (scopes: &'static [&'static str]) {
        (**self).default_scopes()
    }

    fn revoke_url(&self) -> (url: Option<&str>) {
        (**self).revoke_url()
    }

    fn token_auth_method(&self) -> (method: TokenAuthMethod) {
        (**self).token_auth_method()
    }
}

impl<T: UserInfoProvider + ?Sized> UserInfoProvider for std::sync::Arc<T> {
    type RawUserInfo = T::RawUserInfo;

    open spec fn spec_user_info_url(&self) -> Seq<char> {
        (**self).spec_user_info_url()
    }

    open spec fn spec_user_info(&self, raw: T::RawUserInfo) -> Result<UserInfoView, serde_json::Error> {
        (**self).spec_user_info(raw)
    }

    open spec fn spec_user_info_headers(&self, credentials: OAuthCredentials) -> Seq<(Seq<char>, Seq<char>)> {
        (**self).spec_user_info_headers(credentials)
    }

    fn user_info_url(&self) -> (url: &str) {
        (**self).user_info_url()
    }

    fn extract_user_info(&self, raw: T::RawUserInfo) -> (info: Result<UserInfo, serde_json::Error>) {
        (**self).extract_user_info(raw)
    }

    fn user_info_headers(&self, credentials: &OAuthCredentials) -> (headers: Vec<(String, String)>) {
        (**self).user_info_headers(credentials)
    }
}

/// A provider in a `Box` or an `Arc` is the provider itself: the same endpoints,
/// default scopes, token authentication method, user info URL, headers and
/// normalized user info.
pub proof fn shared_provider_is_transparent<P: UserInfoProvider>(
    boxed: Box<P>,
    shared: std::sync::Arc<P>,
    credentials: OAuthCredentials,
    raw: P::RawUserInfo,
)
    ensures
        boxed.spec_authorize_url() == (*boxed).spec_authorize_url(),
        boxed.spec_token_url() == (*boxed).spec_token_url(),
        boxed.spec_revoke_url() == (*boxed).spec_revoke_url(),
        boxed.spec_default_scopes() == (*boxed).spec_default_scopes(),
        boxed.spec_token_auth_method() == (*boxed).spec_token_auth_method(),
        boxed.spec_user_info_url() == (*boxed).spec_user_info_url(),
        boxed.spec_user_info_headers(credentials) == (*boxed).spec_user_info_headers(credentials),
        boxed.spec_user_info(raw) == (*boxed).spec_user_info(raw),
        shared.spec_authorize_url() == (*shared).spec_authorize_url(),
        shared.spec_token_url() == (*shared).spec_token_url(),
        shared.spec_revoke_url() == (*shared).spec_revoke_url(),
        shared.spec_default_scopes() == (*shared).spec_default_scopes(),
        shared.spec_token_auth_method() == (*shared).spec_token_auth_method(),
        shared.spec_user_info_url() == (*shared).spec_user_info_url(),
        shared.spec_user_info_headers(credentials) == (*shared).spec_user_info_headers(credentials),
        shared.spec_user_info(raw) == (*shared).spec_user_info(raw),
{
}

} // verus!
