//! Server-side OAuth2 login and authorization with the Authorization Code Flow,
//! including common OAuth providers.
use vstd::prelude::*;

pub mod common;
pub mod external;
pub mod laws;
mod provider;
pub mod text;
pub mod types;

pub use provider::{header, header_texts, texts, SimpleOAuthProvider, UserInfoProvider};

use crate::external::{
    authorization_url, authorization_url_text, is_base64url_text, parse_url, random_csrf_state,
    random_pkce_verifier, url_parse_error, url_parses,
};
use crate::types::{AuthorizeUrl, OAuthCredentials, RevokeTokenType, UserInfo, UserInfoView};

verus! {

/// The errors of the library's own steps.
pub enum SimpleOAuthError {
    /// A URL (the redirect URL or one of the provider's endpoints) is not a valid URL.
    ParseUrl(oauth2::url::ParseError),
    /// The provider's user info response could not be read.
    Deserialization(serde_json::Error),
}

/// The token to revoke, tagged with its kind.
pub enum RevocableToken {
    Access(String),
    Refresh(String),
}

/// What a code exchange sends to the token endpoint besides the client's own settings.
pub struct CodeExchangeRequest {
    pub code: String,
    pub pkce_verifier: String,
    /// The redirect URL to send: the same one that the authorization URL named.
    pub redirect_url: String,
}

/// What a refresh sends to the token endpoint besides the client's own settings.
pub struct RefreshRequest {
    pub refresh_token: String,
    /// The scopes to request; none means that the request names no scope.
    pub scopes: Vec<String>,
}

/// A request to the provider's revocation endpoint.
pub struct RevocationRequest {
    pub url: String,
    pub token: RevocableToken,
}

/// A request for the user's info: a GET of `url` with the bearer token and the headers.
pub struct UserInfoRequest {
    pub url: String,
    pub bearer_token: String,
    pub headers: Vec<(String, String)>,
}

/// The redirect URL that a request uses: the override where one is given, else
/// the client's own.
pub open spec fn effective_redirect(own: Seq<char>, redirect_url: Option<String>) -> Seq<char> {
    match redirect_url {
        Some(u) => u@,
        None => own,
    }
}

/// The scopes that an authorization URL asks for: the given ones, else the
/// provider's default scopes.
pub open spec fn effective_scopes(defaults: Seq<Seq<char>>, scopes: Option<&[&str]>) -> Seq<Seq<char>> {
    match scopes {
        Some(s) => texts(s@),
        None => defaults,
    }
}

/// Whether a given redirect URL override is rejected.
pub open spec fn rejects_redirect(redirect_url: Option<String>) -> bool {
    match redirect_url {
        Some(u) => !url_parses(u@),
        None => false,
    }
}

/// The error of a rejected redirect URL override: the parse error of its text.
pub open spec fn redirect_error(redirect_url: Option<String>) -> SimpleOAuthError {
    SimpleOAuthError::ParseUrl(url_parse_error(redirect_url->Some_0@))
}

/// The error of a configuration that is rejected: the parse error of the first
/// URL that does not parse, in the order redirect URL, authorization endpoint,
/// token endpoint, revocation endpoint.
pub open spec fn config_error<P: SimpleOAuthProvider>(provider: P, redirect_url: Seq<char>) -> SimpleOAuthError {
    if !url_parses(redirect_url) {
        SimpleOAuthError::ParseUrl(url_parse_error(redirect_url))
    } else if !url_parses(provider.spec_authorize_url()) {
        SimpleOAuthError::ParseUrl(url_parse_error(provider.spec_authorize_url()))
    } else if !url_parses(provider.spec_token_url()) {
        SimpleOAuthError::ParseUrl(url_parse_error(provider.spec_token_url()))
    } else {
        SimpleOAuthError::ParseUrl(url_parse_error(provider.spec_revoke_url()->Some_0))
    }
}

/// Whether a client of this provider and redirect URL can be made: every URL parses.
pub open spec fn accepts_config<P: SimpleOAuthProvider>(provider: P, redirect_url: Seq<char>) -> bool {
    &&& url_parses(redirect_url)
    &&& url_parses(provider.spec_authorize_url())
    &&& url_parses(provider.spec_token_url())
    &&& (provider.spec_revoke_url() matches Some(u) ==> url_parses(u))
}

/// Each string of the slice, owned.
pub fn scope_strings(scopes: &[&str]) -> (owned: Vec<String>)
    ensures
        owned@.map_values(|s: String| s@) == texts(scopes@),
{
    let mut owned: Vec<String> = Vec::new();
    let mut i: usize = 0;
    while i < scopes.len()
        invariant
            i <= scopes@.len(),
            owned@.len() == i,
            forall|j: int| 0 <= j < i ==> #[trigger] owned@[j]@ == scopes@[j]@,
        decreases scopes@.len() - i,
    {
        owned.push(scopes[i].to_owned());
        i = i + 1;
    }
    assert(owned@.map_values(|s: String| s@) =~= texts(scopes@));
    owned
}

/// An OAuth client for one provider: the provider, the client's credentials and
/// its redirect URL, all of whose URLs parse.
pub struct SimpleOAuthClient<P: SimpleOAuthProvider> {
    provider: P,
    credentials: OAuthCredentials,
    redirect_url: String,
}

impl<P: SimpleOAuthProvider> SimpleOAuthClient<P> {
    #[verifier::type_invariant]
    spec fn urls_parse(self) -> bool {
        accepts_config(self.provider, self.redirect_url@)
    }

    /// The provider.
    pub closed spec fn spec_provider(&self) -> P {
        self.provider
    }

    /// The client's credentials.
    pub closed spec fn spec_credentials(&self) -> OAuthCredentials {
        self.credentials
    }

    /// The client's redirect URL.
    pub closed spec fn spec_redirect_url(&self) -> Seq<char> {
        self.redirect_url@
    }

    /// A client of the provider with the given credentials and redirect URL.
    /// Fails with `ParseUrl` where the redirect URL or one of the provider's
    /// endpoints (authorization, token, revocation if any) is not a URL.
    pub fn new(provider: P, credentials: OAuthCredentials, redirect_url: String) -> (client: Result<Self, SimpleOAuthError>)
        ensures
            client is Ok <==> accepts_config(provider, redirect_url@),
            client matches Err(e) ==> e == config_error(provider, redirect_url@),
            client matches Ok(c) ==> {
                &&& c.spec_provider() == provider
                &&& c.spec_credentials() == credentials
                &&& c.spec_redirect_url() == redirect_url@
            },
    {
        if let Err(e) = parse_url(redirect_url.as_str()) {
            return Err(SimpleOAuthError::ParseUrl(e));
        }
        if let Err(e) = parse_url(provider.authorize_url()) {
            return Err(SimpleOAuthError::ParseUrl(e));
        }
        if let Err(e) = parse_url(provider.token_url()) {
            return Err(SimpleOAuthError::ParseUrl(e));
        }
        if let Some(url) = provider.revoke_url() {
            if let Err(e) = parse_url(url) {
                return Err(SimpleOAuthError::ParseUrl(e));
            }
        }
        Ok(SimpleOAuthClient { provider, credentials, redirect_url })
    }

    /// The provider.
    pub fn provider(&self) -> (provider: &P)
        ensures
            *provider == self.spec_provider(),
            accepts_config(*provider, self.spec_redirect_url()),
    {
        proof { use_type_invariant(self); }
        &self.provider
    }

    /// The client's credentials.
    pub fn credentials(&self) -> (credentials: &OAuthCredentials)
        ensures
            *credentials == self.spec_credentials(),
    {
        &self.credentials
    }

    /// The client's redirect URL.
    pub fn redirect_url(&self) -> (url: &str)
        ensures
            url@ == self.spec_redirect_url(),
            url_parses(url@),
    {
        proof { use_type_invariant(self); }
        self.redirect_url.as_str()
    }

    /// Build the URL to navigate the user to for authorization. **Make sure to save the
    /// returned state and PKCE verifier in a secure location, typically in a server-side
    /// cache or session.**
    ///
    /// If scopes are not provided, this will use the provider's default scopes.
    ///
    /// You can optionally override the redirect URL, but make sure to pass in the exact
    /// same URL when calling `exchange_code()`.
    pub fn authorize_url(&self, redirect_url: Option<String>, scopes: Option<&[&str]>) -> (auth: Result<AuthorizeUrl, SimpleOAuthError>)
        ensures
            auth is Err <==> rejects_redirect(redirect_url),
            auth matches Err(e) ==> e == redirect_error(redirect_url),
            auth matches Ok(a) ==> {
                &&& a.url@ == authorization_url_text(
                    self.spec_provider().spec_authorize_url(),
                    self.spec_credentials().client_id@,
                    effective_redirect(self.spec_redirect_url(), redirect_url),
                    effective_scopes(self.spec_provider().spec_default_scopes(), scopes),
                    a.state@,
                    a.pkce_verifier@,
                )
                &&& a.state@.len() == 22
                &&& is_base64url_text(a.state@)
                &&& a.pkce_verifier@.len() == 43
                &&& is_base64url_text(a.pkce_verifier@)
            },
    {
        proof { use_type_invariant(self); }
        let pkce_verifier = random_pkce_verifier();
        let state = random_csrf_state();
        let scopes: &[&str] = match scopes {
            Some(scopes) => scopes,
            None => self.provider.default_scopes(),
        };
        let redirect: &str = match &redirect_url {
            Some(url) => {
                if let Err(e) = parse_url(url.as_str()) {
                    return Err(SimpleOAuthError::ParseUrl(e));
                }
                url.as_str()
            },
            None => self.redirect_url.as_str(),
        };
        let url = authorization_url(
            self.provider.authorize_url(),
            self.credentials.client_id.as_str(),
            redirect,
            scopes,
            state.as_str(),
            pkce_verifier.as_str(),
        );
        Ok(AuthorizeUrl { url, state, pkce_verifier })
    }
    /// What exchanging the code returned after authorization sends, besides the
    /// client's own settings: the code, the saved PKCE verifier and the redirect
    /// URL, which is the override where one is given and the client's own
    /// otherwise: the same one that `authorize_url` put in the authorization URL
    /// for the same override. Make sure to first verify the returned state.
    /// Fails with `ParseUrl` where the override is not a URL.
    pub fn code_exchange_request(
        &self,
        code: String,
        pkce_verifier: String,
        redirect_url: Option<String>,
    ) -> (request: Result<CodeExchangeRequest, SimpleOAuthError>)
        ensures
            request is Err <==> rejects_redirect(redirect_url),
            request matches Err(e) ==> e == redirect_error(redirect_url),
            request matches Ok(r) ==> {
                &&& r.code == code
                &&& r.pkce_verifier == pkce_verifier
                &&& r.redirect_url@ == effective_redirect(self.spec_redirect_url(), redirect_url)
                &&& url_parses(r.redirect_url@)
            },
    {
        proof { use_type_invariant(self); }
        let redirect_url = match redirect_url {
            Some(url) => {
                if let Err(e) = parse_url(url.as_str()) {
                    return Err(SimpleOAuthError::ParseUrl(e));
                }
                url
            },
            None => self.redirect_url.clone(),
        };
        Ok(CodeExchangeRequest { code, pkce_verifier, redirect_url })
    }

    /// What exchanging a refresh token for a new access token sends, besides the
    /// client's own settings: the refresh token and the requested scopes, which are
    /// the given ones and none where none are given (not the default scopes).
    pub fn refresh_request(&self, refresh_token: String, scopes: Option<&[&str]>) -> (request: RefreshRequest)
        ensures
            request.refresh_token == refresh_token,
            request.scopes@.map_values(|s: String| s@) == effective_scopes(Seq::empty(), scopes),
    {
        let scopes = match scopes {
            Some(scopes) => scope_strings(scopes),
            None => {
                let none: Vec<String> = Vec::new();
                assert(none@.map_values(|s: String| s@) =~= Seq::<Seq<char>>::empty());
                none
            },
        };
        RefreshRequest { refresh_token, scopes }
    }

    /// The request that revokes the given token at the provider, or `None` where
    /// the provider has no revocation URL: revoking is then a no-op.
    pub fn revocation_request(&self, token: String, token_type: RevokeTokenType) -> (request: Option<RevocationRequest>)
        ensures
            request is None <==> self.spec_provider().spec_revoke_url() is None,
            request matches Some(r) ==> {
                &&& self.spec_provider().spec_revoke_url() == Some(r.url@)
                &&& r.token == match token_type {
                    RevokeTokenType::Access => RevocableToken::Access(token),
                    RevokeTokenType::Refresh => RevocableToken::Refresh(token),
                }
            },
    {
        match self.provider.revoke_url() {
            None => None,
            Some(url) => {
                let token = match token_type {
                    RevokeTokenType::Access => RevocableToken::Access(token),
                    RevokeTokenType::Refresh => RevocableToken::Refresh(token),
                };
                Some(RevocationRequest { url: url.to_owned(), token })
            },
        }
    }
}

impl<P: UserInfoProvider> SimpleOAuthClient<P> {
    /// The request that fetches the user's info with the access token: the
    /// provider's user info URL, the token as bearer token, and the provider's
    /// headers for the client's credentials.
    pub fn user_info_request(&self, access_token: &str) -> (request: UserInfoRequest)
        ensures
            request.url@ == self.spec_provider().spec_user_info_url(),
            request.bearer_token@ == access_token@,
            header_texts(request.headers@) == self.spec_provider().spec_user_info_headers(
                self.spec_credentials(),
            ),
    {
        UserInfoRequest {
            url: self.provider.user_info_url().to_owned(),
            bearer_token: access_token.to_owned(),
            headers: self.provider.user_info_headers(&self.credentials),
        }
    }

    /// The normalized user info of the provider's response; where the provider
    /// cannot extract it, its `serde_json` error as a `Deserialization` error.
    pub fn user_info(&self, raw: P::RawUserInfo) -> (info: Result<UserInfo, SimpleOAuthError>)
        ensures
            info is Ok <==> self.spec_provider().spec_user_info(raw) is Ok,
            info matches Ok(i) ==> self.spec_provider().spec_user_info(raw) == Ok::<UserInfoView, serde_json::Error>(i@),
            info matches Err(e) ==> (self.spec_provider().spec_user_info(raw) matches Err(j)
                && e == SimpleOAuthError::Deserialization(j)),
    {
        match self.provider.extract_user_info(raw) {
            Ok(info) => Ok(info),
            Err(e) => Err(SimpleOAuthError::Deserialization(e)),
        }
    }
}

} // verus!
