//! The calls that the library makes into `oauth2`, `url` and `serde_json`,
//! each behind a small function whose contract states what the called code does.
use vstd::prelude::*;

verus! {

/// A parsed URL of the `url` crate (re-exported by `oauth2`), carried opaquely.
#[verifier::external_type_specification]
#[verifier::external_body]
pub struct ExUrl(oauth2::url::Url);

/// The error that `url::Url::parse` reports for text that is not a URL.
#[verifier::external_type_specification]
#[verifier::external_body]
pub struct ExParseError(oauth2::url::ParseError);

/// The error type of `serde_json`, carried opaquely.
#[verifier::external_type_specification]
#[verifier::external_body]
pub struct ExJsonError(serde_json::Error);

/// Whether `c` belongs to the URL-safe base64 alphabet: `A`-`Z`, `a`-`z`,
/// `0`-`9`, `-` and `_`.
pub open spec fn is_base64url_char(c: char) -> bool {
    ||| 'A' <= c <= 'Z'
    ||| 'a' <= c <= 'z'
    ||| '0' <= c <= '9'
    ||| c == '-'
    ||| c == '_'
}

/// Whether every character of the text belongs to the URL-safe base64 alphabet.
pub open spec fn is_base64url_text(text: Seq<char>) -> bool {
    forall|i: int| 0 <= i < text.len() ==> is_base64url_char(#[trigger] text[i])
}

/// The error that `serde::de::Error::custom` makes for `serde_json` from a
/// message. It depends on the message alone; its text is the message.
pub uninterp spec fn custom_json_error(message: Seq<char>) -> serde_json::Error;

/// The `Debug` text of a string slice: the text quoted, with its special
/// characters escaped.
pub uninterp spec fn str_debug_text(text: Seq<char>) -> Seq<char>;

/// The `Debug` text of an optional duration (`None`, or `Some(..)` around the
/// duration's own `Debug` text).
pub uninterp spec fn duration_debug_text(duration: Option<std::time::Duration>) -> Seq<char>;

/// Whether `url::Url::parse` accepts the text. Parsing depends on the text alone.
pub uninterp spec fn url_parses(text: Seq<char>) -> bool;

/// The error that `url::Url::parse` reports for a text that it rejects (such as
/// `RelativeUrlWithoutBase` for a relative URL). It depends on the text alone.
pub uninterp spec fn url_parse_error(text: Seq<char>) -> oauth2::url::ParseError;

/// The text of the authorization URL that `oauth2` builds for an authorization
/// request: the authorization endpoint with the query pairs `response_type=code`,
/// `client_id`, `state`, the S256 PKCE challenge of the verifier, `redirect_uri`
/// and the space-separated scopes (left out when there are none).
pub uninterp spec fn authorization_url_text(
    auth_url: Seq<char>,
    client_id: Seq<char>,
    redirect_url: Seq<char>,
    scopes: Seq<Seq<char>>,
    state: Seq<char>,
    pkce_verifier: Seq<char>,
) -> Seq<char>;

/// Calls `url::Url::parse` (as `oauth2::url::Url::parse`). The contract claims
/// that the call succeeds exactly when `url_parses` holds of the text, and that
/// its error is `url_parse_error` of the text.
#[verifier::external_body]
pub(crate) fn parse_url(text: &str) -> (parsed: Result<oauth2::url::Url, oauth2::url::ParseError>)
    ensures
        parsed is Ok <==> url_parses(text@),
        parsed matches Err(e) ==> e == url_parse_error(text@),
{
    oauth2::url::Url::parse(text)
}

/// Calls `oauth2::CsrfToken::new_random` and takes its secret. The token is 16
/// random bytes in unpadded URL-safe base64, so the contract claims 22
/// characters of that alphabet (hence ASCII) and nothing about which ones.
#[verifier::external_body]
pub(crate) fn random_csrf_state() -> (state: String)
    ensures
        state@.len() == 22,
        is_base64url_text(state@),
        vstd::utf8::is_ascii_chars(state@),
{
    oauth2::CsrfToken::new_random().into_secret()
}

/// Calls `oauth2::PkceCodeChallenge::new_random_sha256` and takes the verifier's
/// secret. The verifier is 32 random bytes in unpadded URL-safe base64, so the
/// contract claims 43 characters of that alphabet (hence ASCII) and nothing
/// about which ones.
#[verifier::external_body]
pub(crate) fn random_pkce_verifier() -> (verifier: String)
    ensures
        verifier@.len() == 43,
        is_base64url_text(verifier@),
        vstd::utf8::is_ascii_chars(verifier@),
{
    oauth2::PkceCodeChallenge::new_random_sha256().1.into_secret()
}

/// Calls `oauth2::AuthorizationRequest::url` on the request that an `oauth2`
/// client with the given client id, authorization endpoint and redirect URL
/// builds, with the given state, the S256 challenge of the given PKCE verifier
/// and the given scopes. The contract claims that the result's text is
/// `authorization_url_text` of the arguments. `AuthUrl::new` and `RedirectUrl::new`
/// are unwrapped, and `from_code_verifier_sha256` asserts a verifier of 43 to 128
/// bytes, hence the `requires`.
#[verifier::external_body]
pub(crate) fn authorization_url(
    auth_url: &str,
    client_id: &str,
    redirect_url: &str,
    scopes: &[&str],
    state: &str,
    pkce_verifier: &str,
) -> (url: String)
    requires
        url_parses(auth_url@),
        url_parses(redirect_url@),
        vstd::utf8::is_ascii_chars(pkce_verifier@),
        43 <= pkce_verifier@.len() <= 128,
    ensures
        url@ == authorization_url_text(
            auth_url@,
            client_id@,
            redirect_url@,
            scopes@.map_values(|s: &str| s@),
            state@,
            pkce_verifier@,
        ),
{
    let client = oauth2::basic::BasicClient::new(oauth2::ClientId::new(client_id.to_string()))
        .set_auth_uri(oauth2::AuthUrl::new(auth_url.to_string()).unwrap())
        .set_redirect_uri(oauth2::RedirectUrl::new(redirect_url.to_string()).unwrap());
    let verifier = oauth2::PkceCodeVerifier::new(pkce_verifier.to_string());
    let (url, _) = client
        .authorize_url(|| oauth2::CsrfToken::new(state.to_string()))
        .set_pkce_challenge(oauth2::PkceCodeChallenge::from_code_verifier_sha256(&verifier))
        .add_scopes(scopes.iter().map(|s| oauth2::Scope::new(s.to_string())))
        .url();
    url.to_string()
}

/// Calls `serde::de::Error::custom` for `serde_json::Error`, which makes an error
/// whose message is the given text. The contract claims that the result is
/// `custom_json_error` of the message.
#[verifier::external_body]
pub(crate) fn json_error(message: &str) -> (error: serde_json::Error)
    ensures
        error == custom_json_error(message@),
{
    <serde_json::Error as serde::de::Error>::custom(message)
}

/// Formats a string slice with `Debug` (`<str as Debug>::fmt` through `format!`).
/// The contract claims that the result is `str_debug_text` of the text.
#[verifier::external_body]
pub(crate) fn str_debug(text: &str) -> (debug: String)
    ensures
        debug@ == str_debug_text(text@),
{
    format!("{:?}", text)
}

/// Formats an optional duration with `Debug` (`<Option<Duration> as Debug>::fmt`
/// through `format!`). The contract claims that the result is
/// `duration_debug_text` of the value.
#[verifier::external_body]
pub(crate) fn duration_debug(duration: Option<std::time::Duration>) -> (debug: String)
    ensures
        debug@ == duration_debug_text(duration),
{
    format!("{:?}", duration)
}

} // verus!
