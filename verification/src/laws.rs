//! What each provider is: its endpoints, scopes and token authentication, and
//! how it reads each claim of its user info response, stated as values and
//! claim-by-claim relations over all inputs.
use vstd::prelude::*;

use crate::common::{
    Discord, DiscordUserInfo, Facebook, FacebookUserInfo,
    GitHub, GitHubUserInfo, GitLab, Google, Microsoft, Oidc, Twitch, TwitchUsers,
};
use crate::external::{custom_json_error, url_parses};
use crate::text::{decimal_text_denotes, decimal_value, is_digit};
use crate::types::{OAuthCredentials, OidcUserInfo, TokenAuthMethod, UserInfoView};
use crate::{
    accepts_config, effective_redirect, effective_scopes, rejects_redirect, SimpleOAuthClient,
    SimpleOAuthProvider, UserInfoProvider,
};

verus! {

/// Discord: its endpoints, the `identify` scope, basic authentication, no revocation endpoint and no extra user info headers.
pub proof fn discord_configuration(p: Discord, credentials: OAuthCredentials)
    ensures
        p.spec_authorize_url() == "https://discord.com/oauth2/authorize"@,
        p.spec_token_url() == "https://discord.com/api/oauth2/token"@,
        p.spec_revoke_url() == None::<Seq<char>>,
        p.spec_default_scopes() == seq!["identify"@],
        p.spec_token_auth_method() == TokenAuthMethod::BasicAuth,
        p.spec_user_info_url() == "https://discord.com/api/v9/users/@me"@,
        p.spec_user_info_headers(credentials) == Seq::<(Seq<char>, Seq<char>)>::empty(),
{
}

/// Facebook: its endpoints, the `public_profile` scope, credentials in the request body, no revocation endpoint and no extra user info headers.
pub proof fn facebook_configuration(p: Facebook, credentials: OAuthCredentials)
    ensures
        p.spec_authorize_url() == "https://www.facebook.com/dialog/oauth"@,
        p.spec_token_url() == "https://graph.facebook.com/oauth/access_token"@,
        p.spec_revoke_url() == None::<Seq<char>>,
        p.spec_default_scopes() == seq!["public_profile"@],
        p.spec_token_auth_method() == TokenAuthMethod::RequestBody,
        p.spec_user_info_url() == "https://graph.facebook.com/me?fields=id,name,email,picture"@,
        p.spec_user_info_headers(credentials) == Seq::<(Seq<char>, Seq<char>)>::empty(),
{
}

/// GitHub: its endpoints, the `read:user` scope, basic authentication, no revocation endpoint, and the `Accept` and `User-Agent` headers that its API asks for.
pub proof fn github_configuration(p: GitHub, credentials: OAuthCredentials)
    ensures
        p.spec_authorize_url() == "https://github.com/login/oauth/authorize"@,
        p.spec_token_url() == "https://github.com/login/oauth/access_token"@,
        p.spec_revoke_url() == None::<Seq<char>>,
        p.spec_default_scopes() == seq!["read:user"@],
        p.spec_token_auth_method() == TokenAuthMethod::BasicAuth,
        p.spec_user_info_url() == "https://api.github.com/user"@,
        p.spec_user_info_headers(credentials) == seq![("Accept"@, "application/vnd.github+json"@), ("User-Agent"@, "fa-sharp/simple-oauth"@)],
{
}

/// GitLab: its endpoints, the `openid` and `profile` scopes, basic authentication, no revocation endpoint and no extra user info headers.
pub proof fn gitlab_configuration(p: GitLab, credentials: OAuthCredentials)
    ensures
        p.spec_authorize_url() == "https://gitlab.com/oauth/authorize"@,
        p.spec_token_url() == "https://gitlab.com/oauth/token"@,
        p.spec_revoke_url() == None::<Seq<char>>,
        p.spec_default_scopes() == seq!["openid"@, "profile"@],
        p.spec_token_auth_method() == TokenAuthMethod::BasicAuth,
        p.spec_user_info_url() == "https://gitlab.com/oauth/userinfo"@,
        p.spec_user_info_headers(credentials) == Seq::<(Seq<char>, Seq<char>)>::empty(),
{
}

/// Google: its endpoints, the `openid` and `profile` scopes, basic authentication, no revocation endpoint and no extra user info headers.
pub proof fn google_configuration(p: Google, credentials: OAuthCredentials)
    ensures
        p.spec_authorize_url() == "https://accounts.google.com/o/oauth2/v2/auth"@,
        p.spec_token_url() == "https://oauth2.googleapis.com/token"@,
        p.spec_revoke_url() == None::<Seq<char>>,
        p.spec_default_scopes() == seq!["openid"@, "profile"@],
        p.spec_token_auth_method() == TokenAuthMethod::BasicAuth,
        p.spec_user_info_url() == "https://openidconnect.googleapis.com/v1/userinfo"@,
        p.spec_user_info_headers(credentials) == Seq::<(Seq<char>, Seq<char>)>::empty(),
{
}

/// Microsoft: its endpoints, the `openid` and `profile` scopes, credentials in the request body, no revocation endpoint and no extra user info headers.
pub proof fn microsoft_configuration(p: Microsoft, credentials: OAuthCredentials)
    ensures
        p.spec_authorize_url() == "https://login.microsoftonline.com/common/oauth2/v2.0/authorize"@,
        p.spec_token_url() == "https://login.microsoftonline.com/common/oauth2/v2.0/token"@,
        p.spec_revoke_url() == None::<Seq<char>>,
        p.spec_default_scopes() == seq!["openid"@, "profile"@],
        p.spec_token_auth_method() == TokenAuthMethod::RequestBody,
        p.spec_user_info_url() == "https://graph.microsoft.com/oidc/userinfo"@,
        p.spec_user_info_headers(credentials) == Seq::<(Seq<char>, Seq<char>)>::empty(),
{
}

/// Twitch: its endpoints, its revocation endpoint, no default scopes, credentials in the request body, and the client id sent as the `Client-Id` header.
pub proof fn twitch_configuration(p: Twitch, credentials: OAuthCredentials)
    ensures
        p.spec_authorize_url() == "https://id.twitch.tv/oauth2/authorize"@,
        p.spec_token_url() == "https://id.twitch.tv/oauth2/token"@,
        p.spec_revoke_url() == Some("https://id.twitch.tv/oauth2/revoke"@),
        p.spec_default_scopes() == Seq::<Seq<char>>::empty(),
        p.spec_token_auth_method() == TokenAuthMethod::RequestBody,
        p.spec_user_info_url() == "https://api.twitch.tv/helix/users"@,
        p.spec_user_info_headers(credentials) == seq![("Client-Id"@, credentials.client_id@)],
{
}

/// An OIDC provider from a discovery document: the `openid` and `profile`
/// scopes, basic authentication, no revocation endpoint (the document's is not
/// used) and no extra user info headers.
pub proof fn oidc_configuration(p: Oidc, credentials: OAuthCredentials)
    ensures
        p.spec_revoke_url() == None::<Seq<char>>,
        p.spec_default_scopes() == seq!["openid"@, "profile"@],
        p.spec_token_auth_method() == TokenAuthMethod::BasicAuth,
        p.spec_user_info_headers(credentials) == Seq::<(Seq<char>, Seq<char>)>::empty(),
{
}

/// The choices that every request makes: the redirect URL is the override where
/// one is given and the client's own otherwise, and only a given override that
/// does not parse is rejected; the scopes are the given ones, each as given and
/// in order, and the fallback only where none are given.
pub proof fn request_choices(own: Seq<char>, redirect: String, fallback: Seq<Seq<char>>, scopes: &[&str])
    ensures
        effective_redirect(own, Some(redirect)) == redirect@,
        effective_redirect(own, None) == own,
        rejects_redirect(Some(redirect)) <==> !url_parses(redirect@),
        !rejects_redirect(None),
        effective_scopes(fallback, Some(scopes)).len() == scopes@.len(),
        forall|i: int| 0 <= i < scopes@.len() ==> #[trigger] effective_scopes(fallback, Some(scopes))[i] == scopes@[i]@,
        effective_scopes(fallback, None) == fallback,
{
}

/// A client can be made exactly when its redirect URL, the authorization and
/// token endpoints and (where there is one) the revocation endpoint all parse.
pub proof fn client_configuration<P: SimpleOAuthProvider>(provider: P, redirect: Seq<char>)
    ensures
        accepts_config(provider, redirect) <==> {
            &&& url_parses(redirect)
            &&& url_parses(provider.spec_authorize_url())
            &&& url_parses(provider.spec_token_url())
            &&& (provider.spec_revoke_url() is Some ==> url_parses(provider.spec_revoke_url()->Some_0))
        },
{
}

/// Without given scopes, the authorization URL of a Google client asks for
/// exactly `openid` and `profile`.
pub proof fn google_client_default_scopes(client: SimpleOAuthClient<Google>)
    ensures
        effective_scopes(client.spec_provider().spec_default_scopes(), None) == seq!["openid"@, "profile"@],
{
}

/// A Google client has no revocation endpoint, so revoking any token is a no-op.
pub proof fn google_client_never_revokes(client: SimpleOAuthClient<Google>)
    ensures
        client.spec_provider().spec_revoke_url() is None,
{
}

/// The normalized info of a standard OIDC response: the id is the `sub` claim,
/// the name the `name` claim, the username the `preferred_username` claim, the
/// email, its verification and the picture are the response's own, and the
/// groups are the response's where `keep_groups` holds and none otherwise.
pub open spec fn carries_oidc_claims(info: UserInfoView, raw: OidcUserInfo, keep_groups: bool) -> bool {
    &&& info.id == raw.sub@
    &&& info.name == raw.name.deep_view()
    &&& info.username == raw.preferred_username.deep_view()
    &&& info.email == raw.email.deep_view()
    &&& info.email_verified == raw.email_verified
    &&& info.avatar_url == raw.picture.deep_view()
    &&& info.groups == (if keep_groups { raw.groups.deep_view() } else { None })
}

/// GitLab reads every standard OIDC claim, groups included, and never fails.
pub proof fn gitlab_user_info(p: GitLab, raw: OidcUserInfo)
    ensures
        p.spec_user_info(raw) is Ok,
        carries_oidc_claims(p.spec_user_info(raw)->Ok_0, raw, true),
{
}

/// Microsoft reads every standard OIDC claim, groups included, and never fails.
pub proof fn microsoft_user_info(p: Microsoft, raw: OidcUserInfo)
    ensures
        p.spec_user_info(raw) is Ok,
        carries_oidc_claims(p.spec_user_info(raw)->Ok_0, raw, true),
{
}

/// Google reads the standard OIDC claims but not the groups, and never fails.
pub proof fn google_user_info(p: Google, raw: OidcUserInfo)
    ensures
        p.spec_user_info(raw) is Ok,
        carries_oidc_claims(p.spec_user_info(raw)->Ok_0, raw, false),
{
}

/// A discovered OIDC provider reads the standard claims but not the groups, and
/// never fails.
pub proof fn oidc_user_info(p: Oidc, raw: OidcUserInfo)
    ensures
        p.spec_user_info(raw) is Ok,
        carries_oidc_claims(p.spec_user_info(raw)->Ok_0, raw, false),
{
}

/// GitHub's user id is the decimal text of its numeric id: digits only, no
/// leading zero, reading back as the id. The login is the username, and the
/// name, email and avatar are the response's; GitHub says nothing of email
/// verification or groups. It never fails.
pub proof fn github_user_info(p: GitHub, raw: GitHubUserInfo)
    ensures
        p.spec_user_info(raw) is Ok,
        ({
            let info = p.spec_user_info(raw)->Ok_0;
            &&& decimal_value(info.id) == raw.id
            &&& info.id.len() >= 1
            &&& forall|i: int| 0 <= i < info.id.len() ==> is_digit(#[trigger] info.id[i])
            &&& raw.id > 0 ==> info.id[0] != '0'
            &&& info.username == Some(raw.login@)
            &&& info.name == raw.name.deep_view()
            &&& info.email == raw.email.deep_view()
            &&& info.email_verified == None::<bool>
            &&& info.avatar_url == raw.avatar_url.deep_view()
            &&& info.groups == None::<Seq<Seq<char>>>
        }),
{
    decimal_text_denotes(raw.id as nat);
}

/// Discord: the id, the username, the global name as display name, the email
/// and its verification are the response's; the avatar URL is Discord's CDN
/// address `https://cdn.discordapp.com/avatars/<id>/<avatar>.png` where the
/// response names an avatar, and none otherwise. It never fails.
pub proof fn discord_user_info(p: Discord, raw: DiscordUserInfo)
    ensures
        p.spec_user_info(raw) is Ok,
        ({
            let info = p.spec_user_info(raw)->Ok_0;
            &&& info.id == raw.id@
            &&& info.username == Some(raw.username@)
            &&& info.name == raw.global_name.deep_view()
            &&& info.email == raw.email.deep_view()
            &&& info.email_verified == raw.verified
            &&& info.avatar_url == match raw.avatar {
                Some(a) => Some("https://cdn.discordapp.com/avatars/"@ + raw.id@ + "/"@ + a@ + ".png"@),
                None => None,
            }
            &&& info.groups == None::<Seq<Seq<char>>>
        }),
{
}

/// Facebook: the id, name and email are the response's; the avatar is the
/// picture's data URL where the response holds one at every level, and none
/// otherwise; there is no username, email verification or groups. It never
/// fails.
pub proof fn facebook_user_info(p: Facebook, raw: FacebookUserInfo)
    ensures
        p.spec_user_info(raw) is Ok,
        ({
            let info = p.spec_user_info(raw)->Ok_0;
            &&& info.id == raw.id@
            &&& info.name == raw.name.deep_view()
            &&& info.email == raw.email.deep_view()
            &&& info.username == None::<Seq<char>>
            &&& info.email_verified == None::<bool>
            &&& info.groups == None::<Seq<Seq<char>>>
            &&& info.avatar_url == match raw.picture {
                Some(pic) => match pic.data {
                    Some(data) => match data.url {
                        Some(u) => Some(u@),
                        None => None,
                    },
                    None => None,
                },
                None => None,
            }
        }),
{
}

/// Twitch: with no user in the response, the error is the custom `serde_json`
/// error "missing Twitch user info"; otherwise the first user's id, email and
/// profile image are taken as they are, its login as username and its display
/// name as name.
pub proof fn twitch_user_info(p: Twitch, raw: TwitchUsers)
    ensures
        raw.data@.len() == 0 ==> p.spec_user_info(raw) == Err::<UserInfoView, serde_json::Error>(
            custom_json_error("missing Twitch user info"@),
        ),
        raw.data@.len() > 0 ==> {
            &&& p.spec_user_info(raw) is Ok
            &&& ({
                let info = p.spec_user_info(raw)->Ok_0;
                let user = raw.data@[0];
                &&& info.id == user.id@
                &&& info.username == Some(user.login@)
                &&& info.name == user.display_name.deep_view()
                &&& info.email == user.email.deep_view()
                &&& info.avatar_url == user.profile_image_url.deep_view()
                &&& info.email_verified == None::<bool>
                &&& info.groups == None::<Seq<Seq<char>>>
            })
        },
{
}

} // verus!
