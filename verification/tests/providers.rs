use simple_oauth::common::{
    Discord, DiscordUserInfo, Facebook, FacebookPicture, FacebookPictureData, FacebookUserInfo,
    GitHub, GitHubUserInfo, GitLab, Google, Microsoft, Oidc, Twitch, TwitchUserInfo, TwitchUsers,
};
use simple_oauth::text::decimal_string;
use simple_oauth::types::{OAuthCredentials, OidcDiscovery, OidcUserInfo, TokenAuthMethod};
use simple_oauth::{SimpleOAuthProvider, UserInfoProvider};
use std::sync::Arc;

fn creds() -> OAuthCredentials {
    OAuthCredentials::new("client-id", "client-secret")
}

fn oidc_raw() -> OidcUserInfo {
    OidcUserInfo {
        sub: "sub-1".to_string(),
        name: Some("Jane Doe".to_string()),
        preferred_username: Some("jane".to_string()),
        email: Some("jane@example.com".to_string()),
        email_verified: Some(true),
        picture: Some("https://example.com/p.png".to_string()),
        groups: Some(vec!["admins".to_string(), "devs".to_string()]),
    }
}

#[test]
fn github_endpoints_and_headers() {
    let p = GitHub;
    assert_eq!(p.authorize_url(), "https://github.com/login/oauth/authorize");
    assert_eq!(p.token_url(), "https://github.com/login/oauth/access_token");
    assert_eq!(p.revoke_url(), None);
    assert_eq!(p.default_scopes(), &["read:user"]);
    assert_eq!(p.token_auth_method(), TokenAuthMethod::BasicAuth);
    assert_eq!(p.user_info_url(), "https://api.github.com/user");
    assert_eq!(
        p.user_info_headers(&creds()),
        vec![
            ("Accept".to_string(), "application/vnd.github+json".to_string()),
            ("User-Agent".to_string(), "fa-sharp/simple-oauth".to_string()),
        ]
    );
}

#[test]
fn github_user_info_uses_decimal_id_and_login() {
    let raw = GitHubUserInfo {
        id: 583231,
        login: "octocat".to_string(),
        name: Some("The Octocat".to_string()),
        email: None,
        avatar_url: Some("https://avatars.githubusercontent.com/u/583231".to_string()),
    };
    let info = GitHub.extract_user_info(raw).unwrap();
    assert_eq!(info.id, "583231");
    assert_eq!(info.username.as_deref(), Some("octocat"));
    assert_eq!(info.name.as_deref(), Some("The Octocat"));
    assert_eq!(info.email, None);
    assert_eq!(info.email_verified, None);
    assert_eq!(info.avatar_url.as_deref(), Some("https://avatars.githubusercontent.com/u/583231"));
    assert_eq!(info.groups, None);
}

#[test]
fn decimal_string_matches_to_string() {
    for n in [0u64, 7, 9, 10, 11, 99, 100, 583231, 1_000_000_007, u64::MAX - 1, u64::MAX] {
        assert_eq!(decimal_string(n), n.to_string());
    }
}

#[test]
fn discord_endpoints() {
    let p = Discord;
    assert_eq!(p.authorize_url(), "https://discord.com/oauth2/authorize");
    assert_eq!(p.token_url(), "https://discord.com/api/oauth2/token");
    assert_eq!(p.default_scopes(), &["identify"]);
    assert_eq!(p.revoke_url(), None);
    assert_eq!(p.token_auth_method(), TokenAuthMethod::BasicAuth);
    assert_eq!(p.user_info_url(), "https://discord.com/api/v9/users/@me");
    assert!(p.user_info_headers(&creds()).is_empty());
}

#[test]
fn discord_user_info_builds_avatar_url() {
    let raw = DiscordUserInfo {
        id: "80351110224678912".to_string(),
        username: "nelly".to_string(),
        global_name: Some("Nelly".to_string()),
        email: Some("nelly@discord.com".to_string()),
        verified: Some(true),
        avatar: Some("8342729096ea3675442027381ff50dfe".to_string()),
    };
    let info = Discord.extract_user_info(raw).unwrap();
    assert_eq!(info.id, "80351110224678912");
    assert_eq!(info.username.as_deref(), Some("nelly"));
    assert_eq!(info.name.as_deref(), Some("Nelly"));
    assert_eq!(info.email.as_deref(), Some("nelly@discord.com"));
    assert_eq!(info.email_verified, Some(true));
    assert_eq!(
        info.avatar_url.as_deref(),
        Some("https://cdn.discordapp.com/avatars/80351110224678912/8342729096ea3675442027381ff50dfe.png")
    );
    assert_eq!(info.groups, None);
}

#[test]
fn discord_user_info_without_avatar() {
    let raw = DiscordUserInfo {
        id: "1".to_string(),
        username: "u".to_string(),
        global_name: None,
        email: None,
        verified: None,
        avatar: None,
    };
    let info = Discord.extract_user_info(raw).unwrap();
    assert_eq!(info.avatar_url, None);
    assert_eq!(info.name, None);
}

#[test]
fn facebook_endpoints() {
    let p = Facebook;
    assert_eq!(p.authorize_url(), "https://www.facebook.com/dialog/oauth");
    assert_eq!(p.token_url(), "https://graph.facebook.com/oauth/access_token");
    assert_eq!(p.default_scopes(), &["public_profile"]);
    assert_eq!(p.token_auth_method(), TokenAuthMethod::RequestBody);
    assert_eq!(p.revoke_url(), None);
    assert_eq!(p.user_info_url(), "https://graph.facebook.com/me?fields=id,name,email,picture");
}

#[test]
fn facebook_user_info_reads_nested_picture() {
    let raw = FacebookUserInfo {
        id: "10".to_string(),
        name: Some("Mark".to_string()),
        email: Some("m@fb.com".to_string()),
        picture: Some(FacebookPicture {
            data: Some(FacebookPictureData { url: Some("https://fb.com/pic.jpg".to_string()) }),
        }),
    };
    let info = Facebook.extract_user_info(raw).unwrap();
    assert_eq!(info.id, "10");
    assert_eq!(info.avatar_url.as_deref(), Some("https://fb.com/pic.jpg"));
    assert_eq!(info.username, None);
    assert_eq!(info.email_verified, None);

    let raw = FacebookUserInfo {
        id: "11".to_string(),
        name: None,
        email: None,
        picture: Some(FacebookPicture { data: None }),
    };
    assert_eq!(Facebook.extract_user_info(raw).unwrap().avatar_url, None);
}

#[test]
fn oidc_style_providers() {
    assert_eq!(GitLab.authorize_url(), "https://gitlab.com/oauth/authorize");
    assert_eq!(GitLab.token_url(), "https://gitlab.com/oauth/token");
    assert_eq!(GitLab.user_info_url(), "https://gitlab.com/oauth/userinfo");
    assert_eq!(GitLab.default_scopes(), &["openid", "profile"]);
    assert_eq!(Google.authorize_url(), "https://accounts.google.com/o/oauth2/v2/auth");
    assert_eq!(Google.token_url(), "https://oauth2.googleapis.com/token");
    assert_eq!(Google.user_info_url(), "https://openidconnect.googleapis.com/v1/userinfo");
    assert_eq!(Google.token_auth_method(), TokenAuthMethod::BasicAuth);
    assert_eq!(
        Microsoft.authorize_url(),
        "https://login.microsoftonline.com/common/oauth2/v2.0/authorize"
    );
    assert_eq!(Microsoft.token_url(), "https://login.microsoftonline.com/common/oauth2/v2.0/token");
    assert_eq!(Microsoft.user_info_url(), "https://graph.microsoft.com/oidc/userinfo");
    assert_eq!(Microsoft.token_auth_method(), TokenAuthMethod::RequestBody);
}

#[test]
fn oidc_user_info_groups_kept_only_where_the_provider_reads_them() {
    let gitlab = GitLab.extract_user_info(oidc_raw()).unwrap();
    assert_eq!(gitlab.id, "sub-1");
    assert_eq!(gitlab.username.as_deref(), Some("jane"));
    assert_eq!(gitlab.email_verified, Some(true));
    assert_eq!(gitlab.avatar_url.as_deref(), Some("https://example.com/p.png"));
    assert_eq!(gitlab.groups, Some(vec!["admins".to_string(), "devs".to_string()]));
    let ms = Microsoft.extract_user_info(oidc_raw()).unwrap();
    assert_eq!(ms.groups, Some(vec!["admins".to_string(), "devs".to_string()]));
    let google = Google.extract_user_info(oidc_raw()).unwrap();
    assert_eq!(google.groups, None);
    assert_eq!(google.name.as_deref(), Some("Jane Doe"));
}

#[test]
fn oidc_from_config_uses_discovered_endpoints() {
    let config = OidcDiscovery {
        issuer: "https://id.example.com".to_string(),
        authorization_endpoint: "https://id.example.com/auth".to_string(),
        token_endpoint: "https://id.example.com/token".to_string(),
        userinfo_endpoint: "https://id.example.com/userinfo".to_string(),
        revocation_endpoint: Some("https://id.example.com/revoke".to_string()),
    };
    let oidc = Oidc::from_config(config);
    assert_eq!(oidc.authorize_url(), "https://id.example.com/auth");
    assert_eq!(oidc.token_url(), "https://id.example.com/token");
    assert_eq!(oidc.user_info_url(), "https://id.example.com/userinfo");
    assert_eq!(oidc.revoke_url(), None);
    assert_eq!(oidc.default_scopes(), &["openid", "profile"]);
    let info = oidc.extract_user_info(oidc_raw()).unwrap();
    assert_eq!(info.id, "sub-1");
    assert_eq!(info.groups, None);
}

#[test]
fn twitch_endpoints_and_client_id_header() {
    let p = Twitch;
    assert_eq!(p.authorize_url(), "https://id.twitch.tv/oauth2/authorize");
    assert_eq!(p.token_url(), "https://id.twitch.tv/oauth2/token");
    assert_eq!(p.revoke_url(), Some("https://id.twitch.tv/oauth2/revoke"));
    assert_eq!(p.token_auth_method(), TokenAuthMethod::RequestBody);
    assert!(p.default_scopes().is_empty());
    assert_eq!(p.user_info_url(), "https://api.twitch.tv/helix/users");
    assert_eq!(
        p.user_info_headers(&creds()),
        vec![("Client-Id".to_string(), "client-id".to_string())]
    );
}

#[test]
fn twitch_user_info_takes_first_user() {
    let user = |id: &str| TwitchUserInfo {
        id: id.to_string(),
        login: format!("login{id}"),
        display_name: Some(format!("Name {id}")),
        email: None,
        profile_image_url: Some("https://twitch.tv/img.png".to_string()),
    };
    let raw = TwitchUsers { data: vec![user("1"), user("2")] };
    let info = Twitch.extract_user_info(raw).unwrap();
    assert_eq!(info.id, "1");
    assert_eq!(info.username.as_deref(), Some("login1"));
    assert_eq!(info.name.as_deref(), Some("Name 1"));
    assert_eq!(info.avatar_url.as_deref(), Some("https://twitch.tv/img.png"));
}

#[test]
fn twitch_user_info_without_user_is_an_error() {
    let err = Twitch.extract_user_info(TwitchUsers { data: vec![] }).unwrap_err();
    assert_eq!(err.to_string(), "missing Twitch user info");
}

#[test]
fn boxed_and_shared_providers_forward() {
    let boxed = Box::new(Twitch);
    assert_eq!(boxed.revoke_url(), Some("https://id.twitch.tv/oauth2/revoke"));
    assert_eq!(boxed.user_info_url(), "https://api.twitch.tv/helix/users");
    let shared = Arc::new(GitHub);
    assert_eq!(shared.authorize_url(), "https://github.com/login/oauth/authorize");
    assert_eq!(shared.default_scopes(), &["read:user"]);
    assert_eq!(shared.user_info_headers(&creds()).len(), 2);
}

#[test]
fn credentials_from_pairs_equal_new() {
    let a = OAuthCredentials::new("id", "secret");
    let b = OAuthCredentials::from(("id", "secret"));
    let c = OAuthCredentials::from(("id".to_string(), "secret".to_string()));
    for x in [&b, &c] {
        assert_eq!(x.client_id, a.client_id);
        assert_eq!(x.client_secret, a.client_secret);
    }
    assert_eq!(a.client_id, "id");
    assert_eq!(a.client_secret, "secret");
}
