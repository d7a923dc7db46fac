//! Common OAuth providers

mod discord;
mod facebook;
mod github;
mod gitlab;
mod google;
mod microsoft;
mod oidc;
mod twitch;

pub use discord::{Discord, DiscordUserInfo};
pub use facebook::{Facebook, FacebookPicture, FacebookPictureData, FacebookUserInfo};
pub use github::{GitHub, GitHubUserInfo};
pub use gitlab::GitLab;
pub use google::Google;
pub use microsoft::Microsoft;
pub use oidc::Oidc;
pub use twitch::{Twitch, TwitchUserInfo, TwitchUsers};
