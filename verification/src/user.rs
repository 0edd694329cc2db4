//! A user's record, shared by all communities.

use vstd::prelude::*;

verus! {

/// The store's answer to a request for a user.
#[derive(Clone, Debug, PartialEq, Eq)]
pub struct UserResponse {
    pub success: bool,
    pub message: String,
    pub content: Option<User>,
}

/// A user's record.
#[derive(Clone, Debug, PartialEq, Eq)]
pub struct User {
    pub badges: Vec<String>,
    pub titles: Vec<String>,
    pub settings: UserSettings,
    pub timestamps: UserTimestamps,
}

/// When the user last acted, in milliseconds since the epoch. `join_voicechat`
/// is the open voice session, if there is one.
#[derive(Clone, Copy, Debug, PartialEq, Eq)]
pub struct UserTimestamps {
    pub message_cooldown: Option<u64>,
    pub join_voicechat: Option<u64>,
    pub game_trivia: Option<u64>,
    pub game_daily: Option<u64>,
    pub game_fish: Option<u64>,
    pub game_loot: Option<u64>,
    pub game_roll: Option<u64>,
}

/// The user's own settings.
#[derive(Clone, Debug, PartialEq, Eq)]
pub struct UserSettings {
    pub background: UserSettingsBackground,
    pub language: String,
}

/// How the user's rank card is drawn.
#[derive(Clone, Copy, Debug, PartialEq, Eq)]
pub struct UserSettingsBackground {
    pub bg: Option<i32>,
    pub blur: Option<i32>,
    pub custom: bool,
    pub canvas: bool,
}

/// The store's answer on a user's premium state.
#[derive(Clone, Debug, PartialEq, Eq)]
pub struct UserPremiumResponse {
    pub success: bool,
    pub message: String,
    pub content: Option<UserPremium>,
}

/// A user's premium state.
#[allow(non_snake_case)]
#[derive(Clone, Debug, PartialEq, Eq)]
pub struct UserPremium {
    pub userPremium: bool,
    pub serverPremium: u32,
    pub servers: Vec<String>,
    pub voteFreeCount: u32,
    pub voteFreeServers: Vec<String>,
}

impl UserResponse {
    /// The record that the answer carries, if the store reported success.
    pub fn into_content(self) -> (content: Option<User>)
        ensures
            content == (if self.success {
                self.content
            } else {
                None
            }),
    {
        if self.success {
            self.content
        } else {
            None
        }
    }
}

impl UserPremiumResponse {
    /// Whether the user has premium, if the store reported success.
    pub fn is_premium(&self) -> (premium: Option<bool>)
        ensures
            premium == (if self.success && self.content is Some {
                Some(self.content->0.userPremium)
            } else {
                None
            }),
    {
        if self.success {
            match &self.content {
                Some(state) => Some(state.userPremium),
                None => None,
            }
        } else {
            None
        }
    }
}

} // verus!
