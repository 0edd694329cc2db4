//! A community's configuration as the data store hands it out.

use vstd::prelude::*;

verus! {

/// The store's answer to a request for a community.
#[derive(Clone, Debug, PartialEq, Eq)]
pub struct GuildResponse {
    pub success: bool,
    pub message: String,
    pub content: Option<Guild>,
}

/// A community's configuration.
#[derive(Clone, Debug, PartialEq, Eq)]
pub struct Guild {
    pub values: GuildValues,
    pub modules: GuildModules,
    pub ignored: GuildIgnores,
    pub boosts: GuildBoosts,
    pub levelroles: Vec<GuildLevelRoles>,
    pub announce: GuildAnnounce,
    pub logs: GuildLogs,
}

/// XP amounts, in points, and cooldowns, in seconds.
#[allow(non_snake_case)]
#[derive(Clone, Copy, Debug, PartialEq, Eq)]
pub struct GuildValues {
    pub reactionxp: i64,
    pub fishXP: i64,
    pub lootXP: i64,
    pub messagecooldown: i64,
    pub messagexp: i64,
    pub rollXP: i64,
    pub voicejoincooldown: i64,
    pub voicexp: i64,
    pub gamecooldown: i64,
    pub maximumdailyxp: i64,
    pub triviacooldown: i64,
    pub triviaxp: i64,
    pub maximumlevel: i64,
}

/// Feature switches.
#[derive(Clone, Copy, Debug, PartialEq, Eq)]
pub struct GuildModules {
    pub reactionxp: bool,
    pub maximumlevel: bool,
    pub autonick: bool,
    pub games: bool,
    pub messagexp: bool,
    pub resetonleave: bool,
    pub voicexp: bool,
    pub enablecommandsinthreads: bool,
    pub autonickshowstring: bool,
    pub autonickuseprefix: bool,
    pub trivia: bool,
    pub leaderboard: bool,
    pub removereachedlevelroles: bool,
    pub singlerankrole: bool,
    pub ignoreafk: bool,
}

/// Channels that reports go to.
#[derive(Clone, Debug, PartialEq, Eq)]
pub struct GuildLogs {
    pub voicetime: Option<String>,
    pub levelup: Option<String>,
    pub exceptions: Option<String>,
}

/// Roles, channels and categories that earn no XP.
#[derive(Clone, Debug, PartialEq, Eq)]
pub struct GuildIgnores {
    pub roles: Vec<String>,
    pub channels: Option<Vec<String>>,
    pub categories: Option<Vec<String>>,
}

/// Boosts by role, channel and category.
#[derive(Clone, Debug, PartialEq, Eq)]
pub struct GuildBoosts {
    pub roles: Vec<GuildBoostObject>,
    pub channels: Vec<GuildBoostObject>,
    pub categories: Option<Vec<GuildBoostObject>>,
}

/// One boost: who has it, and how many percent it adds.
#[derive(Clone, Debug, PartialEq, Eq)]
pub struct GuildBoostObject {
    pub id: String,
    pub percentage: i64,
}

/// A role and the level that earns it. Level -1 marks the autorole, given
/// once when a member joins.
#[derive(Clone, Debug, PartialEq, Eq)]
pub struct GuildLevelRoles {
    pub id: String,
    pub level: i32,
}

/// How a level-up is announced.
#[derive(Clone, Debug, PartialEq, Eq)]
pub struct GuildAnnounce {
    pub current: bool,
    pub message: String,
    pub ping: bool,
}

/// The store's answer on a community's premium state.
#[allow(non_snake_case)]
#[derive(Clone, Copy, Debug, PartialEq, Eq)]
pub struct GuildPremiumResponse {
    pub premium: bool,
    pub voteFree: bool,
}

/// The level that marks the autorole.
pub const AUTOROLE_LEVEL: i32 = -1;

impl GuildResponse {
    /// The configuration that the answer carries, if the store reported success.
    pub fn into_content(self) -> (content: Option<Guild>)
        ensures
            content == (if self.success {
                self.content
            } else {
                None
            }),
    {
        if self.success {
            self.content
        } else {
            None
        }
    }
}

} // verus!
