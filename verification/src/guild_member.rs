//! A member's record in one community.

use vstd::prelude::*;

verus! {

/// The store's answer to a request for a member.
#[derive(Clone, Debug, PartialEq, Eq)]
pub struct GuildMemberResponse {
    pub success: bool,
    pub message: String,
    pub content: Option<GuildMember>,
}

/// A member's record.
#[allow(non_snake_case)]
#[derive(Clone, Debug, PartialEq, Eq)]
pub struct GuildMember {
    pub xp: u64,
    pub userData: GuildMemberData,
    pub settings: GuildMemberSettings,
    pub timestamps: GuildMemberTimestamps,
    pub streaks: GuildMemberStreaks,
}

/// What the platform last said of the member's profile.
#[derive(Clone, Debug, PartialEq, Eq)]
pub struct GuildMemberData {
    pub username: Option<String>,
    pub avatar: Option<String>,
    pub banner: Option<String>,
}

/// The member's own switches.
#[derive(Clone, Copy, Debug, PartialEq, Eq)]
pub struct GuildMemberSettings {
    pub incognito: Option<bool>,
    pub ranking: Option<bool>,
}

/// When the member last earned from each source, in milliseconds since the epoch.
#[derive(Clone, Copy, Debug, PartialEq, Eq)]
pub struct GuildMemberTimestamps {
    pub message_cooldown: Option<u64>,
    pub game_trivia: Option<u64>,
    pub game_daily: Option<u64>,
    pub game_fish: Option<u64>,
    pub game_loot: Option<u64>,
    pub game_roll: Option<u64>,
}

/// The member's runs of daily claims and of right answers.
#[derive(Clone, Copy, Debug, PartialEq, Eq)]
pub struct GuildMemberStreaks {
    pub game_daily: Option<u64>,
    pub game_trivia: Option<u64>,
    pub daily: Option<u64>,
}

/// What is sent to the store to set a member's XP.
#[allow(non_snake_case)]
#[derive(Clone, Debug, PartialEq, Eq)]
pub struct XPPostBody {
    pub xp: u64,
    pub userData: GuildMemberData,
}

impl GuildMemberResponse {
    /// The record that the answer carries, if the store reported success.
    pub fn into_content(self) -> (content: Option<GuildMember>)
        ensures
            content == (if self.success {
                self.content
            } else {
                None
            }),
    {
        if self.success {
            self.content
        } else {
            None
        }
    }
}

/// The text of a profile entry, empty where the platform has none.
pub open spec fn entry_text(entry: Option<String>) -> Seq<char> {
    match entry {
        Some(text) => text@,
        None => Seq::empty(),
    }
}

/// Whether `data` holds the given name, avatar and banner.
pub open spec fn profile_is(
    data: GuildMemberData,
    username: Seq<char>,
    avatar: Seq<char>,
    banner: Seq<char>,
) -> bool {
    &&& data.username is Some && data.username->0@ == username
    &&& data.avatar is Some && data.avatar->0@ == avatar
    &&& data.banner is Some && data.banner->0@ == banner
}

fn clone_entry(entry: &Option<String>) -> (copy: Option<String>)
    ensures
        copy == *entry,
{
    match entry {
        Some(text) => Some(text.clone()),
        None => None,
    }
}

fn entry_or_empty(entry: Option<String>) -> (text: String)
    ensures
        text@ == entry_text(entry),
{
    match entry {
        Some(text) => text,
        None => String::new(),
    }
}

/// Brings a member's profile up to what the platform says now: the name,
/// and the avatar and the banner, each empty where the platform has none.
pub fn conform_xpc(
    member: &mut GuildMember,
    username: String,
    avatar: Option<String>,
    banner: Option<String>,
)
    ensures
        profile_is(final(member).userData, username@, entry_text(avatar), entry_text(banner)),
        final(member).xp == old(member).xp,
        final(member).settings == old(member).settings,
        final(member).timestamps == old(member).timestamps,
        final(member).streaks == old(member).streaks,
{
    member.userData.username = Some(username);
    member.userData.avatar = Some(entry_or_empty(avatar));
    member.userData.banner = Some(entry_or_empty(banner));
}

impl GuildMember {
    /// What is sent to the store to set the member's XP to `xp`: the XP and
    /// the member's profile as it is.
    pub fn set_xp(xp: u64, guild_member: &GuildMember) -> (body: XPPostBody)
        ensures
            body.xp == xp,
            body.userData == guild_member.userData,
    {
        XPPostBody {
            xp,
            userData: GuildMemberData {
                username: clone_entry(&guild_member.userData.username),
                avatar: clone_entry(&guild_member.userData.avatar),
                banner: clone_entry(&guild_member.userData.banner),
            },
        }
    }

    /// Whether the member asked not to be announced.
    pub fn is_incognito(&self) -> (hidden: bool)
        ensures
            hidden == (self.settings.incognito == Some(true)),
    {
        match self.settings.incognito {
            Some(flag) => flag,
            None => false,
        }
    }
}

} // verus!
