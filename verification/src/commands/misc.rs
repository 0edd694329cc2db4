//! The commands that show a member where they stand.

use vstd::prelude::*;
use crate::engine::{add_xp, xp_after_award};
use crate::guild::Guild;
use crate::guild_member::{GuildMember, GuildMemberSettings};
use crate::duration::{elapsed_seconds, is_split_of, seconds_between, split_seconds, VoiceTime};
use crate::handler::{channel_ignored, is_channel_ignored, voice_session_xp, ActivityContext};
use crate::boosts::{calculate_total_boost_percentage, total_boost_percentage};
use crate::math::{
    billable_seconds, calculate_level, lemma_voice_clamp_is_unseen, level_from_xp, required_xp,
    round_half_away, try_required_xp, voice_xp_between,
};
use crate::text::same_text;
use crate::user::User;

verus! {

/// The `/about` command.
#[derive(Clone, Copy, Debug, PartialEq, Eq)]
pub struct AboutCommand;

/// The `/distance` command.
#[derive(Clone, Copy, Debug, PartialEq, Eq)]
pub struct DistanceCommand;

/// The `/incognito` command.
#[derive(Clone, Copy, Debug, PartialEq, Eq)]
pub struct IncognitoCommand;

/// The `/leaderboard` command.
#[derive(Clone, Copy, Debug, PartialEq, Eq)]
pub struct LeaderboardCommand;

/// The `/level` command.
#[derive(Clone, Copy, Debug, PartialEq, Eq)]
pub struct LevelCommand;

/// The `/rank` command.
#[derive(Clone, Copy, Debug, PartialEq, Eq)]
pub struct RankCommand;

/// The `/settings` command.
#[derive(Clone, Copy, Debug, PartialEq, Eq)]
pub struct SettingsCommand;

/// The `/voicetime` command.
#[derive(Clone, Copy, Debug, PartialEq, Eq)]
pub struct VoicetimeCommand;

/// The parts of a community's settings that the `/settings` command shows.
#[derive(Clone, Copy, Debug, PartialEq, Eq)]
pub enum SettingsSection {
    Modules,
    Values,
    Roles,
    Boosts,
    Ignores,
}

/// How far two members are apart in XP.
#[derive(Clone, Copy, Debug, PartialEq, Eq)]
pub enum Distance {
    /// The member who asked has `by` XP more.
    Ahead { by: u64 },
    /// The member who asked has `by` XP less, or as much.
    Behind { by: u64 },
}

/// What a level takes and how far a member has come towards it.
#[derive(Clone, Copy, Debug, PartialEq, Eq)]
pub struct LevelInfo {
    /// The XP that the level takes.
    pub required_xp: u64,
    /// The XP that the member still needs, where any is needed.
    pub missing: Option<u64>,
    /// The member's XP in percent of what the level takes, rounded to the
    /// nearest whole; none for a level that takes nothing.
    pub percent: Option<u128>,
}

/// What the `/voicetime` command has to say of a member.
#[derive(Clone, Copy, Debug, PartialEq, Eq)]
pub enum VoicetimeReport {
    /// The member has no voice session on record.
    NeverJoined,
    /// The member is in no voice channel.
    NotInVoice,
    /// The member's voice channel is exempt from XP.
    Ignored,
    /// The session so far: how long it has run, what it would earn if it
    /// ended now, and the levels before and after that.
    Running { time: VoiceTime, xp: u32, current_level: i32, new_level: i32 },
}

/// The part of the settings that a choice of the `/settings` command names.
pub open spec fn settings_section(choice: Seq<char>) -> Option<SettingsSection> {
    if choice == "modules"@ {
        Some(SettingsSection::Modules)
    } else if choice == "values"@ {
        Some(SettingsSection::Values)
    } else if choice == "roles"@ {
        Some(SettingsSection::Roles)
    } else if choice == "boosts"@ {
        Some(SettingsSection::Boosts)
    } else if choice == "ignores"@ {
        Some(SettingsSection::Ignores)
    } else {
        None
    }
}

/// The distance between two members, seen from the one with `own_xp`.
pub open spec fn distance_between(own_xp: u64, other_xp: u64) -> Distance {
    if other_xp < own_xp {
        Distance::Ahead { by: (own_xp - other_xp) as u64 }
    } else {
        Distance::Behind { by: (other_xp - own_xp) as u64 }
    }
}

/// What `level` takes and how far a member with `xp` has come.
pub open spec fn level_info(xp: u64, level: i32) -> LevelInfo {
    let required = required_xp(level as int);
    LevelInfo {
        required_xp: required as u64,
        missing: if required > xp {
            Some((required - xp) as u64)
        } else {
            None
        },
        percent: if required > 0 {
            Some(round_half_away(xp * 100, required) as u128)
        } else {
            None
        },
    }
}

impl AboutCommand {
    /// The command's name.
    pub fn name(&self) -> (name: &'static str)
        ensures
            name@ == "about"@,
    {
        "about"
    }
}

impl LeaderboardCommand {
    /// The command's name.
    pub fn name(&self) -> (name: &'static str)
        ensures
            name@ == "leaderboard"@,
    {
        "leaderboard"
    }
}

impl DistanceCommand {
    /// The command's name.
    pub fn name(&self) -> (name: &'static str)
        ensures
            name@ == "distance"@,
    {
        "distance"
    }

    /// How far the member who asked is from another.
    pub fn exec(own_xp: u64, other_xp: u64) -> (distance: Distance)
        ensures
            distance == distance_between(own_xp, other_xp),
    {
        if other_xp < own_xp {
            Distance::Ahead { by: own_xp - other_xp }
        } else {
            Distance::Behind { by: other_xp - own_xp }
        }
    }
}

impl IncognitoCommand {
    /// The command's name.
    pub fn name(&self) -> (name: &'static str)
        ensures
            name@ == "incognito"@,
    {
        "incognito"
    }

    /// Switches the member's incognito mode on or off.
    pub fn exec(member: &mut GuildMember, enabled: bool)
        ensures
            *final(member) == (GuildMember {
                settings: GuildMemberSettings {
                    incognito: Some(enabled),
                    ..old(member).settings
                },
                ..*old(member)
            }),
    {
        member.settings.incognito = Some(enabled);
    }
}

impl LevelCommand {
    /// The command's name.
    pub fn name(&self) -> (name: &'static str)
        ensures
            name@ == "level"@,
    {
        "level"
    }

    /// What `level` takes and how far a member with `xp` has come. A level
    /// whose XP 64 bits cannot hold has no answer.
    pub fn exec(xp: u64, level: i32) -> (info: Option<LevelInfo>)
        ensures
            info is Some <==> required_xp(level as int) <= u64::MAX,
            info is Some ==> info->0 == level_info(xp, level),
    {
        match try_required_xp(level) {
            None => None,
            Some(required) => {
                let missing = if required > xp {
                    Some(required - xp)
                } else {
                    None
                };
                let percent = if required > 0 {
                    let scaled: u128 = 2 * ((xp as u128) * 100) + (required as u128);
                    Some(scaled / (2 * (required as u128)))
                } else {
                    None
                };
                Some(LevelInfo { required_xp: required, missing, percent })
            },
        }
    }
}

impl RankCommand {
    /// The command's name.
    pub fn name(&self) -> (name: &'static str)
        ensures
            name@ == "rank"@,
    {
        "rank"
    }

    /// Whether the member's rank card may be shown: not while the member is incognito.
    pub fn exec(member: &GuildMember) -> (shown: bool)
        ensures
            shown == (member.settings.incognito != Some(true)),
    {
        !member.is_incognito()
    }
}

impl SettingsCommand {
    /// The command's name.
    pub fn name(&self) -> (name: &'static str)
        ensures
            name@ == "settings"@,
    {
        "settings"
    }

    /// The part of the settings that was asked for.
    pub fn exec(choice: &str) -> (section: Option<SettingsSection>)
        ensures
            section == settings_section(choice@),
    {
        if same_text(choice, "modules") {
            Some(SettingsSection::Modules)
        } else if same_text(choice, "values") {
            Some(SettingsSection::Values)
        } else if same_text(choice, "roles") {
            Some(SettingsSection::Roles)
        } else if same_text(choice, "boosts") {
            Some(SettingsSection::Boosts)
        } else if same_text(choice, "ignores") {
            Some(SettingsSection::Ignores)
        } else {
            None
        }
    }
}

impl VoicetimeCommand {
    /// The command's name.
    pub fn name(&self) -> (name: &'static str)
        ensures
            name@ == "voicetime"@,
    {
        "voicetime"
    }

    /// Looks at a member's running voice session. `in_voice` tells whether
    /// the member is in a voice channel now; `context` names that channel.
    pub fn exec(
        guild: &Guild,
        user: &User,
        member: &GuildMember,
        in_voice: bool,
        context: &ActivityContext,
        now: u64,
    ) -> (report: VoicetimeReport)
        ensures
            user.timestamps.join_voicechat is None ==> report == VoicetimeReport::NeverJoined,
            user.timestamps.join_voicechat is Some && !in_voice ==> report
                == VoicetimeReport::NotInVoice,
            user.timestamps.join_voicechat is Some && in_voice && channel_ignored(
                guild.ignored,
                context.channel_id,
            ) ==> report == VoicetimeReport::Ignored,
            user.timestamps.join_voicechat is Some && in_voice && !channel_ignored(
                guild.ignored,
                context.channel_id,
            ) ==> {
                let join = user.timestamps.join_voicechat->0;
                let xp = voice_session_xp(*guild, *context, join, now);
                &&& report is Running
                &&& is_split_of(report->time, seconds_between(join, now))
                &&& report->xp == xp
                &&& report->current_level == level_from_xp(member.xp as int)
                &&& report->new_level == level_from_xp(xp_after_award(member.xp as int, xp))
            },
    {
        let join = match user.timestamps.join_voicechat {
            Some(at) => at,
            None => {
                return VoicetimeReport::NeverJoined;
            },
        };
        if !in_voice {
            return VoicetimeReport::NotInVoice;
        }
        if is_channel_ignored(&guild.ignored, context.channel_id) {
            return VoicetimeReport::Ignored;
        }
        let percentage = calculate_total_boost_percentage(
            guild,
            &context.role_ids,
            context.channel_id,
            context.category_id,
        );
        let xp = voice_xp_between(
            join as i128,
            now as i128,
            guild.values.voicexp,
            guild.values.voicejoincooldown,
            percentage,
        );
        proof {
            lemma_voice_clamp_is_unseen(
                guild.values.voicexp as int,
                billable_seconds(join as int, now as int, guild.values.voicejoincooldown as int),
                total_boost_percentage(
                    guild.boosts,
                    context.role_ids@,
                    context.channel_id,
                    context.category_id,
                ),
            );
        }
        let total = add_xp(member.xp, xp as u64);
        VoicetimeReport::Running {
            time: split_seconds(elapsed_seconds(join, now)),
            xp,
            current_level: calculate_level(&member.xp),
            new_level: calculate_level(&total),
        }
    }
}

} // verus!
