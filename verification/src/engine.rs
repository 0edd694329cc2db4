//! The orchestrator's core: an award of XP, the levels before and after
//! it, and what follows from a rise.

use vstd::prelude::*;
use crate::guild::Guild;
use crate::guild_member::{GuildMember, GuildMemberTimestamps};
use crate::math::{calculate_level, level_from_xp, lemma_level_monotonic};
use crate::roles::{handle_level_roles, roles_to_add, roles_to_remove, RolePlan};

verus! {

/// What a member did to earn XP.
#[derive(Clone, Copy, Debug, PartialEq, Eq)]
pub enum ActivitySource {
    Message,
    Reaction,
    Voice,
    Roll,
    Fish,
    Loot,
    Daily,
    Trivia,
    Party,
}

/// XP was awarded: how much, for what, and the member's total after it.
#[derive(Clone, Copy, Debug, PartialEq, Eq)]
pub struct XpAwarded {
    pub source: ActivitySource,
    pub amount: u64,
    pub total: u64,
}

/// The member's level changed.
#[derive(Clone, Copy, Debug, PartialEq, Eq)]
pub struct LevelChanged {
    pub before: i32,
    pub after: i32,
}

/// A streak was broken and begins again at one.
#[derive(Clone, Copy, Debug, PartialEq, Eq)]
pub struct StreakReset {
    pub old_streak: u64,
}

/// What an award led to.
#[derive(Clone, Debug, PartialEq, Eq)]
pub struct AwardOutcome {
    pub awarded: XpAwarded,
    pub before_level: i32,
    pub after_level: i32,
    /// The rise in level, where there was one.
    pub level_changed: Option<LevelChanged>,
    /// The role operations that the rise asks for.
    pub roles: Option<RolePlan>,
    /// Whether the rise is to be announced: not for a member who is incognito.
    pub announce: bool,
}

/// A member's XP after an award, held to what the record can store.
pub open spec fn xp_after_award(xp: int, amount: int) -> int {
    if xp + amount > u64::MAX {
        u64::MAX as int
    } else {
        xp + amount
    }
}

/// A member's XP after a deduction, which never takes it under zero.
pub open spec fn xp_after_removal(xp: int, amount: int) -> int {
    if amount > xp {
        0
    } else {
        xp - amount
    }
}

/// The member's timestamps once an activity of `source` has earned at `now`:
/// the source's own timestamp is set, a source without one changes nothing.
pub open spec fn stamped(
    timestamps: GuildMemberTimestamps,
    source: ActivitySource,
    now: u64,
) -> GuildMemberTimestamps {
    match source {
        ActivitySource::Message => GuildMemberTimestamps {
            message_cooldown: Some(now),
            ..timestamps
        },
        ActivitySource::Roll => GuildMemberTimestamps { game_roll: Some(now), ..timestamps },
        ActivitySource::Fish => GuildMemberTimestamps { game_fish: Some(now), ..timestamps },
        ActivitySource::Loot => GuildMemberTimestamps { game_loot: Some(now), ..timestamps },
        ActivitySource::Daily => GuildMemberTimestamps { game_daily: Some(now), ..timestamps },
        ActivitySource::Trivia => GuildMemberTimestamps { game_trivia: Some(now), ..timestamps },
        ActivitySource::Reaction | ActivitySource::Voice | ActivitySource::Party => timestamps,
    }
}

/// A member's record after an award of `amount` for an activity of `source`
/// at `now`: the XP is added, the source's timestamp set, the rest kept.
pub open spec fn member_after_award(
    member: GuildMember,
    amount: u64,
    source: ActivitySource,
    now: u64,
) -> GuildMember {
    GuildMember {
        xp: xp_after_award(member.xp as int, amount as int) as u64,
        timestamps: stamped(member.timestamps, source, now),
        ..member
    }
}

/// Whether an outcome is the one that an award of `amount` to a member with
/// `xp` and the given incognito setting has in `guild`.
pub open spec fn award_outcome_of(
    outcome: AwardOutcome,
    guild: Guild,
    xp: u64,
    incognito: bool,
    amount: u64,
    source: ActivitySource,
) -> bool {
    let total = xp_after_award(xp as int, amount as int);
    let before = level_from_xp(xp as int);
    let after = level_from_xp(total);
    &&& outcome.awarded == (XpAwarded { source, amount, total: total as u64 })
    &&& outcome.before_level == before
    &&& outcome.after_level == after
    &&& outcome.level_changed == (if after > before {
        Some(LevelChanged { before: before as i32, after: after as i32 })
    } else {
        None
    })
    &&& outcome.roles is Some <==> after > before
    &&& after > before ==> outcome.roles->0.remove@ == roles_to_remove(guild, after)
        && outcome.roles->0.add@ == roles_to_add(guild, after)
    &&& outcome.announce == (after > before && !incognito)
}

/// Awarding XP never lowers the level.
pub proof fn lemma_award_keeps_level(xp: int, amount: int)
    requires
        0 <= xp <= u64::MAX,
        0 <= amount,
    ensures
        level_from_xp(xp) <= level_from_xp(xp_after_award(xp, amount)),
{
    lemma_level_monotonic(xp, xp_after_award(xp, amount));
}

/// The member's XP after an award.
pub fn add_xp(xp: u64, amount: u64) -> (total: u64)
    ensures
        total == xp_after_award(xp as int, amount as int),
{
    match xp.checked_add(amount) {
        Some(total) => total,
        None => u64::MAX,
    }
}

/// The member's XP after a deduction.
pub fn remove_xp(xp: u64, amount: u64) -> (total: u64)
    ensures
        total == xp_after_removal(xp as int, amount as int),
{
    if amount > xp {
        0
    } else {
        xp - amount
    }
}

/// Sets the timestamp that belongs to `source`.
pub fn stamp(timestamps: &mut GuildMemberTimestamps, source: ActivitySource, now: u64)
    ensures
        *final(timestamps) == stamped(*old(timestamps), source, now),
{
    match source {
        ActivitySource::Message => {
            timestamps.message_cooldown = Some(now);
        },
        ActivitySource::Roll => {
            timestamps.game_roll = Some(now);
        },
        ActivitySource::Fish => {
            timestamps.game_fish = Some(now);
        },
        ActivitySource::Loot => {
            timestamps.game_loot = Some(now);
        },
        ActivitySource::Daily => {
            timestamps.game_daily = Some(now);
        },
        ActivitySource::Trivia => {
            timestamps.game_trivia = Some(now);
        },
        ActivitySource::Reaction => {},
        ActivitySource::Voice => {},
        ActivitySource::Party => {},
    }
}

/// Awards `amount` XP to a member for an activity at `now`: adds it to the
/// record, sets the activity's timestamp, and says which levels the member
/// had before and has after, which role operations a rise asks for, and
/// whether the rise is to be announced.
pub fn award_xp(
    guild: &Guild,
    member: &mut GuildMember,
    amount: u64,
    source: ActivitySource,
    now: u64,
) -> (outcome: AwardOutcome)
    ensures
        *final(member) == member_after_award(*old(member), amount, source, now),
        award_outcome_of(
            outcome,
            *guild,
            old(member).xp,
            old(member).settings.incognito == Some(true),
            amount,
            source,
        ),
{
    let before = calculate_level(&member.xp);
    let total = add_xp(member.xp, amount);
    let after = calculate_level(&total);
    let incognito = member.is_incognito();
    member.xp = total;
    stamp(&mut member.timestamps, source, now);
    let rose = after > before;
    let (level_changed, roles) = if rose {
        (Some(LevelChanged { before, after }), Some(handle_level_roles(guild, after)))
    } else {
        (None, None)
    };
    AwardOutcome {
        awarded: XpAwarded { source, amount, total },
        before_level: before,
        after_level: after,
        level_changed,
        roles,
        announce: rose && !incognito,
    }
}

} // verus!
