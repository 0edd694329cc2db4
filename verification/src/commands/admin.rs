//! The commands of a community's managers: they set a member's XP, level
//! or streak, and reconcile the member's roles with the new level.

use vstd::prelude::*;
use crate::engine::{add_xp, remove_xp, xp_after_award, xp_after_removal};
use crate::guild::Guild;
use crate::guild_member::{GuildMember, GuildMemberStreaks};
use crate::math::{calculate_level, level_from_xp, required_xp, try_required_xp};
use crate::roles::{handle_level_roles, roles_to_add, roles_to_remove, RolePlan};
use crate::text::same_text;

verus! {

/// The `/addxp` command.
#[derive(Clone, Copy, Debug, PartialEq, Eq)]
pub struct AddCommand;

/// The `/removexp` command.
#[derive(Clone, Copy, Debug, PartialEq, Eq)]
pub struct RemoveCommand;

/// The `/reset` command.
#[derive(Clone, Copy, Debug, PartialEq, Eq)]
pub struct ResetCommand;

/// The `/setxp` command.
#[derive(Clone, Copy, Debug, PartialEq, Eq)]
pub struct SetCommand;

/// The `/setlevel` command.
#[derive(Clone, Copy, Debug, PartialEq, Eq)]
pub struct SetLevelCommand;

/// The `/setstreak` command.
#[derive(Clone, Copy, Debug, PartialEq, Eq)]
pub struct SetStreakCommand;

/// What a change of a member's XP by a manager led to: the new XP, its
/// level, and the role operations for that level.
#[derive(Clone, Debug, PartialEq, Eq)]
pub struct AdminOutcome {
    pub xp: u64,
    pub level: i32,
    pub roles: RolePlan,
}

/// What a reset asks the manager to confirm.
#[derive(Clone, Copy, Debug, PartialEq, Eq)]
pub enum ResetModal {
    UserXp,
    CommunitySettings,
    CommunityXp,
}

/// Which streak a manager sets.
#[derive(Clone, Copy, Debug, PartialEq, Eq)]
pub enum StreakKind {
    Daily,
    Trivia,
}

/// Whether an outcome is the one of setting a member's XP to `xp` in `guild`.
pub open spec fn admin_outcome_of(outcome: AdminOutcome, guild: Guild, xp: u64) -> bool {
    &&& outcome.xp == xp
    &&& outcome.level == level_from_xp(xp as int)
    &&& outcome.roles.remove@ == roles_to_remove(guild, level_from_xp(xp as int))
    &&& outcome.roles.add@ == roles_to_add(guild, level_from_xp(xp as int))
}

/// The confirmation that a choice of the `/reset` command asks for.
pub open spec fn reset_modal(group: Seq<char>, choice: Seq<char>) -> Option<ResetModal> {
    if group == "user"@ && choice == "user"@ {
        Some(ResetModal::UserXp)
    } else if group == "community"@ && choice == "settings"@ {
        Some(ResetModal::CommunitySettings)
    } else if group == "community"@ && choice == "xp"@ {
        Some(ResetModal::CommunityXp)
    } else {
        None
    }
}

/// The streak that a name stands for.
pub open spec fn streak_kind(name: Seq<char>) -> Option<StreakKind> {
    if name == "daily"@ {
        Some(StreakKind::Daily)
    } else if name == "trivia"@ {
        Some(StreakKind::Trivia)
    } else {
        None
    }
}

/// A member's streaks after a manager set one of them.
pub open spec fn streaks_after_set(
    streaks: GuildMemberStreaks,
    kind: Option<StreakKind>,
    streak: u64,
) -> GuildMemberStreaks {
    match kind {
        Some(StreakKind::Daily) => GuildMemberStreaks { game_daily: Some(streak), ..streaks },
        Some(StreakKind::Trivia) => GuildMemberStreaks { game_trivia: Some(streak), ..streaks },
        None => streaks,
    }
}

/// Sets a member's XP and reconciles the roles with the level it makes.
pub fn set_member_xp(guild: &Guild, member: &mut GuildMember, xp: u64) -> (outcome: AdminOutcome)
    ensures
        admin_outcome_of(outcome, *guild, xp),
        *final(member) == (GuildMember { xp, ..*old(member) }),
{
    let level = calculate_level(&xp);
    member.xp = xp;
    AdminOutcome { xp, level, roles: handle_level_roles(guild, level) }
}

impl AddCommand {
    /// The command's name.
    pub fn name(&self) -> (name: &'static str)
        ensures
            name@ == "addxp"@,
    {
        "addxp"
    }

    /// Adds `amount` XP to the member's.
    pub fn exec(guild: &Guild, member: &mut GuildMember, amount: u64) -> (outcome: AdminOutcome)
        ensures
            admin_outcome_of(
                outcome,
                *guild,
                xp_after_award(old(member).xp as int, amount as int) as u64,
            ),
            *final(member) == (GuildMember { xp: outcome.xp, ..*old(member) }),
    {
        let xp = add_xp(member.xp, amount);
        set_member_xp(guild, member, xp)
    }
}

impl RemoveCommand {
    /// The command's name.
    pub fn name(&self) -> (name: &'static str)
        ensures
            name@ == "removexp"@,
    {
        "removexp"
    }

    /// Takes `amount` XP from the member's, which does not go under zero.
    pub fn exec(guild: &Guild, member: &mut GuildMember, amount: u64) -> (outcome: AdminOutcome)
        ensures
            admin_outcome_of(
                outcome,
                *guild,
                xp_after_removal(old(member).xp as int, amount as int) as u64,
            ),
            *final(member) == (GuildMember { xp: outcome.xp, ..*old(member) }),
    {
        let xp = remove_xp(member.xp, amount);
        set_member_xp(guild, member, xp)
    }
}

impl SetCommand {
    /// The command's name.
    pub fn name(&self) -> (name: &'static str)
        ensures
            name@ == "setxp"@,
    {
        "setxp"
    }

    /// Sets the member's XP to `amount`.
    pub fn exec(guild: &Guild, member: &mut GuildMember, amount: u64) -> (outcome: AdminOutcome)
        ensures
            admin_outcome_of(outcome, *guild, amount),
            *final(member) == (GuildMember { xp: amount, ..*old(member) }),
    {
        set_member_xp(guild, member, amount)
    }
}

impl SetLevelCommand {
    /// The command's name.
    pub fn name(&self) -> (name: &'static str)
        ensures
            name@ == "setlevel"@,
    {
        "setlevel"
    }

    /// Sets the member's XP to what `level` takes. A level whose XP a record
    /// cannot store is refused and changes nothing.
    pub fn exec(guild: &Guild, member: &mut GuildMember, level: i32) -> (outcome: Option<
        AdminOutcome,
    >)
        ensures
            outcome is Some <==> required_xp(level as int) <= u64::MAX,
            outcome is None ==> *final(member) == *old(member),
            outcome is Some ==> admin_outcome_of(
                outcome->0,
                *guild,
                required_xp(level as int) as u64,
            ) && *final(member) == (GuildMember { xp: outcome->0.xp, ..*old(member) }),
    {
        match try_required_xp(level) {
            Some(xp) => Some(set_member_xp(guild, member, xp)),
            None => None,
        }
    }
}

impl SetStreakCommand {
    /// The command's name.
    pub fn name(&self) -> (name: &'static str)
        ensures
            name@ == "setstreak"@,
    {
        "setstreak"
    }

    /// Sets the member's daily or trivia streak. Another name sets nothing.
    pub fn exec(member: &mut GuildMember, streak_type: &str, streak: u64) -> (kind: Option<StreakKind>)
        ensures
            kind == streak_kind(streak_type@),
            *final(member) == (GuildMember {
                streaks: streaks_after_set(old(member).streaks, kind, streak),
                ..*old(member)
            }),
    {
        if same_text(streak_type, "daily") {
            member.streaks.game_daily = Some(streak);
            Some(StreakKind::Daily)
        } else if same_text(streak_type, "trivia") {
            member.streaks.game_trivia = Some(streak);
            Some(StreakKind::Trivia)
        } else {
            None
        }
    }
}

impl ResetCommand {
    /// The command's name.
    pub fn name(&self) -> (name: &'static str)
        ensures
            name@ == "reset"@,
    {
        "reset"
    }

    /// The confirmation to ask for: `group` is the subcommand that was
    /// picked, `choice` what was picked under it.
    pub fn exec(group: &str, choice: &str) -> (modal: Option<ResetModal>)
        ensures
            modal == reset_modal(group@, choice@),
    {
        if same_text(group, "user") && same_text(choice, "user") {
            Some(ResetModal::UserXp)
        } else if same_text(group, "community") && same_text(choice, "settings") {
            Some(ResetModal::CommunitySettings)
        } else if same_text(group, "community") && same_text(choice, "xp") {
            Some(ResetModal::CommunityXp)
        } else {
            None
        }
    }
}

} // verus!
