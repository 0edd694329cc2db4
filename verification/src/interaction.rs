//! What an interaction asks for: which command a name stands for, and what
//! a confirmed reset is to do.

use vstd::prelude::*;
use crate::ids::{parsed_id, parse_id_chars};
use crate::text::{chars_of, occurs_at, same_text};

verus! {

/// The slash commands.
#[derive(Clone, Copy, Debug, PartialEq, Eq)]
pub enum CommandKind {
    About,
    Leaderboard,
    Level,
    Rank,
    Settings,
    Voicetime,
    Incognito,
    Distance,
    AddXp,
    SetXp,
    RemoveXp,
    Reset,
    SetLevel,
    SetStreak,
    Fish,
    Roll,
    Loot,
    Daily,
    Trivia,
    Party,
}

/// What a confirmed reset does.
#[derive(Clone, Copy, Debug, PartialEq, Eq)]
pub enum ModalAction {
    /// The community's settings are deleted.
    ResetCommunitySettings,
    /// The XP of all the community's members is deleted.
    ResetCommunityXp,
    /// One member's XP is set to zero.
    ResetUserXp { user_id: u64 },
}

/// The command that a name stands for.
pub open spec fn command_of(name: Seq<char>) -> Option<CommandKind> {
    if name == "about"@ {
        Some(CommandKind::About)
    } else if name == "leaderboard"@ {
        Some(CommandKind::Leaderboard)
    } else if name == "level"@ {
        Some(CommandKind::Level)
    } else if name == "rank"@ {
        Some(CommandKind::Rank)
    } else if name == "settings"@ {
        Some(CommandKind::Settings)
    } else if name == "voicetime"@ {
        Some(CommandKind::Voicetime)
    } else if name == "incognito"@ {
        Some(CommandKind::Incognito)
    } else if name == "distance"@ {
        Some(CommandKind::Distance)
    } else if name == "addxp"@ {
        Some(CommandKind::AddXp)
    } else if name == "setxp"@ {
        Some(CommandKind::SetXp)
    } else if name == "removexp"@ {
        Some(CommandKind::RemoveXp)
    } else if name == "reset"@ {
        Some(CommandKind::Reset)
    } else if name == "setlevel"@ {
        Some(CommandKind::SetLevel)
    } else if name == "setstreak"@ {
        Some(CommandKind::SetStreak)
    } else if name == "fish"@ {
        Some(CommandKind::Fish)
    } else if name == "roll"@ {
        Some(CommandKind::Roll)
    } else if name == "loot"@ {
        Some(CommandKind::Loot)
    } else if name == "daily"@ {
        Some(CommandKind::Daily)
    } else if name == "trivia"@ {
        Some(CommandKind::Trivia)
    } else if name == "party"@ {
        Some(CommandKind::Party)
    } else {
        None
    }
}

/// What stands before the member's identifier in the name of the input
/// field of the form that confirms a member's reset.
pub open spec fn reset_input_prefix() -> Seq<char> {
    "reset_user_xp_input_"@
}

/// The member that the input field of a reset form names: the identifier
/// behind the prefix. A field of another name, or with a malformed
/// identifier, names none.
pub open spec fn reset_target(input_id: Seq<char>) -> Option<u64> {
    let prefix = reset_input_prefix();
    if input_id.len() >= prefix.len() && input_id.subrange(0, prefix.len() as int) == prefix {
        parsed_id(input_id.skip(prefix.len() as int))
    } else {
        None
    }
}

/// What a submitted form is to do: `custom_id` is the form's name,
/// `input_id` the name of its input field.
pub open spec fn modal_action(custom_id: Seq<char>, input_id: Option<Seq<char>>) -> Option<
    ModalAction,
> {
    if custom_id == "reset_community_settings"@ {
        Some(ModalAction::ResetCommunitySettings)
    } else if custom_id == "reset_community_xp"@ {
        Some(ModalAction::ResetCommunityXp)
    } else if custom_id == "reset_user_xp"@ && input_id is Some && reset_target(input_id->0)
        is Some {
        Some(ModalAction::ResetUserXp { user_id: reset_target(input_id->0)->0 })
    } else {
        None
    }
}

/// The command that a name stands for.
pub fn command_named(name: &str) -> (kind: Option<CommandKind>)
    ensures
        kind == command_of(name@),
{
    if same_text(name, "about") {
        Some(CommandKind::About)
    } else if same_text(name, "leaderboard") {
        Some(CommandKind::Leaderboard)
    } else if same_text(name, "level") {
        Some(CommandKind::Level)
    } else if same_text(name, "rank") {
        Some(CommandKind::Rank)
    } else if same_text(name, "settings") {
        Some(CommandKind::Settings)
    } else if same_text(name, "voicetime") {
        Some(CommandKind::Voicetime)
    } else if same_text(name, "incognito") {
        Some(CommandKind::Incognito)
    } else if same_text(name, "distance") {
        Some(CommandKind::Distance)
    } else if same_text(name, "addxp") {
        Some(CommandKind::AddXp)
    } else if same_text(name, "setxp") {
        Some(CommandKind::SetXp)
    } else if same_text(name, "removexp") {
        Some(CommandKind::RemoveXp)
    } else if same_text(name, "reset") {
        Some(CommandKind::Reset)
    } else if same_text(name, "setlevel") {
        Some(CommandKind::SetLevel)
    } else if same_text(name, "setstreak") {
        Some(CommandKind::SetStreak)
    } else if same_text(name, "fish") {
        Some(CommandKind::Fish)
    } else if same_text(name, "roll") {
        Some(CommandKind::Roll)
    } else if same_text(name, "loot") {
        Some(CommandKind::Loot)
    } else if same_text(name, "daily") {
        Some(CommandKind::Daily)
    } else if same_text(name, "trivia") {
        Some(CommandKind::Trivia)
    } else if same_text(name, "party") {
        Some(CommandKind::Party)
    } else {
        None
    }
}

/// The member that the input field of a reset form names.
pub fn parse_reset_target(input_id: &str) -> (target: Option<u64>)
    ensures
        target == reset_target(input_id@),
{
    let chars = chars_of(input_id);
    let prefix = chars_of("reset_user_xp_input_");
    if chars.len() < prefix.len() || !occurs_at(&chars, 0, &prefix) {
        return None;
    }
    let mut rest: Vec<char> = Vec::new();
    let mut index: usize = prefix.len();
    while index < chars.len()
        invariant
            prefix.len() <= index <= chars.len(),
            rest@ == chars@.subrange(prefix.len() as int, index as int),
        decreases chars.len() - index,
    {
        rest.push(chars[index]);
        assert(chars@.subrange(prefix.len() as int, index + 1) =~= chars@.subrange(
            prefix.len() as int,
            index as int,
        ).push(chars@[index as int]));
        index = index + 1;
    }
    assert(rest@ =~= input_id@.skip(prefix.len() as int));
    parse_id_chars(&rest)
}

/// What a submitted form is to do.
pub fn modal_submit(custom_id: &str, input_id: Option<&str>) -> (action: Option<ModalAction>)
    ensures
        action == modal_action(
            custom_id@,
            match input_id {
                Some(name) => Some(name@),
                None => None,
            },
        ),
{
    if same_text(custom_id, "reset_community_settings") {
        Some(ModalAction::ResetCommunitySettings)
    } else if same_text(custom_id, "reset_community_xp") {
        Some(ModalAction::ResetCommunityXp)
    } else if same_text(custom_id, "reset_user_xp") {
        match input_id {
            Some(name) => match parse_reset_target(name) {
                Some(user_id) => Some(ModalAction::ResetUserXp { user_id }),
                None => None,
            },
            None => None,
        }
    } else {
        None
    }
}

} // verus!
