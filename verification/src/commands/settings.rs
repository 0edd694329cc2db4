//! The `/settings` command: a community's settings laid out in fields.

use vstd::prelude::*;
use vstd::string::StringExecFns;
use crate::commands::misc::{SettingsCommand, SettingsSection};
use crate::guild::{Guild, GuildBoostObject, GuildLevelRoles, AUTOROLE_LEVEL};
use crate::text::{
    format_number, grouped_text, premium_helper, premium_text, push_signed, signed_text,
    tick_helper, tick_text,
};

verus! {

/// One field of the settings overview.
#[derive(Clone, Debug, PartialEq, Eq)]
pub struct SettingsField {
    pub name: String,
    pub value: String,
    pub inline: bool,
}

/// What a field says: its name, its text, and whether it shares a line.
pub type FieldText = (Seq<char>, Seq<char>, bool);

/// A whole number with thousands separators, a minus sign before a negative one.
pub open spec fn signed_grouped_text(number: int) -> Seq<char> {
    if number < 0 {
        seq!['-'] + grouped_text((-number) as nat)
    } else {
        grouped_text(number as nat)
    }
}

/// The field of a module: its mark and name, and what it does.
pub open spec fn module_row(enabled: bool, name: Seq<char>, description: Seq<char>) -> FieldText {
    (tick_text(enabled) + " "@ + name, description, true)
}

/// The field of a module that premium communities can change.
pub open spec fn premium_module_row(
    enabled: bool,
    premium: bool,
    name: Seq<char>,
    description: Seq<char>,
) -> FieldText {
    (
        tick_text(enabled) + " "@ + name,
        "`"@ + premium_text(premium) + "` "@ + description,
        true,
    )
}

/// The field of a value: its name and amount, and what it means.
pub open spec fn value_row(name: Seq<char>, amount: i64, description: Seq<char>) -> FieldText {
    (name + ": "@ + signed_grouped_text(amount as int), description, true)
}

/// The field of a value that premium communities can change.
pub open spec fn premium_value_row(
    name: Seq<char>,
    amount: i64,
    premium: bool,
    description: Seq<char>,
) -> FieldText {
    (
        name + ": "@ + signed_grouped_text(amount as int),
        "`"@ + premium_text(premium) + "` "@ + description,
        true,
    )
}

/// The fields of the modules.
pub open spec fn module_rows(guild: Guild, premium: bool) -> Seq<FieldText> {
    xp_module_rows(guild, premium) + other_module_rows(guild, premium)
}

/// The fields of the modules that earn XP, and of autonick.
pub open spec fn xp_module_rows(guild: Guild, premium: bool) -> Seq<FieldText> {
    let m = guild.modules;
    seq![
        module_row(m.messagexp, "Message xp"@, "Let users receive xp by writing messages."@),
        module_row(
            m.voicexp,
            "Voice xp"@,
            "Let users receive xp by spending time in a voice channel."@,
        ),
        module_row(m.reactionxp, "Reaction xp"@, "Let users receive xp by reacting to messages."@),
        module_row(m.ignoreafk, "Ignore AFK"@, "Disable xp in AFK Channels."@),
        module_row(
            m.autonick,
            "Autonick"@,
            "Automatically show the level of each user in their nicknames."@,
        ),
        premium_module_row(
            m.autonickuseprefix,
            premium,
            "Autonick Use Prefix"@,
            "Show the level on the left side of a user's nickname."@,
        ),
        premium_module_row(
            m.autonickshowstring,
            premium,
            "Autonick Show String"@,
            "Show \"Lvl.\" in the nickname when Autonick is enabled."@,
        ),
    ]
}

/// The fields of the other modules.
pub open spec fn other_module_rows(guild: Guild, premium: bool) -> Seq<FieldText> {
    let m = guild.modules;
    seq![
        module_row(m.leaderboard, "Leaderboard"@, "Enable ranking in your community"@),
        module_row(
            m.singlerankrole,
            "Single Rank Role"@,
            "Always give your users only the highest achieved role, and remove all level roles below it."@,
        ),
        premium_module_row(
            m.removereachedlevelroles,
            premium,
            "Remove Reached Levelroles"@,
            "Remove roles that are above a user's level as soon as the user's xp has been reduced."@,
        ),
        module_row(
            m.maximumlevel,
            "Maximum Level"@,
            "Limit the maximum level that users can reach."@,
        ),
        premium_module_row(
            m.resetonleave,
            premium,
            "Reset User On Leave"@,
            "Delete the user data as soon as a user leaves the server."@,
        ),
        premium_module_row(
            m.enablecommandsinthreads,
            premium,
            "Enable Commands In Threads"@,
            "Let users use xp commands in threads."@,
        ),
        module_row(m.games, "Games"@, "Let your users earn xp by playing games."@),
        module_row(m.trivia, "Trivia"@, "Let your users prove their knowledge."@),
    ]
}

/// The fields of the values.
pub open spec fn value_rows(guild: Guild, premium: bool) -> Seq<FieldText> {
    let v = guild.values;
    seq![
        value_row("Message xp"@, v.messagexp, "The amount of xp a user gets per message."@),
        value_row(
            "Message cooldown"@,
            v.messagecooldown,
            "The time in seconds until the next message will be counted."@,
        ),
        value_row(
            "Voice xp"@,
            v.voicexp,
            "The amount of xp a user receives per minute in the voicechat."@,
        ),
        value_row(
            "Voice Join Cooldown"@,
            v.voicejoincooldown,
            "The time in seconds until XP starts measuring the user's voicechat time."@,
        ),
        value_row("Reaction xp"@, v.reactionxp, "The amount of xp a user gets per reaction."@),
        value_row("Loot xp"@, v.lootXP, "The amount of xp a user gets for playing `/loot`."@),
        value_row("Fish xp"@, v.fishXP, "The amount of xp a user gets for playing `/fish`."@),
        value_row("Roll xp"@, v.rollXP, "The amount of xp a user gets for playing `/roll`."@),
        premium_value_row(
            "Game cooldown"@,
            v.gamecooldown,
            premium,
            "The time in seconds until a user start another game."@,
        ),
        value_row(
            "Trivia xp"@,
            v.triviaxp,
            "The maximum amount of xp a user gets for playing trivia."@,
        ),
        premium_value_row(
            "Trivia cooldown"@,
            v.triviacooldown,
            premium,
            "The time in seconds until a user can start a new Trivia game."@,
        ),
        value_row(
            "Maximum daily xp"@,
            v.maximumdailyxp,
            "The maximum amount of xp obtainable by executing the `/daily` command."@,
        ),
        value_row("Maximum level"@, v.maximumlevel, "The maximum level that can be reached."@),
    ]
}

/// `entry` put into a list that is ordered from the lowest level up,
/// behind every entry of its own level.
pub open spec fn placed_up(ordered: Seq<GuildLevelRoles>, entry: GuildLevelRoles) -> Seq<
    GuildLevelRoles,
>
    decreases ordered.len(),
{
    if ordered.len() == 0 {
        seq![entry]
    } else if ordered.last().level <= entry.level {
        ordered.push(entry)
    } else {
        placed_up(ordered.drop_last(), entry).push(ordered.last())
    }
}

/// The entries that are no autorole, ordered from the lowest level up,
/// entries of one level in the order they had.
pub open spec fn listed_roles(entries: Seq<GuildLevelRoles>) -> Seq<GuildLevelRoles>
    decreases entries.len(),
{
    if entries.len() == 0 {
        Seq::empty()
    } else if entries.last().level == AUTOROLE_LEVEL {
        listed_roles(entries.drop_last())
    } else {
        placed_up(listed_roles(entries.drop_last()), entries.last())
    }
}

/// The autorole that the overview shows: the last one listed.
pub open spec fn shown_autorole(entries: Seq<GuildLevelRoles>) -> Option<GuildLevelRoles>
    decreases entries.len(),
{
    if entries.len() == 0 {
        None
    } else if entries.last().level == AUTOROLE_LEVEL {
        Some(entries.last())
    } else {
        shown_autorole(entries.drop_last())
    }
}

/// The line of one level role.
pub open spec fn role_line(entry: GuildLevelRoles) -> Seq<char> {
    "<@&"@ + entry.id@ + "> at level "@ + signed_text(entry.level as int) + "\n"@
}

/// The lines of level roles, one after the other.
pub open spec fn role_lines(entries: Seq<GuildLevelRoles>) -> Seq<char>
    decreases entries.len(),
{
    if entries.len() == 0 {
        Seq::empty()
    } else {
        role_lines(entries.drop_last()) + role_line(entries.last())
    }
}

/// The line of one boost; `mention` is what stands before the identifier.
pub open spec fn boost_line(entry: GuildBoostObject, mention: Seq<char>) -> Seq<char> {
    "<"@ + mention + entry.id@ + "> with "@ + signed_text(entry.percentage as int) + "% boost\n"@
}

/// The lines of boosts, one after the other.
pub open spec fn boost_lines(entries: Seq<GuildBoostObject>, mention: Seq<char>) -> Seq<char>
    decreases entries.len(),
{
    if entries.len() == 0 {
        Seq::empty()
    } else {
        boost_lines(entries.drop_last(), mention) + boost_line(entries.last(), mention)
    }
}

/// The lines of exempt identifiers, one after the other.
pub open spec fn ignore_lines(ids: Seq<String>, mention: Seq<char>) -> Seq<char>
    decreases ids.len(),
{
    if ids.len() == 0 {
        Seq::empty()
    } else {
        ignore_lines(ids.drop_last(), mention) + ("<"@ + mention + ids.last()@ + ">\n"@)
    }
}

/// `lines`, or `none` where there are no lines.
pub open spec fn or_none(lines: Seq<char>, none: Seq<char>) -> Seq<char> {
    if lines.len() == 0 {
        none
    } else {
        lines
    }
}

/// The fields of the roles.
pub open spec fn role_rows(guild: Guild) -> Seq<FieldText> {
    let autorole = match shown_autorole(guild.levelroles@) {
        Some(entry) => "<@&"@ + entry.id@ + ">"@,
        None => "There is currently no autorole set."@,
    };
    seq![
        ("Autorole"@, autorole, false),
        (
            "Levelroles"@,
            or_none(
                role_lines(listed_roles(guild.levelroles@)),
                "There are currently no levelroles set."@,
            ),
            false,
        ),
    ]
}

/// The boosts of a list that may be missing.
pub open spec fn boosts_or_empty(list: Option<Vec<GuildBoostObject>>) -> Seq<GuildBoostObject> {
    match list {
        Some(entries) => entries@,
        None => Seq::empty(),
    }
}

/// The identifiers of a list that may be missing.
pub open spec fn ids_or_empty(list: Option<Vec<String>>) -> Seq<String> {
    match list {
        Some(ids) => ids@,
        None => Seq::empty(),
    }
}

/// The fields of the boosts.
pub open spec fn boost_rows(guild: Guild) -> Seq<FieldText> {
    seq![
        (
            "Boosted roles"@,
            or_none(
                boost_lines(guild.boosts.roles@, "@&"@),
                "There are currently no boosted roles set."@,
            ),
            false,
        ),
        (
            "Boosted channels"@,
            or_none(
                boost_lines(guild.boosts.channels@, "#"@),
                "There are currently no boosted channels set."@,
            ),
            false,
        ),
        (
            "Boosted categories"@,
            or_none(
                boost_lines(boosts_or_empty(guild.boosts.categories), "#"@),
                "There are currently no boosted categories set."@,
            ),
            false,
        ),
    ]
}

/// The fields of the exemptions.
pub open spec fn ignore_rows(guild: Guild) -> Seq<FieldText> {
    seq![
        (
            "Ignored roles"@,
            or_none(
                ignore_lines(guild.ignored.roles@, "@&"@),
                "There are currently no ignored roles set."@,
            ),
            false,
        ),
        (
            "Ignored channels"@,
            or_none(
                ignore_lines(ids_or_empty(guild.ignored.channels), "#"@),
                "There are currently no ignored channels set."@,
            ),
            false,
        ),
        (
            "Ignored categories"@,
            or_none(
                ignore_lines(ids_or_empty(guild.ignored.categories), "#"@),
                "There are currently no ignored categories set."@,
            ),
            false,
        ),
    ]
}

/// The fields of a part of the settings. `premium` tells whether the
/// community has premium.
pub open spec fn settings_rows(guild: Guild, premium: bool, section: SettingsSection) -> Seq<
    FieldText,
> {
    match section {
        SettingsSection::Modules => module_rows(guild, premium),
        SettingsSection::Values => value_rows(guild, premium),
        SettingsSection::Roles => role_rows(guild),
        SettingsSection::Boosts => boost_rows(guild),
        SettingsSection::Ignores => ignore_rows(guild),
    }
}

/// The heading of a part of the settings.
pub open spec fn section_title(section: SettingsSection) -> Seq<char> {
    match section {
        SettingsSection::Modules => "Modules"@,
        SettingsSection::Values => "Values"@,
        SettingsSection::Roles => "Roles"@,
        SettingsSection::Boosts => "Boosts"@,
        SettingsSection::Ignores => "Ignores"@,
    }
}

/// Whether a field says what `row` says.
pub open spec fn shows_row(field: SettingsField, row: FieldText) -> bool {
    field.name@ == row.0 && field.value@ == row.1 && field.inline == row.2
}

/// Whether the fields say, one by one, what `rows` say.
pub open spec fn shows_rows(fields: Seq<SettingsField>, rows: Seq<FieldText>) -> bool {
    fields.len() == rows.len() && forall|i: int|
        0 <= i < fields.len() ==> shows_row(#[trigger] fields[i], rows[i])
}

fn signed_grouped(number: i64) -> (text: String)
    ensures
        text@ == signed_grouped_text(number as int),
{
    if number < 0 {
        let size: u64 = (-(number as i128)) as u64;
        let mut text = String::from_str("-");
        text.append(format_number(size).as_str());
        proof {
            reveal_strlit("-");
            assert("-"@ =~= seq!['-']);
            assert(text@ =~= signed_grouped_text(number as int));
        }
        text
    } else {
        format_number(number as u64)
    }
}

fn module_field(enabled: bool, name: &str, description: &str) -> (field: SettingsField)
    ensures
        shows_row(field, module_row(enabled, name@, description@)),
{
    let mut shown = tick_helper(enabled);
    shown.append(" ");
    shown.append(name);
    SettingsField { name: shown, value: String::from_str(description), inline: true }
}

fn gated_text(premium: bool, description: &str) -> (text: String)
    ensures
        text@ == "`"@ + premium_text(premium) + "` "@ + description@,
{
    let mut text = String::from_str("`");
    text.append(premium_helper(premium).as_str());
    text.append("` ");
    text.append(description);
    text
}

fn premium_module_field(enabled: bool, premium: bool, name: &str, description: &str) -> (field:
    SettingsField)
    ensures
        shows_row(field, premium_module_row(enabled, premium, name@, description@)),
{
    let mut shown = tick_helper(enabled);
    shown.append(" ");
    shown.append(name);
    SettingsField { name: shown, value: gated_text(premium, description), inline: true }
}

fn value_name(name: &str, amount: i64) -> (text: String)
    ensures
        text@ == name@ + ": "@ + signed_grouped_text(amount as int),
{
    let mut text = String::from_str(name);
    text.append(": ");
    text.append(signed_grouped(amount).as_str());
    text
}

fn value_field(name: &str, amount: i64, description: &str) -> (field: SettingsField)
    ensures
        shows_row(field, value_row(name@, amount, description@)),
{
    SettingsField {
        name: value_name(name, amount),
        value: String::from_str(description),
        inline: true,
    }
}

fn premium_value_field(name: &str, amount: i64, premium: bool, description: &str) -> (field:
    SettingsField)
    ensures
        shows_row(field, premium_value_row(name@, amount, premium, description@)),
{
    SettingsField {
        name: value_name(name, amount),
        value: gated_text(premium, description),
        inline: true,
    }
}

fn plain_field(name: &str, value: String) -> (field: SettingsField)
    ensures
        shows_row(field, (name@, value@, false)),
{
    SettingsField { name: String::from_str(name), value, inline: false }
}

fn lines_or(lines: String, none: &str) -> (text: String)
    ensures
        text@ == or_none(lines@, none@),
{
    if lines.as_str().unicode_len() == 0 {
        String::from_str(none)
    } else {
        lines
    }
}

fn module_fields(guild: &Guild, premium: bool) -> (fields: Vec<SettingsField>)
    ensures
        shows_rows(fields@, module_rows(*guild, premium)),
{
    let mut fields = xp_module_fields(guild, premium);
    let mut others = other_module_fields(guild, premium);
    let ghost first = fields@;
    let ghost second = others@;
    fields.append(&mut others);
    proof {
        let rows = module_rows(*guild, premium);
        let early = xp_module_rows(*guild, premium);
        let late = other_module_rows(*guild, premium);
        assert forall|i: int| 0 <= i < fields@.len() implies shows_row(
            #[trigger] fields@[i],
            rows[i],
        ) by {
            if i < first.len() {
                assert(fields@[i] == first[i]);
                assert(rows[i] == early[i]);
            } else {
                assert(fields@[i] == second[i - first.len()]);
                assert(rows[i] == late[i - early.len()]);
            }
        }
    }
    fields
}

fn xp_module_fields(guild: &Guild, premium: bool) -> (fields: Vec<SettingsField>)
    ensures
        shows_rows(fields@, xp_module_rows(*guild, premium)),
{
    let m = &guild.modules;
    let mut fields: Vec<SettingsField> = Vec::new();
    fields.push(
        module_field(m.messagexp, "Message xp", "Let users receive xp by writing messages."),
    );
    fields.push(
        module_field(
            m.voicexp,
            "Voice xp",
            "Let users receive xp by spending time in a voice channel.",
        ),
    );
    fields.push(
        module_field(m.reactionxp, "Reaction xp", "Let users receive xp by reacting to messages."),
    );
    fields.push(module_field(m.ignoreafk, "Ignore AFK", "Disable xp in AFK Channels."));
    fields.push(
        module_field(
            m.autonick,
            "Autonick",
            "Automatically show the level of each user in their nicknames.",
        ),
    );
    fields.push(
        premium_module_field(
            m.autonickuseprefix,
            premium,
            "Autonick Use Prefix",
            "Show the level on the left side of a user's nickname.",
        ),
    );
    fields.push(
        premium_module_field(
            m.autonickshowstring,
            premium,
            "Autonick Show String",
            "Show \"Lvl.\" in the nickname when Autonick is enabled.",
        ),
    );
    fields
}

fn other_module_fields(guild: &Guild, premium: bool) -> (fields: Vec<SettingsField>)
    ensures
        shows_rows(fields@, other_module_rows(*guild, premium)),
{
    let m = &guild.modules;
    let mut fields: Vec<SettingsField> = Vec::new();
    fields.push(module_field(m.leaderboard, "Leaderboard", "Enable ranking in your community"));
    fields.push(
        module_field(
            m.singlerankrole,
            "Single Rank Role",
            "Always give your users only the highest achieved role, and remove all level roles below it.",
        ),
    );
    fields.push(
        premium_module_field(
            m.removereachedlevelroles,
            premium,
            "Remove Reached Levelroles",
            "Remove roles that are above a user's level as soon as the user's xp has been reduced.",
        ),
    );
    fields.push(
        module_field(
            m.maximumlevel,
            "Maximum Level",
            "Limit the maximum level that users can reach.",
        ),
    );
    fields.push(
        premium_module_field(
            m.resetonleave,
            premium,
            "Reset User On Leave",
            "Delete the user data as soon as a user leaves the server.",
        ),
    );
    fields.push(
        premium_module_field(
            m.enablecommandsinthreads,
            premium,
            "Enable Commands In Threads",
            "Let users use xp commands in threads.",
        ),
    );
    fields.push(module_field(m.games, "Games", "Let your users earn xp by playing games."));
    fields.push(module_field(m.trivia, "Trivia", "Let your users prove their knowledge."));
    fields
}

fn value_fields(guild: &Guild, premium: bool) -> (fields: Vec<SettingsField>)
    ensures
        shows_rows(fields@, value_rows(*guild, premium)),
{
    let v = &guild.values;
    let mut fields: Vec<SettingsField> = Vec::new();
    fields.push(value_field("Message xp", v.messagexp, "The amount of xp a user gets per message."));
    fields.push(
        value_field(
            "Message cooldown",
            v.messagecooldown,
            "The time in seconds until the next message will be counted.",
        ),
    );
    fields.push(
        value_field(
            "Voice xp",
            v.voicexp,
            "The amount of xp a user receives per minute in the voicechat.",
        ),
    );
    fields.push(
        value_field(
            "Voice Join Cooldown",
            v.voicejoincooldown,
            "The time in seconds until XP starts measuring the user's voicechat time.",
        ),
    );
    fields.push(
        value_field("Reaction xp", v.reactionxp, "The amount of xp a user gets per reaction."),
    );
    fields.push(
        value_field("Loot xp", v.lootXP, "The amount of xp a user gets for playing `/loot`."),
    );
    fields.push(
        value_field("Fish xp", v.fishXP, "The amount of xp a user gets for playing `/fish`."),
    );
    fields.push(
        value_field("Roll xp", v.rollXP, "The amount of xp a user gets for playing `/roll`."),
    );
    fields.push(
        premium_value_field(
            "Game cooldown",
            v.gamecooldown,
            premium,
            "The time in seconds until a user start another game.",
        ),
    );
    fields.push(
        value_field(
            "Trivia xp",
            v.triviaxp,
            "The maximum amount of xp a user gets for playing trivia.",
        ),
    );
    fields.push(
        premium_value_field(
            "Trivia cooldown",
            v.triviacooldown,
            premium,
            "The time in seconds until a user can start a new Trivia game.",
        ),
    );
    fields.push(
        value_field(
            "Maximum daily xp",
            v.maximumdailyxp,
            "The maximum amount of xp obtainable by executing the `/daily` command.",
        ),
    );
    fields.push(
        value_field("Maximum level", v.maximumlevel, "The maximum level that can be reached."),
    );
    fields
}

proof fn lemma_placed_up_at(ordered: Seq<GuildLevelRoles>, entry: GuildLevelRoles, position: int)
    requires
        0 <= position <= ordered.len(),
        forall|i: int| position <= i < ordered.len() ==> ordered[i].level > entry.level,
        position == 0 || ordered[position - 1].level <= entry.level,
    ensures
        placed_up(ordered, entry) =~= ordered.insert(position, entry),
    decreases ordered.len(),
{
    if position < ordered.len() {
        lemma_placed_up_at(ordered.drop_last(), entry, position);
    }
}

fn role_fields(guild: &Guild) -> (fields: Vec<SettingsField>)
    ensures
        shows_rows(fields@, role_rows(*guild)),
{
    let entries = &guild.levelroles;
    let mut ordered: Vec<&GuildLevelRoles> = Vec::new();
    let mut autorole: Option<&GuildLevelRoles> = None;
    let mut index: usize = 0;
    assert(entries@.take(0) =~= Seq::<GuildLevelRoles>::empty());
    while index < entries.len()
        invariant
            index <= entries.len(),
            ordered@.len() <= index,
            forall|i: int| 0 <= i < ordered@.len() ==> *ordered@[i] == #[trigger] listed_roles(
                entries@.take(index as int),
            )[i],
            ordered@.len() == listed_roles(entries@.take(index as int)).len(),
            match autorole {
                Some(entry) => shown_autorole(entries@.take(index as int)) == Some(*entry),
                None => shown_autorole(entries@.take(index as int)) is None,
            },
        decreases entries.len() - index,
    {
        let entry = &entries[index];
        let ghost before = listed_roles(entries@.take(index as int));
        proof {
            let next = entries@.take(index + 1);
            assert(next.drop_last() =~= entries@.take(index as int));
            assert(next.last() == entries@[index as int]);
        }
        if entry.level == AUTOROLE_LEVEL {
            autorole = Some(entry);
        } else {
            let mut position: usize = ordered.len();
            while position > 0 && ordered[position - 1].level > entry.level
                invariant
                    position <= ordered.len(),
                    ordered@.len() == before.len(),
                    forall|i: int| 0 <= i < ordered@.len() ==> *ordered@[i] == before[i],
                    forall|i: int| position <= i < ordered@.len() ==> before[i].level > entry.level,
                decreases position,
            {
                position = position - 1;
            }
            proof {
                lemma_placed_up_at(before, *entry, position as int);
            }
            ordered.insert(position, entry);
            proof {
                let after = placed_up(before, *entry);
                assert forall|i: int| 0 <= i < ordered@.len() implies *ordered@[i] == after[i] by {
                    if i < position {
                    } else if i == position {
                    } else {
                        assert(after[i] == before[i - 1]);
                    }
                }
            }
        }
        index = index + 1;
    }
    assert(entries@.take(index as int) =~= entries@);
    let ghost listed = listed_roles(entries@);
    let mut lines = String::new();
    let mut at: usize = 0;
    assert(listed.take(0) =~= Seq::<GuildLevelRoles>::empty());
    while at < ordered.len()
        invariant
            at <= ordered.len(),
            ordered@.len() == listed.len(),
            forall|i: int| 0 <= i < ordered@.len() ==> *ordered@[i] == listed[i],
            lines@ == role_lines(listed.take(at as int)),
        decreases ordered.len() - at,
    {
        let entry = ordered[at];
        proof {
            let next = listed.take(at + 1);
            assert(next.drop_last() =~= listed.take(at as int));
            assert(next.last() == listed[at as int]);
        }
        let ghost so_far = lines@;
        lines.append("<@&");
        lines.append(entry.id.as_str());
        lines.append("> at level ");
        push_signed(&mut lines, entry.level as i64);
        lines.append("\n");
        assert(lines@ =~= so_far + role_line(*entry));
        at = at + 1;
    }
    assert(listed.take(at as int) =~= listed);
    let autorole_text = match autorole {
        Some(entry) => {
            let mut text = String::from_str("<@&");
            text.append(entry.id.as_str());
            text.append(">");
            text
        },
        None => String::from_str("There is currently no autorole set."),
    };
    let mut fields: Vec<SettingsField> = Vec::new();
    fields.push(plain_field("Autorole", autorole_text));
    fields.push(
        plain_field("Levelroles", lines_or(lines, "There are currently no levelroles set.")),
    );
    fields
}

fn boost_list(entries: &Vec<GuildBoostObject>, mention: &str) -> (lines: String)
    ensures
        lines@ == boost_lines(entries@, mention@),
{
    let mut lines = String::new();
    let mut index: usize = 0;
    assert(entries@.take(0) =~= Seq::<GuildBoostObject>::empty());
    while index < entries.len()
        invariant
            index <= entries.len(),
            lines@ == boost_lines(entries@.take(index as int), mention@),
        decreases entries.len() - index,
    {
        let entry = &entries[index];
        proof {
            let next = entries@.take(index + 1);
            assert(next.drop_last() =~= entries@.take(index as int));
            assert(next.last() == entries@[index as int]);
        }
        let ghost so_far = lines@;
        lines.append("<");
        lines.append(mention);
        lines.append(entry.id.as_str());
        lines.append("> with ");
        push_signed(&mut lines, entry.percentage);
        lines.append("% boost\n");
        assert(lines@ =~= so_far + boost_line(*entry, mention@));
        index = index + 1;
    }
    assert(entries@.take(index as int) =~= entries@);
    lines
}

fn ignore_list(ids: &Vec<String>, mention: &str) -> (lines: String)
    ensures
        lines@ == ignore_lines(ids@, mention@),
{
    let mut lines = String::new();
    let mut index: usize = 0;
    assert(ids@.take(0) =~= Seq::<String>::empty());
    while index < ids.len()
        invariant
            index <= ids.len(),
            lines@ == ignore_lines(ids@.take(index as int), mention@),
        decreases ids.len() - index,
    {
        proof {
            let next = ids@.take(index + 1);
            assert(next.drop_last() =~= ids@.take(index as int));
            assert(next.last() == ids@[index as int]);
        }
        let ghost so_far = lines@;
        lines.append("<");
        lines.append(mention);
        lines.append(ids[index].as_str());
        lines.append(">\n");
        assert(lines@ =~= so_far + ("<"@ + mention@ + ids@[index as int]@ + ">\n"@));
        index = index + 1;
    }
    assert(ids@.take(index as int) =~= ids@);
    lines
}

fn boost_fields(guild: &Guild) -> (fields: Vec<SettingsField>)
    ensures
        shows_rows(fields@, boost_rows(*guild)),
{
    let categories = match &guild.boosts.categories {
        Some(entries) => boost_list(entries, "#"),
        None => String::new(),
    };
    let mut fields: Vec<SettingsField> = Vec::new();
    fields.push(
        plain_field(
            "Boosted roles",
            lines_or(
                boost_list(&guild.boosts.roles, "@&"),
                "There are currently no boosted roles set.",
            ),
        ),
    );
    fields.push(
        plain_field(
            "Boosted channels",
            lines_or(
                boost_list(&guild.boosts.channels, "#"),
                "There are currently no boosted channels set.",
            ),
        ),
    );
    fields.push(
        plain_field(
            "Boosted categories",
            lines_or(categories, "There are currently no boosted categories set."),
        ),
    );
    fields
}

fn ignore_fields(guild: &Guild) -> (fields: Vec<SettingsField>)
    ensures
        shows_rows(fields@, ignore_rows(*guild)),
{
    let channels = match &guild.ignored.channels {
        Some(ids) => ignore_list(ids, "#"),
        None => String::new(),
    };
    let categories = match &guild.ignored.categories {
        Some(ids) => ignore_list(ids, "#"),
        None => String::new(),
    };
    let mut fields: Vec<SettingsField> = Vec::new();
    fields.push(
        plain_field(
            "Ignored roles",
            lines_or(
                ignore_list(&guild.ignored.roles, "@&"),
                "There are currently no ignored roles set.",
            ),
        ),
    );
    fields.push(
        plain_field(
            "Ignored channels",
            lines_or(channels, "There are currently no ignored channels set."),
        ),
    );
    fields.push(
        plain_field(
            "Ignored categories",
            lines_or(categories, "There are currently no ignored categories set."),
        ),
    );
    fields
}

impl SettingsCommand {
    /// The fields that show a part of the community's settings.
    pub fn fields(guild: &Guild, premium: bool, section: SettingsSection) -> (fields: Vec<
        SettingsField,
    >)
        ensures
            shows_rows(fields@, settings_rows(*guild, premium, section)),
    {
        match section {
            SettingsSection::Modules => module_fields(guild, premium),
            SettingsSection::Values => value_fields(guild, premium),
            SettingsSection::Roles => role_fields(guild),
            SettingsSection::Boosts => boost_fields(guild),
            SettingsSection::Ignores => ignore_fields(guild),
        }
    }

    /// The heading of a part of the settings.
    pub fn title(section: SettingsSection) -> (title: &'static str)
        ensures
            title@ == section_title(section),
    {
        match section {
            SettingsSection::Modules => "Modules",
            SettingsSection::Values => "Values",
            SettingsSection::Roles => "Roles",
            SettingsSection::Boosts => "Boosts",
            SettingsSection::Ignores => "Ignores",
        }
    }
}

} // verus!
