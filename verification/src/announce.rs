//! The announcement of a level-up: where it goes and what it says.

use vstd::prelude::*;
use vstd::string::StringExecFns;
use crate::guild::Guild;
use crate::ids::{parsed_id, parse_id};
use crate::text::{
    decimal_text, push_decimal, push_signed, replace_text, replaced, signed_text,
};

verus! {

/// A level-up announcement, ready to be sent.
#[derive(Clone, Debug, PartialEq, Eq)]
pub struct LevelUpMessage {
    /// The channel that it goes to.
    pub channel_id: u64,
    /// The mention that pings the member, where the community wants one.
    pub content: Option<String>,
    /// The community's text with its placeholders filled in.
    pub description: String,
}

/// The text that mentions a user.
pub open spec fn mention(user_id: u64) -> Seq<char> {
    "<@"@ + decimal_text(user_id as nat) + ">"@
}

/// A community's announcement text with its placeholders filled in, one
/// after the other: `{CMB}` by the levels gained, `{LVL}` by the new level,
/// `{OLDLVL}` by the old one, `{MNT}` by a mention of the member and `{TAG}`
/// by the member's name.
pub open spec fn level_up_text(
    template: Seq<char>,
    user_id: u64,
    current_level: i32,
    new_level: i32,
    author_name: Seq<char>,
) -> Seq<char> {
    let gained = replaced(template, "{CMB}"@, signed_text(new_level - current_level));
    let level = replaced(gained, "{LVL}"@, signed_text(new_level as int));
    let old_level = replaced(level, "{OLDLVL}"@, signed_text(current_level as int));
    let mentioned = replaced(old_level, "{MNT}"@, mention(user_id));
    replaced(mentioned, "{TAG}"@, author_name)
}

/// The channel that a level-up is announced in: the one where the member
/// was active, or the community's level-up channel where it wants that. A
/// community that wants its own channel and names none, or names it badly,
/// gets no announcement.
pub open spec fn level_up_channel(guild: Guild, active_channel: u64) -> Option<u64> {
    if guild.announce.current {
        Some(active_channel)
    } else if guild.logs.levelup is Some {
        parsed_id(guild.logs.levelup->0@)
    } else {
        None
    }
}

/// The text that mentions a user.
pub fn mention_of(user_id: u64) -> (text: String)
    ensures
        text@ == mention(user_id),
{
    let mut text = String::from_str("<@");
    push_decimal(&mut text, user_id);
    text.append(">");
    assert(text@ =~= mention(user_id));
    text
}

fn number_text(number: i64) -> (text: String)
    ensures
        text@ == signed_text(number as int),
{
    let mut text = String::new();
    push_signed(&mut text, number);
    assert(text@ =~= signed_text(number as int));
    text
}

/// The announcement of a member's rise from `current_level` to
/// `new_level`, if there is a channel for it.
pub fn send_level_up(
    guild: &Guild,
    user_id: u64,
    current_level: i32,
    new_level: i32,
    msg_channel_id: u64,
    msg_author_name: &str,
) -> (message: Option<LevelUpMessage>)
    ensures
        message is Some <==> level_up_channel(*guild, msg_channel_id) is Some,
        message is Some ==> {
            &&& Some(message->0.channel_id) == level_up_channel(*guild, msg_channel_id)
            &&& message->0.content is Some <==> guild.announce.ping
            &&& guild.announce.ping ==> message->0.content->0@ == mention(user_id)
            &&& message->0.description@ == level_up_text(
                guild.announce.message@,
                user_id,
                current_level,
                new_level,
                msg_author_name@,
            )
        },
{
    let channel_id = if guild.announce.current {
        msg_channel_id
    } else {
        match &guild.logs.levelup {
            Some(channel) => match parse_id(channel.as_str()) {
                Some(id) => id,
                None => {
                    return None;
                },
            },
            None => {
                return None;
            },
        }
    };
    let gained_text = number_text((new_level as i64) - (current_level as i64));
    let gained = replace_text(guild.announce.message.as_str(), "{CMB}", gained_text.as_str());
    let level_text = number_text(new_level as i64);
    let level = replace_text(gained.as_str(), "{LVL}", level_text.as_str());
    let old_text = number_text(current_level as i64);
    let old_level = replace_text(level.as_str(), "{OLDLVL}", old_text.as_str());
    let mention_text = mention_of(user_id);
    let mentioned = replace_text(old_level.as_str(), "{MNT}", mention_text.as_str());
    let description = replace_text(mentioned.as_str(), "{TAG}", msg_author_name);
    let content = if guild.announce.ping {
        Some(mention_of(user_id))
    } else {
        None
    };
    Some(LevelUpMessage { channel_id, content, description })
}

} // verus!
