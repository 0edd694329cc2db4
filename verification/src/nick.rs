//! Autonick: the member's level shown in the nickname.

use vstd::prelude::*;
use vstd::string::{StringExecFns, StringSliceAdditionalSpecFns};
use crate::guild::Guild;
use crate::text::{push_signed, signed_text};

verus! {

/// What `regex::Regex::replace` makes of `text` under the expression
/// `pattern` and the replacement `replacement`; none where `regex::Regex::new`
/// rejects the expression.
pub uninterp spec fn regex_replace_first(
    pattern: Seq<char>,
    text: Seq<char>,
    replacement: Seq<char>,
) -> Option<Seq<char>>;

/// Compiles `pattern` with `regex::Regex::new` and calls `Regex::replace` on
/// `text`, which replaces the leftmost match by `replacement` and hands the
/// text back unchanged where nothing matches. The result depends on the
/// three texts alone. Nothing is said here of what matches.
#[verifier::external_body]
fn replace_first(pattern: &str, text: &str, replacement: &str) -> (result: Option<String>)
    ensures
        result is Some <==> regex_replace_first(pattern@, text@, replacement@) is Some,
        result is Some ==> result->0@ == regex_replace_first(pattern@, text@, replacement@)->0,
{
    match regex::Regex::new(pattern) {
        Ok(expression) => Some(expression.replace(text, replacement).into_owned()),
        Err(_) => None,
    }
}

/// The longest nickname, in bytes, that the platform takes.
pub const MAX_NICK_BYTES: usize = 32;

/// The expression that finds a level tag in a nickname: square brackets,
/// what stands between them, and the blanks around them.
pub open spec fn tag_pattern() -> Seq<char> {
    "\\s*\\[.*?\\]\\s*"@
}

/// The tag that shows a level: `[7]`, or `[Lvl. 7]` where the community
/// wants the word.
pub open spec fn level_tag(level: i32, show_string: bool) -> Seq<char> {
    if show_string {
        "[Lvl. "@ + signed_text(level as int) + "]"@
    } else {
        "["@ + signed_text(level as int) + "]"@
    }
}

/// A nickname with the level tag before or behind it.
pub open spec fn tagged_nick(guild: Guild, level: i32, bare: Seq<char>) -> Seq<char> {
    if guild.modules.autonickuseprefix {
        level_tag(level, guild.modules.autonickshowstring) + " "@ + bare
    } else {
        bare + " "@ + level_tag(level, guild.modules.autonickshowstring)
    }
}

/// The nickname to set for a member whose nickname without its tag is
/// `bare`: the bare one where autonick is off, else the tagged one, and
/// none where that is too long for the platform.
pub open spec fn nick_to_set(guild: Guild, level: i32, bare: Seq<char>) -> Option<Seq<char>> {
    if !guild.modules.autonick {
        Some(bare)
    } else if vstd::utf8::encode_utf8(tagged_nick(guild, level, bare)).len() > MAX_NICK_BYTES {
        None
    } else {
        Some(tagged_nick(guild, level, bare))
    }
}

/// The nickname to set for a member of `level` whose nickname without its
/// tag is `bare`.
pub fn autonick_from(guild: &Guild, level: i32, bare: &str) -> (nick: Option<String>)
    ensures
        nick is Some <==> nick_to_set(*guild, level, bare@) is Some,
        nick is Some ==> nick->0@ == nick_to_set(*guild, level, bare@)->0,
{
    if !guild.modules.autonick {
        return Some(String::from_str(bare));
    }
    let mut tag = if guild.modules.autonickshowstring {
        String::from_str("[Lvl. ")
    } else {
        String::from_str("[")
    };
    push_signed(&mut tag, level as i64);
    tag.append("]");
    assert(tag@ =~= level_tag(level, guild.modules.autonickshowstring));
    let mut nick = String::new();
    if guild.modules.autonickuseprefix {
        nick.append(tag.as_str());
        nick.append(" ");
        nick.append(bare);
    } else {
        nick.append(bare);
        nick.append(" ");
        nick.append(tag.as_str());
    }
    assert(nick@ =~= tagged_nick(*guild, level, bare@));
    let too_long = {
        let bytes = nick.as_str().as_bytes();
        assert(bytes@ == vstd::utf8::encode_utf8(nick@));
        bytes.len() > MAX_NICK_BYTES
    };
    if too_long {
        None
    } else {
        Some(nick)
    }
}

/// The nickname to set for a member of `level` whose nickname is
/// `current_nick`: the old tag is taken out, then the new one put on. None
/// is set where the result is too long.
pub fn autonick(guild: &Guild, level: i32, current_nick: &str) -> (nick: Option<String>)
    ensures
        match regex_replace_first(tag_pattern(), current_nick@, ""@) {
            Some(bare) => {
                &&& nick is Some <==> nick_to_set(*guild, level, bare) is Some
                &&& nick is Some ==> nick->0@ == nick_to_set(*guild, level, bare)->0
            },
            None => nick is None,
        },
{
    match replace_first("\\s*\\[.*?\\]\\s*", current_nick, "") {
        Some(bare) => autonick_from(guild, level, bare.as_str()),
        None => None,
    }
}

} // verus!
