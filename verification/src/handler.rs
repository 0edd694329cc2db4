//! What the bot decides when the platform reports an event: a message, a
//! reaction, a new member, a change of voice state.

use vstd::prelude::*;
use crate::boosts::{
    apply_boost, boosted_xp, calculate_total_boost_percentage_by_ids, id_text_matches,
    lemma_boost_clamp_is_unseen, names_one_of, total_boost_percentage,
};
use crate::cooldown::{cooldown_active, last_action, on_cooldown};
use crate::duration::{elapsed_seconds, is_split_of, seconds_between, split_seconds, VoiceTime};
use crate::engine::{
    award_outcome_of, award_xp, member_after_award, ActivitySource, AwardOutcome,
};
use crate::guild::{Guild, GuildIgnores, GuildLevelRoles, AUTOROLE_LEVEL};
use crate::guild_member::GuildMember;
use crate::ids::{parsed_id, parse_id};
use crate::math::{
    billable_seconds, lemma_voice_clamp_is_unseen, voice_xp, voice_xp_between,
};
use crate::user::User;

verus! {

/// The bot's event handler.
#[derive(Clone, Copy, Debug, PartialEq, Eq)]
pub struct Handler;

/// Who acted and where: the member's roles, the channel, and the category
/// that the channel lies in, if it lies in one.
#[derive(Clone, Debug, PartialEq, Eq)]
pub struct ActivityContext {
    pub role_ids: Vec<u64>,
    pub channel_id: u64,
    pub category_id: Option<u64>,
}

/// Why an event earned nothing.
#[derive(Clone, Copy, Debug, PartialEq, Eq)]
pub enum Skip {
    /// The author is a bot.
    Bot,
    /// The message is shorter than five bytes.
    TooShort,
    /// The community has switched this source of XP off.
    ModuleDisabled,
    /// The member's cooldown has not run out.
    OnCooldown,
    /// A role of the member, the channel or its category is exempt from XP.
    Ignored,
}

/// What a message led to.
#[derive(Clone, Debug, PartialEq, Eq)]
pub struct MessageOutcome {
    pub skipped: Option<Skip>,
    pub award: Option<AwardOutcome>,
    /// Whether the member's nickname is to be looked at next.
    pub autonick: bool,
}

/// What a reaction led to.
#[derive(Clone, Debug, PartialEq, Eq)]
pub struct ReactionOutcome {
    pub skipped: Option<Skip>,
    pub award: Option<AwardOutcome>,
}

/// A change of a member's voice state.
#[derive(Clone, Copy, Debug, PartialEq, Eq)]
pub enum VoiceEvent {
    Join { channel: u64 },
    Leave { channel: u64 },
    Move { from: u64, to: u64 },
}

/// What a voice event does to the member's session.
#[derive(Clone, Copy, Debug, PartialEq, Eq)]
pub enum VoiceStep {
    /// Nothing: the session, or its absence, stays.
    Stay,
    /// A session begins.
    Open { join_timestamp: u64 },
    /// The session that began at `join_timestamp` ends; `channel` is the
    /// channel that the member was in.
    Close { join_timestamp: u64, channel: u64 },
}

/// What the end of a voice session earned, how long the member was in
/// voice, and the channel that the community wants a summary in, if it
/// names one.
#[derive(Clone, Debug, PartialEq, Eq)]
pub struct VoiceOutcome {
    pub xp: u32,
    pub award: AwardOutcome,
    pub time: VoiceTime,
    pub log_channel: Option<u64>,
}

/// The shortest message, in bytes, that earns XP.
pub const MIN_MESSAGE_LENGTH: usize = 5;

/// One of `texts` writes an identifier that is among `ids`.
pub open spec fn any_names_one_of(texts: Seq<String>, ids: Seq<u64>) -> bool {
    exists|i: int| 0 <= i < texts.len() && names_one_of(#[trigger] texts[i]@, ids)
}

/// The channel is exempt from XP.
pub open spec fn channel_ignored(ignored: GuildIgnores, channel_id: u64) -> bool {
    ignored.channels is Some && any_names_one_of(ignored.channels->0@, seq![channel_id])
}

/// The activity is exempt from XP: by one of the member's roles, by the
/// channel, or by the category.
pub open spec fn is_ignored(ignored: GuildIgnores, context: ActivityContext) -> bool {
    ||| any_names_one_of(ignored.roles@, context.role_ids@)
    ||| channel_ignored(ignored, context.channel_id)
    ||| (context.category_id is Some && ignored.categories is Some && any_names_one_of(
        ignored.categories->0@,
        seq![context.category_id->0],
    ))
}

/// What a message is worth to its author in this place.
pub open spec fn message_xp(guild: Guild, context: ActivityContext) -> int {
    boosted_xp(
        guild.values.messagexp as int,
        total_boost_percentage(
            guild.boosts,
            context.role_ids@,
            context.channel_id,
            context.category_id,
        ),
    )
}

/// What a reaction is worth to the member in this place.
pub open spec fn reaction_xp(guild: Guild, context: ActivityContext) -> int {
    boosted_xp(
        guild.values.reactionxp as int,
        total_boost_percentage(
            guild.boosts,
            context.role_ids@,
            context.channel_id,
            context.category_id,
        ),
    )
}

/// Why a message earns nothing whatever the community and the member are:
/// it comes from a bot, or it is too short.
pub open spec fn message_gate(author_is_bot: bool, content_length: usize) -> Option<Skip> {
    if author_is_bot {
        Some(Skip::Bot)
    } else if content_length < MIN_MESSAGE_LENGTH {
        Some(Skip::TooShort)
    } else {
        None
    }
}

/// Why a message earns nothing, if it does not. The first reason that
/// holds, in this order, is the one given.
pub open spec fn message_skip(
    guild: Guild,
    member: GuildMember,
    author_is_bot: bool,
    content_length: usize,
    context: ActivityContext,
    now: u64,
) -> Option<Skip> {
    if message_gate(author_is_bot, content_length) is Some {
        message_gate(author_is_bot, content_length)
    } else if !guild.modules.messagexp {
        Some(Skip::ModuleDisabled)
    } else if cooldown_active(
        now as int,
        last_action(member.timestamps.message_cooldown),
        guild.values.messagecooldown * 1000,
    ) {
        Some(Skip::OnCooldown)
    } else if is_ignored(guild.ignored, context) {
        Some(Skip::Ignored)
    } else {
        None
    }
}

/// Why a reaction earns nothing, if it does not.
pub open spec fn reaction_skip(guild: Guild, context: ActivityContext) -> Option<Skip> {
    if !guild.modules.reactionxp {
        Some(Skip::ModuleDisabled)
    } else if is_ignored(guild.ignored, context) {
        Some(Skip::Ignored)
    } else {
        None
    }
}

/// The role that a new member gets: the first autorole of the configuration
/// whose identifier is well formed.
pub open spec fn autorole(entries: Seq<GuildLevelRoles>) -> Option<u64>
    decreases entries.len(),
{
    if entries.len() == 0 {
        None
    } else if entries[0].level == AUTOROLE_LEVEL && parsed_id(entries[0].id@) is Some {
        parsed_id(entries[0].id@)
    } else {
        autorole(entries.drop_first())
    }
}

/// The event that a change of voice state is: from no channel into one is a
/// join, out of one into none a leave, from one into one a move.
pub open spec fn voice_event(old_channel: Option<u64>, new_channel: Option<u64>) -> Option<
    VoiceEvent,
> {
    match (old_channel, new_channel) {
        (None, Some(channel)) => Some(VoiceEvent::Join { channel }),
        (Some(channel), None) => Some(VoiceEvent::Leave { channel }),
        (Some(from), Some(to)) => Some(VoiceEvent::Move { from, to }),
        (None, None) => None,
    }
}

/// Time in the channel counts: it is not the community's AFK channel and
/// not exempt from XP.
pub open spec fn trackable(guild: Guild, afk_channel: Option<u64>, channel: u64) -> bool {
    afk_channel != Some(channel) && !channel_ignored(guild.ignored, channel)
}

/// What a voice event does to a member's session. `session` is the time at
/// which the open session began, if one is open. Entering a channel where
/// time counts, from outside voice or from a channel where it does not,
/// opens a session. Leaving voice, or going to a channel where time does not
/// count, closes the session that is open. A move between two channels
/// where time counts changes nothing, and neither does any event while the
/// community has voice XP switched off.
pub open spec fn voice_step(
    guild: Guild,
    afk_channel: Option<u64>,
    session: Option<u64>,
    event: VoiceEvent,
    now: u64,
) -> VoiceStep {
    if !guild.modules.voicexp {
        VoiceStep::Stay
    } else {
        match event {
            VoiceEvent::Join { channel } => if trackable(guild, afk_channel, channel) {
                VoiceStep::Open { join_timestamp: now }
            } else {
                VoiceStep::Stay
            },
            VoiceEvent::Leave { channel } => if session is Some {
                VoiceStep::Close { join_timestamp: session->0, channel }
            } else {
                VoiceStep::Stay
            },
            VoiceEvent::Move { from, to } => if !trackable(guild, afk_channel, to) {
                if session is Some {
                    VoiceStep::Close { join_timestamp: session->0, channel: from }
                } else {
                    VoiceStep::Stay
                }
            } else if !trackable(guild, afk_channel, from) {
                VoiceStep::Open { join_timestamp: now }
            } else {
                VoiceStep::Stay
            },
        }
    }
}

/// The member's session after a step.
pub open spec fn session_after(session: Option<u64>, step: VoiceStep) -> Option<u64> {
    match step {
        VoiceStep::Stay => session,
        VoiceStep::Open { join_timestamp } => Some(join_timestamp),
        VoiceStep::Close { .. } => None,
    }
}

/// What a voice session from `join_timestamp` to `now` is worth in this place.
pub open spec fn voice_session_xp(
    guild: Guild,
    context: ActivityContext,
    join_timestamp: u64,
    now: u64,
) -> int {
    voice_xp(
        guild.values.voicexp as int,
        billable_seconds(join_timestamp as int, now as int, guild.values.voicejoincooldown as int),
        total_boost_percentage(
            guild.boosts,
            context.role_ids@,
            context.channel_id,
            context.category_id,
        ),
    )
}

/// The channel that voice summaries go to: the one that the community
/// names, if it names one well.
pub open spec fn voice_log_channel(guild: Guild) -> Option<u64> {
    if guild.logs.voicetime is Some {
        parsed_id(guild.logs.voicetime->0@)
    } else {
        None
    }
}

/// Whether one of `texts` writes an identifier that is among `ids`.
pub fn any_id_text_matches(texts: &Vec<String>, ids: &Vec<u64>) -> (found: bool)
    ensures
        found == any_names_one_of(texts@, ids@),
{
    let mut index: usize = 0;
    while index < texts.len()
        invariant
            index <= texts.len(),
            forall|i: int| 0 <= i < index ==> !names_one_of(#[trigger] texts@[i]@, ids@),
        decreases texts.len() - index,
    {
        if id_text_matches(texts[index].as_str(), ids) {
            return true;
        }
        index = index + 1;
    }
    false
}

/// Whether the channel is exempt from XP.
pub fn is_channel_ignored(ignored: &GuildIgnores, channel_id: u64) -> (exempt: bool)
    ensures
        exempt == channel_ignored(*ignored, channel_id),
{
    match &ignored.channels {
        Some(channels) => {
            let mut one: Vec<u64> = Vec::new();
            one.push(channel_id);
            assert(one@ =~= seq![channel_id]);
            any_id_text_matches(channels, &one)
        },
        None => false,
    }
}

/// Whether the activity is exempt from XP.
pub fn is_activity_ignored(ignored: &GuildIgnores, context: &ActivityContext) -> (exempt: bool)
    ensures
        exempt == is_ignored(*ignored, *context),
{
    if any_id_text_matches(&ignored.roles, &context.role_ids) {
        return true;
    }
    if is_channel_ignored(ignored, context.channel_id) {
        return true;
    }
    match context.category_id {
        Some(category) => match &ignored.categories {
            Some(categories) => {
                let mut one: Vec<u64> = Vec::new();
                one.push(category);
                assert(one@ =~= seq![category]);
                any_id_text_matches(categories, &one)
            },
            None => false,
        },
        None => false,
    }
}

/// Whether time in the channel counts.
pub fn is_trackable(guild: &Guild, afk_channel: Option<u64>, channel: u64) -> (counts: bool)
    ensures
        counts == trackable(*guild, afk_channel, channel),
{
    let is_afk = match afk_channel {
        Some(afk) => afk == channel,
        None => false,
    };
    !is_afk && !is_channel_ignored(&guild.ignored, channel)
}

impl Handler {
    /// Whether a message is out of the question before the community and
    /// the member are looked up.
    pub fn message_allowed(author_is_bot: bool, content_length: usize) -> (skipped: Option<Skip>)
        ensures
            skipped == message_gate(author_is_bot, content_length),
    {
        if author_is_bot {
            Some(Skip::Bot)
        } else if content_length < MIN_MESSAGE_LENGTH {
            Some(Skip::TooShort)
        } else {
            None
        }
    }

    /// A member wrote a message. Where it earns XP the award is made on the
    /// member's record; where it does not, the record stays as it is.
    pub fn message(
        guild: &Guild,
        member: &mut GuildMember,
        author_is_bot: bool,
        content_length: usize,
        context: &ActivityContext,
        now: u64,
    ) -> (outcome: MessageOutcome)
        ensures
            outcome.skipped == message_skip(
                *guild,
                *old(member),
                author_is_bot,
                content_length,
                *context,
                now,
            ),
            outcome.autonick == (outcome.skipped is None || outcome.skipped == Some(
                Skip::ModuleDisabled,
            )),
            outcome.skipped is Some ==> outcome.award is None && *final(member) == *old(member),
            outcome.skipped is None ==> {
                &&& outcome.award is Some
                &&& award_outcome_of(
                    outcome.award->0,
                    *guild,
                    old(member).xp,
                    old(member).settings.incognito == Some(true),
                    message_xp(*guild, *context) as u64,
                    ActivitySource::Message,
                )
                &&& *final(member) == member_after_award(
                    *old(member),
                    message_xp(*guild, *context) as u64,
                    ActivitySource::Message,
                    now,
                )
            },
    {
        if author_is_bot {
            return MessageOutcome { skipped: Some(Skip::Bot), award: None, autonick: false };
        }
        if content_length < MIN_MESSAGE_LENGTH {
            return MessageOutcome { skipped: Some(Skip::TooShort), award: None, autonick: false };
        }
        if !guild.modules.messagexp {
            return MessageOutcome {
                skipped: Some(Skip::ModuleDisabled),
                award: None,
                autonick: true,
            };
        }
        if on_cooldown(now, member.timestamps.message_cooldown, guild.values.messagecooldown) {
            return MessageOutcome { skipped: Some(Skip::OnCooldown), award: None, autonick: false };
        }
        if is_activity_ignored(&guild.ignored, context) {
            return MessageOutcome { skipped: Some(Skip::Ignored), award: None, autonick: false };
        }
        let percentage = calculate_total_boost_percentage_by_ids(
            guild,
            &context.role_ids,
            context.channel_id,
            context.category_id,
        );
        let xp = apply_boost(guild.values.messagexp, percentage);
        proof {
            lemma_boost_clamp_is_unseen(
                guild.values.messagexp as int,
                total_boost_percentage(
                    guild.boosts,
                    context.role_ids@,
                    context.channel_id,
                    context.category_id,
                ),
            );
        }
        let award = award_xp(guild, member, xp as u64, ActivitySource::Message, now);
        MessageOutcome { skipped: None, award: Some(award), autonick: true }
    }

    /// A member reacted to a message.
    pub fn reaction_add(
        guild: &Guild,
        member: &mut GuildMember,
        context: &ActivityContext,
        now: u64,
    ) -> (outcome: ReactionOutcome)
        ensures
            outcome.skipped == reaction_skip(*guild, *context),
            outcome.skipped is Some ==> outcome.award is None && *final(member) == *old(member),
            outcome.skipped is None ==> {
                &&& outcome.award is Some
                &&& award_outcome_of(
                    outcome.award->0,
                    *guild,
                    old(member).xp,
                    old(member).settings.incognito == Some(true),
                    reaction_xp(*guild, *context) as u64,
                    ActivitySource::Reaction,
                )
                &&& *final(member) == member_after_award(
                    *old(member),
                    reaction_xp(*guild, *context) as u64,
                    ActivitySource::Reaction,
                    now,
                )
            },
    {
        if !guild.modules.reactionxp {
            return ReactionOutcome { skipped: Some(Skip::ModuleDisabled), award: None };
        }
        if is_activity_ignored(&guild.ignored, context) {
            return ReactionOutcome { skipped: Some(Skip::Ignored), award: None };
        }
        let percentage = calculate_total_boost_percentage_by_ids(
            guild,
            &context.role_ids,
            context.channel_id,
            context.category_id,
        );
        let xp = apply_boost(guild.values.reactionxp, percentage);
        proof {
            lemma_boost_clamp_is_unseen(
                guild.values.reactionxp as int,
                total_boost_percentage(
                    guild.boosts,
                    context.role_ids@,
                    context.channel_id,
                    context.category_id,
                ),
            );
        }
        let award = award_xp(guild, member, xp as u64, ActivitySource::Reaction, now);
        ReactionOutcome { skipped: None, award: Some(award) }
    }

    /// A member joined the community: the autorole to give, if one is set.
    pub fn guild_member_addition(guild: &Guild) -> (role: Option<u64>)
        ensures
            role == autorole(guild.levelroles@),
    {
        let mut index: usize = 0;
        assert(guild.levelroles@.skip(0) =~= guild.levelroles@);
        while index < guild.levelroles.len()
            invariant
                index <= guild.levelroles.len(),
                autorole(guild.levelroles@) == autorole(guild.levelroles@.skip(index as int)),
            decreases guild.levelroles.len() - index,
        {
            let entry = &guild.levelroles[index];
            proof {
                let rest = guild.levelroles@.skip(index as int);
                assert(rest[0] == guild.levelroles@[index as int]);
                assert(rest.drop_first() =~= guild.levelroles@.skip(index + 1));
            }
            if entry.level == AUTOROLE_LEVEL {
                match parse_id(entry.id.as_str()) {
                    Some(id) => {
                        return Some(id);
                    },
                    None => {},
                }
            }
            index = index + 1;
        }
        None
    }

    /// Which event a change of voice state is. `old_channel` is the channel
    /// that the member was in, `new_channel` the one that the member is in now.
    pub fn voice_state_update(old_channel: Option<u64>, new_channel: Option<u64>) -> (event:
        Option<VoiceEvent>)
        ensures
            event == voice_event(old_channel, new_channel),
    {
        match (old_channel, new_channel) {
            (None, Some(channel)) => Some(VoiceEvent::Join { channel }),
            (Some(channel), None) => Some(VoiceEvent::Leave { channel }),
            (Some(from), Some(to)) => Some(VoiceEvent::Move { from, to }),
            (None, None) => None,
        }
    }

    /// A member entered voice: opens a session where time in the channel counts.
    pub fn voice_join(
        guild: &Guild,
        user: &mut User,
        afk_channel: Option<u64>,
        channel: u64,
        now: u64,
    ) -> (step: VoiceStep)
        ensures
            step == voice_step(
                *guild,
                afk_channel,
                old(user).timestamps.join_voicechat,
                VoiceEvent::Join { channel },
                now,
            ),
            final(user).timestamps.join_voicechat == session_after(
                old(user).timestamps.join_voicechat,
                step,
            ),
            unchanged_but_session(*old(user), *final(user)),
    {
        Handler::voice_transition(guild, user, afk_channel, VoiceEvent::Join { channel }, now)
    }

    /// A member left voice: closes the session that is open, wherever the
    /// member was.
    pub fn voice_leave(
        guild: &Guild,
        user: &mut User,
        afk_channel: Option<u64>,
        channel: u64,
        now: u64,
    ) -> (step: VoiceStep)
        ensures
            step == voice_step(
                *guild,
                afk_channel,
                old(user).timestamps.join_voicechat,
                VoiceEvent::Leave { channel },
                now,
            ),
            final(user).timestamps.join_voicechat == session_after(
                old(user).timestamps.join_voicechat,
                step,
            ),
            unchanged_but_session(*old(user), *final(user)),
    {
        Handler::voice_transition(guild, user, afk_channel, VoiceEvent::Leave { channel }, now)
    }

    /// A member went from one voice channel to another. Going to where time
    /// does not count closes the session that is open, coming from there to
    /// where it counts opens one, and a move between two channels where time
    /// counts changes nothing.
    pub fn voice_move(
        guild: &Guild,
        user: &mut User,
        afk_channel: Option<u64>,
        from: u64,
        to: u64,
        now: u64,
    ) -> (step: VoiceStep)
        ensures
            step == voice_step(
                *guild,
                afk_channel,
                old(user).timestamps.join_voicechat,
                VoiceEvent::Move { from, to },
                now,
            ),
            final(user).timestamps.join_voicechat == session_after(
                old(user).timestamps.join_voicechat,
                step,
            ),
            unchanged_but_session(*old(user), *final(user)),
    {
        Handler::voice_transition(guild, user, afk_channel, VoiceEvent::Move { from, to }, now)
    }

    /// Takes a voice event to the member's session.
    pub fn voice_transition(
        guild: &Guild,
        user: &mut User,
        afk_channel: Option<u64>,
        event: VoiceEvent,
        now: u64,
    ) -> (step: VoiceStep)
        ensures
            step == voice_step(*guild, afk_channel, old(user).timestamps.join_voicechat, event, now),
            final(user).timestamps.join_voicechat == session_after(
                old(user).timestamps.join_voicechat,
                step,
            ),
            unchanged_but_session(*old(user), *final(user)),
    {
        let session = user.timestamps.join_voicechat;
        let step = if !guild.modules.voicexp {
            VoiceStep::Stay
        } else {
            match event {
                VoiceEvent::Join { channel } => {
                    if is_trackable(guild, afk_channel, channel) {
                        VoiceStep::Open { join_timestamp: now }
                    } else {
                        VoiceStep::Stay
                    }
                },
                VoiceEvent::Leave { channel } => {
                    match session {
                        Some(join_timestamp) => VoiceStep::Close { join_timestamp, channel },
                        None => VoiceStep::Stay,
                    }
                },
                VoiceEvent::Move { from, to } => {
                    if !is_trackable(guild, afk_channel, to) {
                        match session {
                            Some(join_timestamp) => VoiceStep::Close {
                                join_timestamp,
                                channel: from,
                            },
                            None => VoiceStep::Stay,
                        }
                    } else if !is_trackable(guild, afk_channel, from) {
                        VoiceStep::Open { join_timestamp: now }
                    } else {
                        VoiceStep::Stay
                    }
                },
            }
        };
        match step {
            VoiceStep::Stay => {},
            VoiceStep::Open { join_timestamp } => {
                user.timestamps.join_voicechat = Some(join_timestamp);
            },
            VoiceStep::Close { .. } => {
                user.timestamps.join_voicechat = None;
            },
        }
        step
    }

    /// A voice session ended: awards what the time from `join_timestamp` to
    /// `now` is worth where the member was. The first seconds of a session,
    /// as many as the community's join cooldown, earn nothing.
    pub fn voice_close(
        guild: &Guild,
        member: &mut GuildMember,
        context: &ActivityContext,
        join_timestamp: u64,
        now: u64,
    ) -> (outcome: VoiceOutcome)
        ensures
            outcome.xp == voice_session_xp(*guild, *context, join_timestamp, now),
            is_split_of(outcome.time, seconds_between(join_timestamp, now)),
            outcome.log_channel == voice_log_channel(*guild),
            award_outcome_of(
                outcome.award,
                *guild,
                old(member).xp,
                old(member).settings.incognito == Some(true),
                outcome.xp as u64,
                ActivitySource::Voice,
            ),
            *final(member) == member_after_award(
                *old(member),
                outcome.xp as u64,
                ActivitySource::Voice,
                now,
            ),
    {
        let percentage = calculate_total_boost_percentage_by_ids(
            guild,
            &context.role_ids,
            context.channel_id,
            context.category_id,
        );
        let xp = voice_xp_between(
            join_timestamp as i128,
            now as i128,
            guild.values.voicexp,
            guild.values.voicejoincooldown,
            percentage,
        );
        proof {
            lemma_voice_clamp_is_unseen(
                guild.values.voicexp as int,
                billable_seconds(
                    join_timestamp as int,
                    now as int,
                    guild.values.voicejoincooldown as int,
                ),
                total_boost_percentage(
                    guild.boosts,
                    context.role_ids@,
                    context.channel_id,
                    context.category_id,
                ),
            );
        }
        let award = award_xp(guild, member, xp as u64, ActivitySource::Voice, now);
        let log_channel = match &guild.logs.voicetime {
            Some(channel) => parse_id(channel.as_str()),
            None => None,
        };
        VoiceOutcome {
            xp,
            award,
            time: split_seconds(elapsed_seconds(join_timestamp, now)),
            log_channel,
        }
    }
}

/// The first message of a member who never posted is not held back by the
/// cooldown, whatever the clock and the cooldown's length are: it earns
/// wherever the author is no bot, the message is long enough, message XP is
/// switched on and nothing is exempt.
pub proof fn lemma_first_message_earns(
    guild: Guild,
    member: GuildMember,
    content_length: usize,
    context: ActivityContext,
    now: u64,
)
    requires
        content_length >= MIN_MESSAGE_LENGTH,
        guild.modules.messagexp,
        last_action(member.timestamps.message_cooldown) == 0,
        !is_ignored(guild.ignored, context),
    ensures
        message_skip(guild, member, false, content_length, context, now) is None,
{
}

/// A message that earns adds what it is worth to the member's XP, unless
/// the record cannot hold the sum, and sets the time of the last message.
pub proof fn lemma_message_award(
    guild: Guild,
    member: GuildMember,
    context: ActivityContext,
    now: u64,
)
    requires
        member.xp + message_xp(guild, context) <= u64::MAX,
    ensures
        0 <= message_xp(guild, context) <= u32::MAX,
        member_after_award(
            member,
            message_xp(guild, context) as u64,
            ActivitySource::Message,
            now,
        ).xp == member.xp + message_xp(guild, context),
        member_after_award(
            member,
            message_xp(guild, context) as u64,
            ActivitySource::Message,
            now,
        ).timestamps.message_cooldown == Some(now),
{
}

/// Leaving voice ends the session that is open, wherever the member was.
pub proof fn lemma_leave_ends_session(
    guild: Guild,
    afk_channel: Option<u64>,
    join_timestamp: u64,
    channel: u64,
    now: u64,
)
    requires
        guild.modules.voicexp,
    ensures
        voice_step(
            guild,
            afk_channel,
            Some(join_timestamp),
            VoiceEvent::Leave { channel },
            now,
        ) == (VoiceStep::Close { join_timestamp, channel }),
        session_after(
            Some(join_timestamp),
            voice_step(
                guild,
                afk_channel,
                Some(join_timestamp),
                VoiceEvent::Leave { channel },
                now,
            ),
        ) is None,
{
}

/// The end of a voice session adds what the session is worth to the
/// member's XP, unless the record cannot hold the sum, and sets no timestamp.
pub proof fn lemma_voice_award(
    guild: Guild,
    member: GuildMember,
    context: ActivityContext,
    join_timestamp: u64,
    now: u64,
)
    requires
        member.xp + voice_session_xp(guild, context, join_timestamp, now) <= u64::MAX,
    ensures
        0 <= voice_session_xp(guild, context, join_timestamp, now) <= u32::MAX,
        member_after_award(
            member,
            voice_session_xp(guild, context, join_timestamp, now) as u64,
            ActivitySource::Voice,
            now,
        ).xp == member.xp + voice_session_xp(guild, context, join_timestamp, now),
        member_after_award(
            member,
            voice_session_xp(guild, context, join_timestamp, now) as u64,
            ActivitySource::Voice,
            now,
        ).timestamps == member.timestamps,
{
}

/// A voice event touches nothing of a user's record but the open session.
pub open spec fn unchanged_but_session(before: User, after: User) -> bool {
    &&& after.badges == before.badges
    &&& after.titles == before.titles
    &&& after.settings == before.settings
    &&& after.timestamps.message_cooldown == before.timestamps.message_cooldown
    &&& after.timestamps.game_trivia == before.timestamps.game_trivia
    &&& after.timestamps.game_daily == before.timestamps.game_daily
    &&& after.timestamps.game_fish == before.timestamps.game_fish
    &&& after.timestamps.game_loot == before.timestamps.game_loot
    &&& after.timestamps.game_roll == before.timestamps.game_roll
}

} // verus!
