//! The games: daily, roll, fish, loot, trivia and party.

use vstd::prelude::*;
use crate::boosts::contains_id;
use crate::cooldown::{cooldown_active, cooldown_left, cooldown_wait, last_action, on_cooldown};
use crate::engine::{
    award_outcome_of, award_xp, member_after_award, ActivitySource, AwardOutcome, StreakReset,
};
use crate::games::{
    daily_amount, daily_xp, fish_factor, fish_item, fish_label, fish_multiplier, game_amount,
    loot_factor, loot_item, loot_label, loot_multiplier, roll_die, scaled_amount, GameResult,
    DIE_SIDES, FISH_SIDES, LOOT_SIDES,
};
use crate::guild::Guild;
use crate::guild_member::{GuildMember, GuildMemberStreaks};
use crate::ids::{parsed_id, parse_id};
use crate::math::clamp;
use crate::opentdb::OTDBQuestion;
use crate::random::{random_in_range, shuffle_items};

verus! {

/// The `/daily` command.
#[derive(Clone, Copy, Debug, PartialEq, Eq)]
pub struct DailyCommand;

/// The `/fish` command.
#[derive(Clone, Copy, Debug, PartialEq, Eq)]
pub struct FishCommand;

/// The `/loot` command.
#[derive(Clone, Copy, Debug, PartialEq, Eq)]
pub struct LootCommand;

/// The `/party` command.
#[derive(Clone, Copy, Debug, PartialEq, Eq)]
pub struct PartyCommand;

/// The `/roll` command.
#[derive(Clone, Copy, Debug, PartialEq, Eq)]
pub struct RollCommand;

/// The `/trivia` command.
#[derive(Clone, Copy, Debug, PartialEq, Eq)]
pub struct TriviaCommand;

/// The games.
#[derive(Clone, Copy, Debug, PartialEq, Eq)]
pub enum Game {
    Daily,
    Fish,
    Loot,
    Party,
    Roll,
    Trivia,
}

/// Why a game is not played.
#[derive(Clone, Copy, Debug, PartialEq, Eq)]
pub enum GameRefusal {
    /// The community has switched the game off.
    ModuleDisabled,
    /// The member has neither voted nor is exempt from voting.
    VoteRequired,
    /// The member has to wait; `time_left` is in milliseconds.
    OnCooldown { time_left: u128 },
}

/// A roll of the die and what it earned.
#[derive(Clone, Debug, PartialEq, Eq)]
pub struct RollPlayed {
    pub die: u32,
    pub xp: u64,
    pub award: AwardOutcome,
}

/// A catch or a crate and what it earned.
#[derive(Clone, Debug, PartialEq, Eq)]
pub struct ItemFound {
    pub item: String,
    pub xp: u64,
    pub award: AwardOutcome,
}

/// A daily claim: what it earned, the streak it made, and the streak that
/// it broke, if it broke one.
#[derive(Clone, Debug, PartialEq, Eq)]
pub struct DailyClaimed {
    pub xp: u64,
    pub streak: u64,
    pub reset: Option<StreakReset>,
    pub award: AwardOutcome,
}

/// A question as it is shown: what it is worth, the answers in the order
/// they are shown in, and the place of the right one, counted from zero.
#[derive(Clone, Debug, PartialEq, Eq)]
pub struct TriviaAsked {
    pub xp: u64,
    pub answers: Vec<String>,
    pub correct_slot: usize,
}

/// An answer to a question: who gave it, which place was picked, counted
/// from zero, and when.
#[derive(Clone, Copy, Debug, PartialEq, Eq)]
pub struct TriviaAnswer {
    pub user_id: u64,
    pub slot: usize,
    pub at: u64,
}

/// How a question ended.
#[derive(Clone, Debug, PartialEq, Eq)]
pub enum TriviaVerdict {
    /// Nobody who could answer did so in time.
    TimedOut,
    /// The answer was wrong.
    Wrong,
    /// The answer was right.
    Correct { award: AwardOutcome },
}

/// What a party round earned one participant.
#[derive(Clone, Debug, PartialEq, Eq)]
pub struct PartyRound {
    pub games: GameResult,
    pub award: AwardOutcome,
}

/// The seconds between two daily claims.
pub const DAILY_COOLDOWN_SECONDS: i64 = 86_400;

/// The milliseconds after a daily claim within which the next one keeps the streak.
pub const STREAK_WINDOW_MS: u64 = 172_800_000;

/// The milliseconds that a question, or a party's invitation, stays open.
pub const ANSWER_WINDOW_MS: u64 = 30_000;

/// The members that a party needs.
pub const PARTY_MINIMUM: usize = 2;

/// The clicks on the join button that a party's invitation takes.
pub const PARTY_COLLECT_LIMIT: usize = 10;

/// Whether a member is exempt from voting: in a community that is, or as a
/// premium user. A lookup that failed (`None`) exempts nobody.
pub open spec fn exempt_from_vote(user_premium: Option<bool>, vote_free: Option<bool>) -> bool {
    vote_free == Some(true) || user_premium == Some(true)
}

/// Whether the community has switched a game on: trivia has a switch of
/// its own, the others share one.
pub open spec fn game_enabled(guild: Guild, game: Game) -> bool {
    if game == Game::Trivia {
        guild.modules.trivia
    } else {
        guild.modules.games
    }
}

/// Why a game is not played whatever the member's record says, if it is not.
pub open spec fn gate_refusal(guild: Guild, game: Game, eligible: bool) -> Option<GameRefusal> {
    if !game_enabled(guild, game) {
        Some(GameRefusal::ModuleDisabled)
    } else if !eligible {
        Some(GameRefusal::VoteRequired)
    } else {
        None
    }
}

/// Why a game is not played, if it is not: the first of the reasons that holds.
pub open spec fn game_refusal(
    enabled: bool,
    eligible: bool,
    now: u64,
    last: Option<u64>,
    cooldown_seconds: i64,
) -> Option<GameRefusal> {
    if !enabled {
        Some(GameRefusal::ModuleDisabled)
    } else if !eligible {
        Some(GameRefusal::VoteRequired)
    } else if cooldown_active(now as int, last_action(last), cooldown_seconds * 1000) {
        Some(
            GameRefusal::OnCooldown {
                time_left: cooldown_left(now as int, last_action(last), cooldown_seconds * 1000) as u128,
            },
        )
    } else {
        None
    }
}

/// Whether a daily claim at `now` breaks the streak: there never was a
/// claim before, or more than 48 hours have passed since the last one.
pub open spec fn streak_broken(now: u64, last: Option<u64>) -> bool {
    last_action(last) == 0 || now - last_action(last) > STREAK_WINDOW_MS
}

/// The streak so far, zero where none is recorded.
pub open spec fn streak_so_far(streak: Option<u64>) -> u64 {
    match streak {
        Some(count) => count,
        None => 0,
    }
}

/// The streak that a daily claim at `now` makes.
pub open spec fn next_daily_streak(now: u64, last: Option<u64>, streak: Option<u64>) -> int {
    if streak_broken(now, last) {
        1
    } else {
        clamp(streak_so_far(streak) + 1, 0, u64::MAX as int)
    }
}

/// The streak after one more right answer.
pub open spec fn next_trivia_streak(streak: Option<u64>) -> int {
    clamp(streak_so_far(streak) + 1, 0, u64::MAX as int)
}

/// `order` names each of the four answers once.
pub open spec fn is_arrangement(order: Seq<u8>) -> bool {
    order.to_multiset() == seq![0u8, 1u8, 2u8, 3u8].to_multiset()
}

/// The answer of a question by its number: 0 is the right one, 1 to 3 are
/// the first three wrong ones.
pub open spec fn candidate(question: OTDBQuestion, number: u8) -> Seq<char> {
    if number == 0 {
        question.correct_answer@
    } else {
        question.incorrect_answers@[number - 1]@
    }
}

/// Whether `asked` shows `question` in the order `order`, worth `base`
/// times the question's difficulty.
pub open spec fn shows(asked: TriviaAsked, question: OTDBQuestion, order: Seq<u8>, base: i64) -> bool {
    &&& asked.xp == game_amount(
        crate::games::difficulty_multiplier(question.difficulty@),
        base as int,
    )
    &&& asked.answers@.len() == 4
    &&& order.len() == 4
    &&& forall|i: int| 0 <= i < 4 ==> (#[trigger] asked.answers@[i])@ == candidate(question, order[i])
    &&& 0 <= asked.correct_slot < 4
    &&& order[asked.correct_slot as int] == 0
}

/// The place that a button stands for: the buttons are numbered from one,
/// the places from zero. A name that is no number from one to four stands
/// for no place.
pub open spec fn button_slot(custom_id: Seq<char>) -> Option<usize> {
    match parsed_id(custom_id) {
        Some(number) => if 1 <= number <= 4 {
            Some((number - 1) as usize)
        } else {
            None
        },
        None => None,
    }
}

/// Whether an answer wins: it came from the member who asked, within the
/// time that a question stays open, and picked the right place.
pub open spec fn answer_wins(
    answer: TriviaAnswer,
    asker: u64,
    asked_at: u64,
    correct_slot: usize,
) -> bool {
    answer.user_id == asker && answer.at - asked_at <= ANSWER_WINDOW_MS && answer.slot
        == correct_slot
}

/// Whether an answer counts at all: it came from the member who asked,
/// within the time that a question stays open.
pub open spec fn answer_counts(answer: TriviaAnswer, asker: u64, asked_at: u64) -> bool {
    answer.user_id == asker && answer.at - asked_at <= ANSWER_WINDOW_MS
}

/// What a participant's three games add up to.
pub open spec fn party_total(games: GameResult) -> int {
    games.roll + games.fish + games.loot
}

/// What one game of a party round is worth: `multiplier` base amounts,
/// never under zero, held to 32 bits.
pub open spec fn party_amount(multiplier: int, base: int) -> int {
    clamp(multiplier * base, 0, u32::MAX as int)
}

/// A participant's three games for given draws.
pub open spec fn party_games(guild: Guild, die: int, fish_draw: int, loot_draw: int) -> GameResult {
    GameResult {
        roll: party_amount(die, guild.values.rollXP as int) as u32,
        fish: party_amount(fish_multiplier(fish_draw), guild.values.fishXP as int) as u32,
        loot: party_amount(loot_multiplier(loot_draw), guild.values.lootXP as int) as u32,
    }
}

/// The winner of a party: the participant with the highest total, the
/// first-listed of those who share it.
pub open spec fn is_winner(rounds: Seq<GameResult>, winner: int) -> bool {
    &&& 0 <= winner < rounds.len()
    &&& forall|i: int| 0 <= i < rounds.len() ==> party_total(#[trigger] rounds[i]) <= party_total(rounds[winner])
    &&& forall|i: int| 0 <= i < winner ==> party_total(#[trigger] rounds[i]) < party_total(rounds[winner])
}

/// Whether a member is exempt from voting.
pub fn vote_exempt(user_premium: Option<bool>, vote_free: Option<bool>) -> (exempt: bool)
    ensures
        exempt == exempt_from_vote(user_premium, vote_free),
{
    let free = match vote_free {
        Some(flag) => flag,
        None => false,
    };
    let premium = match user_premium {
        Some(flag) => flag,
        None => false,
    };
    free || premium
}

/// Whether a member may play: exempt from voting, or has voted.
pub fn eligibility_helper(user_premium: Option<bool>, vote_free: Option<bool>, voted: bool) -> (eligible: bool)
    ensures
        eligible == (exempt_from_vote(user_premium, vote_free) || voted),
{
    vote_exempt(user_premium, vote_free) || voted
}

/// Why a game is not played before the member's record is looked at.
pub fn game_gate(guild: &Guild, game: Game, eligible: bool) -> (refusal: Option<GameRefusal>)
    ensures
        refusal == gate_refusal(*guild, game, eligible),
{
    let enabled = match game {
        Game::Trivia => guild.modules.trivia,
        _ => guild.modules.games,
    };
    if !enabled {
        Some(GameRefusal::ModuleDisabled)
    } else if !eligible {
        Some(GameRefusal::VoteRequired)
    } else {
        None
    }
}

/// Why a game is not played, if it is not.
pub fn check_game(
    enabled: bool,
    eligible: bool,
    now: u64,
    last: Option<u64>,
    cooldown_seconds: i64,
) -> (refusal: Option<GameRefusal>)
    ensures
        refusal == game_refusal(enabled, eligible, now, last, cooldown_seconds),
{
    if !enabled {
        Some(GameRefusal::ModuleDisabled)
    } else if !eligible {
        Some(GameRefusal::VoteRequired)
    } else if on_cooldown(now, last, cooldown_seconds) {
        Some(GameRefusal::OnCooldown { time_left: cooldown_wait(now, last, cooldown_seconds) })
    } else {
        None
    }
}

fn party_part(multiplier: u32, base: i64) -> (xp: u32)
    ensures
        xp == party_amount(multiplier as int, base as int),
{
    let amount = scaled_amount(multiplier, base);
    if amount > u32::MAX as u64 {
        u32::MAX
    } else {
        amount as u32
    }
}

impl RollCommand {
    /// The command's name.
    pub fn name(&self) -> (name: &'static str)
        ensures
            name@ == "roll"@,
    {
        "roll"
    }

    /// Plays a roll that came up `die`.
    pub fn play(guild: &Guild, member: &mut GuildMember, eligible: bool, now: u64, die: u32) -> (played:
        Result<RollPlayed, GameRefusal>)
        ensures
            match game_refusal(
                guild.modules.games,
                eligible,
                now,
                old(member).timestamps.game_roll,
                guild.values.gamecooldown,
            ) {
                Some(refusal) => played == Err::<RollPlayed, GameRefusal>(refusal) && *final(member)
                    == *old(member),
                None => {
                    &&& played is Ok
                    &&& played->Ok_0.die == die
                    &&& played->Ok_0.xp == game_amount(die as int, guild.values.rollXP as int)
                    &&& award_outcome_of(
                        played->Ok_0.award,
                        *guild,
                        old(member).xp,
                        old(member).settings.incognito == Some(true),
                        played->Ok_0.xp,
                        ActivitySource::Roll,
                    )
                    &&& *final(member) == member_after_award(
                        *old(member),
                        played->Ok_0.xp,
                        ActivitySource::Roll,
                        now,
                    )
                },
            },
    {
        match check_game(
            guild.modules.games,
            eligible,
            now,
            member.timestamps.game_roll,
            guild.values.gamecooldown,
        ) {
            Some(refusal) => Err(refusal),
            None => {
                let xp = scaled_amount(die, guild.values.rollXP);
                let award = award_xp(guild, member, xp, ActivitySource::Roll, now);
                Ok(RollPlayed { die, xp, award })
            },
        }
    }

    /// Rolls the die and plays.
    pub fn exec(guild: &Guild, member: &mut GuildMember, eligible: bool, now: u64) -> (played: Result<
        RollPlayed,
        GameRefusal,
    >)
        ensures
            match game_refusal(
                guild.modules.games,
                eligible,
                now,
                old(member).timestamps.game_roll,
                guild.values.gamecooldown,
            ) {
                Some(refusal) => played == Err::<RollPlayed, GameRefusal>(refusal) && *final(member)
                    == *old(member),
                None => {
                    &&& played is Ok
                    &&& 1 <= played->Ok_0.die <= DIE_SIDES
                    &&& played->Ok_0.xp == game_amount(
                        played->Ok_0.die as int,
                        guild.values.rollXP as int,
                    )
                    &&& award_outcome_of(
                        played->Ok_0.award,
                        *guild,
                        old(member).xp,
                        old(member).settings.incognito == Some(true),
                        played->Ok_0.xp,
                        ActivitySource::Roll,
                    )
                    &&& *final(member) == member_after_award(
                        *old(member),
                        played->Ok_0.xp,
                        ActivitySource::Roll,
                        now,
                    )
                },
            },
    {
        let die = roll_die();
        RollCommand::play(guild, member, eligible, now, die)
    }
}

impl FishCommand {
    /// The command's name.
    pub fn name(&self) -> (name: &'static str)
        ensures
            name@ == "fish"@,
    {
        "fish"
    }

    /// Plays a fishing trip whose draw from the table was `draw`.
    pub fn play(guild: &Guild, member: &mut GuildMember, eligible: bool, now: u64, draw: u32) -> (played:
        Result<ItemFound, GameRefusal>)
        ensures
            match game_refusal(
                guild.modules.games,
                eligible,
                now,
                old(member).timestamps.game_fish,
                guild.values.gamecooldown,
            ) {
                Some(refusal) => played == Err::<ItemFound, GameRefusal>(refusal) && *final(member)
                    == *old(member),
                None => {
                    &&& played is Ok
                    &&& played->Ok_0.item@ == fish_label(draw as int)
                    &&& played->Ok_0.xp == game_amount(
                        fish_multiplier(draw as int),
                        guild.values.fishXP as int,
                    )
                    &&& award_outcome_of(
                        played->Ok_0.award,
                        *guild,
                        old(member).xp,
                        old(member).settings.incognito == Some(true),
                        played->Ok_0.xp,
                        ActivitySource::Fish,
                    )
                    &&& *final(member) == member_after_award(
                        *old(member),
                        played->Ok_0.xp,
                        ActivitySource::Fish,
                        now,
                    )
                },
            },
    {
        match check_game(
            guild.modules.games,
            eligible,
            now,
            member.timestamps.game_fish,
            guild.values.gamecooldown,
        ) {
            Some(refusal) => Err(refusal),
            None => {
                let xp = scaled_amount(fish_factor(draw), guild.values.fishXP);
                let award = award_xp(guild, member, xp, ActivitySource::Fish, now);
                Ok(ItemFound { item: fish_item(draw), xp, award })
            },
        }
    }

    /// Draws from the fishing table and plays.
    pub fn exec(guild: &Guild, member: &mut GuildMember, eligible: bool, now: u64) -> (played: Result<
        ItemFound,
        GameRefusal,
    >)
        ensures
            match game_refusal(
                guild.modules.games,
                eligible,
                now,
                old(member).timestamps.game_fish,
                guild.values.gamecooldown,
            ) {
                Some(refusal) => played == Err::<ItemFound, GameRefusal>(refusal) && *final(member)
                    == *old(member),
                None => {
                    &&& played is Ok
                    &&& exists|draw: int|
                        1 <= draw <= FISH_SIDES && played->Ok_0.item@ == #[trigger] fish_label(draw)
                            && played->Ok_0.xp == game_amount(
                            fish_multiplier(draw),
                            guild.values.fishXP as int,
                        )
                    &&& award_outcome_of(
                        played->Ok_0.award,
                        *guild,
                        old(member).xp,
                        old(member).settings.incognito == Some(true),
                        played->Ok_0.xp,
                        ActivitySource::Fish,
                    )
                    &&& *final(member) == member_after_award(
                        *old(member),
                        played->Ok_0.xp,
                        ActivitySource::Fish,
                        now,
                    )
                },
            },
    {
        let draw = random_in_range(1, FISH_SIDES);
        let played = FishCommand::play(guild, member, eligible, now, draw);
        proof {
            if played is Ok {
                assert(played->Ok_0.item@ == fish_label(draw as int));
            }
        }
        played
    }
}

impl LootCommand {
    /// The command's name.
    pub fn name(&self) -> (name: &'static str)
        ensures
            name@ == "loot"@,
    {
        "loot"
    }

    /// Plays the opening of a crate whose draw from the table was `draw`.
    pub fn play(guild: &Guild, member: &mut GuildMember, eligible: bool, now: u64, draw: u32) -> (played:
        Result<ItemFound, GameRefusal>)
        ensures
            match game_refusal(
                guild.modules.games,
                eligible,
                now,
                old(member).timestamps.game_loot,
                guild.values.gamecooldown,
            ) {
                Some(refusal) => played == Err::<ItemFound, GameRefusal>(refusal) && *final(member)
                    == *old(member),
                None => {
                    &&& played is Ok
                    &&& played->Ok_0.item@ == loot_label(draw as int)
                    &&& played->Ok_0.xp == game_amount(
                        loot_multiplier(draw as int),
                        guild.values.lootXP as int,
                    )
                    &&& award_outcome_of(
                        played->Ok_0.award,
                        *guild,
                        old(member).xp,
                        old(member).settings.incognito == Some(true),
                        played->Ok_0.xp,
                        ActivitySource::Loot,
                    )
                    &&& *final(member) == member_after_award(
                        *old(member),
                        played->Ok_0.xp,
                        ActivitySource::Loot,
                        now,
                    )
                },
            },
    {
        match check_game(
            guild.modules.games,
            eligible,
            now,
            member.timestamps.game_loot,
            guild.values.gamecooldown,
        ) {
            Some(refusal) => Err(refusal),
            None => {
                let xp = scaled_amount(loot_factor(draw), guild.values.lootXP);
                let award = award_xp(guild, member, xp, ActivitySource::Loot, now);
                Ok(ItemFound { item: loot_item(draw), xp, award })
            },
        }
    }

    /// Draws from the loot table and plays.
    pub fn exec(guild: &Guild, member: &mut GuildMember, eligible: bool, now: u64) -> (played: Result<
        ItemFound,
        GameRefusal,
    >)
        ensures
            match game_refusal(
                guild.modules.games,
                eligible,
                now,
                old(member).timestamps.game_loot,
                guild.values.gamecooldown,
            ) {
                Some(refusal) => played == Err::<ItemFound, GameRefusal>(refusal) && *final(member)
                    == *old(member),
                None => {
                    &&& played is Ok
                    &&& exists|draw: int|
                        1 <= draw <= LOOT_SIDES && played->Ok_0.item@ == #[trigger] loot_label(draw)
                            && played->Ok_0.xp == game_amount(
                            loot_multiplier(draw),
                            guild.values.lootXP as int,
                        )
                    &&& award_outcome_of(
                        played->Ok_0.award,
                        *guild,
                        old(member).xp,
                        old(member).settings.incognito == Some(true),
                        played->Ok_0.xp,
                        ActivitySource::Loot,
                    )
                    &&& *final(member) == member_after_award(
                        *old(member),
                        played->Ok_0.xp,
                        ActivitySource::Loot,
                        now,
                    )
                },
            },
    {
        let draw = random_in_range(1, LOOT_SIDES);
        let played = LootCommand::play(guild, member, eligible, now, draw);
        proof {
            if played is Ok {
                assert(played->Ok_0.item@ == loot_label(draw as int));
            }
        }
        played
    }
}

impl DailyCommand {
    /// The command's name.
    pub fn name(&self) -> (name: &'static str)
        ensures
            name@ == "daily"@,
    {
        "daily"
    }

    /// Claims the daily XP. A claim within 48 hours of the last one adds to
    /// the streak; a later one begins a new streak and reports the old one.
    pub fn exec(guild: &Guild, member: &mut GuildMember, eligible: bool, now: u64) -> (claimed: Result<
        DailyClaimed,
        GameRefusal,
    >)
        ensures
            match game_refusal(
                guild.modules.games,
                eligible,
                now,
                old(member).timestamps.game_daily,
                DAILY_COOLDOWN_SECONDS,
            ) {
                Some(refusal) => claimed == Err::<DailyClaimed, GameRefusal>(refusal)
                    && *final(member) == *old(member),
                None => {
                    let streak = next_daily_streak(
                        now,
                        old(member).timestamps.game_daily,
                        old(member).streaks.game_daily,
                    );
                    &&& claimed is Ok
                    &&& claimed->Ok_0.streak == streak
                    &&& claimed->Ok_0.xp == daily_xp(streak, guild.values.maximumdailyxp as int)
                    &&& claimed->Ok_0.reset == (if streak_broken(
                        now,
                        old(member).timestamps.game_daily,
                    ) {
                        Some(
                            StreakReset {
                                old_streak: streak_so_far(old(member).streaks.game_daily),
                            },
                        )
                    } else {
                        None
                    })
                    &&& award_outcome_of(
                        claimed->Ok_0.award,
                        *guild,
                        old(member).xp,
                        old(member).settings.incognito == Some(true),
                        claimed->Ok_0.xp,
                        ActivitySource::Daily,
                    )
                    &&& *final(member) == (GuildMember {
                        streaks: GuildMemberStreaks {
                            game_daily: Some(streak as u64),
                            ..old(member).streaks
                        },
                        ..member_after_award(
                            *old(member),
                            claimed->Ok_0.xp,
                            ActivitySource::Daily,
                            now,
                        )
                    })
                },
            },
    {
        match check_game(
            guild.modules.games,
            eligible,
            now,
            member.timestamps.game_daily,
            DAILY_COOLDOWN_SECONDS,
        ) {
            Some(refusal) => Err(refusal),
            None => {
                let last: u64 = match member.timestamps.game_daily {
                    Some(at) => at,
                    None => 0,
                };
                let old_streak: u64 = match member.streaks.game_daily {
                    Some(count) => count,
                    None => 0,
                };
                let broken = last == 0 || (now as i128) - (last as i128) > (STREAK_WINDOW_MS
                    as i128);
                let (streak, reset) = if broken {
                    (1, Some(StreakReset { old_streak }))
                } else if old_streak == u64::MAX {
                    (u64::MAX, None)
                } else {
                    (old_streak + 1, None)
                };
                let xp = daily_amount(streak, guild.values.maximumdailyxp);
                let award = award_xp(guild, member, xp, ActivitySource::Daily, now);
                member.streaks.game_daily = Some(streak);
                Ok(DailyClaimed { xp, streak, reset, award })
            },
        }
    }
}

impl TriviaCommand {
    /// The command's name.
    pub fn name(&self) -> (name: &'static str)
        ensures
            name@ == "trivia"@,
    {
        "trivia"
    }

    /// Why no question is asked, if none is.
    pub fn check(guild: &Guild, member: &GuildMember, eligible: bool, now: u64) -> (refusal: Option<
        GameRefusal,
    >)
        ensures
            refusal == game_refusal(
                guild.modules.trivia,
                eligible,
                now,
                member.timestamps.game_trivia,
                guild.values.triviacooldown,
            ),
    {
        check_game(
            guild.modules.trivia,
            eligible,
            now,
            member.timestamps.game_trivia,
            guild.values.triviacooldown,
        )
    }

    /// Shows a question with its answers in the order that `order` gives.
    pub fn arrange(guild: &Guild, question: &OTDBQuestion, order: &Vec<u8>) -> (asked: TriviaAsked)
        requires
            question.askable(),
            is_arrangement(order@),
        ensures
            shows(asked, *question, order@, guild.values.triviaxp),
    {
        proof {
            lemma_arrangement(order@);
        }
        let xp = scaled_amount(question.xp_multiplier(), guild.values.triviaxp);
        let mut answers: Vec<String> = Vec::new();
        let mut correct_slot: usize = 0;
        let mut index: usize = 0;
        while index < 4
            invariant
                index <= 4,
                order@.len() == 4,
                question.askable(),
                forall|i: int| 0 <= i < 4 ==> #[trigger] order@[i] <= 3,
                answers@.len() == index,
                forall|i: int|
                    0 <= i < index ==> (#[trigger] answers@[i])@ == candidate(*question, order@[i]),
                correct_slot < 4,
                (exists|i: int| 0 <= i < index && order@[i] == 0) ==> order@[correct_slot as int]
                    == 0,
            decreases 4 - index,
        {
            let number = order[index];
            assert(order@[index as int] <= 3);
            if number == 0 {
                answers.push(question.correct_answer.clone());
                correct_slot = index;
            } else {
                answers.push(question.incorrect_answers[(number - 1) as usize].clone());
            }
            index = index + 1;
        }
        TriviaAsked { xp, answers, correct_slot }
    }

    /// Shows a question with its answers in an order drawn by chance. A
    /// question with fewer than three wrong answers is not shown.
    pub fn ask(guild: &Guild, question: &OTDBQuestion) -> (asked: Option<TriviaAsked>)
        ensures
            asked is Some <==> question.askable(),
            asked is Some ==> exists|order: Seq<u8>|
                is_arrangement(order) && #[trigger] shows(
                    asked->0,
                    *question,
                    order,
                    guild.values.triviaxp,
                ),
    {
        if !question.is_askable() {
            return None;
        }
        let mut order: Vec<u8> = Vec::new();
        order.push(0);
        order.push(1);
        order.push(2);
        order.push(3);
        assert(order@ =~= seq![0u8, 1u8, 2u8, 3u8]);
        shuffle_items(&mut order);
        let asked = TriviaCommand::arrange(guild, question, &order);
        let ghost drawn = order@;
        assert(is_arrangement(drawn) && shows(asked, *question, drawn, guild.values.triviaxp));
        let shown = Some(asked);
        assert(shows(shown->0, *question, drawn, guild.values.triviaxp));
        shown
    }

    /// The place that the button named `custom_id` stands for.
    pub fn slot_of(custom_id: &str) -> (slot: Option<usize>)
        ensures
            slot == button_slot(custom_id@),
    {
        match parse_id(custom_id) {
            Some(number) => if 1 <= number && number <= 4 {
                Some((number - 1) as usize)
            } else {
                None
            },
            None => None,
        }
    }

    /// Settles a question that was asked at `asked_at` by `asker`. `answer`
    /// is the first click on an answer, if there was one. A right answer
    /// earns the question's XP, adds to the streak and starts the cooldown;
    /// anything else leaves the member's record as it is.
    pub fn answer(
        guild: &Guild,
        member: &mut GuildMember,
        asked: &TriviaAsked,
        asker: u64,
        asked_at: u64,
        answer: Option<TriviaAnswer>,
    ) -> (verdict: TriviaVerdict)
        ensures
            answer is None || !answer_counts(answer->0, asker, asked_at) ==> verdict
                == TriviaVerdict::TimedOut && *final(member) == *old(member),
            answer is Some && answer_counts(answer->0, asker, asked_at) && !answer_wins(
                answer->0,
                asker,
                asked_at,
                asked.correct_slot,
            ) ==> verdict == TriviaVerdict::Wrong && *final(member) == *old(member),
            answer is Some && answer_wins(answer->0, asker, asked_at, asked.correct_slot) ==> {
                &&& verdict is Correct
                &&& award_outcome_of(
                    verdict->award,
                    *guild,
                    old(member).xp,
                    old(member).settings.incognito == Some(true),
                    asked.xp,
                    ActivitySource::Trivia,
                )
                &&& *final(member) == (GuildMember {
                    streaks: GuildMemberStreaks {
                        game_trivia: Some(next_trivia_streak(old(member).streaks.game_trivia) as u64),
                        ..old(member).streaks
                    },
                    ..member_after_award(*old(member), asked.xp, ActivitySource::Trivia, asked_at)
                })
            },
    {
        match answer {
            None => TriviaVerdict::TimedOut,
            Some(given) => {
                let in_time = (given.at as i128) - (asked_at as i128) <= (ANSWER_WINDOW_MS as i128);
                if given.user_id != asker || !in_time {
                    TriviaVerdict::TimedOut
                } else if given.slot != asked.correct_slot {
                    TriviaVerdict::Wrong
                } else {
                    let streak: u64 = match member.streaks.game_trivia {
                        Some(count) => if count == u64::MAX {
                            u64::MAX
                        } else {
                            count + 1
                        },
                        None => 1,
                    };
                    let award = award_xp(guild, member, asked.xp, ActivitySource::Trivia, asked_at);
                    member.streaks.game_trivia = Some(streak);
                    TriviaVerdict::Correct { award }
                }
            },
        }
    }
}

impl PartyCommand {
    /// The command's name.
    pub fn name(&self) -> (name: &'static str)
        ensures
            name@ == "party"@,
    {
        "party"
    }

    /// Why no party is called, if none is. A party has no cooldown.
    pub fn check(guild: &Guild, eligible: bool) -> (refusal: Option<GameRefusal>)
        ensures
            refusal == gate_refusal(*guild, Game::Party, eligible),
    {
        game_gate(guild, Game::Party, eligible)
    }

    /// A member clicked the join button: joins the party unless already in it.
    pub fn join(joined: &mut Vec<u64>, user_id: u64) -> (is_new: bool)
        ensures
            is_new == !old(joined)@.contains(user_id),
            is_new ==> final(joined)@ == old(joined)@.push(user_id),
            !is_new ==> final(joined)@ == old(joined)@,
    {
        if contains_id(joined, user_id) {
            false
        } else {
            joined.push(user_id);
            true
        }
    }

    /// Whether enough members joined for the party to begin.
    pub fn can_start(joined: &Vec<u64>) -> (enough: bool)
        ensures
            enough == (joined@.len() >= PARTY_MINIMUM),
    {
        joined.len() >= PARTY_MINIMUM
    }

    /// One participant's round for given draws: a roll, a catch and a crate,
    /// and the award of what they add up to.
    pub fn play_round(
        guild: &Guild,
        member: &mut GuildMember,
        now: u64,
        die: u32,
        fish_draw: u32,
        loot_draw: u32,
    ) -> (round: PartyRound)
        ensures
            round.games == party_games(*guild, die as int, fish_draw as int, loot_draw as int),
            award_outcome_of(
                round.award,
                *guild,
                old(member).xp,
                old(member).settings.incognito == Some(true),
                party_total(round.games) as u64,
                ActivitySource::Party,
            ),
            *final(member) == member_after_award(
                *old(member),
                party_total(round.games) as u64,
                ActivitySource::Party,
                now,
            ),
    {
        let games = GameResult {
            roll: party_part(die, guild.values.rollXP),
            fish: party_part(fish_factor(fish_draw), guild.values.fishXP),
            loot: party_part(loot_factor(loot_draw), guild.values.lootXP),
        };
        let total: u64 = (games.roll as u64) + (games.fish as u64) + (games.loot as u64);
        let award = award_xp(guild, member, total, ActivitySource::Party, now);
        PartyRound { games, award }
    }

    /// One participant's round with draws made by chance.
    pub fn round(guild: &Guild, member: &mut GuildMember, now: u64) -> (round: PartyRound)
        ensures
            exists|die: int, fish_draw: int, loot_draw: int|
                1 <= die <= DIE_SIDES && 1 <= fish_draw <= FISH_SIDES && 1 <= loot_draw
                    <= LOOT_SIDES && round.games == #[trigger] party_games(
                    *guild,
                    die,
                    fish_draw,
                    loot_draw,
                ),
            award_outcome_of(
                round.award,
                *guild,
                old(member).xp,
                old(member).settings.incognito == Some(true),
                party_total(round.games) as u64,
                ActivitySource::Party,
            ),
            *final(member) == member_after_award(
                *old(member),
                party_total(round.games) as u64,
                ActivitySource::Party,
                now,
            ),
    {
        let die = roll_die();
        let fish_draw = random_in_range(1, FISH_SIDES);
        let loot_draw = random_in_range(1, LOOT_SIDES);
        let round = PartyCommand::play_round(guild, member, now, die, fish_draw, loot_draw);
        assert(round.games == party_games(*guild, die as int, fish_draw as int, loot_draw as int));
        round
    }

    /// The winner of a party, by place in the list of participants. An empty
    /// party has none.
    pub fn winner(rounds: &Vec<GameResult>) -> (winner: Option<usize>)
        ensures
            rounds@.len() == 0 ==> winner is None,
            rounds@.len() > 0 ==> winner is Some && is_winner(rounds@, winner->0 as int),
    {
        if rounds.len() == 0 {
            return None;
        }
        let mut best: usize = 0;
        let mut best_total: u64 = total_of(&rounds[0]);
        let mut index: usize = 1;
        while index < rounds.len()
            invariant
                1 <= index <= rounds.len(),
                best < index,
                best_total == party_total(rounds@[best as int]),
                forall|i: int|
                    0 <= i < index ==> party_total(#[trigger] rounds@[i]) <= party_total(
                        rounds@[best as int],
                    ),
                forall|i: int|
                    0 <= i < best ==> party_total(#[trigger] rounds@[i]) < party_total(
                        rounds@[best as int],
                    ),
            decreases rounds.len() - index,
        {
            let total = total_of(&rounds[index]);
            if total > best_total {
                best = index;
                best_total = total;
            }
            index = index + 1;
        }
        Some(best)
    }
}

fn total_of(games: &GameResult) -> (total: u64)
    ensures
        total == party_total(*games),
{
    (games.roll as u64) + (games.fish as u64) + (games.loot as u64)
}

/// A member who never played a game is not held back by its cooldown,
/// whatever the clock and the cooldown's length are: the game is played
/// wherever it is switched on and the member may play.
pub proof fn lemma_first_game_is_played(now: u64, last: Option<u64>, cooldown_seconds: i64)
    requires
        last_action(last) == 0,
    ensures
        game_refusal(true, true, now, last, cooldown_seconds) is None,
{
}

/// An arrangement has four places, names only the four answers, and names
/// the right one.
pub proof fn lemma_arrangement(order: Seq<u8>)
    requires
        is_arrangement(order),
    ensures
        order.len() == 4,
        forall|i: int| 0 <= i < 4 ==> #[trigger] order[i] <= 3,
        exists|i: int| 0 <= i < 4 && order[i] == 0,
{
    broadcast use vstd::seq_lib::group_to_multiset_ensures;

    let base = seq![0u8, 1u8, 2u8, 3u8];
    vstd::seq_lib::to_multiset_len(order);
    vstd::seq_lib::to_multiset_len(base);
    assert forall|i: int| 0 <= i < 4 implies #[trigger] order[i] <= 3 by {
        let value = order[i];
        assert(order.contains(value));
        assert(order.to_multiset().count(value) > 0);
        assert(base.contains(value));
    }
    assert(base[0] == 0u8);
    assert(base.contains(0u8));
    assert(base.to_multiset().count(0u8) > 0);
    assert(order.contains(0u8));
}

} // verus!
