use xp_leveling::commands::admin::{
    set_member_xp, AddCommand, RemoveCommand, ResetCommand, ResetModal, SetCommand,
    SetLevelCommand, SetStreakCommand, StreakKind,
};
use xp_leveling::commands::games::{
    check_game, eligibility_helper, vote_exempt, DailyCommand, FishCommand, GameRefusal,
    LootCommand, PartyCommand, RollCommand, TriviaAnswer, TriviaCommand, TriviaVerdict,
};
use xp_leveling::commands::misc::{
    AboutCommand, Distance, DistanceCommand, IncognitoCommand, LeaderboardCommand, LevelCommand,
    LevelInfo, RankCommand, SettingsCommand, SettingsSection, VoicetimeCommand, VoicetimeReport,
};
use xp_leveling::duration::VoiceTime;
use xp_leveling::engine::StreakReset;
use xp_leveling::games::{
    bulk_outcome, calc_games_bulk, daily_amount, fish_factor, fish_item, fish_outcome, game_fish,
    game_loot, loot_factor, loot_item, loot_outcome, roll_die, roll_outcome, scaled_amount,
    GameResult,
};
use xp_leveling::guild::{
    Guild, GuildAnnounce, GuildBoostObject, GuildBoosts, GuildIgnores, GuildLevelRoles, GuildLogs,
    GuildModules, GuildValues,
};
use xp_leveling::guild_member::{
    GuildMember, GuildMemberData, GuildMemberSettings, GuildMemberStreaks, GuildMemberTimestamps,
};
use xp_leveling::handler::ActivityContext;
use xp_leveling::opentdb::{OTDBQuestion, OTDBResponse, OpenTriviaDB};
use xp_leveling::user::{User, UserSettings, UserSettingsBackground, UserTimestamps};

fn guild() -> Guild {
    Guild {
        values: GuildValues {
            reactionxp: 5,
            fishXP: 10,
            lootXP: 10,
            messagecooldown: 60,
            messagexp: 20,
            rollXP: 10,
            voicejoincooldown: 30,
            voicexp: 60,
            gamecooldown: 3600,
            maximumdailyxp: 1000,
            triviacooldown: 60,
            triviaxp: 50,
            maximumlevel: 100,
        },
        modules: GuildModules {
            reactionxp: true,
            maximumlevel: false,
            autonick: false,
            games: true,
            messagexp: true,
            resetonleave: false,
            voicexp: true,
            enablecommandsinthreads: false,
            autonickshowstring: false,
            autonickuseprefix: false,
            trivia: true,
            leaderboard: true,
            removereachedlevelroles: false,
            singlerankrole: false,
            ignoreafk: false,
        },
        ignored: GuildIgnores { roles: vec![], channels: Some(vec![]), categories: Some(vec![]) },
        boosts: GuildBoosts { roles: vec![], channels: vec![], categories: Some(vec![]) },
        levelroles: vec![],
        announce: GuildAnnounce { current: true, message: String::new(), ping: false },
        logs: GuildLogs { voicetime: None, levelup: None, exceptions: None },
    }
}

fn member(xp: u64) -> GuildMember {
    GuildMember {
        xp,
        userData: GuildMemberData { username: None, avatar: None, banner: None },
        settings: GuildMemberSettings { incognito: None, ranking: None },
        timestamps: GuildMemberTimestamps {
            message_cooldown: None,
            game_trivia: None,
            game_daily: None,
            game_fish: None,
            game_loot: None,
            game_roll: None,
        },
        streaks: GuildMemberStreaks { game_daily: None, game_trivia: None, daily: None },
    }
}

fn user(session: Option<u64>) -> User {
    User {
        badges: vec![],
        titles: vec![],
        settings: UserSettings {
            background: UserSettingsBackground { bg: None, blur: None, custom: false, canvas: false },
            language: "en".to_string(),
        },
        timestamps: UserTimestamps {
            message_cooldown: None,
            join_voicechat: session,
            game_trivia: None,
            game_daily: None,
            game_fish: None,
            game_loot: None,
            game_roll: None,
        },
    }
}

fn question(difficulty: &str) -> OTDBQuestion {
    OTDBQuestion {
        category: "General".to_string(),
        kind: "multiple".to_string(),
        difficulty: difficulty.to_string(),
        question: "Which?".to_string(),
        correct_answer: "right".to_string(),
        incorrect_answers: vec!["wrong a".to_string(), "wrong b".to_string(), "wrong c".to_string()],
    }
}

const NOW: u64 = 1_700_000_000_000;
const HOUR: u64 = 3_600_000;

// ---- tables ----

#[test]
fn fish_in_the_bucket_from_701_to_900_is_worth_three_times_the_base() {
    for draw in [701, 800, 900] {
        let result = fish_outcome(10, draw);
        assert_eq!(result.xp, 30);
        assert_eq!(result.item, "an average-sized fish");
    }
    let mut m = member(0);
    let played = FishCommand::play(&guild(), &mut m, true, NOW, 750).unwrap();
    assert_eq!(played.xp, 30);
    assert_eq!(played.item, "an average-sized fish");
    assert_eq!(m.xp, 30);
}

#[test]
fn fish_table_has_six_buckets() {
    let expected: [(u32, u32, i64, &str); 12] = [
        (1, 400, 0, "an old shoe"),
        (401, 700, 1, "a fish with a good personality"),
        (701, 900, 3, "an average-sized fish"),
        (901, 998, 4, "a huge fish"),
        (999, 999, 5, "a humongous fish**. Like seriously... that's not gonna fit** "),
        (
            1000,
            1000,
            5,
            "a bottle with a note! You can read it [here](https://pastebin.com/X3Fx81wN)",
        ),
        (0, 0, 0, "an old shoe"),
        (1001, 1001, 0, "an old shoe"),
        (u32::MAX, u32::MAX, 0, "an old shoe"),
        (400, 400, 0, "an old shoe"),
        (401, 401, 1, "a fish with a good personality"),
        (998, 998, 4, "a huge fish"),
    ];
    for (low, high, factor, label) in expected {
        for draw in [low, high] {
            let result = fish_outcome(7, draw);
            assert_eq!(result.xp, 7 * factor, "draw {}", draw);
            assert_eq!(result.item, label, "draw {}", draw);
            assert_eq!(fish_factor(draw) as i64, factor);
            assert_eq!(fish_item(draw), label);
        }
    }
}

#[test]
fn loot_table_has_four_kinds() {
    let expected: [(u32, i64, &str); 13] = [
        (1, 1, "a common"),
        (2, 1, "a common"),
        (3, 1, "a common"),
        (4, 1, "a common"),
        (5, 2, "a rare"),
        (6, 2, "a rare"),
        (7, 2, "a rare"),
        (8, 3, "an epic"),
        (9, 3, "an epic"),
        (10, 4, "a legendary"),
        (0, 1, "a common"),
        (11, 1, "a common"),
        (u32::MAX, 1, "a common"),
    ];
    for (draw, factor, label) in expected {
        let result = loot_outcome(7, draw);
        assert_eq!(result.xp, 7 * factor, "draw {}", draw);
        assert_eq!(result.item, label, "draw {}", draw);
        assert_eq!(loot_factor(draw) as i64, factor);
        assert_eq!(loot_item(draw), label);
    }
}

#[test]
fn drawn_games_stay_within_their_tables() {
    for _ in 0..300 {
        let die = roll_die();
        assert!((1..=6).contains(&die));
        let fish = game_fish(10);
        assert!([0, 10, 30, 40, 50].contains(&fish.xp));
        let loot = game_loot(10);
        assert!([10, 20, 30, 40].contains(&loot.xp));
        let bulk = calc_games_bulk(10, 10, 10);
        assert!(bulk.roll >= 10 && bulk.roll <= 60 && bulk.roll % 10 == 0);
        assert!([0, 10, 30, 40, 50].contains(&bulk.fish));
        assert!([10, 20, 30, 40].contains(&bulk.loot));
    }
}

#[test]
fn die_shows_more_than_one_face() {
    let mut faces = [false; 6];
    for _ in 0..600 {
        faces[(roll_die() - 1) as usize] = true;
    }
    assert_eq!(faces, [true; 6]);
}

#[test]
fn trivia_buttons_stand_for_the_four_places() {
    assert_eq!(TriviaCommand::slot_of("1"), Some(0));
    assert_eq!(TriviaCommand::slot_of("4"), Some(3));
    assert_eq!(TriviaCommand::slot_of("0"), None);
    assert_eq!(TriviaCommand::slot_of("5"), None);
    assert_eq!(TriviaCommand::slot_of("join_party"), None);
    assert_eq!(TriviaCommand::slot_of(""), None);
}

#[test]
fn roll_is_worth_the_die_times_the_amount() {
    assert_eq!(roll_outcome(10, 1), 10);
    assert_eq!(roll_outcome(10, 6), 60);
    assert_eq!(roll_outcome(-3, 4), -12);
    assert_eq!(bulk_outcome(10, 20, 30, 3, 800, 10), GameResult { roll: 30, fish: 60, loot: 120 });
    assert_eq!(bulk_outcome(10, 20, 30, 6, 1, 1), GameResult { roll: 60, fish: 0, loot: 30 });
}

#[test]
fn game_amount_is_never_negative_and_is_held_to_64_bits() {
    assert_eq!(scaled_amount(3, 10), 30);
    assert_eq!(scaled_amount(3, -10), 0);
    assert_eq!(scaled_amount(0, 10), 0);
    assert_eq!(scaled_amount(5, i64::MAX), u64::MAX);
    assert_eq!(scaled_amount(2, i64::MAX), 2 * (i64::MAX as u64));
}

#[test]
fn daily_amount_is_the_streak_times_250_up_to_the_cap() {
    assert_eq!(daily_amount(1, 1000), 250);
    assert_eq!(daily_amount(3, 1000), 750);
    assert_eq!(daily_amount(4, 1000), 1000);
    assert_eq!(daily_amount(5, 1000), 1000);
    assert_eq!(daily_amount(0, 1000), 0);
    assert_eq!(daily_amount(5, 0), 0);
    assert_eq!(daily_amount(5, -10), 0);
    assert_eq!(daily_amount(u64::MAX, i64::MAX), i64::MAX as u64);
}

// ---- eligibility and refusals ----

#[test]
fn member_is_eligible_when_exempt_or_voted() {
    assert!(eligibility_helper(Some(true), None, false));
    assert!(eligibility_helper(None, Some(true), false));
    assert!(eligibility_helper(Some(false), Some(false), true));
    assert!(!eligibility_helper(Some(false), Some(false), false));
    assert!(!eligibility_helper(None, None, false));
    assert!(vote_exempt(Some(true), Some(false)));
    assert!(!vote_exempt(None, Some(false)));
}

#[test]
fn game_is_refused_for_the_first_reason_that_holds() {
    assert_eq!(check_game(false, false, NOW, Some(NOW), 10), Some(GameRefusal::ModuleDisabled));
    assert_eq!(check_game(true, false, NOW, Some(NOW), 10), Some(GameRefusal::VoteRequired));
    assert_eq!(
        check_game(true, true, NOW + 4_000, Some(NOW), 10),
        Some(GameRefusal::OnCooldown { time_left: 6_000 })
    );
    assert_eq!(check_game(true, true, NOW + 10_000, Some(NOW), 10), None);
    assert_eq!(check_game(true, true, NOW, None, 10), None);
}

// ---- roll, fish, loot ----

#[test]
fn roll_awards_and_starts_the_cooldown() {
    let g = guild();
    let mut m = member(0);
    let played = RollCommand::play(&g, &mut m, true, NOW, 4).unwrap();
    assert_eq!(played.die, 4);
    assert_eq!(played.xp, 40);
    assert_eq!(m.xp, 40);
    assert_eq!(m.timestamps.game_roll, Some(NOW));
    let again = RollCommand::play(&g, &mut m, true, NOW + HOUR - 1, 6);
    assert_eq!(again, Err(GameRefusal::OnCooldown { time_left: 1 }));
    assert_eq!(m.xp, 40);
    assert!(RollCommand::play(&g, &mut m, true, NOW + HOUR, 6).is_ok());
    assert_eq!(m.xp, 100);
}

#[test]
fn first_game_of_a_member_who_never_played_is_played_at_any_clock() {
    let g = guild();
    for now in [0u64, 1, 5_000, HOUR - 1, HOUR, NOW] {
        for never in [None, Some(0)] {
            let mut m = member(0);
            m.timestamps.game_fish = never;
            m.timestamps.game_roll = never;
            m.timestamps.game_loot = never;
            m.timestamps.game_daily = never;
            m.timestamps.game_trivia = never;
            assert!(FishCommand::play(&g, &mut m, true, now, 750).is_ok(), "clock {}", now);
            assert_eq!(m.xp, 30);
            assert_eq!(m.timestamps.game_fish, Some(now));
            assert!(FishCommand::exec(&g, &mut member(0), true, now).is_ok());
            assert!(RollCommand::play(&g, &mut m, true, now, 1).is_ok());
            assert!(LootCommand::play(&g, &mut m, true, now, 1).is_ok());
            assert!(DailyCommand::exec(&g, &mut m, true, now).is_ok());
            assert_eq!(TriviaCommand::check(&g, &m, true, now), None);
            assert_eq!(check_game(true, true, now, never, i64::MAX), None);
        }
    }
}

#[test]
fn games_have_their_own_cooldowns() {
    let g = guild();
    let mut m = member(0);
    assert!(RollCommand::play(&g, &mut m, true, NOW, 1).is_ok());
    assert!(FishCommand::play(&g, &mut m, true, NOW, 1).is_ok());
    assert!(LootCommand::play(&g, &mut m, true, NOW, 1).is_ok());
    assert!(DailyCommand::exec(&g, &mut m, true, NOW).is_ok());
    assert!(RollCommand::play(&g, &mut m, true, NOW, 1).is_err());
    assert!(FishCommand::play(&g, &mut m, true, NOW, 1).is_err());
    assert!(LootCommand::play(&g, &mut m, true, NOW, 1).is_err());
    assert!(DailyCommand::exec(&g, &mut m, true, NOW).is_err());
}

#[test]
fn game_is_refused_without_changing_the_record() {
    let mut g = guild();
    let mut m = member(5);
    assert_eq!(RollCommand::play(&g, &mut m, false, NOW, 1), Err(GameRefusal::VoteRequired));
    assert_eq!(FishCommand::play(&g, &mut m, false, NOW, 1), Err(GameRefusal::VoteRequired));
    assert_eq!(LootCommand::play(&g, &mut m, false, NOW, 1), Err(GameRefusal::VoteRequired));
    assert_eq!(DailyCommand::exec(&g, &mut m, false, NOW), Err(GameRefusal::VoteRequired));
    g.modules.games = false;
    assert_eq!(RollCommand::exec(&g, &mut m, true, NOW), Err(GameRefusal::ModuleDisabled));
    assert_eq!(FishCommand::exec(&g, &mut m, true, NOW), Err(GameRefusal::ModuleDisabled));
    assert_eq!(LootCommand::exec(&g, &mut m, true, NOW), Err(GameRefusal::ModuleDisabled));
    assert_eq!(DailyCommand::exec(&g, &mut m, true, NOW), Err(GameRefusal::ModuleDisabled));
    assert_eq!(PartyCommand::check(&g, true), Some(GameRefusal::ModuleDisabled));
    assert_eq!(m, member(5));
}

#[test]
fn loot_awards_by_the_table() {
    let g = guild();
    let mut m = member(0);
    let played = LootCommand::play(&g, &mut m, true, NOW, 10).unwrap();
    assert_eq!(played.item, "a legendary");
    assert_eq!(played.xp, 40);
    assert_eq!(m.xp, 40);
    assert_eq!(m.timestamps.game_loot, Some(NOW));
}

#[test]
fn drawn_commands_award_what_they_report() {
    let g = guild();
    for _ in 0..50 {
        let mut m = member(0);
        let roll = RollCommand::exec(&g, &mut m, true, NOW).unwrap();
        assert_eq!(roll.xp, 10 * roll.die as u64);
        let fish = FishCommand::exec(&g, &mut m, true, NOW).unwrap();
        let loot = LootCommand::exec(&g, &mut m, true, NOW).unwrap();
        assert_eq!(m.xp, roll.xp + fish.xp + loot.xp);
    }
}

// ---- daily ----

#[test]
fn daily_claimed_again_after_50_hours_resets_the_streak() {
    let g = guild();
    let mut m = member(0);
    let first = DailyCommand::exec(&g, &mut m, true, NOW).unwrap();
    assert_eq!(first.streak, 1);
    let second = DailyCommand::exec(&g, &mut m, true, NOW + 50 * HOUR).unwrap();
    assert_eq!(second.streak, 1);
    assert_eq!(second.reset, Some(StreakReset { old_streak: 1 }));
    assert_eq!(second.xp, 250);
    assert_eq!(m.streaks.game_daily, Some(1));
    assert_eq!(m.timestamps.game_daily, Some(NOW + 50 * HOUR));
    assert_eq!(m.xp, 500);
}

#[test]
fn daily_claimed_within_48_hours_adds_to_the_streak() {
    let g = guild();
    let mut m = member(0);
    DailyCommand::exec(&g, &mut m, true, NOW).unwrap();
    let second = DailyCommand::exec(&g, &mut m, true, NOW + 24 * HOUR).unwrap();
    assert_eq!(second.streak, 2);
    assert_eq!(second.reset, None);
    assert_eq!(second.xp, 500);
    let third = DailyCommand::exec(&g, &mut m, true, NOW + 72 * HOUR).unwrap();
    assert_eq!(third.streak, 3);
    assert_eq!(third.xp, 750);
    let fourth = DailyCommand::exec(&g, &mut m, true, NOW + 120 * HOUR + 1).unwrap();
    assert_eq!(fourth.streak, 1);
    assert_eq!(fourth.reset, Some(StreakReset { old_streak: 3 }));
    assert_eq!(m.xp, 250 + 500 + 750 + 250);
}

#[test]
fn daily_is_capped_by_the_community() {
    let g = guild();
    let mut m = member(0);
    m.streaks.game_daily = Some(9);
    m.timestamps.game_daily = Some(NOW - 24 * HOUR);
    let claimed = DailyCommand::exec(&g, &mut m, true, NOW).unwrap();
    assert_eq!(claimed.streak, 10);
    assert_eq!(claimed.xp, 1000);
    assert_eq!(m.xp, 1000);
}

#[test]
fn daily_cannot_be_claimed_twice_in_24_hours() {
    let g = guild();
    let mut m = member(0);
    DailyCommand::exec(&g, &mut m, true, NOW).unwrap();
    assert_eq!(
        DailyCommand::exec(&g, &mut m, true, NOW + 23 * HOUR),
        Err(GameRefusal::OnCooldown { time_left: HOUR as u128 })
    );
    assert_eq!(m.xp, 250);
    assert_eq!(m.streaks.game_daily, Some(1));
}

#[test]
fn first_daily_claim_reports_an_old_streak_of_zero() {
    let g = guild();
    let mut m = member(0);
    let first = DailyCommand::exec(&g, &mut m, true, NOW).unwrap();
    assert_eq!(first.reset, Some(StreakReset { old_streak: 0 }));
}

#[test]
fn first_daily_claim_begins_a_streak_of_one_at_any_clock() {
    let g = guild();
    for now in [0u64, 5_000, NOW] {
        let mut m = member(0);
        m.streaks.game_daily = Some(5);
        let claimed = DailyCommand::exec(&g, &mut m, true, now).unwrap();
        assert_eq!(claimed.streak, 1);
        assert_eq!(claimed.reset, Some(StreakReset { old_streak: 5 }));
        assert_eq!(claimed.xp, 250);
    }
}

#[test]
fn daily_streak_does_not_run_over() {
    let g = guild();
    let mut m = member(0);
    m.streaks.game_daily = Some(u64::MAX);
    m.timestamps.game_daily = Some(NOW - 24 * HOUR);
    let claimed = DailyCommand::exec(&g, &mut m, true, NOW).unwrap();
    assert_eq!(claimed.streak, u64::MAX);
}

// ---- trivia ----

#[test]
fn trivia_is_worth_more_the_harder_it_is() {
    assert_eq!(question("easy").xp_multiplier(), 1);
    assert_eq!(question("medium").xp_multiplier(), 2);
    assert_eq!(question("hard").xp_multiplier(), 3);
    assert_eq!(question("fiendish").xp_multiplier(), 1);
    assert_eq!(question("").xp_multiplier(), 1);
    let g = guild();
    assert_eq!(TriviaCommand::arrange(&g, &question("hard"), &vec![0, 1, 2, 3]).xp, 150);
    assert_eq!(TriviaCommand::arrange(&g, &question("medium"), &vec![0, 1, 2, 3]).xp, 100);
    assert_eq!(TriviaCommand::arrange(&g, &question("easy"), &vec![0, 1, 2, 3]).xp, 50);
}

#[test]
fn trivia_answers_are_shown_in_the_given_order() {
    let g = guild();
    let asked = TriviaCommand::arrange(&g, &question("easy"), &vec![2, 0, 3, 1]);
    assert_eq!(asked.answers, vec!["wrong b", "right", "wrong c", "wrong a"]);
    assert_eq!(asked.correct_slot, 1);
    let asked = TriviaCommand::arrange(&g, &question("easy"), &vec![3, 2, 1, 0]);
    assert_eq!(asked.answers, vec!["wrong c", "wrong b", "wrong a", "right"]);
    assert_eq!(asked.correct_slot, 3);
}

#[test]
fn trivia_shuffle_shows_every_answer_once() {
    let g = guild();
    let mut slots = [false; 4];
    for _ in 0..200 {
        let asked = TriviaCommand::ask(&g, &question("easy")).unwrap();
        let mut shown = asked.answers.clone();
        shown.sort();
        assert_eq!(shown, vec!["right", "wrong a", "wrong b", "wrong c"]);
        assert_eq!(asked.answers[asked.correct_slot], "right");
        slots[asked.correct_slot] = true;
    }
    assert_eq!(slots, [true; 4]);
}

#[test]
fn trivia_question_without_three_wrong_answers_is_not_asked() {
    let g = guild();
    let mut q = question("easy");
    q.incorrect_answers.pop();
    assert!(!q.is_askable());
    assert_eq!(TriviaCommand::ask(&g, &q), None);
    assert!(question("easy").is_askable());
}

#[test]
fn right_trivia_answer_awards_and_adds_to_the_streak() {
    let g = guild();
    let mut m = member(0);
    let asked = TriviaCommand::arrange(&g, &question("hard"), &vec![1, 0, 2, 3]);
    let answer = TriviaAnswer { user_id: 7, slot: 1, at: NOW + 5_000 };
    let verdict = TriviaCommand::answer(&g, &mut m, &asked, 7, NOW, Some(answer));
    assert!(matches!(verdict, TriviaVerdict::Correct { .. }));
    assert_eq!(m.xp, 150);
    assert_eq!(m.streaks.game_trivia, Some(1));
    assert_eq!(m.timestamps.game_trivia, Some(NOW));
    assert_eq!(
        TriviaCommand::check(&g, &m, true, NOW + 59_999),
        Some(GameRefusal::OnCooldown { time_left: 1 })
    );
    assert_eq!(TriviaCommand::check(&g, &m, true, NOW + 60_000), None);
}

#[test]
fn wrong_or_late_trivia_answer_changes_nothing() {
    let g = guild();
    let mut m = member(0);
    m.streaks.game_trivia = Some(4);
    let asked = TriviaCommand::arrange(&g, &question("hard"), &vec![1, 0, 2, 3]);
    let wrong = TriviaAnswer { user_id: 7, slot: 0, at: NOW + 5_000 };
    assert_eq!(TriviaCommand::answer(&g, &mut m, &asked, 7, NOW, Some(wrong)), TriviaVerdict::Wrong);
    let late = TriviaAnswer { user_id: 7, slot: 1, at: NOW + 30_001 };
    assert_eq!(TriviaCommand::answer(&g, &mut m, &asked, 7, NOW, Some(late)), TriviaVerdict::TimedOut);
    let stranger = TriviaAnswer { user_id: 8, slot: 1, at: NOW + 5_000 };
    assert_eq!(
        TriviaCommand::answer(&g, &mut m, &asked, 7, NOW, Some(stranger)),
        TriviaVerdict::TimedOut
    );
    assert_eq!(TriviaCommand::answer(&g, &mut m, &asked, 7, NOW, None), TriviaVerdict::TimedOut);
    let mut untouched = member(0);
    untouched.streaks.game_trivia = Some(4);
    assert_eq!(m, untouched);
    let in_time = TriviaAnswer { user_id: 7, slot: 1, at: NOW + 30_000 };
    assert!(matches!(
        TriviaCommand::answer(&g, &mut m, &asked, 7, NOW, Some(in_time)),
        TriviaVerdict::Correct { .. }
    ));
    assert_eq!(m.streaks.game_trivia, Some(5));
}

#[test]
fn trivia_has_its_own_switch() {
    let mut g = guild();
    g.modules.trivia = false;
    assert_eq!(TriviaCommand::check(&g, &member(0), true, NOW), Some(GameRefusal::ModuleDisabled));
    g.modules.trivia = true;
    g.modules.games = false;
    assert_eq!(TriviaCommand::check(&g, &member(0), true, NOW), None);
    assert_eq!(TriviaCommand::check(&g, &member(0), false, NOW), Some(GameRefusal::VoteRequired));
}

#[test]
fn first_question_of_an_answer_is_taken() {
    let response = OTDBResponse { response_code: 0, results: vec![question("easy"), question("hard")] };
    assert_eq!(OpenTriviaDB::first_question(&response), Some(&question("easy")));
    let empty = OTDBResponse { response_code: 1, results: vec![] };
    assert_eq!(OpenTriviaDB::first_question(&empty), None);
}

// ---- party ----

#[test]
fn party_needs_two_members_and_takes_each_once() {
    let mut joined: Vec<u64> = Vec::new();
    assert!(PartyCommand::join(&mut joined, 1));
    assert!(!PartyCommand::can_start(&joined));
    assert!(!PartyCommand::join(&mut joined, 1));
    assert_eq!(joined, vec![1]);
    assert!(PartyCommand::join(&mut joined, 2));
    assert!(PartyCommand::can_start(&joined));
    assert_eq!(joined, vec![1, 2]);
}

#[test]
fn party_round_is_the_sum_of_three_games() {
    let g = guild();
    let mut m = member(0);
    let round = PartyCommand::play_round(&g, &mut m, NOW, 6, 1000, 10);
    assert_eq!(round.games, GameResult { roll: 60, fish: 50, loot: 40 });
    assert_eq!(m.xp, 150);
    assert_eq!(round.award.awarded.amount, 150);
    assert_eq!(m.timestamps, member(0).timestamps);
    let mut other = member(0);
    let drawn = PartyCommand::round(&g, &mut other, NOW);
    assert_eq!(
        other.xp,
        drawn.games.roll as u64 + drawn.games.fish as u64 + drawn.games.loot as u64
    );
}

#[test]
fn party_is_won_by_the_highest_total_and_the_first_of_equals() {
    let rounds = vec![
        GameResult { roll: 10, fish: 0, loot: 10 },
        GameResult { roll: 20, fish: 30, loot: 10 },
        GameResult { roll: 60, fish: 0, loot: 0 },
        GameResult { roll: 0, fish: 0, loot: 60 },
    ];
    assert_eq!(PartyCommand::winner(&rounds), Some(1));
    assert_eq!(PartyCommand::winner(&vec![]), None);
    assert_eq!(PartyCommand::winner(&vec![GameResult { roll: 0, fish: 0, loot: 0 }]), Some(0));
    let all_max = GameResult { roll: u32::MAX, fish: u32::MAX, loot: u32::MAX };
    assert_eq!(PartyCommand::winner(&vec![rounds[0], all_max, all_max]), Some(1));
}

// ---- admin ----

#[test]
fn managers_change_xp_and_roles_follow() {
    let mut g = guild();
    g.levelroles = vec![GuildLevelRoles { id: "5".to_string(), level: 1 }];
    let mut m = member(10);
    let added = AddCommand::exec(&g, &mut m, 40);
    assert_eq!((added.xp, added.level, m.xp), (50, 1, 50));
    assert_eq!(added.roles.add.len(), 1);
    let removed = RemoveCommand::exec(&g, &mut m, 20);
    assert_eq!((removed.xp, removed.level, m.xp), (30, 0, 30));
    assert!(removed.roles.add.is_empty());
    let set = SetCommand::exec(&g, &mut m, 4998);
    assert_eq!((set.xp, set.level, m.xp), (4998, 10, 4998));
    let direct = set_member_xp(&g, &mut m, 47);
    assert_eq!((direct.xp, direct.level), (47, 0));
}

#[test]
fn removing_more_xp_than_there_is_leaves_none() {
    let g = guild();
    let mut m = member(10);
    let removed = RemoveCommand::exec(&g, &mut m, 11);
    assert_eq!(removed.xp, 0);
    assert_eq!(m.xp, 0);
    let mut rich = member(u64::MAX);
    assert_eq!(AddCommand::exec(&g, &mut rich, 1).xp, u64::MAX);
}

#[test]
fn setting_a_level_sets_the_xp_that_it_takes() {
    let g = guild();
    let mut m = member(0);
    let outcome = SetLevelCommand::exec(&g, &mut m, 7).unwrap();
    assert_eq!(outcome.xp, 2448);
    assert_eq!(outcome.level, 7);
    assert_eq!(m.xp, 2448);
    assert_eq!(SetLevelCommand::exec(&g, &mut m, i32::MAX), None);
    assert_eq!(m.xp, 2448);
    assert_eq!(SetLevelCommand::exec(&g, &mut m, 0).map(|o| o.xp), Some(0));
}

#[test]
fn setting_a_streak_sets_the_named_one() {
    let mut m = member(0);
    assert_eq!(SetStreakCommand::exec(&mut m, "daily", 5), Some(StreakKind::Daily));
    assert_eq!(SetStreakCommand::exec(&mut m, "trivia", 8), Some(StreakKind::Trivia));
    assert_eq!(SetStreakCommand::exec(&mut m, "weekly", 9), None);
    assert_eq!(
        m.streaks,
        GuildMemberStreaks { game_daily: Some(5), game_trivia: Some(8), daily: None }
    );
}

#[test]
fn reset_asks_for_the_confirmation_that_fits() {
    assert_eq!(ResetCommand::exec("user", "user"), Some(ResetModal::UserXp));
    assert_eq!(ResetCommand::exec("community", "settings"), Some(ResetModal::CommunitySettings));
    assert_eq!(ResetCommand::exec("community", "xp"), Some(ResetModal::CommunityXp));
    assert_eq!(ResetCommand::exec("community", "user"), None);
    assert_eq!(ResetCommand::exec("user", "xp"), None);
    assert_eq!(ResetCommand::exec("", ""), None);
}

// ---- misc ----

#[test]
fn distance_is_ahead_or_behind() {
    assert_eq!(DistanceCommand::exec(10, 30), Distance::Behind { by: 20 });
    assert_eq!(DistanceCommand::exec(30, 10), Distance::Ahead { by: 20 });
    assert_eq!(DistanceCommand::exec(10, 10), Distance::Behind { by: 0 });
    assert_eq!(DistanceCommand::exec(u64::MAX, 0), Distance::Ahead { by: u64::MAX });
}

#[test]
fn level_command_tells_what_is_missing() {
    assert_eq!(
        LevelCommand::exec(100, 2),
        Some(LevelInfo { required_xp: 198, missing: Some(98), percent: Some(51) })
    );
    assert_eq!(
        LevelCommand::exec(198, 2),
        Some(LevelInfo { required_xp: 198, missing: None, percent: Some(100) })
    );
    assert_eq!(
        LevelCommand::exec(24, 1),
        Some(LevelInfo { required_xp: 48, missing: Some(24), percent: Some(50) })
    );
    assert_eq!(
        LevelCommand::exec(5, 0),
        Some(LevelInfo { required_xp: 0, missing: None, percent: None })
    );
    assert_eq!(LevelCommand::exec(5, i32::MAX), None);
    // 1 of 48 is 2.08 %, 71 of 48 is 147.9 %
    assert_eq!(LevelCommand::exec(1, 1).unwrap().percent, Some(2));
    assert_eq!(LevelCommand::exec(71, 1).unwrap().percent, Some(148));
}

#[test]
fn incognito_hides_the_rank() {
    let mut m = member(0);
    assert!(RankCommand::exec(&m));
    IncognitoCommand::exec(&mut m, true);
    assert_eq!(m.settings.incognito, Some(true));
    assert!(!RankCommand::exec(&m));
    assert!(m.is_incognito());
    IncognitoCommand::exec(&mut m, false);
    assert_eq!(m.settings.incognito, Some(false));
    assert!(RankCommand::exec(&m));
}

#[test]
fn voicetime_reports_the_running_session() {
    let g = guild();
    let c = ActivityContext { role_ids: vec![], channel_id: 1, category_id: None };
    let m = member(0);
    assert_eq!(
        VoicetimeCommand::exec(&g, &user(None), &m, true, &c, NOW),
        VoicetimeReport::NeverJoined
    );
    assert_eq!(
        VoicetimeCommand::exec(&g, &user(Some(NOW)), &m, false, &c, NOW),
        VoicetimeReport::NotInVoice
    );
    let report = VoicetimeCommand::exec(&g, &user(Some(NOW)), &m, true, &c, NOW + 125_000);
    assert_eq!(
        report,
        VoicetimeReport::Running {
            time: VoiceTime { days: 0, hours: 0, minutes: 2, seconds: 5 },
            xp: 95,
            current_level: 0,
            new_level: 1,
        }
    );
    let mut ignoring = guild();
    ignoring.ignored.channels = Some(vec!["1".to_string()]);
    assert_eq!(
        VoicetimeCommand::exec(&ignoring, &user(Some(NOW)), &m, true, &c, NOW),
        VoicetimeReport::Ignored
    );
}

#[test]
fn settings_command_knows_its_sections() {
    assert_eq!(SettingsCommand::exec("modules"), Some(SettingsSection::Modules));
    assert_eq!(SettingsCommand::exec("values"), Some(SettingsSection::Values));
    assert_eq!(SettingsCommand::exec("roles"), Some(SettingsSection::Roles));
    assert_eq!(SettingsCommand::exec("boosts"), Some(SettingsSection::Boosts));
    assert_eq!(SettingsCommand::exec("ignores"), Some(SettingsSection::Ignores));
    assert_eq!(SettingsCommand::exec("Modules"), None);
}

#[test]
fn commands_have_their_names() {
    assert_eq!(AboutCommand.name(), "about");
    assert_eq!(LeaderboardCommand.name(), "leaderboard");
    assert_eq!(LevelCommand.name(), "level");
    assert_eq!(RankCommand.name(), "rank");
    assert_eq!(SettingsCommand.name(), "settings");
    assert_eq!(VoicetimeCommand.name(), "voicetime");
    assert_eq!(IncognitoCommand.name(), "incognito");
    assert_eq!(DistanceCommand.name(), "distance");
    assert_eq!(AddCommand.name(), "addxp");
    assert_eq!(SetCommand.name(), "setxp");
    assert_eq!(RemoveCommand.name(), "removexp");
    assert_eq!(ResetCommand.name(), "reset");
    assert_eq!(SetLevelCommand.name(), "setlevel");
    assert_eq!(SetStreakCommand.name(), "setstreak");
    assert_eq!(FishCommand.name(), "fish");
    assert_eq!(RollCommand.name(), "roll");
    assert_eq!(LootCommand.name(), "loot");
    assert_eq!(DailyCommand.name(), "daily");
    assert_eq!(TriviaCommand.name(), "trivia");
    assert_eq!(PartyCommand.name(), "party");
}

#[test]
fn boost_objects_compare_by_value() {
    assert_eq!(
        GuildBoostObject { id: "1".to_string(), percentage: 5 },
        GuildBoostObject { id: "1".to_string(), percentage: 5 }
    );
}
