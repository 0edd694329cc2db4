use xp_leveling::boosts::{
    apply_boost, calculate_total_boost_percentage, calculate_total_boost_percentage_by_ids,
    contains_id, id_text_matches,
};
use xp_leveling::engine::{
    add_xp, award_xp, remove_xp, ActivitySource, LevelChanged, XpAwarded,
};
use xp_leveling::guild::{
    Guild, GuildAnnounce, GuildBoostObject, GuildBoosts, GuildIgnores, GuildLevelRoles, GuildLogs,
    GuildModules, GuildResponse, GuildValues,
};
use xp_leveling::guild_member::{
    conform_xpc, GuildMember, GuildMemberData, GuildMemberResponse, GuildMemberSettings,
    GuildMemberStreaks, GuildMemberTimestamps,
};
use xp_leveling::handler::{
    is_activity_ignored, is_channel_ignored, is_trackable, ActivityContext, Handler, Skip,
    VoiceEvent, VoiceStep,
};
use xp_leveling::roles::{handle_level_roles, LevelRole, RolePlan};
use xp_leveling::user::{User, UserSettings, UserSettingsBackground, UserTimestamps};

fn guild() -> Guild {
    Guild {
        values: GuildValues {
            reactionxp: 5,
            fishXP: 10,
            lootXP: 10,
            messagecooldown: 60,
            messagexp: 20,
            rollXP: 10,
            voicejoincooldown: 30,
            voicexp: 60,
            gamecooldown: 3600,
            maximumdailyxp: 1000,
            triviacooldown: 60,
            triviaxp: 50,
            maximumlevel: 100,
        },
        modules: GuildModules {
            reactionxp: true,
            maximumlevel: false,
            autonick: false,
            games: true,
            messagexp: true,
            resetonleave: false,
            voicexp: true,
            enablecommandsinthreads: false,
            autonickshowstring: false,
            autonickuseprefix: false,
            trivia: true,
            leaderboard: true,
            removereachedlevelroles: false,
            singlerankrole: false,
            ignoreafk: false,
        },
        ignored: GuildIgnores { roles: vec![], channels: Some(vec![]), categories: Some(vec![]) },
        boosts: GuildBoosts { roles: vec![], channels: vec![], categories: Some(vec![]) },
        levelroles: vec![],
        announce: GuildAnnounce {
            current: true,
            message: "{MNT} reached level {LVL}".to_string(),
            ping: false,
        },
        logs: GuildLogs { voicetime: None, levelup: None, exceptions: None },
    }
}

fn member(xp: u64) -> GuildMember {
    GuildMember {
        xp,
        userData: GuildMemberData { username: None, avatar: None, banner: None },
        settings: GuildMemberSettings { incognito: None, ranking: None },
        timestamps: GuildMemberTimestamps {
            message_cooldown: None,
            game_trivia: None,
            game_daily: None,
            game_fish: None,
            game_loot: None,
            game_roll: None,
        },
        streaks: GuildMemberStreaks { game_daily: None, game_trivia: None, daily: None },
    }
}

fn user(session: Option<u64>) -> User {
    User {
        badges: vec![],
        titles: vec![],
        settings: UserSettings {
            background: UserSettingsBackground { bg: None, blur: None, custom: false, canvas: false },
            language: "en".to_string(),
        },
        timestamps: UserTimestamps {
            message_cooldown: None,
            join_voicechat: session,
            game_trivia: None,
            game_daily: None,
            game_fish: None,
            game_loot: None,
            game_roll: None,
        },
    }
}

fn boost(id: &str, percentage: i64) -> GuildBoostObject {
    GuildBoostObject { id: id.to_string(), percentage }
}

fn level_role(id: &str, level: i32) -> GuildLevelRoles {
    GuildLevelRoles { id: id.to_string(), level }
}

fn context(roles: Vec<u64>, channel: u64, category: Option<u64>) -> ActivityContext {
    ActivityContext { role_ids: roles, channel_id: channel, category_id: category }
}

const NOW: u64 = 1_700_000_000_000;

// ---- boosts ----

#[test]
fn boosts_of_ten_and_fifteen_percent_make_a_quarter() {
    let mut g = guild();
    g.boosts.roles = vec![boost("1", 10), boost("2", 15)];
    let total = calculate_total_boost_percentage_by_ids(&g, &vec![1, 2], 7, None);
    assert_eq!(total, 25);
    assert_eq!(apply_boost(100, total), 125);
    assert_eq!(apply_boost(20, total), 25);
}

#[test]
fn boost_total_does_not_depend_on_the_order() {
    let mut a = guild();
    a.boosts.roles = vec![boost("1", 10), boost("2", 15), boost("3", 40)];
    let mut b = guild();
    b.boosts.roles = vec![boost("3", 40), boost("1", 10), boost("2", 15)];
    let roles = vec![3, 1, 2];
    assert_eq!(
        calculate_total_boost_percentage(&a, &roles, 0, None),
        calculate_total_boost_percentage(&b, &roles, 0, None)
    );
    assert_eq!(calculate_total_boost_percentage(&a, &roles, 0, None), 65);
}

#[test]
fn boost_total_adds_roles_channel_and_category() {
    let mut g = guild();
    g.boosts.roles = vec![boost("1", 10), boost("2", 15), boost("9", 1000)];
    g.boosts.channels = vec![boost("50", 20), boost("51", 500)];
    g.boosts.categories = Some(vec![boost("70", 5), boost("71", 300)]);
    assert_eq!(calculate_total_boost_percentage_by_ids(&g, &vec![1, 2], 50, Some(70)), 50);
    assert_eq!(calculate_total_boost_percentage_by_ids(&g, &vec![1, 2], 50, None), 45);
    assert_eq!(calculate_total_boost_percentage_by_ids(&g, &vec![], 50, Some(71)), 320);
    assert_eq!(calculate_total_boost_percentage_by_ids(&g, &vec![], 0, Some(0)), 0);
}

#[test]
fn boost_total_has_no_cap_at_a_hundred() {
    let mut g = guild();
    g.boosts.roles = vec![boost("1", 80), boost("2", 90)];
    assert_eq!(calculate_total_boost_percentage_by_ids(&g, &vec![1, 2], 0, None), 170);
    assert_eq!(apply_boost(10, 170), 27);
}

#[test]
fn boost_that_is_listed_twice_counts_twice() {
    let mut g = guild();
    g.boosts.roles = vec![boost("1", 10), boost("1", 10)];
    assert_eq!(calculate_total_boost_percentage_by_ids(&g, &vec![1], 0, None), 20);
}

#[test]
fn boost_with_a_malformed_identifier_is_skipped() {
    let mut g = guild();
    g.boosts.roles = vec![boost("abc", 10), boost("", 10), boost("1x", 10), boost("1", 15)];
    g.boosts.channels = vec![boost("-5", 10)];
    assert_eq!(calculate_total_boost_percentage_by_ids(&g, &vec![1], 5, None), 15);
}

#[test]
fn boosts_without_categories_configured() {
    let mut g = guild();
    g.boosts.roles = vec![boost("1", 10)];
    g.boosts.categories = None;
    assert_eq!(calculate_total_boost_percentage_by_ids(&g, &vec![1], 5, Some(6)), 10);
}

#[test]
fn boost_total_beyond_64_bits_is_held() {
    let mut g = guild();
    g.boosts.roles = vec![boost("1", i64::MAX), boost("1", i64::MAX)];
    assert_eq!(calculate_total_boost_percentage_by_ids(&g, &vec![1], 0, None), i64::MAX);
    g.boosts.roles = vec![boost("1", i64::MIN), boost("1", i64::MIN)];
    assert_eq!(calculate_total_boost_percentage_by_ids(&g, &vec![1], 0, None), i64::MIN);
    g.boosts.roles = vec![boost("1", i64::MAX), boost("1", i64::MAX), boost("1", i64::MIN)];
    assert_eq!(calculate_total_boost_percentage_by_ids(&g, &vec![1], 0, None), i64::MAX - 1);
}

#[test]
fn negative_boost_lowers_the_award() {
    let mut g = guild();
    g.boosts.roles = vec![boost("1", -50)];
    let total = calculate_total_boost_percentage_by_ids(&g, &vec![1], 0, None);
    assert_eq!(total, -50);
    assert_eq!(apply_boost(20, total), 10);
    assert_eq!(apply_boost(20, -100), 0);
    assert_eq!(apply_boost(20, -250), 0);
}

#[test]
fn boosted_award_is_rounded_down_once() {
    assert_eq!(apply_boost(1, 50), 1);
    assert_eq!(apply_boost(3, 50), 4);
    assert_eq!(apply_boost(7, 33), 9);
    assert_eq!(apply_boost(0, 1000), 0);
    assert_eq!(apply_boost(-5, 0), 0);
    assert_eq!(apply_boost(-5, -300), 10);
}

#[test]
fn boosted_award_is_held_to_32_bits() {
    assert_eq!(apply_boost(i64::MAX, i64::MAX), u32::MAX);
    assert_eq!(apply_boost(i64::MIN, i64::MIN), u32::MAX);
    assert_eq!(apply_boost(i64::MIN, i64::MAX), 0);
    assert_eq!(apply_boost(4_294_967_295, 0), u32::MAX);
    assert_eq!(apply_boost(4_294_967_296, 0), u32::MAX);
    assert_eq!(apply_boost(4_294_967_294, 0), 4_294_967_294);
}

#[test]
fn identifiers_are_matched_by_their_number() {
    assert!(contains_id(&vec![1, 2, 3], 2));
    assert!(!contains_id(&vec![1, 2, 3], 4));
    assert!(!contains_id(&vec![], 0));
    assert!(id_text_matches("2", &vec![1, 2, 3]));
    assert!(id_text_matches("002", &vec![1, 2, 3]));
    assert!(!id_text_matches("two", &vec![1, 2, 3]));
    assert!(!id_text_matches("4", &vec![1, 2, 3]));
}

// ---- reconciler ----

fn ids(roles: &Vec<LevelRole>) -> Vec<u64> {
    roles.iter().map(|role| role.id).collect()
}

#[test]
fn single_rank_mode_adds_only_the_highest_reached_role() {
    let mut g = guild();
    g.levelroles = vec![level_role("5", 5), level_role("10", 10), level_role("15", 15)];
    g.modules.singlerankrole = true;
    let plan = handle_level_roles(&g, 12);
    assert_eq!(ids(&plan.add), vec![10]);
    assert_eq!(ids(&plan.remove), vec![5, 10]);
    let held = plan.apply_to(&vec![5, 10, 99]);
    assert_eq!(held, vec![99, 10]);
    let from_nothing = plan.apply_to(&vec![]);
    assert_eq!(from_nothing, vec![10]);
}

#[test]
fn reconciling_twice_changes_nothing_more() {
    let mut g = guild();
    g.levelroles = vec![level_role("5", 5), level_role("10", 10), level_role("15", 15)];
    for (single, remove) in [(false, false), (true, false), (false, true), (true, true)] {
        g.modules.singlerankrole = single;
        g.modules.removereachedlevelroles = remove;
        for level in [0, 5, 7, 10, 12, 15, 40] {
            let plan = handle_level_roles(&g, level);
            for start in [vec![], vec![5], vec![5, 10, 15], vec![15, 77], vec![10]] {
                let once = plan.apply_to(&start);
                let again = handle_level_roles(&g, level).apply_to(&once);
                assert_eq!(once, again);
            }
        }
    }
}

#[test]
fn without_the_switches_every_reached_role_is_added_highest_first() {
    let mut g = guild();
    g.levelroles = vec![
        level_role("5", 5),
        level_role("15", 15),
        level_role("10", 10),
        level_role("3", 3),
    ];
    let plan = handle_level_roles(&g, 12);
    assert_eq!(ids(&plan.add), vec![10, 5, 3]);
    assert!(plan.remove.is_empty());
    assert_eq!(plan.add[0], LevelRole { id: 10, level: 10 });
}

#[test]
fn roles_of_one_level_keep_their_order() {
    let mut g = guild();
    g.levelroles = vec![
        level_role("1", 5),
        level_role("2", 10),
        level_role("3", 5),
        level_role("4", 10),
        level_role("5", 5),
    ];
    let plan = handle_level_roles(&g, 10);
    assert_eq!(ids(&plan.add), vec![2, 4, 1, 3, 5]);
    g.modules.singlerankrole = true;
    assert_eq!(ids(&handle_level_roles(&g, 10).add), vec![2]);
}

#[test]
fn remove_reached_mode_removes_the_roles_below_and_adds_all_reached() {
    let mut g = guild();
    g.levelroles = vec![level_role("5", 5), level_role("10", 10), level_role("15", 15)];
    g.modules.removereachedlevelroles = true;
    let plan = handle_level_roles(&g, 10);
    assert_eq!(ids(&plan.remove), vec![5]);
    assert_eq!(ids(&plan.add), vec![10, 5]);
}

#[test]
fn role_at_the_new_level_is_not_removed() {
    let mut g = guild();
    g.levelroles = vec![level_role("5", 5), level_role("10", 10)];
    g.modules.singlerankrole = true;
    let plan = handle_level_roles(&g, 10);
    assert_eq!(ids(&plan.remove), vec![5]);
    assert_eq!(ids(&plan.add), vec![10]);
}

#[test]
fn autorole_is_never_touched_by_reconciliation() {
    let mut g = guild();
    g.levelroles = vec![level_role("1", -1), level_role("5", 5)];
    g.modules.singlerankrole = true;
    g.modules.removereachedlevelroles = true;
    for level in [-5, -1, 0, 5, 100] {
        let plan = handle_level_roles(&g, level);
        assert!(!ids(&plan.add).contains(&1));
        assert!(!ids(&plan.remove).contains(&1));
    }
}

#[test]
fn level_role_with_a_malformed_identifier_is_skipped() {
    let mut g = guild();
    g.levelroles = vec![level_role("oops", 5), level_role("7", 6), level_role("", 2)];
    let plan = handle_level_roles(&g, 10);
    assert_eq!(ids(&plan.add), vec![7]);
}

#[test]
fn no_role_is_reached_below_the_lowest() {
    let mut g = guild();
    g.levelroles = vec![level_role("5", 5)];
    g.modules.singlerankrole = true;
    let plan = handle_level_roles(&g, 4);
    assert_eq!(plan, RolePlan { remove: vec![], add: vec![] });
}

#[test]
fn applying_a_plan_keeps_what_it_does_not_name() {
    let plan = RolePlan {
        remove: vec![LevelRole { id: 1, level: 1 }, LevelRole { id: 2, level: 2 }],
        add: vec![LevelRole { id: 2, level: 2 }, LevelRole { id: 3, level: 3 }],
    };
    assert_eq!(plan.apply_to(&vec![1, 9, 2, 8, 9]), vec![9, 8, 2, 3]);
}

// ---- award ----

#[test]
fn award_adds_xp_and_reports_the_levels() {
    let g = guild();
    let mut m = member(40);
    let outcome = award_xp(&g, &mut m, 20, ActivitySource::Message, NOW);
    assert_eq!(m.xp, 60);
    assert_eq!(m.timestamps.message_cooldown, Some(NOW));
    assert_eq!(outcome.before_level, 0);
    assert_eq!(outcome.after_level, 1);
    assert_eq!(outcome.level_changed, Some(LevelChanged { before: 0, after: 1 }));
    assert_eq!(outcome.awarded, XpAwarded { source: ActivitySource::Message, amount: 20, total: 60 });
    assert!(outcome.announce);
    assert!(outcome.roles.is_some());
}

#[test]
fn award_without_a_rise_asks_for_nothing() {
    let g = guild();
    let mut m = member(50);
    let outcome = award_xp(&g, &mut m, 20, ActivitySource::Reaction, NOW);
    assert_eq!(m.xp, 70);
    assert_eq!(outcome.before_level, 1);
    assert_eq!(outcome.after_level, 1);
    assert_eq!(outcome.level_changed, None);
    assert_eq!(outcome.roles, None);
    assert!(!outcome.announce);
    assert_eq!(m.timestamps, member(0).timestamps);
}

#[test]
fn rise_of_an_incognito_member_is_not_announced() {
    let mut g = guild();
    g.levelroles = vec![level_role("5", 1)];
    let mut m = member(40);
    m.settings.incognito = Some(true);
    let outcome = award_xp(&g, &mut m, 20, ActivitySource::Voice, NOW);
    assert!(!outcome.announce);
    assert_eq!(outcome.roles.map(|plan| ids(&plan.add)), Some(vec![5]));
}

#[test]
fn award_sets_the_timestamp_of_its_source() {
    let g = guild();
    let mut m = member(0);
    award_xp(&g, &mut m, 1, ActivitySource::Roll, 1);
    award_xp(&g, &mut m, 1, ActivitySource::Fish, 2);
    award_xp(&g, &mut m, 1, ActivitySource::Loot, 3);
    award_xp(&g, &mut m, 1, ActivitySource::Daily, 4);
    award_xp(&g, &mut m, 1, ActivitySource::Trivia, 5);
    award_xp(&g, &mut m, 1, ActivitySource::Party, 6);
    assert_eq!(
        m.timestamps,
        GuildMemberTimestamps {
            message_cooldown: None,
            game_trivia: Some(5),
            game_daily: Some(4),
            game_fish: Some(2),
            game_loot: Some(3),
            game_roll: Some(1),
        }
    );
    assert_eq!(m.xp, 6);
}

#[test]
fn xp_is_held_to_what_a_record_stores() {
    assert_eq!(add_xp(u64::MAX - 1, 5), u64::MAX);
    assert_eq!(add_xp(1, 2), 3);
    assert_eq!(remove_xp(5, 7), 0);
    assert_eq!(remove_xp(7, 5), 2);
    let g = guild();
    let mut m = member(u64::MAX - 1);
    let outcome = award_xp(&g, &mut m, 100, ActivitySource::Message, NOW);
    assert_eq!(m.xp, u64::MAX);
    assert_eq!(outcome.awarded.total, u64::MAX);
}

// ---- message and reaction ----

#[test]
fn second_message_within_the_cooldown_earns_nothing() {
    let g = guild();
    let mut m = member(0);
    let c = context(vec![], 1, None);
    let first = Handler::message(&g, &mut m, false, 10, &c, NOW);
    assert_eq!(first.skipped, None);
    assert_eq!(m.xp, 20);
    assert_eq!(m.timestamps.message_cooldown, Some(NOW));
    let before = m.clone();
    let second = Handler::message(&g, &mut m, false, 10, &c, NOW + 10_000);
    assert_eq!(second.skipped, Some(Skip::OnCooldown));
    assert_eq!(second.award, None);
    assert!(!second.autonick);
    assert_eq!(m, before);
    assert_eq!(m.xp, 20);
    assert_eq!(m.timestamps.message_cooldown, Some(NOW));
    let third = Handler::message(&g, &mut m, false, 10, &c, NOW + 60_000);
    assert_eq!(third.skipped, None);
    assert_eq!(m.xp, 40);
    assert_eq!(m.timestamps.message_cooldown, Some(NOW + 60_000));
}

#[test]
fn first_message_of_a_member_who_never_posted_earns_at_any_clock() {
    let g = guild();
    let c = context(vec![], 1, None);
    for now in [0u64, 1, 5_000, 59_999, 60_000, NOW] {
        for never in [None, Some(0)] {
            let mut m = member(0);
            m.timestamps.message_cooldown = never;
            let outcome = Handler::message(&g, &mut m, false, 10, &c, now);
            assert_eq!(outcome.skipped, None, "clock {}", now);
            assert_eq!(m.xp, 20);
            assert_eq!(m.timestamps.message_cooldown, Some(now));
        }
    }
}

#[test]
fn message_is_skipped_for_the_first_reason_that_holds() {
    let mut g = guild();
    g.ignored.roles = vec!["4".to_string()];
    let c = context(vec![4], 1, None);
    let mut m = member(0);
    m.timestamps.message_cooldown = Some(NOW - 1);
    assert_eq!(Handler::message(&g, &mut m, true, 3, &c, NOW).skipped, Some(Skip::Bot));
    assert_eq!(Handler::message(&g, &mut m, false, 4, &c, NOW).skipped, Some(Skip::TooShort));
    assert_eq!(Handler::message(&g, &mut m, false, 5, &c, NOW).skipped, Some(Skip::OnCooldown));
    m.timestamps.message_cooldown = None;
    assert_eq!(Handler::message(&g, &mut m, false, 5, &c, NOW).skipped, Some(Skip::Ignored));
    g.modules.messagexp = false;
    let off = Handler::message(&g, &mut m, false, 5, &c, NOW);
    assert_eq!(off.skipped, Some(Skip::ModuleDisabled));
    assert!(off.autonick);
    assert_eq!(m, member(0));
}

#[test]
fn message_in_an_ignored_channel_or_category_earns_nothing() {
    let mut g = guild();
    g.ignored.channels = Some(vec!["10".to_string()]);
    g.ignored.categories = Some(vec!["20".to_string()]);
    let mut m = member(0);
    let in_channel = context(vec![], 10, Some(1));
    let in_category = context(vec![], 11, Some(20));
    let free = context(vec![], 11, Some(21));
    assert_eq!(Handler::message(&g, &mut m, false, 9, &in_channel, NOW).skipped, Some(Skip::Ignored));
    assert_eq!(Handler::message(&g, &mut m, false, 9, &in_category, NOW).skipped, Some(Skip::Ignored));
    assert_eq!(Handler::message(&g, &mut m, false, 9, &free, NOW).skipped, None);
    assert!(is_activity_ignored(&g.ignored, &in_channel));
    assert!(!is_activity_ignored(&g.ignored, &free));
    assert!(is_channel_ignored(&g.ignored, 10));
    assert!(!is_channel_ignored(&g.ignored, 20));
    g.ignored.channels = None;
    g.ignored.categories = None;
    assert!(!is_activity_ignored(&g.ignored, &in_channel));
    assert!(!is_activity_ignored(&g.ignored, &in_category));
}

#[test]
fn message_award_is_boosted() {
    let mut g = guild();
    g.boosts.roles = vec![boost("1", 10), boost("2", 15)];
    g.boosts.channels = vec![boost("3", 25)];
    let mut m = member(0);
    let outcome = Handler::message(&g, &mut m, false, 9, &context(vec![2, 1], 3, None), NOW);
    assert_eq!(outcome.award.map(|award| award.awarded.amount), Some(30));
    assert_eq!(m.xp, 30);
    assert!(outcome.autonick);
}

#[test]
fn reaction_earns_without_a_cooldown() {
    let g = guild();
    let mut m = member(0);
    let c = context(vec![], 1, None);
    assert_eq!(Handler::reaction_add(&g, &mut m, &c, NOW).skipped, None);
    assert_eq!(Handler::reaction_add(&g, &mut m, &c, NOW).skipped, None);
    assert_eq!(m.xp, 10);
    assert_eq!(m.timestamps, member(0).timestamps);
}

#[test]
fn reaction_is_skipped_when_switched_off_or_ignored() {
    let mut g = guild();
    g.ignored.roles = vec!["4".to_string()];
    let mut m = member(0);
    assert_eq!(
        Handler::reaction_add(&g, &mut m, &context(vec![4], 1, None), NOW).skipped,
        Some(Skip::Ignored)
    );
    g.modules.reactionxp = false;
    assert_eq!(
        Handler::reaction_add(&g, &mut m, &context(vec![], 1, None), NOW).skipped,
        Some(Skip::ModuleDisabled)
    );
    assert_eq!(m, member(0));
}

#[test]
fn new_member_gets_the_first_well_formed_autorole() {
    let mut g = guild();
    assert_eq!(Handler::guild_member_addition(&g), None);
    g.levelroles = vec![level_role("5", 5), level_role("x", -1), level_role("8", -1), level_role("9", -1)];
    assert_eq!(Handler::guild_member_addition(&g), Some(8));
    g.levelroles = vec![level_role("5", 5)];
    assert_eq!(Handler::guild_member_addition(&g), None);
}

// ---- voice ----

#[test]
fn voice_state_update_is_a_join_a_leave_or_a_move() {
    assert_eq!(Handler::voice_state_update(None, Some(1)), Some(VoiceEvent::Join { channel: 1 }));
    assert_eq!(Handler::voice_state_update(Some(1), None), Some(VoiceEvent::Leave { channel: 1 }));
    assert_eq!(
        Handler::voice_state_update(Some(1), Some(2)),
        Some(VoiceEvent::Move { from: 1, to: 2 })
    );
    assert_eq!(Handler::voice_state_update(None, None), None);
}

#[test]
fn voice_session_of_125_seconds_earns_95_xp() {
    let g = guild();
    let mut u = user(None);
    let t0 = NOW;
    assert_eq!(
        Handler::voice_join(&g, &mut u, Some(900), 1, t0),
        VoiceStep::Open { join_timestamp: t0 }
    );
    assert_eq!(u.timestamps.join_voicechat, Some(t0));
    let step = Handler::voice_leave(&g, &mut u, Some(900), 1, t0 + 125_000);
    assert_eq!(step, VoiceStep::Close { join_timestamp: t0, channel: 1 });
    assert_eq!(u.timestamps.join_voicechat, None);
    let mut m = member(0);
    let outcome = Handler::voice_close(&g, &mut m, &context(vec![], 1, None), t0, t0 + 125_000);
    assert_eq!(outcome.xp, 95);
    assert_eq!(m.xp, 95);
    assert_eq!(outcome.award.after_level, 1);
    assert_eq!(outcome.time.minutes, 2);
    assert_eq!(outcome.time.seconds, 5);
    assert_eq!(outcome.log_channel, None);
}

#[test]
fn voice_summary_goes_to_the_configured_channel() {
    let mut g = guild();
    g.logs.voicetime = Some("321".to_string());
    let mut m = member(0);
    let outcome = Handler::voice_close(&g, &mut m, &context(vec![], 1, None), 0, 1000);
    assert_eq!(outcome.log_channel, Some(321));
    g.logs.voicetime = Some("nowhere".to_string());
    let outcome = Handler::voice_close(&g, &mut m, &context(vec![], 1, None), 0, 1000);
    assert_eq!(outcome.log_channel, None);
}

#[test]
fn moving_into_the_afk_channel_closes_the_session() {
    let g = guild();
    let mut u = user(Some(5));
    let step = Handler::voice_move(&g, &mut u, Some(900), 1, 900, NOW);
    assert_eq!(step, VoiceStep::Close { join_timestamp: 5, channel: 1 });
    assert_eq!(u.timestamps.join_voicechat, None);
}

#[test]
fn moving_out_of_the_afk_channel_opens_a_session() {
    let g = guild();
    let mut u = user(None);
    let step = Handler::voice_move(&g, &mut u, Some(900), 900, 1, NOW);
    assert_eq!(step, VoiceStep::Open { join_timestamp: NOW });
    assert_eq!(u.timestamps.join_voicechat, Some(NOW));
}

#[test]
fn moving_between_two_trackable_channels_changes_nothing() {
    let g = guild();
    let mut u = user(Some(5));
    assert_eq!(Handler::voice_move(&g, &mut u, Some(900), 1, 2, NOW), VoiceStep::Stay);
    assert_eq!(u.timestamps.join_voicechat, Some(5));
    assert_eq!(Handler::voice_move(&g, &mut u, Some(900), 1, 1, NOW), VoiceStep::Stay);
    assert_eq!(u.timestamps.join_voicechat, Some(5));
}

#[test]
fn moving_between_two_untrackable_channels_changes_nothing() {
    let mut g = guild();
    g.ignored.channels = Some(vec!["7".to_string()]);
    let mut u = user(None);
    assert_eq!(Handler::voice_move(&g, &mut u, Some(900), 900, 7, NOW), VoiceStep::Stay);
    assert_eq!(Handler::voice_move(&g, &mut u, Some(900), 7, 900, NOW), VoiceStep::Stay);
    assert_eq!(u.timestamps.join_voicechat, None);
}

#[test]
fn moving_into_an_ignored_channel_closes_and_out_of_it_opens() {
    let mut g = guild();
    g.ignored.channels = Some(vec!["7".to_string()]);
    let mut u = user(Some(5));
    assert_eq!(
        Handler::voice_move(&g, &mut u, None, 1, 7, NOW),
        VoiceStep::Close { join_timestamp: 5, channel: 1 }
    );
    assert_eq!(
        Handler::voice_move(&g, &mut u, None, 7, 1, NOW + 1),
        VoiceStep::Open { join_timestamp: NOW + 1 }
    );
    assert_eq!(u.timestamps.join_voicechat, Some(NOW + 1));
}

#[test]
fn joining_an_untrackable_channel_opens_no_session() {
    let mut g = guild();
    g.ignored.channels = Some(vec!["7".to_string()]);
    let mut u = user(None);
    assert_eq!(Handler::voice_join(&g, &mut u, Some(900), 7, NOW), VoiceStep::Stay);
    assert_eq!(Handler::voice_join(&g, &mut u, Some(900), 900, NOW), VoiceStep::Stay);
    assert_eq!(u.timestamps.join_voicechat, None);
    assert!(!is_trackable(&g, Some(900), 7));
    assert!(!is_trackable(&g, Some(900), 900));
    assert!(is_trackable(&g, Some(900), 1));
    assert!(is_trackable(&g, None, 900));
}

#[test]
fn leaving_without_a_session_earns_nothing() {
    let g = guild();
    let mut u = user(None);
    assert_eq!(Handler::voice_leave(&g, &mut u, None, 1, NOW), VoiceStep::Stay);
    assert_eq!(u.timestamps.join_voicechat, None);
}

#[test]
fn leaving_voice_ends_the_session_wherever_the_member_was() {
    let mut g = guild();
    g.ignored.channels = Some(vec!["7".to_string()]);
    for channel in [1u64, 7, 900] {
        let mut u = user(Some(5));
        assert_eq!(
            Handler::voice_leave(&g, &mut u, Some(900), channel, NOW),
            VoiceStep::Close { join_timestamp: 5, channel }
        );
        assert_eq!(u.timestamps.join_voicechat, None);
    }
}

#[test]
fn moving_into_an_untrackable_channel_ends_the_session_wherever_the_member_was() {
    let mut g = guild();
    g.ignored.channels = Some(vec!["7".to_string()]);
    let mut u = user(Some(5));
    assert_eq!(
        Handler::voice_move(&g, &mut u, Some(900), 900, 7, NOW),
        VoiceStep::Close { join_timestamp: 5, channel: 900 }
    );
    assert_eq!(u.timestamps.join_voicechat, None);
}

#[test]
fn voice_events_do_nothing_while_voice_xp_is_off() {
    let mut g = guild();
    g.modules.voicexp = false;
    let mut u = user(Some(5));
    assert_eq!(Handler::voice_join(&g, &mut u, None, 1, NOW), VoiceStep::Stay);
    assert_eq!(Handler::voice_leave(&g, &mut u, None, 1, NOW), VoiceStep::Stay);
    assert_eq!(Handler::voice_move(&g, &mut u, Some(2), 1, 2, NOW), VoiceStep::Stay);
    assert_eq!(
        Handler::voice_transition(&g, &mut u, None, VoiceEvent::Join { channel: 1 }, NOW),
        VoiceStep::Stay
    );
    assert_eq!(u, user(Some(5)));
}

#[test]
fn voice_award_uses_the_boosts_of_the_channel_that_was_left() {
    let mut g = guild();
    g.boosts.channels = vec![boost("1", 100)];
    let mut m = member(0);
    let boosted = Handler::voice_close(&g, &mut m, &context(vec![], 1, None), 0, 125_000);
    assert_eq!(boosted.xp, 190);
    let plain = Handler::voice_close(&g, &mut m, &context(vec![], 2, None), 0, 125_000);
    assert_eq!(plain.xp, 95);
}

// ---- records ----

#[test]
fn store_answers_carry_content_only_on_success() {
    let ok = GuildResponse { success: true, message: String::new(), content: Some(guild()) };
    assert_eq!(ok.into_content(), Some(guild()));
    let failed = GuildResponse { success: false, message: String::new(), content: Some(guild()) };
    assert_eq!(failed.into_content(), None);
    let empty = GuildMemberResponse { success: true, message: String::new(), content: None };
    assert_eq!(empty.into_content(), None);
    let found =
        GuildMemberResponse { success: true, message: String::new(), content: Some(member(3)) };
    assert_eq!(found.into_content(), Some(member(3)));
}

#[test]
fn profile_is_brought_up_to_date() {
    let mut m = member(7);
    conform_xpc(&mut m, "ada".to_string(), Some("a.png".to_string()), None);
    assert_eq!(m.userData.username, Some("ada".to_string()));
    assert_eq!(m.userData.avatar, Some("a.png".to_string()));
    assert_eq!(m.userData.banner, Some(String::new()));
    assert_eq!(m.xp, 7);
    let body = GuildMember::set_xp(9, &m);
    assert_eq!(body.xp, 9);
    assert_eq!(body.userData, m.userData);
}
