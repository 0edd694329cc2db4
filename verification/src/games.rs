//! The reward tables of the games: what a draw is worth.

use vstd::prelude::*;
use vstd::string::StringExecFns;
use crate::math::clamp;
use crate::random::random_in_range;

verus! {

/// What the three games of a party round earned one participant.
#[derive(Clone, Copy, Debug, PartialEq, Eq)]
pub struct GameResult {
    pub roll: u32,
    pub fish: u32,
    pub loot: u32,
}

/// The XP that a game earned, and the name of what was found.
#[derive(Clone, Debug, PartialEq, Eq)]
pub struct GameEventResult {
    pub xp: i64,
    pub item: String,
}

/// The sides of the die.
pub const DIE_SIDES: u32 = 6;

/// The sides of the fishing table.
pub const FISH_SIDES: u32 = 1000;

/// The sides of the loot table.
pub const LOOT_SIDES: u32 = 10;

/// The XP of a first daily claim; a streak of `n` claims is worth `n` times this.
pub const DAILY_BASE_XP: u64 = 250;

/// How often the base amount a catch is worth, by the draw from 1 to 1000.
pub open spec fn fish_multiplier(draw: int) -> int {
    if 401 <= draw <= 700 {
        1
    } else if 701 <= draw <= 900 {
        3
    } else if 901 <= draw <= 998 {
        4
    } else if 999 <= draw <= 1000 {
        5
    } else {
        0
    }
}

/// The name of a catch, by the draw from 1 to 1000.
pub open spec fn fish_label(draw: int) -> Seq<char> {
    if 401 <= draw <= 700 {
        "a fish with a good personality"@
    } else if 701 <= draw <= 900 {
        "an average-sized fish"@
    } else if 901 <= draw <= 998 {
        "a huge fish"@
    } else if draw == 999 {
        "a humongous fish**. Like seriously... that's not gonna fit** "@
    } else if draw == 1000 {
        "a bottle with a note! You can read it [here](https://pastebin.com/X3Fx81wN)"@
    } else {
        "an old shoe"@
    }
}

/// How often the base amount a crate is worth, by the draw from 1 to 10.
pub open spec fn loot_multiplier(draw: int) -> int {
    if 5 <= draw <= 7 {
        2
    } else if 8 <= draw <= 9 {
        3
    } else if draw == 10 {
        4
    } else {
        1
    }
}

/// The name of a crate, by the draw from 1 to 10.
pub open spec fn loot_label(draw: int) -> Seq<char> {
    if 5 <= draw <= 7 {
        "a rare"@
    } else if 8 <= draw <= 9 {
        "an epic"@
    } else if draw == 10 {
        "a legendary"@
    } else {
        "a common"@
    }
}

/// What one participant earns in a party round: the die times the roll
/// amount, and a catch and a crate from the two tables.
pub open spec fn bulk_result(
    roll_xp: int,
    fish_xp: int,
    loot_xp: int,
    die: int,
    fish_draw: int,
    loot_draw: int,
) -> (int, int, int) {
    (roll_xp * die, fish_multiplier(fish_draw) * fish_xp, loot_multiplier(loot_draw) * loot_xp)
}

/// What a trivia question is worth, in base amounts, by its difficulty.
pub open spec fn difficulty_multiplier(difficulty: Seq<char>) -> int {
    if difficulty == "medium"@ {
        2
    } else if difficulty == "hard"@ {
        3
    } else {
        1
    }
}

/// The XP of a daily claim at a streak: the base amount times the streak, up
/// to the community's cap and never under zero.
pub open spec fn daily_xp(streak: int, cap: int) -> int {
    let earned = if DAILY_BASE_XP * streak > cap {
        cap
    } else {
        DAILY_BASE_XP * streak
    };
    clamp(earned, 0, u64::MAX as int)
}

/// The XP that a game hands to a member: nothing where the table gave less
/// than nothing.
pub open spec fn xp_gain(xp: int) -> int {
    if xp < 0 {
        0
    } else {
        xp
    }
}

/// How often the base amount a catch is worth.
pub fn fish_factor(draw: u32) -> (factor: u32)
    ensures
        factor == fish_multiplier(draw as int),
{
    if 401 <= draw && draw <= 700 {
        1
    } else if 701 <= draw && draw <= 900 {
        3
    } else if 901 <= draw && draw <= 998 {
        4
    } else if 999 <= draw && draw <= 1000 {
        5
    } else {
        0
    }
}

/// The name of a catch.
pub fn fish_item(draw: u32) -> (item: String)
    ensures
        item@ == fish_label(draw as int),
{
    if 401 <= draw && draw <= 700 {
        String::from_str("a fish with a good personality")
    } else if 701 <= draw && draw <= 900 {
        String::from_str("an average-sized fish")
    } else if 901 <= draw && draw <= 998 {
        String::from_str("a huge fish")
    } else if draw == 999 {
        String::from_str("a humongous fish**. Like seriously... that's not gonna fit** ")
    } else if draw == 1000 {
        String::from_str(
            "a bottle with a note! You can read it [here](https://pastebin.com/X3Fx81wN)",
        )
    } else {
        String::from_str("an old shoe")
    }
}

/// How often the base amount a crate is worth.
pub fn loot_factor(draw: u32) -> (factor: u32)
    ensures
        factor == loot_multiplier(draw as int),
{
    if 5 <= draw && draw <= 7 {
        2
    } else if 8 <= draw && draw <= 9 {
        3
    } else if draw == 10 {
        4
    } else {
        1
    }
}

/// The name of a crate.
pub fn loot_item(draw: u32) -> (item: String)
    ensures
        item@ == loot_label(draw as int),
{
    if 5 <= draw && draw <= 7 {
        String::from_str("a rare")
    } else if 8 <= draw && draw <= 9 {
        String::from_str("an epic")
    } else if draw == 10 {
        String::from_str("a legendary")
    } else {
        String::from_str("a common")
    }
}

/// The catch for a draw from the fishing table.
pub fn fish_outcome(xp: i64, draw: u32) -> (result: GameEventResult)
    requires
        i64::MIN <= fish_multiplier(draw as int) * xp <= i64::MAX,
    ensures
        result.xp == fish_multiplier(draw as int) * xp,
        result.item@ == fish_label(draw as int),
{
    GameEventResult { xp: (fish_factor(draw) as i64) * xp, item: fish_item(draw) }
}

/// The crate for a draw from the loot table.
pub fn loot_outcome(xp: i64, draw: u32) -> (result: GameEventResult)
    requires
        i64::MIN <= loot_multiplier(draw as int) * xp <= i64::MAX,
    ensures
        result.xp == loot_multiplier(draw as int) * xp,
        result.item@ == loot_label(draw as int),
{
    GameEventResult { xp: (loot_factor(draw) as i64) * xp, item: loot_item(draw) }
}

/// What a game is worth to the member: `multiplier` base amounts, never
/// under zero, held to what a record can store.
pub open spec fn game_amount(multiplier: int, base: int) -> int {
    clamp(multiplier * base, 0, u64::MAX as int)
}

/// What a game is worth to the member.
pub fn scaled_amount(multiplier: u32, base: i64) -> (xp: u64)
    ensures
        xp == game_amount(multiplier as int, base as int),
{
    assert(-0x8000_0000_0000_0000_0000_0000 <= (multiplier as i128) * (base as i128)
        <= 0x8000_0000_0000_0000_0000_0000) by (nonlinear_arith)
        requires
            0 <= multiplier as i128 <= 0xffff_ffff,
            -0x8000_0000_0000_0000 <= base as i128 <= 0x8000_0000_0000_0000,
    ;
    let product: i128 = (multiplier as i128) * (base as i128);
    if product < 0 {
        0
    } else if product > u64::MAX as i128 {
        u64::MAX
    } else {
        product as u64
    }
}

/// Goes fishing: draws from the table and hands out the catch.
pub fn game_fish(xp: i64) -> (result: GameEventResult)
    requires
        i64::MIN <= 5 * xp <= i64::MAX,
    ensures
        exists|draw: int|
            1 <= draw <= FISH_SIDES && result.xp == #[trigger] fish_multiplier(draw) * xp
                && result.item@ == fish_label(draw),
{
    let draw = random_in_range(1, FISH_SIDES);
    let result = fish_outcome(xp, draw);
    assert(result.xp == fish_multiplier(draw as int) * xp);
    result
}

/// Opens a crate: draws from the table and hands out what is in it.
pub fn game_loot(xp: i64) -> (result: GameEventResult)
    requires
        i64::MIN <= 4 * xp <= i64::MAX,
    ensures
        exists|draw: int|
            1 <= draw <= LOOT_SIDES && result.xp == #[trigger] loot_multiplier(draw) * xp
                && result.item@ == loot_label(draw),
{
    let draw = random_in_range(1, LOOT_SIDES);
    let result = loot_outcome(xp, draw);
    assert(result.xp == loot_multiplier(draw as int) * xp);
    result
}

/// Rolls the die.
pub fn roll_die() -> (die: u32)
    ensures
        1 <= die <= DIE_SIDES,
{
    random_in_range(1, DIE_SIDES)
}

/// What a roll of the die is worth at `roll_xp` a pip.
pub fn roll_outcome(roll_xp: i64, die: u32) -> (xp: i64)
    requires
        1 <= die <= DIE_SIDES,
        i64::MIN <= 6 * roll_xp <= i64::MAX,
    ensures
        xp == roll_xp * die,
{
    assert(i64::MIN <= roll_xp * (die as int) <= i64::MAX) by (nonlinear_arith)
        requires
            1 <= die <= 6,
            i64::MIN <= 6 * roll_xp <= i64::MAX,
    ;
    roll_xp * (die as i64)
}

/// One participant's party round for given draws.
pub fn bulk_outcome(
    roll_xp: u32,
    fish_xp: u32,
    loot_xp: u32,
    die: u32,
    fish_draw: u32,
    loot_draw: u32,
) -> (result: GameResult)
    requires
        1 <= die <= DIE_SIDES,
        6 * roll_xp <= u32::MAX,
        5 * fish_xp <= u32::MAX,
        4 * loot_xp <= u32::MAX,
    ensures
        (result.roll as int, result.fish as int, result.loot as int) == bulk_result(
            roll_xp as int,
            fish_xp as int,
            loot_xp as int,
            die as int,
            fish_draw as int,
            loot_draw as int,
        ),
{
    assert(roll_xp * die <= u32::MAX) by (nonlinear_arith)
        requires
            1 <= die <= 6,
            6 * roll_xp <= u32::MAX,
    ;
    let fish = fish_outcome(fish_xp as i64, fish_draw);
    let loot = loot_outcome(loot_xp as i64, loot_draw);
    GameResult { roll: roll_xp * die, fish: fish.xp as u32, loot: loot.xp as u32 }
}

/// One participant's party round: a roll, a catch and a crate.
pub fn calc_games_bulk(roll_xp: u32, fish_xp: u32, loot_xp: u32) -> (result: GameResult)
    requires
        6 * roll_xp <= u32::MAX,
        5 * fish_xp <= u32::MAX,
        4 * loot_xp <= u32::MAX,
    ensures
        exists|die: int, fish_draw: int, loot_draw: int|
            1 <= die <= DIE_SIDES && 1 <= fish_draw <= FISH_SIDES && 1 <= loot_draw <= LOOT_SIDES
                && (result.roll as int, result.fish as int, result.loot as int) == #[trigger] bulk_result(
                roll_xp as int,
                fish_xp as int,
                loot_xp as int,
                die,
                fish_draw,
                loot_draw,
            ),
{
    let die = random_in_range(1, DIE_SIDES);
    let fish_draw = random_in_range(1, FISH_SIDES);
    let loot_draw = random_in_range(1, LOOT_SIDES);
    let result = bulk_outcome(roll_xp, fish_xp, loot_xp, die, fish_draw, loot_draw);
    assert((result.roll as int, result.fish as int, result.loot as int) == bulk_result(
        roll_xp as int,
        fish_xp as int,
        loot_xp as int,
        die as int,
        fish_draw as int,
        loot_draw as int,
    ));
    result
}

/// The XP of a daily claim at `streak`, under the community's cap.
pub fn daily_amount(streak: u64, cap: i64) -> (xp: u64)
    ensures
        xp == daily_xp(streak as int, cap as int),
{
    let earned: u128 = 250 * (streak as u128);
    assert(earned == DAILY_BASE_XP * streak);
    if cap < 0 {
        0
    } else if earned > cap as u128 {
        cap as u64
    } else {
        earned as u64
    }
}

} // verus!
