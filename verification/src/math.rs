//! The level curve: how much XP a level takes, and which level an XP total is.

use vstd::prelude::*;

verus! {

/// The integer nearest to `n / d`, a half rounded away from zero.
pub open spec fn round_half_away(n: int, d: int) -> int
    recommends
        d > 0,
{
    if n >= 0 {
        (2 * n + d) / (2 * d)
    } else {
        -((2 * (-n) + d) / (2 * d))
    }
}

/// `value` held to the range from `low` to `high`.
pub open spec fn clamp(value: int, low: int, high: int) -> int {
    if value < low {
        low
    } else if value > high {
        high
    } else {
        value
    }
}

/// `x` times itself.
pub open spec fn square(x: int) -> int {
    x * x
}

/// XP that `level` takes: `2.5 * (20 * level^2 - 1)` rounded to the nearest
/// integer, and never below zero.
pub open spec fn required_xp(level: int) -> int {
    let rounded = round_half_away(5 * (20 * square(level) - 1), 2);
    if rounded < 0 {
        0
    } else {
        rounded
    }
}

/// `level` is the level of an XP total: `10 * level <= sqrt(2 * xp + 5) < 10 * (level + 1)`.
pub open spec fn is_level_of(xp: int, level: int) -> bool {
    &&& level >= 0
    &&& 100 * square(level) <= 2 * xp + 5
    &&& 2 * xp + 5 < 100 * square(level + 1)
}

/// The level of an XP total: `floor(sqrt(2 * xp + 5) / 10)`.
pub open spec fn level_from_xp(xp: int) -> int {
    choose|level: int| is_level_of(xp, level)
}

/// Above level zero the curve is `50 * level^2 - 2`; level zero takes nothing.
pub proof fn lemma_required_xp_closed_form(level: int)
    ensures
        level != 0 ==> required_xp(level) == 50 * square(level) - 2,
        level == 0 ==> required_xp(level) == 0,
{
    if level != 0 {
        assert(square(level) >= 1) by (nonlinear_arith)
            requires
                level != 0,
        ;
    }
}

proof fn lemma_square_monotonic(a: int, b: int)
    requires
        0 <= a <= b,
    ensures
        square(a) <= square(b),
{
    assert(a * a <= b * b) by (nonlinear_arith)
        requires
            0 <= a <= b,
    ;
}

proof fn lemma_square_strict(a: int, b: int)
    requires
        0 <= a < b,
    ensures
        square(a) < square(b),
{
    assert(a * a < b * b) by (nonlinear_arith)
        requires
            0 <= a < b,
    ;
}

/// Every XP total has a level.
pub proof fn lemma_level_exists(xp: int)
    requires
        xp >= 0,
    ensures
        is_level_of(xp, level_from_xp(xp)),
    decreases xp,
{
    if xp == 0 {
        assert(is_level_of(0, 0));
    } else {
        lemma_level_exists(xp - 1);
        let below = level_from_xp(xp - 1);
        lemma_square_strict(below + 1, below + 2);
        if 2 * xp + 5 < 100 * square(below + 1) {
            assert(is_level_of(xp, below));
        } else {
            assert(is_level_of(xp, below + 1));
        }
    }
}

/// An XP total has one level only.
pub proof fn lemma_level_unique(xp: int, a: int, b: int)
    requires
        is_level_of(xp, a),
        is_level_of(xp, b),
    ensures
        a == b,
{
    if a < b {
        lemma_square_monotonic(a + 1, b);
    } else if b < a {
        lemma_square_monotonic(b + 1, a);
    }
}

/// More XP is never a lower level.
pub proof fn lemma_level_monotonic(less: int, more: int)
    requires
        0 <= less <= more,
    ensures
        level_from_xp(less) <= level_from_xp(more),
{
    lemma_level_exists(less);
    lemma_level_exists(more);
    let low = level_from_xp(less);
    let high = level_from_xp(more);
    if high < low {
        lemma_square_monotonic(high + 1, low);
    }
}

/// The curve rises strictly from level one on.
pub proof fn lemma_required_xp_strictly_increasing(level: int)
    requires
        level >= 1,
    ensures
        required_xp(level) < required_xp(level + 1),
{
    lemma_required_xp_closed_form(level);
    lemma_required_xp_closed_form(level + 1);
    lemma_square_strict(level, level + 1);
}

/// The two directions of the curve agree: the XP that a level takes is an XP
/// total of that level.
pub proof fn lemma_level_of_required_xp(level: int)
    requires
        level >= 0,
    ensures
        level_from_xp(required_xp(level)) == level,
{
    lemma_required_xp_closed_form(level);
    let xp = required_xp(level);
    if level == 0 {
        assert(is_level_of(xp, 0));
    } else {
        lemma_square_strict(level, level + 1);
        assert(is_level_of(xp, level));
    }
    lemma_level_exists(xp);
    lemma_level_unique(xp, level, level_from_xp(xp));
}

/// The XP that `level` takes.
pub fn get_required_xp(level: i32) -> (xp: usize)
    requires
        required_xp(level as int) <= usize::MAX,
    ensures
        xp == required_xp(level as int),
{
    proof {
        lemma_required_xp_closed_form(level as int);
    }
    if level == 0 {
        return 0;
    }
    let wide: i128 = level as i128;
    assert(0 < wide * wide <= 0x4000_0000_0000_0000) by (nonlinear_arith)
        requires
            -0x8000_0000 <= wide <= 0x7fff_ffff,
            wide != 0,
    ;
    let squared: i128 = wide * wide;
    let total: i128 = 50 * squared - 2;
    total as usize
}

/// The XP that `level` takes, where 64 bits hold it.
pub fn try_required_xp(level: i32) -> (xp: Option<u64>)
    ensures
        xp is Some <==> required_xp(level as int) <= u64::MAX,
        xp is Some ==> xp->0 == required_xp(level as int),
{
    proof {
        lemma_required_xp_closed_form(level as int);
    }
    if level == 0 {
        return Some(0);
    }
    let wide: i128 = level as i128;
    assert(0 < wide * wide <= 0x4000_0000_0000_0000) by (nonlinear_arith)
        requires
            -0x8000_0000 <= wide <= 0x7fff_ffff,
            wide != 0,
    ;
    let total: i128 = 50 * (wide * wide) - 2;
    if total > u64::MAX as i128 {
        None
    } else {
        Some(total as u64)
    }
}

/// The level of an XP total.
pub fn calculate_level(xp: &u64) -> (level: i32)
    ensures
        level == level_from_xp(*xp as int),
        0 <= level <= 607_500_000,
{
    let target: u128 = 2 * (*xp as u128) + 5;
    let mut low: u128 = 0;
    let mut high: u128 = 607_500_000;
    assert(100 * square(high as int) > target) by (nonlinear_arith)
        requires
            high == 607_500_000,
            target <= 2 * 0xffff_ffff_ffff_ffff + 5,
    ;
    while high - low > 1
        invariant
            low < high <= 607_500_000,
            100 * square(low as int) <= target,
            target < 100 * square(high as int),
        decreases high - low,
    {
        let middle: u128 = low + (high - low) / 2;
        assert(middle * middle <= 607_500_000 * 607_500_000) by (nonlinear_arith)
            requires
                0 <= middle <= 607_500_000,
        ;
        if 100 * (middle * middle) <= target {
            low = middle;
        } else {
            high = middle;
        }
    }
    proof {
        assert(high == low + 1);
        assert(is_level_of(*xp as int, low as int));
        lemma_level_exists(*xp as int);
        lemma_level_unique(*xp as int, low as int, level_from_xp(*xp as int));
    }
    low as i32
}

/// The whole seconds of a voice session that earn XP: those between `then`
/// and `now`, both in milliseconds, less the first `cooldown` seconds.
pub open spec fn billable_seconds(then: int, now: int, cooldown: int) -> int {
    let seconds = (now - then) / 1000 - cooldown;
    if seconds < 0 {
        0
    } else {
        seconds
    }
}

/// What `seconds` in voice are worth at `rate` XP a minute under a boost of
/// `percentage` percent: `rate * seconds / 60 * (1 + percentage / 100)`
/// rounded down once, at the end, and held to what an award can be.
pub open spec fn voice_xp(rate: int, seconds: int, percentage: int) -> int {
    clamp((rate * seconds * (100 + percentage)) / 6000, 0, u32::MAX as int)
}

/// From this product on, a sixthousandth is more than an award can be.
spec fn award_cap() -> int {
    25_769_803_776_000
}

spec fn at_most_cap(value: int) -> int {
    if value > award_cap() {
        award_cap()
    } else {
        value
    }
}

proof fn lemma_capped_product(a: int, b: int)
    requires
        a >= 1,
        b >= 1,
    ensures
        at_most_cap(at_most_cap(a) * at_most_cap(b)) == at_most_cap(a * b),
        1 <= at_most_cap(a) * at_most_cap(b) <= award_cap() * award_cap(),
{
    let x = at_most_cap(a);
    let y = at_most_cap(b);
    assert(1 <= x * y <= award_cap() * award_cap()) by (nonlinear_arith)
        requires
            1 <= x <= award_cap(),
            1 <= y <= award_cap(),
    ;
    if a > award_cap() {
        assert(a * b >= award_cap()) by (nonlinear_arith)
            requires
                a >= award_cap(),
                b >= 1,
        ;
        assert(x * y >= award_cap()) by (nonlinear_arith)
            requires
                x == award_cap(),
                y >= 1,
        ;
    } else if b > award_cap() {
        assert(a * b >= award_cap()) by (nonlinear_arith)
            requires
                b >= award_cap(),
                a >= 1,
        ;
        assert(x * y >= award_cap()) by (nonlinear_arith)
            requires
                y == award_cap(),
                x >= 1,
        ;
    }
}

/// Without a boost, a voice session is worth its rate a minute for every
/// sixty seconds, rounded down and held to what an award can be: at 60 XP a
/// minute, 95 seconds are worth 95 XP.
pub proof fn lemma_voice_xp_without_boost(rate: int, seconds: int)
    ensures
        voice_xp(rate, seconds, 0) == clamp((rate * seconds) / 60, 0, u32::MAX as int),
{
    let worth = rate * seconds;
    assert(rate * seconds * (100 + 0) == worth * 100) by (nonlinear_arith)
        requires
            worth == rate * seconds,
    ;
    if worth >= 0 {
        vstd::arithmetic::div_mod::lemma_div_denominator(worth * 100, 100, 60);
    }
}

/// The first seconds of a voice session, as many as the join cooldown,
/// earn nothing, whatever the rate and the boost are.
pub proof fn lemma_join_cooldown_earns_nothing(
    then: int,
    now: int,
    cooldown: int,
    rate: int,
    percentage: int,
)
    requires
        (now - then) / 1000 <= cooldown,
    ensures
        billable_seconds(then, now, cooldown) == 0,
        voice_xp(rate, billable_seconds(then, now, cooldown), percentage) == 0,
{
    assert(rate * 0 * (100 + percentage) == 0) by (nonlinear_arith);
}

/// A boost beyond 64 bits is worth exactly what the nearest number that
/// fits is worth: the XP of a voice session is the same.
pub proof fn lemma_voice_clamp_is_unseen(rate: int, seconds: int, percentage: int)
    requires
        seconds >= 0,
    ensures
        voice_xp(rate, seconds, clamp(percentage, i64::MIN as int, i64::MAX as int)) == voice_xp(
            rate,
            seconds,
            percentage,
        ),
{
    let held = clamp(percentage, i64::MIN as int, i64::MAX as int);
    let base = rate * seconds;
    if percentage > i64::MAX || percentage < i64::MIN {
        let far = 100 + percentage;
        let near = 100 + held;
        if base == 0 {
            assert(base * far == 0 && base * near == 0) by (nonlinear_arith)
                requires
                    base == 0,
            ;
        } else if (base > 0) == (far > 0) {
            assert(base * far >= 0x7fff_ffff_ffff_ff00 && base * near >= 0x7fff_ffff_ffff_ff00)
                by (nonlinear_arith)
                requires
                    (base >= 1 && far >= 0x7fff_ffff_ffff_ff00 && near >= 0x7fff_ffff_ffff_ff00)
                        || (base <= -1 && far <= -0x7fff_ffff_ffff_ff00 && near
                        <= -0x7fff_ffff_ffff_ff00),
            ;
        } else {
            assert(base * far < 0 && base * near < 0) by (nonlinear_arith)
                requires
                    (base >= 1 && far < 0 && near < 0) || (base <= -1 && far > 0 && near > 0),
            ;
        }
    }
}

/// The XP of a voice session between two points in time, in milliseconds.
pub(crate) fn voice_xp_between(
    then: i128,
    now: i128,
    rate: i64,
    cooldown: i64,
    percentage: i64,
) -> (xp: u32)
    requires
        0 <= then <= u64::MAX,
        i64::MIN <= now <= u64::MAX,
    ensures
        xp == voice_xp(
            rate as int,
            billable_seconds(then as int, now as int, cooldown as int),
            percentage as int,
        ),
{
    let passed: i128 = now - then;
    let whole: i128 = if passed >= 0 {
        passed / 1000
    } else {
        -((-passed + 999) / 1000)
    };
    assert(whole == (now as int - then as int) / 1000);
    let seconds: i128 = if whole - (cooldown as i128) < 0 {
        0
    } else {
        whole - (cooldown as i128)
    };
    let factor: i128 = 100 + (percentage as i128);
    let rate: i128 = rate as i128;
    let ghost product = rate * seconds * factor;
    if seconds == 0 || rate == 0 || factor == 0 {
        assert(product == 0) by (nonlinear_arith)
            requires
                product == rate * seconds * factor,
                seconds == 0 || rate == 0 || factor == 0,
        ;
        return 0;
    }
    if (rate < 0) != (factor < 0) {
        assert(product < 0) by (nonlinear_arith)
            requires
                product == rate * seconds * factor,
                seconds > 0,
                (rate < 0 && factor > 0) || (rate > 0 && factor < 0),
        ;
        return 0;
    }
    let a: i128 = if rate < 0 {
        -rate
    } else {
        rate
    };
    let c: i128 = if factor < 0 {
        -factor
    } else {
        factor
    };
    assert(a * seconds * c == product) by (nonlinear_arith)
        requires
            product == rate * seconds * factor,
            (a == rate && c == factor) || (a == -rate && c == -factor),
    ;
    let cap: i128 = 25_769_803_776_000;
    let a_held: i128 = if a > cap {
        cap
    } else {
        a
    };
    let b_held: i128 = if seconds > cap {
        cap
    } else {
        seconds
    };
    let c_held: i128 = if c > cap {
        cap
    } else {
        c
    };
    proof {
        lemma_capped_product(a as int, seconds as int);
    }
    let first: i128 = a_held * b_held;
    let first_held: i128 = if first > cap {
        cap
    } else {
        first
    };
    proof {
        lemma_capped_product(a * seconds, c as int);
        assert(a * seconds >= 1) by (nonlinear_arith)
            requires
                a >= 1,
                seconds >= 1,
        ;
        assert(at_most_cap(first_held as int) == first_held);
    }
    let second: i128 = first_held * c_held;
    let ghost exact = a * seconds * c;
    assert(at_most_cap(second as int) == at_most_cap(exact));
    let whole_xp: i128 = second / 6000;
    if whole_xp > u32::MAX as i128 {
        u32::MAX
    } else {
        whole_xp as u32
    }
}

/// The XP of a voice session that began at `timestamp_then` and is looked
/// at, or ends, at `timestamp_now`, both in milliseconds. `voice_xp` is the
/// rate a minute, `voice_cooldown` the seconds at the start that earn
/// nothing, `boost_percentage` the boost in percent.
pub fn calculate_xp_from_voice_time(
    timestamp_then: u64,
    timestamp_now: i64,
    voice_xp: i64,
    voice_cooldown: i64,
    boost_percentage: i64,
) -> (xp: u32)
    ensures
        xp == self::voice_xp(
            voice_xp as int,
            billable_seconds(timestamp_then as int, timestamp_now as int, voice_cooldown as int),
            boost_percentage as int,
        ),
{
    voice_xp_between(
        timestamp_then as i128,
        timestamp_now as i128,
        voice_xp,
        voice_cooldown,
        boost_percentage,
    )
}

} // verus!
