//! The boost aggregator: the percentages that a member's roles, the channel
//! and its category add to what an activity earns.

use vstd::prelude::*;
use crate::guild::{Guild, GuildBoostObject, GuildBoosts};
use crate::ids::{parsed_id, parse_id};
use crate::math::clamp;

verus! {

/// `text` writes an identifier that is among `ids`.
pub open spec fn names_one_of(text: Seq<char>, ids: Seq<u64>) -> bool {
    parsed_id(text) is Some && ids.contains(parsed_id(text)->0)
}

/// What one boost adds for a holder of `ids`: its percentage if it is
/// theirs, nothing otherwise. A boost whose identifier is malformed is no one's.
pub open spec fn boost_share(entry: GuildBoostObject, ids: Seq<u64>) -> int {
    if names_one_of(entry.id@, ids) {
        entry.percentage as int
    } else {
        0
    }
}

/// The percentages of the boosts in `entries` that are for one of `ids`, added up.
pub open spec fn boost_sum(entries: Seq<GuildBoostObject>, ids: Seq<u64>) -> int
    decreases entries.len(),
{
    if entries.len() == 0 {
        0
    } else {
        boost_sum(entries.drop_last(), ids) + boost_share(entries.last(), ids)
    }
}

/// The boosts of the member's roles, of the channel, and of the category
/// where there is one, added up, in percent.
pub open spec fn total_boost_percentage(
    boosts: GuildBoosts,
    role_ids: Seq<u64>,
    channel_id: u64,
    category_id: Option<u64>,
) -> int {
    boost_sum(boosts.roles@, role_ids) + boost_sum(boosts.channels@, seq![channel_id]) + (
    if category_id is Some && boosts.categories is Some {
        boost_sum(boosts.categories->0@, seq![category_id->0])
    } else {
        0
    })
}

/// What a base amount is worth under a boost: `base * (1 + percentage / 100)`
/// rounded down, held to what an award can be.
pub open spec fn boosted_xp(base: int, percentage: int) -> int {
    clamp((base * (100 + percentage)) / 100, 0, u32::MAX as int)
}

/// Two boosts that both belong to a holder of `ids` add up: boosts of 10
/// and of 15 percent make 25.
pub proof fn lemma_boost_sum_of_two(first: GuildBoostObject, second: GuildBoostObject, ids: Seq<u64>)
    requires
        names_one_of(first.id@, ids),
        names_one_of(second.id@, ids),
    ensures
        boost_sum(seq![first, second], ids) == first.percentage + second.percentage,
        boost_sum(seq![second, first], ids) == first.percentage + second.percentage,
{
    let pair = seq![first, second];
    assert(pair.drop_last() =~= seq![first]);
    assert(seq![first].drop_last() =~= Seq::<GuildBoostObject>::empty());
    assert(boost_sum(seq![first], ids) == first.percentage) by {
        reveal_with_fuel(boost_sum, 2);
    }
    let swapped = seq![second, first];
    assert(swapped.drop_last() =~= seq![second]);
    assert(seq![second].drop_last() =~= Seq::<GuildBoostObject>::empty());
    assert(boost_sum(seq![second], ids) == second.percentage) by {
        reveal_with_fuel(boost_sum, 2);
    }
}

/// A boost is a multiplier of one plus its hundredths: where the base
/// amount is not negative, the boost takes nothing more than all of it, and
/// the result fits an award, the award is the base amount and, rounded
/// down, `percentage` hundredths of it on top.
pub proof fn lemma_boost_is_a_multiplier(base: int, percentage: int)
    requires
        0 <= base,
        -100 <= percentage,
        (base * (100 + percentage)) / 100 <= u32::MAX,
    ensures
        boosted_xp(base, percentage) == base + (base * percentage) / 100,
{
    assert(base * (100 + percentage) == 100 * base + base * percentage) by (nonlinear_arith);
    assert(base * (100 + percentage) >= 0) by (nonlinear_arith)
        requires
            0 <= base,
            0 <= 100 + percentage,
    ;
}

/// The sum over two lists, one after the other, is the sum of their sums.
pub proof fn lemma_boost_sum_additive(
    first: Seq<GuildBoostObject>,
    second: Seq<GuildBoostObject>,
    ids: Seq<u64>,
)
    ensures
        boost_sum(first + second, ids) == boost_sum(first, ids) + boost_sum(second, ids),
    decreases second.len(),
{
    if second.len() == 0 {
        assert(first + second =~= first);
    } else {
        assert((first + second).drop_last() =~= first + second.drop_last());
        assert((first + second).last() == second.last());
        lemma_boost_sum_additive(first, second.drop_last(), ids);
    }
}

/// Taking one boost out of a list takes its share out of the sum.
pub proof fn lemma_boost_sum_remove(entries: Seq<GuildBoostObject>, index: int, ids: Seq<u64>)
    requires
        0 <= index < entries.len(),
    ensures
        boost_sum(entries, ids) == boost_sum(entries.remove(index), ids) + boost_share(
            entries[index],
            ids,
        ),
    decreases entries.len(),
{
    if index == entries.len() - 1 {
        assert(entries.remove(index) =~= entries.drop_last());
    } else {
        assert(entries.remove(index).drop_last() =~= entries.drop_last().remove(index));
        assert(entries.remove(index).last() == entries.last());
        lemma_boost_sum_remove(entries.drop_last(), index, ids);
    }
}

/// The order of the boosts does not matter: two lists that hold the same
/// boosts, each as often, have the same sum.
pub proof fn lemma_boost_sum_order_independent(
    first: Seq<GuildBoostObject>,
    second: Seq<GuildBoostObject>,
    ids: Seq<u64>,
)
    requires
        first.to_multiset() == second.to_multiset(),
    ensures
        boost_sum(first, ids) == boost_sum(second, ids),
    decreases first.len(),
{
    broadcast use vstd::seq_lib::group_to_multiset_ensures;

    if first.len() == 0 {
        assert(second.to_multiset().len() == 0);
        assert(second.len() == 0);
    } else {
        let entry = first.last();
        assert(first.to_multiset().count(entry) > 0) by {
            assert(first.contains(entry));
        }
        assert(second.contains(entry));
        let index = second.index_of(entry);
        assert(first.drop_last() =~= first.remove(first.len() - 1));
        vstd::seq_lib::to_multiset_remove(first, first.len() - 1);
        vstd::seq_lib::to_multiset_remove(second, index);
        lemma_boost_sum_order_independent(first.drop_last(), second.remove(index), ids);
        lemma_boost_sum_remove(second, index, ids);
    }
}

/// The percentages above zero among the boosts for `ids`, added up.
spec fn gain_sum(entries: Seq<GuildBoostObject>, ids: Seq<u64>) -> int
    decreases entries.len(),
{
    if entries.len() == 0 {
        0
    } else {
        let share = boost_share(entries.last(), ids);
        gain_sum(entries.drop_last(), ids) + if share > 0 {
            share
        } else {
            0
        }
    }
}

/// The percentages below zero among the boosts for `ids`, added up and taken positive.
spec fn loss_sum(entries: Seq<GuildBoostObject>, ids: Seq<u64>) -> int
    decreases entries.len(),
{
    if entries.len() == 0 {
        0
    } else {
        let share = boost_share(entries.last(), ids);
        loss_sum(entries.drop_last(), ids) + if share < 0 {
            -share
        } else {
            0
        }
    }
}

proof fn lemma_gain_and_loss(entries: Seq<GuildBoostObject>, ids: Seq<u64>)
    ensures
        boost_sum(entries, ids) == gain_sum(entries, ids) - loss_sum(entries, ids),
        0 <= gain_sum(entries, ids),
        0 <= loss_sum(entries, ids),
        gain_sum(entries, ids) + loss_sum(entries, ids) <= entries.len() * 0x8000_0000_0000_0000,
    decreases entries.len(),
{
    if entries.len() > 0 {
        lemma_gain_and_loss(entries.drop_last(), ids);
    }
}

/// Whether `id` is among `ids`.
pub fn contains_id(ids: &Vec<u64>, id: u64) -> (found: bool)
    ensures
        found == ids@.contains(id),
{
    let mut index: usize = 0;
    while index < ids.len()
        invariant
            index <= ids.len(),
            forall|i: int| 0 <= i < index ==> ids@[i] != id,
        decreases ids.len() - index,
    {
        if ids[index] == id {
            return true;
        }
        index = index + 1;
    }
    false
}

/// Whether `text` writes an identifier that is among `ids`.
pub fn id_text_matches(text: &str, ids: &Vec<u64>) -> (found: bool)
    ensures
        found == names_one_of(text@, ids@),
{
    match parse_id(text) {
        Some(id) => contains_id(ids, id),
        None => false,
    }
}

fn tally(entries: &Vec<GuildBoostObject>, ids: &Vec<u64>) -> (sums: (u128, u128))
    ensures
        sums.0 == gain_sum(entries@, ids@),
        sums.1 == loss_sum(entries@, ids@),
        sums.0 + sums.1 <= 0xffff_ffff_ffff_ffff * 0x8000_0000_0000_0000,
{
    let mut gain: u128 = 0;
    let mut loss: u128 = 0;
    let mut index: usize = 0;
    assert(entries@.take(0) =~= Seq::<GuildBoostObject>::empty());
    while index < entries.len()
        invariant
            index <= entries.len(),
            gain == gain_sum(entries@.take(index as int), ids@),
            loss == loss_sum(entries@.take(index as int), ids@),
            gain + loss <= index * 0x8000_0000_0000_0000,
        decreases entries.len() - index,
    {
        let entry = &entries[index];
        proof {
            let next = entries@.take(index + 1);
            assert(next.drop_last() =~= entries@.take(index as int));
            assert(next.last() == entries@[index as int]);
            assert(index * 0x8000_0000_0000_0000 <= 0xffff_ffff_ffff_ffff * 0x8000_0000_0000_0000)
                by (nonlinear_arith)
                requires
                    index <= 0xffff_ffff_ffff_ffff,
            ;
        }
        if id_text_matches(entry.id.as_str(), ids) {
            if entry.percentage > 0 {
                gain = gain + (entry.percentage as u128);
            } else if entry.percentage < 0 {
                loss = loss + ((-(entry.percentage as i128)) as u128);
            }
        }
        index = index + 1;
    }
    assert(entries@.take(index as int) =~= entries@);
    assert(index * 0x8000_0000_0000_0000 <= 0xffff_ffff_ffff_ffff * 0x8000_0000_0000_0000)
        by (nonlinear_arith)
        requires
            index <= 0xffff_ffff_ffff_ffff,
    ;
    (gain, loss)
}

/// The boosts of the member's roles, of the channel and of its category,
/// added up, in percent: 25 stands for a quarter more. A total beyond 64 bits
/// comes back as the nearest number that fits.
pub fn calculate_total_boost_percentage(
    guild: &Guild,
    role_ids: &Vec<u64>,
    channel_id: u64,
    category_id: Option<u64>,
) -> (percentage: i64)
    ensures
        percentage == clamp(
            total_boost_percentage(guild.boosts, role_ids@, channel_id, category_id),
            i64::MIN as int,
            i64::MAX as int,
        ),
{
    let mut channel: Vec<u64> = Vec::new();
    channel.push(channel_id);
    assert(channel@ =~= seq![channel_id]);
    let (role_gain, role_loss) = tally(&guild.boosts.roles, role_ids);
    let (channel_gain, channel_loss) = tally(&guild.boosts.channels, &channel);
    let mut category_gain: u128 = 0;
    let mut category_loss: u128 = 0;
    match category_id {
        Some(id) => {
            match &guild.boosts.categories {
                Some(list) => {
                    let mut category: Vec<u64> = Vec::new();
                    category.push(id);
                    assert(category@ =~= seq![id]);
                    let (gain, loss) = tally(list, &category);
                    category_gain = gain;
                    category_loss = loss;
                    proof {
                        lemma_gain_and_loss(list@, category@);
                    }
                },
                None => {},
            }
        },
        None => {},
    }
    let ghost total = total_boost_percentage(guild.boosts, role_ids@, channel_id, category_id);
    let ghost gain_total = role_gain + channel_gain + category_gain;
    let ghost loss_total = role_loss + channel_loss + category_loss;
    proof {
        lemma_gain_and_loss(guild.boosts.roles@, role_ids@);
        lemma_gain_and_loss(guild.boosts.channels@, channel@);
        assert(total == gain_total - loss_total);
        let cap = 0xffff_ffff_ffff_ffff * 0x8000_0000_0000_0000;
        assert(gain_total + loss_total <= 3 * cap);
    }
    let gain = (role_gain + channel_gain).checked_add(category_gain);
    let loss = (role_loss + channel_loss).checked_add(category_loss);
    match (gain, loss) {
        (Some(gain), Some(loss)) => {
            if gain >= loss {
                let difference = gain - loss;
                if difference > i64::MAX as u128 {
                    i64::MAX
                } else {
                    difference as i64
                }
            } else {
                let difference = loss - gain;
                if difference >= 0x8000_0000_0000_0000 {
                    i64::MIN
                } else {
                    -(difference as i64)
                }
            }
        },
        (None, _) => i64::MAX,
        (Some(_), None) => i64::MIN,
    }
}

/// The same total, for callers that hold the identifiers as plain numbers.
pub fn calculate_total_boost_percentage_by_ids(
    guild: &Guild,
    role_ids: &Vec<u64>,
    channel_id: u64,
    category_id: Option<u64>,
) -> (percentage: i64)
    ensures
        percentage == clamp(
            total_boost_percentage(guild.boosts, role_ids@, channel_id, category_id),
            i64::MIN as int,
            i64::MAX as int,
        ),
{
    calculate_total_boost_percentage(guild, role_ids, channel_id, category_id)
}

/// What `base` is worth under a boost of `percentage` percent.
pub fn apply_boost(base: i64, percentage: i64) -> (xp: u32)
    ensures
        xp == boosted_xp(base as int, percentage as int),
{
    let factor: i128 = 100 + (percentage as i128);
    assert(-0x4000_0000_0000_0032_0000_0000_0000_0000 <= (base as i128) * factor
        <= 0x4000_0000_0000_0032_0000_0000_0000_0000) by (nonlinear_arith)
        requires
            -0x8000_0000_0000_0000 <= base as i128 <= 0x8000_0000_0000_0000,
            -0x8000_0000_0000_0000 <= factor <= 0x8000_0000_0000_0064,
    ;
    let product: i128 = (base as i128) * factor;
    if product <= 0 {
        0
    } else {
        let whole: i128 = product / 100;
        if whole > u32::MAX as i128 {
            u32::MAX
        } else {
            whole as u32
        }
    }
}

/// A total beyond 64 bits is worth exactly what the nearest number that
/// fits is worth: the award is the same.
pub proof fn lemma_boost_clamp_is_unseen(base: int, percentage: int)
    requires
        i64::MIN <= base <= i64::MAX,
    ensures
        boosted_xp(base, clamp(percentage, i64::MIN as int, i64::MAX as int)) == boosted_xp(
            base,
            percentage,
        ),
{
    let held = clamp(percentage, i64::MIN as int, i64::MAX as int);
    if percentage > i64::MAX {
        if base > 0 {
            assert(base * (100 + percentage) >= 100 + percentage) by (nonlinear_arith)
                requires
                    base >= 1,
                    100 + percentage >= 0,
            ;
            assert(base * (100 + held) >= 100 + held) by (nonlinear_arith)
                requires
                    base >= 1,
                    100 + held >= 0,
            ;
        } else if base < 0 {
            assert(base * (100 + percentage) < 0) by (nonlinear_arith)
                requires
                    base <= -1,
                    100 + percentage > 0,
            ;
            assert(base * (100 + held) < 0) by (nonlinear_arith)
                requires
                    base <= -1,
                    100 + held > 0,
            ;
        } else {
            assert(base * (100 + percentage) == 0) by (nonlinear_arith)
                requires
                    base == 0,
            ;
            assert(base * (100 + held) == 0) by (nonlinear_arith)
                requires
                    base == 0,
            ;
        }
    } else if percentage < i64::MIN {
        if base > 0 {
            assert(base * (100 + percentage) < 0) by (nonlinear_arith)
                requires
                    base >= 1,
                    100 + percentage < 0,
            ;
            assert(base * (100 + held) < 0) by (nonlinear_arith)
                requires
                    base >= 1,
                    100 + held < 0,
            ;
        } else if base < 0 {
            assert(base * (100 + percentage) >= -(100 + percentage)) by (nonlinear_arith)
                requires
                    base <= -1,
                    100 + percentage < 0,
            ;
            assert(base * (100 + held) >= -(100 + held)) by (nonlinear_arith)
                requires
                    base <= -1,
                    100 + held < 0,
            ;
        } else {
            assert(base * (100 + percentage) == 0) by (nonlinear_arith)
                requires
                    base == 0,
            ;
            assert(base * (100 + held) == 0) by (nonlinear_arith)
                requires
                    base == 0,
            ;
        }
    }
}

} // verus!
