//! How many shards the bot runs, and how they are split between the
//! production and the preview fleet.

use vstd::prelude::*;

verus! {

/// A split of the shards.
#[derive(Clone, Copy, Debug, PartialEq, Eq)]
pub struct ShardPlan {
    pub shards: u64,
    pub preview: u64,
    pub production: u64,
}

/// The communities that one shard serves.
pub const GUILDS_PER_SHARD: u64 = 1000;

/// The split for a number of communities: one shard for every thousand
/// begun, a quarter of them, rounded down, for the preview, the rest for
/// production.
pub open spec fn shard_plan(guild_count: u64) -> ShardPlan {
    let shards = guild_count / GUILDS_PER_SHARD + 1;
    ShardPlan {
        shards: shards as u64,
        preview: (shards / 4) as u64,
        production: (shards - shards / 4) as u64,
    }
}

/// The split of the shards for a number of communities.
pub fn plan_shards(guild_count: u64) -> (plan: ShardPlan)
    ensures
        plan == shard_plan(guild_count),
        plan.preview + plan.production == plan.shards,
{
    let shards = guild_count / GUILDS_PER_SHARD + 1;
    let preview = shards / 4;
    ShardPlan { shards, preview, production: shards - preview }
}

} // verus!
