//! Leveling engine of a community XP bot: the level curve, cooldowns, boosts,
//! reward tables, level-role reconciliation and voice sessions, as verified
//! functions on plain values.

pub mod announce;
pub mod boosts;
pub mod colors;
pub mod commands;
pub mod cooldown;
pub mod duration;
pub mod engine;
pub mod games;
pub mod guild;
pub mod guild_member;
pub mod guild_premium;
pub mod handler;
pub mod humanize;
pub mod ids;
pub mod interaction;
pub mod math;
pub mod nick;
pub mod opentdb;
mod random;
pub mod roles;
pub mod shards;
pub mod text;
pub mod user;
pub mod user_background;
