//! Decision logic of the Synixe Contractors Discord bot.
use vstd::prelude::*;

pub mod aar;
pub mod autocomplete;
pub mod bank;
pub mod brain;
pub mod briefing;
pub mod casino;
pub mod garage;
pub mod events;
pub mod gear;
pub mod handler;
pub mod interaction;
pub mod certifications;
pub mod commands;
pub mod members;
pub mod schedule;
pub mod select;
pub mod text;
pub mod tools;

verus! {
} // verus!
