//! Rules of a ticket lottery: the state of its accounts, what each instruction checks,
//! what it changes, and what tokens it moves.
use vstd::prelude::*;

pub mod keys;
pub mod errors;
pub mod state;
pub mod randomness;
pub mod events;
pub mod instructions;
pub mod laws;
