//! Escrow trade program core: instruction codec, escrow record layout and
//! the Init / Exchange state machine, with their contracts.
use vstd::prelude::*;

pub mod error;
pub mod authority;
pub mod bytes;
pub mod instructions;
pub mod processor;
pub mod record;
