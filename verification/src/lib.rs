//! Instruction protocol and governance state machine of a collective
//! investment fund hosted on a programmable ledger.
//!
//! Members pool value into a shared vault, receive governance tokens in
//! proportion to what they put in, and vote with those tokens on proposals
//! to reallocate the fund's assets before a deadline.
//!
//! - `instruction`: the wire format of the five commands.
//! - `address`: addresses and their derivation from seeds, role by role.
//! - `state`: the records kept in accounts, their layout and their sizes.
//! - `ledger`: accounts, host readings, actions, and the calls built from
//!   them.
//! - `processor`: what each command decides, and the commands themselves.
//! - `laws`: what holds across commands.
//! - `wire`: reading and writing fixed-width fields.
//! - `error`: why a command is refused.

pub mod address;
pub mod error;
pub mod instruction;
pub mod laws;
pub mod ledger;
pub mod processor;
pub mod state;
pub mod wire;
