//! Ledger-state rules for agent identities, channels, escrow custody,
//! rate-limited messaging and single-use invitations.
//!
//! Every instruction is one function. It is handed the records it works on
//! as plain values, each with the address it sits at, and either refuses,
//! leaving every record as it was, or writes all its changes. Nothing is
//! kept between calls.
//!
//! Records sit at addresses derived from their identifying fields
//! ([`address`]). An instruction recomputes the address of each record it
//! consumes and refuses a record that sits elsewhere. Each such instruction
//! comes in two forms: `name`, which derives the addresses and hashes it
//! needs, and `name_with`, which takes them as arguments and does the rest.
//!
//! - [`agent`]: registration and update of identities.
//! - [`message`]: direct messages and their status.
//! - [`channel`]: creation and settings of channels.
//! - [`membership`]: joining and leaving.
//! - [`escrow`]: deposits, withdrawals, fees.
//! - [`invitation`]: issuing and redeeming invitations.
//! - [`broadcasts`]: the rate limiter and broadcasts.
//! - [`hashing`], [`secure`], [`text`]: hashes, scoped buffers, text.
//! - [`laws`]: what holds across instructions.

pub mod address;
pub mod agent;
pub mod broadcasts;
pub mod channel;
pub mod errors;
pub mod escrow;
pub mod events;
pub mod hashing;
pub mod invitation;
pub mod laws;
pub mod membership;
pub mod message;
pub mod pubkey;
pub mod secure;
pub mod state;
pub mod text;
