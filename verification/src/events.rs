//! What a successful instruction reports for those who index the ledger.

use vstd::prelude::*;
use crate::pubkey::Pubkey;
use crate::state::{ChannelVisibility, MessageType};

verus! {

/// An identity was registered.
#[derive(Clone, Debug, PartialEq, Eq)]
pub struct AgentRegistered {
    pub agent: Pubkey,
    pub capabilities: u64,
    pub metadata_uri: String,
    pub timestamp: i64,
}

/// A direct message was sent.
#[derive(Clone, Debug, PartialEq, Eq)]
pub struct MessageSent {
    pub sender: Pubkey,
    pub recipient: Pubkey,
    pub message_type: MessageType,
    pub timestamp: i64,
}

/// A channel was created.
#[derive(Clone, Debug, PartialEq, Eq)]
pub struct ChannelCreated {
    pub channel: Pubkey,
    pub creator: Pubkey,
    pub name: String,
    pub visibility: ChannelVisibility,
    pub timestamp: i64,
}

/// An identity joined a channel.
#[derive(Clone, Debug, PartialEq, Eq)]
pub struct ChannelJoined {
    pub channel: Pubkey,
    pub participant: Pubkey,
    pub timestamp: i64,
}

/// A message was broadcast to a channel.
#[derive(Clone, Debug, PartialEq, Eq)]
pub struct MessageBroadcast {
    pub channel: Pubkey,
    pub sender: Pubkey,
    pub message_type: MessageType,
    pub timestamp: i64,
}

/// Value was deposited into an escrow.
#[derive(Clone, Debug, PartialEq, Eq)]
pub struct EscrowDeposit {
    pub channel: Pubkey,
    pub depositor: Pubkey,
    pub amount: u64,
    pub timestamp: i64,
}

/// Value was withdrawn from an escrow.
#[derive(Clone, Debug, PartialEq, Eq)]
pub struct EscrowWithdrawal {
    pub channel: Pubkey,
    pub depositor: Pubkey,
    pub amount: u64,
    pub timestamp: i64,
}

} // verus!
