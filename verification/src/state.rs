//! The records of the ledger and the limits that bind them.

use vstd::prelude::*;
use crate::pubkey::Pubkey;
use crate::text::{byte_len, is_blank};

verus! {

/// Longest metadata pointer of an identity, in bytes.
pub const MAX_METADATA_URI_LENGTH: usize = 200;

/// Seconds after which a direct message or an invitation lapses: seven days.
pub const MESSAGE_EXPIRATION_SECONDS: i64 = 604800;

/// Longest channel name, in bytes.
pub const MAX_CHANNEL_NAME_LENGTH: usize = 50;

/// Longest channel description, in bytes.
pub const MAX_CHANNEL_DESCRIPTION_LENGTH: usize = 200;

/// Most seats a channel can have.
pub const MAX_PARTICIPANTS_PER_CHANNEL: u32 = 1000;

/// Longest broadcast content stored inline, in bytes.
pub const MAX_MESSAGE_CONTENT_LENGTH: usize = 1000;

/// Longest broadcast content that is stored elsewhere, in bytes.
pub const MAX_EXTERNAL_CONTENT_LENGTH: usize = 10000;

/// Most broadcasts of one participant within a minute.
pub const RATE_LIMIT_MESSAGES_PER_MINUTE: u16 = 60;

/// Least reputation with which a gated channel can be created.
pub const MIN_REPUTATION_FOR_CHANNELS: u64 = 50;

/// Reputation of a newly registered identity.
pub const INITIAL_REPUTATION: u64 = 100;

/// Highest capability mask accepted at registration: half of the range.
pub const MAX_CAPABILITIES: u64 = 0x7fff_ffff_ffff_ffff;

/// Highest fee per message.
pub const MAX_FEE_PER_MESSAGE: u64 = 1_000_000_000;

/// Highest single deposit.
pub const MAX_DEPOSIT: u64 = 10_000_000_000;

/// Longest pointer to externally stored content, in bytes.
pub const MAX_CONTENT_POINTER_LENGTH: usize = 100;

/// Most message hashes in one batch.
pub const MAX_BATCH_SIZE: usize = 100;

/// What a direct or broadcast message carries.
#[derive(Clone, Copy, Debug, PartialEq, Eq, Structural)]
pub enum MessageType {
    Text,
    Data,
    Command,
    Response,
    Custom(u8),
}

/// Where a direct message stands.
#[derive(Clone, Copy, Debug, PartialEq, Eq, Structural)]
pub enum MessageStatus {
    Pending,
    Delivered,
    Read,
    Failed,
}

/// Who may join a channel.
#[derive(Clone, Copy, Debug, PartialEq, Eq, Structural)]
pub enum ChannelVisibility {
    Public,
    Private,
}

/// The time at which an instruction runs.
#[derive(Clone, Copy, Debug, PartialEq, Eq, Structural)]
pub struct Clock {
    pub unix_timestamp: i64,
}

/// The key that signed the instruction, with the value its wallet holds.
#[derive(Clone, Copy, Debug, PartialEq, Eq)]
pub struct Signer {
    pub key: Pubkey,
    pub lamports: u64,
}

/// A record as the host hands it over: the address it sits at, the value
/// held there, and its content. Where a record may still have to be
/// created, `T` is an `Option` and `None` says that the address is free.
#[derive(Clone, Debug, PartialEq, Eq)]
pub struct Account<T> {
    pub key: Pubkey,
    pub lamports: u64,
    pub data: T,
}

/// A registered identity.
#[derive(Clone, Debug, PartialEq, Eq)]
pub struct AgentAccount {
    pub pubkey: Pubkey,
    pub capabilities: u64,
    pub reputation: u64,
    pub last_updated: i64,
    pub metadata_uri: String,
    pub bump: u8,
}

/// A direct message between two identities.
#[derive(Clone, Debug, PartialEq, Eq)]
pub struct MessageAccount {
    pub sender: Pubkey,
    pub recipient: Pubkey,
    pub payload_hash: [u8; 32],
    pub created_at: i64,
    pub expires_at: i64,
    pub message_type: MessageType,
    pub status: MessageStatus,
    pub bump: u8,
}

/// A channel.
#[derive(Clone, Debug, PartialEq, Eq)]
pub struct ChannelAccount {
    pub creator: Pubkey,
    pub fee_per_message: u64,
    pub escrow_balance: u64,
    pub created_at: i64,
    pub max_participants: u32,
    pub current_participants: u32,
    pub name: String,
    pub description: String,
    pub visibility: ChannelVisibility,
    pub is_active: bool,
    pub bump: u8,
}

/// The membership of one identity in one channel.
#[derive(Clone, Debug, PartialEq, Eq)]
pub struct ChannelParticipant {
    pub channel: Pubkey,
    pub participant: Pubkey,
    pub joined_at: i64,
    pub messages_sent: u64,
    pub last_message_at: i64,
    pub is_active: bool,
    pub bump: u8,
}

/// An invitation to a private channel, bound to its fields by a commitment.
#[derive(Clone, Debug, PartialEq, Eq)]
pub struct ChannelInvitation {
    pub channel: Pubkey,
    pub inviter: Pubkey,
    pub invitee: Pubkey,
    pub invitation_hash: [u8; 32],
    pub created_at: i64,
    pub expires_at: i64,
    pub nonce: u64,
    pub is_accepted: bool,
    pub is_used: bool,
    pub bump: u8,
}

/// A message broadcast to a channel, content inline.
#[derive(Clone, Debug, PartialEq, Eq)]
pub struct ChannelMessage {
    pub channel: Pubkey,
    pub sender: Pubkey,
    pub reply_to: Option<Pubkey>,
    pub created_at: i64,
    pub edited_at: Option<i64>,
    pub content: String,
    pub message_type: MessageType,
    pub bump: u8,
}

/// Value held for one depositor in one channel.
#[derive(Clone, Debug, PartialEq, Eq)]
pub struct EscrowAccount {
    pub channel: Pubkey,
    pub depositor: Pubkey,
    pub amount: u64,
    pub created_at: i64,
    pub bump: u8,
}

/// A broadcast whose content lives elsewhere: its hash and a pointer to it.
#[derive(Clone, Debug, PartialEq, Eq)]
pub struct CompressedChannelMessage {
    pub channel: Pubkey,
    pub sender: Pubkey,
    pub content_hash: [u8; 32],
    pub ipfs_hash: String,
    pub message_type: MessageType,
    pub created_at: i64,
    pub edited_at: Option<i64>,
    pub reply_to: Option<Pubkey>,
}

/// A membership kept off the ledger.
#[derive(Clone, Debug, PartialEq, Eq)]
pub struct CompressedChannelParticipant {
    pub channel: Pubkey,
    pub participant: Pubkey,
    pub joined_at: i64,
    pub messages_sent: u64,
    pub last_message_at: i64,
    pub metadata_hash: [u8; 32],
}

/// Content of a broadcast as it is stored elsewhere.
#[derive(Clone, Debug, PartialEq, Eq)]
pub struct ChannelMessageContent {
    pub content: String,
    pub attachments: Vec<String>,
    pub metadata: Vec<(String, String)>,
}

/// What else is stored elsewhere about a participant.
#[derive(Clone, Debug, PartialEq, Eq)]
pub struct ParticipantExtendedMetadata {
    pub display_name: Option<String>,
    pub permissions: Vec<String>,
    pub custom_data: Vec<(String, String)>,
}

impl AgentAccount {
    /// The metadata pointer keeps to its limit.
    pub open spec fn well_formed(self) -> bool {
        byte_len(self.metadata_uri@) <= MAX_METADATA_URI_LENGTH
    }
}

impl MessageAccount {
    /// The message lapses seven days after it was created.
    pub open spec fn well_formed(self) -> bool {
        self.expires_at == self.created_at + MESSAGE_EXPIRATION_SECONDS
    }
}

impl ChannelAccount {
    /// No more seats are taken than there are, and every setting keeps to
    /// the limit that holds at creation.
    pub open spec fn well_formed(self) -> bool {
        &&& self.current_participants <= self.max_participants
        &&& 0 < self.max_participants <= MAX_PARTICIPANTS_PER_CHANNEL
        &&& self.fee_per_message <= MAX_FEE_PER_MESSAGE
        &&& !is_blank(self.name@)
        &&& byte_len(self.name@) <= MAX_CHANNEL_NAME_LENGTH
        &&& !is_blank(self.description@)
        &&& byte_len(self.description@) <= MAX_CHANNEL_DESCRIPTION_LENGTH
    }
}

impl ChannelParticipant {
    /// The count of broadcasts stays within what the rate window allows.
    pub open spec fn well_formed(self) -> bool {
        self.messages_sent <= RATE_LIMIT_MESSAGES_PER_MINUTE
    }
}

impl ChannelInvitation {
    /// A used invitation was accepted, and an invitation lapses seven days
    /// after it was issued.
    pub open spec fn well_formed(self) -> bool {
        &&& self.is_used ==> self.is_accepted
        &&& self.expires_at == self.created_at + MESSAGE_EXPIRATION_SECONDS
    }
}

} // verus!
