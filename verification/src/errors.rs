//! The ways in which an instruction can be refused.

use vstd::prelude::*;

verus! {

/// Why an instruction was refused. Every refusal leaves the records it was
/// given exactly as they were.
#[derive(Clone, Copy, Debug, PartialEq, Eq, Structural)]
pub enum PodComError {
    /// The metadata pointer is blank or longer than the limit.
    InvalidMetadataUriLength,
    /// The caller is not the required owner, creator or recipient, or a
    /// record does not sit at the address its fields derive.
    Unauthorized,
    /// The direct message is past its expiry.
    MessageExpired,
    /// The requested status cannot follow the current one.
    InvalidMessageStatusTransition,
    /// The channel has no free seat, or fewer seats were asked for than are taken.
    ChannelFull,
    /// A membership record for this identity already exists.
    AlreadyInChannel,
    /// The membership record is not active.
    NotInChannel,
    /// The escrow is missing or holds less than is asked of it.
    InsufficientFunds,
    ChannelNameTooLong,
    ChannelDescriptionTooLong,
    InsufficientReputation,
    RateLimitExceeded,
    MessageContentTooLong,
    /// A private channel was joined without an invitation.
    PrivateChannelRequiresInvitation,
    HashingFailed,
    SecureMemoryAllocationFailed,
    /// The address to create a record at is already occupied.
    AlreadyExists,
    /// The capability mask is above half of the representable range.
    InvalidCapabilities,
    EmptyChannelName,
    EmptyChannelDescription,
    /// The seat count is zero or above the ceiling.
    InvalidParticipantLimit,
    FeeTooHigh,
    /// A deposit of nothing, or of more than the ceiling.
    InvalidAmount,
    InvitationAlreadyUsed,
    InvitationExpired,
    /// A balance, counter or timestamp would leave its range.
    ArithmeticOverflow,
    /// The pointer to externally stored content is empty, too long or not alphanumeric.
    InvalidContentPointer,
    BatchTooLarge,
    ChannelInactive,
    SerializationFailed,
}

impl PodComError {
    /// The text shown for each refusal.
    pub open spec fn message_text(self) -> Seq<char> {
        match self {
            PodComError::InvalidMetadataUriLength => "Invalid metadata URI length"@,
            PodComError::Unauthorized => "Unauthorized"@,
            PodComError::MessageExpired => "Message expired"@,
            PodComError::InvalidMessageStatusTransition => "Invalid message status transition"@,
            PodComError::ChannelFull => "Channel is full"@,
            PodComError::AlreadyInChannel => "Already in channel"@,
            PodComError::NotInChannel => "Not in channel"@,
            PodComError::InsufficientFunds => "Insufficient funds"@,
            PodComError::ChannelNameTooLong => "Channel name too long"@,
            PodComError::ChannelDescriptionTooLong => "Channel description too long"@,
            PodComError::InsufficientReputation => "Insufficient reputation"@,
            PodComError::RateLimitExceeded => "Rate limit exceeded"@,
            PodComError::MessageContentTooLong => "Message content too long"@,
            PodComError::PrivateChannelRequiresInvitation => "Private channel requires invitation"@,
            PodComError::HashingFailed => "Hashing operation failed"@,
            PodComError::SecureMemoryAllocationFailed => "Secure memory allocation failed"@,
            PodComError::AlreadyExists => "Record already exists"@,
            PodComError::InvalidCapabilities => "Invalid capabilities"@,
            PodComError::EmptyChannelName => "Channel name is empty"@,
            PodComError::EmptyChannelDescription => "Channel description is empty"@,
            PodComError::InvalidParticipantLimit => "Invalid participant limit"@,
            PodComError::FeeTooHigh => "Fee per message too high"@,
            PodComError::InvalidAmount => "Invalid amount"@,
            PodComError::InvitationAlreadyUsed => "Invitation already used"@,
            PodComError::InvitationExpired => "Invitation expired"@,
            PodComError::ArithmeticOverflow => "Arithmetic overflow"@,
            PodComError::InvalidContentPointer => "Invalid content pointer"@,
            PodComError::BatchTooLarge => "Batch too large"@,
            PodComError::ChannelInactive => "Channel is inactive"@,
            PodComError::SerializationFailed => "Serialization failed"@,
        }
    }

    /// The text shown for this refusal.
    pub fn message(&self) -> (text: &'static str)
        ensures
            text@ == self.message_text(),
    {
        match self {
            PodComError::InvalidMetadataUriLength => "Invalid metadata URI length",
            PodComError::Unauthorized => "Unauthorized",
            PodComError::MessageExpired => "Message expired",
            PodComError::InvalidMessageStatusTransition => "Invalid message status transition",
            PodComError::ChannelFull => "Channel is full",
            PodComError::AlreadyInChannel => "Already in channel",
            PodComError::NotInChannel => "Not in channel",
            PodComError::InsufficientFunds => "Insufficient funds",
            PodComError::ChannelNameTooLong => "Channel name too long",
            PodComError::ChannelDescriptionTooLong => "Channel description too long",
            PodComError::InsufficientReputation => "Insufficient reputation",
            PodComError::RateLimitExceeded => "Rate limit exceeded",
            PodComError::MessageContentTooLong => "Message content too long",
            PodComError::PrivateChannelRequiresInvitation => "Private channel requires invitation",
            PodComError::HashingFailed => "Hashing operation failed",
            PodComError::SecureMemoryAllocationFailed => "Secure memory allocation failed",
            PodComError::AlreadyExists => "Record already exists",
            PodComError::InvalidCapabilities => "Invalid capabilities",
            PodComError::EmptyChannelName => "Channel name is empty",
            PodComError::EmptyChannelDescription => "Channel description is empty",
            PodComError::InvalidParticipantLimit => "Invalid participant limit",
            PodComError::FeeTooHigh => "Fee per message too high",
            PodComError::InvalidAmount => "Invalid amount",
            PodComError::InvitationAlreadyUsed => "Invitation already used",
            PodComError::InvitationExpired => "Invitation expired",
            PodComError::ArithmeticOverflow => "Arithmetic overflow",
            PodComError::InvalidContentPointer => "Invalid content pointer",
            PodComError::BatchTooLarge => "Batch too large",
            PodComError::ChannelInactive => "Channel is inactive",
            PodComError::SerializationFailed => "Serialization failed",
        }
    }
}

} // verus!
