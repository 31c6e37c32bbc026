use pod_com::errors::PodComError;
use pod_com::state::{
    MAX_CHANNEL_DESCRIPTION_LENGTH, MAX_CHANNEL_NAME_LENGTH, MAX_METADATA_URI_LENGTH,
    MAX_MESSAGE_CONTENT_LENGTH, MAX_PARTICIPANTS_PER_CHANNEL, MESSAGE_EXPIRATION_SECONDS,
    MIN_REPUTATION_FOR_CHANNELS, RATE_LIMIT_MESSAGES_PER_MINUTE,
};

#[test]
fn error_messages() {
    assert_eq!(PodComError::InvalidMetadataUriLength.message(), "Invalid metadata URI length");
    assert_eq!(PodComError::Unauthorized.message(), "Unauthorized");
    assert_eq!(PodComError::MessageExpired.message(), "Message expired");
    assert_eq!(
        PodComError::InvalidMessageStatusTransition.message(),
        "Invalid message status transition"
    );
    assert_eq!(PodComError::ChannelFull.message(), "Channel is full");
    assert_eq!(PodComError::AlreadyInChannel.message(), "Already in channel");
    assert_eq!(PodComError::NotInChannel.message(), "Not in channel");
    assert_eq!(PodComError::InsufficientFunds.message(), "Insufficient funds");
    assert_eq!(PodComError::ChannelNameTooLong.message(), "Channel name too long");
    assert_eq!(PodComError::ChannelDescriptionTooLong.message(), "Channel description too long");
    assert_eq!(PodComError::InsufficientReputation.message(), "Insufficient reputation");
    assert_eq!(PodComError::RateLimitExceeded.message(), "Rate limit exceeded");
    assert_eq!(PodComError::MessageContentTooLong.message(), "Message content too long");
    assert_eq!(
        PodComError::PrivateChannelRequiresInvitation.message(),
        "Private channel requires invitation"
    );
    assert_eq!(PodComError::HashingFailed.message(), "Hashing operation failed");
    assert_eq!(
        PodComError::SecureMemoryAllocationFailed.message(),
        "Secure memory allocation failed"
    );
    assert_eq!(PodComError::AlreadyExists.message(), "Record already exists");
    assert_eq!(PodComError::InvitationAlreadyUsed.message(), "Invitation already used");
    assert_eq!(PodComError::ChannelInactive.message(), "Channel is inactive");
}

#[test]
fn every_error_has_its_own_message() {
    let all = [
        PodComError::InvalidMetadataUriLength,
        PodComError::Unauthorized,
        PodComError::MessageExpired,
        PodComError::InvalidMessageStatusTransition,
        PodComError::ChannelFull,
        PodComError::AlreadyInChannel,
        PodComError::NotInChannel,
        PodComError::InsufficientFunds,
        PodComError::ChannelNameTooLong,
        PodComError::ChannelDescriptionTooLong,
        PodComError::InsufficientReputation,
        PodComError::RateLimitExceeded,
        PodComError::MessageContentTooLong,
        PodComError::PrivateChannelRequiresInvitation,
        PodComError::HashingFailed,
        PodComError::SecureMemoryAllocationFailed,
        PodComError::AlreadyExists,
        PodComError::InvalidCapabilities,
        PodComError::EmptyChannelName,
        PodComError::EmptyChannelDescription,
        PodComError::InvalidParticipantLimit,
        PodComError::FeeTooHigh,
        PodComError::InvalidAmount,
        PodComError::InvitationAlreadyUsed,
        PodComError::InvitationExpired,
        PodComError::ArithmeticOverflow,
        PodComError::InvalidContentPointer,
        PodComError::BatchTooLarge,
        PodComError::ChannelInactive,
        PodComError::SerializationFailed,
    ];
    for (i, a) in all.iter().enumerate() {
        assert!(!a.message().is_empty());
        for b in all.iter().skip(i + 1) {
            assert_ne!(a.message(), b.message());
        }
    }
}

#[test]
fn limits() {
    assert_eq!(MAX_METADATA_URI_LENGTH, 200);
    assert_eq!(MAX_CHANNEL_NAME_LENGTH, 50);
    assert_eq!(MAX_CHANNEL_DESCRIPTION_LENGTH, 200);
    assert_eq!(MAX_PARTICIPANTS_PER_CHANNEL, 1000);
    assert_eq!(MAX_MESSAGE_CONTENT_LENGTH, 1000);
    assert_eq!(RATE_LIMIT_MESSAGES_PER_MINUTE, 60);
    assert_eq!(MIN_REPUTATION_FOR_CHANNELS, 50);
    assert_eq!(MESSAGE_EXPIRATION_SECONDS, 7 * 24 * 60 * 60);
}
