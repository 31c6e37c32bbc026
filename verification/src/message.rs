//! Direct messages between identities and the states they pass through.

use vstd::prelude::*;
use crate::address::{agent_address, agent_address_of, bump, bump_of, check_sits_at, sits_at};
use crate::address::{message_address, message_address_of, Derived};
use crate::agent::{check_identity, identity_of};
use crate::errors::PodComError;
use crate::events::MessageSent;
use crate::pubkey::Pubkey;
use crate::state::{
    Account,
    AgentAccount,
    Clock,
    MessageAccount,
    MessageStatus,
    MessageType,
    Signer,
    MESSAGE_EXPIRATION_SECONDS,
};

verus! {

/// The records a direct message is sent on.
#[derive(Clone, Debug, PartialEq, Eq)]
pub struct SendMessage {
    /// Where the message is to be created.
    pub message_account: Account<Option<MessageAccount>>,
    /// The sender's identity.
    pub sender_agent: Account<AgentAccount>,
    pub signer: Signer,
    pub clock: Clock,
}

/// The addresses that the records of a `SendMessage` are held against.
#[derive(Clone, Copy, Debug, PartialEq, Eq)]
pub struct SendExpected {
    pub agent: Derived,
    pub message: Derived,
}

impl SendExpected {
    /// What the records are held against, as the fields of the records give it.
    pub open spec fn of(
        ctx: SendMessage,
        recipient: Pubkey,
        payload_hash: [u8; 32],
        message_type: MessageType,
    ) -> SendExpected {
        SendExpected {
            agent: agent_address_of(ctx.signer.key),
            message: message_address_of(ctx.sender_agent.key, recipient, payload_hash, message_type),
        }
    }

    /// Derives what the records are held against.
    pub fn derive(
        ctx: &SendMessage,
        recipient: &Pubkey,
        payload_hash: &[u8; 32],
        message_type: &MessageType,
    ) -> (e: SendExpected)
        ensures
            e == SendExpected::of(*ctx, *recipient, *payload_hash, *message_type),
    {
        SendExpected {
            agent: agent_address(&ctx.signer.key),
            message: message_address(&ctx.sender_agent.key, recipient, payload_hash, message_type),
        }
    }
}

/// Why a message cannot be sent, if anything.
pub open spec fn send_verdict(ctx: SendMessage, e: SendExpected) -> Option<
    PodComError,
> {
    if !identity_of(ctx.sender_agent, ctx.signer.key, e.agent) {
        Some(PodComError::Unauthorized)
    } else if !sits_at(ctx.message_account.key, e.message) {
        Some(PodComError::Unauthorized)
    } else if ctx.message_account.data is Some {
        Some(PodComError::AlreadyExists)
    } else if ctx.clock.unix_timestamp + MESSAGE_EXPIRATION_SECONDS > i64::MAX {
        Some(PodComError::ArithmeticOverflow)
    } else {
        None
    }
}

/// The message that a successful `send_message` writes: from the sender's
/// identity, pending, and expiring seven days after it was created.
pub open spec fn sent_message(
    ctx: SendMessage,
    recipient: Pubkey,
    payload_hash: [u8; 32],
    message_type: MessageType,
    e: SendExpected,
) -> MessageAccount {
    MessageAccount {
        sender: ctx.sender_agent.key,
        recipient,
        payload_hash,
        created_at: ctx.clock.unix_timestamp,
        expires_at: (ctx.clock.unix_timestamp + MESSAGE_EXPIRATION_SECONDS) as i64,
        message_type,
        status: MessageStatus::Pending,
        bump: bump_of(e.message),
    }
}

/// What a send does: refused, nothing changes; accepted, the message is
/// written and reported.
pub open spec fn send_outcome(
    before: SendMessage,
    recipient: Pubkey,
    payload_hash: [u8; 32],
    message_type: MessageType,
    e: SendExpected,
    after: SendMessage,
    r: Result<MessageSent, PodComError>,
) -> bool {
    match send_verdict(before, e) {
        Some(error) => r == Err::<MessageSent, PodComError>(error) && after == before,
        None => {
            &&& r == Ok::<MessageSent, PodComError>(
                MessageSent {
                    sender: before.sender_agent.key,
                    recipient,
                    message_type,
                    timestamp: before.clock.unix_timestamp,
                },
            )
            &&& after == (SendMessage {
                message_account: Account {
                    data: Some(sent_message(before, recipient, payload_hash, message_type, e)),
                    ..before.message_account
                },
                ..before
            })
        },
    }
}

/// Sends a direct message, given the addresses the records are held against.
pub fn send_message_with(
    ctx: &mut SendMessage,
    recipient: Pubkey,
    payload_hash: [u8; 32],
    message_type: MessageType,
    e: &SendExpected,
) -> (r: Result<MessageSent, PodComError>)
    ensures
        send_outcome(*old(ctx), recipient, payload_hash, message_type, *e, *final(ctx), r),
{
    if !check_identity(&ctx.sender_agent, &ctx.signer.key, &e.agent) {
        return Err(PodComError::Unauthorized);
    }
    if !check_sits_at(&ctx.message_account.key, &e.message) {
        return Err(PodComError::Unauthorized);
    }
    if ctx.message_account.data.is_some() {
        return Err(PodComError::AlreadyExists);
    }
    let now: i64 = ctx.clock.unix_timestamp;
    let expires_at: i64 = match now.checked_add(MESSAGE_EXPIRATION_SECONDS) {
        Some(at) => at,
        None => {
            return Err(PodComError::ArithmeticOverflow);
        },
    };
    ctx.message_account.data = Some(
        MessageAccount {
            sender: ctx.sender_agent.key,
            recipient,
            payload_hash,
            created_at: now,
            expires_at,
            message_type,
            status: MessageStatus::Pending,
            bump: bump(&e.message),
        },
    );
    Ok(MessageSent { sender: ctx.sender_agent.key, recipient, message_type, timestamp: now })
}

/// Sends a direct message from the signer's identity to `recipient`. Only
/// the hash of the payload is stored. The sender written into the message is
/// the identity's address, never the owner key.
pub fn send_message(
    ctx: &mut SendMessage,
    recipient: Pubkey,
    payload_hash: [u8; 32],
    message_type: MessageType,
) -> (r: Result<MessageSent, PodComError>)
    ensures
        send_outcome(
            *old(ctx),
            recipient,
            payload_hash,
            message_type,
            SendExpected::of(*old(ctx), recipient, payload_hash, message_type),
            *final(ctx),
            r,
        ),
{
    let e = SendExpected::derive(ctx, &recipient, &payload_hash, &message_type);
    send_message_with(ctx, recipient, payload_hash, message_type, &e)
}

/// The records a status update works on.
#[derive(Clone, Debug, PartialEq, Eq)]
pub struct UpdateMessageStatus {
    pub message_account: Account<MessageAccount>,
    /// The identity of the signer, who acts as recipient or sender.
    pub recipient_agent: Account<AgentAccount>,
    pub signer: Signer,
    pub clock: Clock,
}

/// The addresses that the records of an `UpdateMessageStatus` are held against.
#[derive(Clone, Copy, Debug, PartialEq, Eq)]
pub struct StatusExpected {
    pub agent: Derived,
    pub message: Derived,
}

impl StatusExpected {
    /// What the records are held against, as the fields of the records give it.
    pub open spec fn of(ctx: UpdateMessageStatus) -> StatusExpected {
        StatusExpected {
            agent: agent_address_of(ctx.signer.key),
            message: message_address_of(
                ctx.message_account.data.sender,
                ctx.message_account.data.recipient,
                ctx.message_account.data.payload_hash,
                ctx.message_account.data.message_type,
            ),
        }
    }

    /// Derives what the records are held against.
    pub fn derive(ctx: &UpdateMessageStatus) -> (e: StatusExpected)
        ensures
            e == StatusExpected::of(*ctx),
    {
        StatusExpected {
            agent: agent_address(&ctx.signer.key),
            message: message_address(
                &ctx.message_account.data.sender,
                &ctx.message_account.data.recipient,
                &ctx.message_account.data.payload_hash,
                &ctx.message_account.data.message_type,
            ),
        }
    }
}

/// The steps a message can take: from pending to delivered or read, and
/// from anything but failed to failed.
pub open spec fn can_follow(current: MessageStatus, next: MessageStatus) -> bool {
    match next {
        MessageStatus::Pending => false,
        MessageStatus::Delivered | MessageStatus::Read => current == MessageStatus::Pending,
        MessageStatus::Failed => current != MessageStatus::Failed,
    }
}

/// Who may take a step: the recipient marks a message delivered or read;
/// sender and recipient alike may mark it failed.
pub open spec fn may_set(message: MessageAccount, caller: Pubkey, next: MessageStatus) -> bool {
    match next {
        MessageStatus::Failed => caller == message.sender || caller == message.recipient,
        _ => caller == message.recipient,
    }
}

/// Why a status update is refused, if anything.
pub open spec fn status_verdict(
    ctx: UpdateMessageStatus,
    new_status: MessageStatus,
    e: StatusExpected,
) -> Option<PodComError> {
    if !identity_of(ctx.recipient_agent, ctx.signer.key, e.agent) {
        Some(PodComError::Unauthorized)
    } else if !sits_at(ctx.message_account.key, e.message) {
        Some(PodComError::Unauthorized)
    } else if ctx.clock.unix_timestamp > ctx.message_account.data.expires_at {
        Some(PodComError::MessageExpired)
    } else if !can_follow(ctx.message_account.data.status, new_status) {
        Some(PodComError::InvalidMessageStatusTransition)
    } else if !may_set(ctx.message_account.data, ctx.recipient_agent.key, new_status) {
        Some(PodComError::Unauthorized)
    } else {
        None
    }
}

/// What a status update does: refused, nothing changes; accepted, only the
/// status is replaced.
pub open spec fn status_outcome(
    before: UpdateMessageStatus,
    new_status: MessageStatus,
    e: StatusExpected,
    after: UpdateMessageStatus,
    r: Result<(), PodComError>,
) -> bool {
    match status_verdict(before, new_status, e) {
        Some(error) => r == Err::<(), PodComError>(error) && after == before,
        None => r is Ok && after == (UpdateMessageStatus {
            message_account: Account {
                data: MessageAccount { status: new_status, ..before.message_account.data },
                ..before.message_account
            },
            ..before
        }),
    }
}

fn check_can_follow(current: MessageStatus, next: MessageStatus) -> (r: bool)
    ensures
        r == can_follow(current, next),
{
    match next {
        MessageStatus::Pending => false,
        MessageStatus::Delivered | MessageStatus::Read => current == MessageStatus::Pending,
        MessageStatus::Failed => current != MessageStatus::Failed,
    }
}

fn check_may_set(message: &MessageAccount, caller: &Pubkey, next: MessageStatus) -> (r: bool)
    ensures
        r == may_set(*message, *caller, next),
{
    match next {
        MessageStatus::Failed => *caller == message.sender || *caller == message.recipient,
        _ => *caller == message.recipient,
    }
}

/// Updates the status of a message, given the addresses the records are
/// held against.
pub fn update_message_status_with(
    ctx: &mut UpdateMessageStatus,
    new_status: MessageStatus,
    e: &StatusExpected,
) -> (r: Result<(), PodComError>)
    ensures
        status_outcome(*old(ctx), new_status, *e, *final(ctx), r),
{
    if !check_identity(&ctx.recipient_agent, &ctx.signer.key, &e.agent) {
        return Err(PodComError::Unauthorized);
    }
    if !check_sits_at(&ctx.message_account.key, &e.message) {
        return Err(PodComError::Unauthorized);
    }
    if ctx.clock.unix_timestamp > ctx.message_account.data.expires_at {
        return Err(PodComError::MessageExpired);
    }
    if !check_can_follow(ctx.message_account.data.status, new_status) {
        return Err(PodComError::InvalidMessageStatusTransition);
    }
    if !check_may_set(&ctx.message_account.data, &ctx.recipient_agent.key, new_status) {
        return Err(PodComError::Unauthorized);
    }
    ctx.message_account.data.status = new_status;
    Ok(())
}

/// Moves a direct message to a new status on behalf of the signer's
/// identity. After its expiry a message takes no step at all.
pub fn update_message_status(ctx: &mut UpdateMessageStatus, new_status: MessageStatus) -> (r:
    Result<(), PodComError>)
    ensures
        status_outcome(*old(ctx), new_status, StatusExpected::of(*old(ctx)), *final(ctx), r),
{
    let e = StatusExpected::derive(ctx);
    update_message_status_with(ctx, new_status, &e)
}

} // verus!
