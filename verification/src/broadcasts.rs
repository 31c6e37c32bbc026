//! Broadcasts to a channel and the limiter that paces them.

use vstd::prelude::*;
use vstd::string::*;
use crate::address::{agent_address, agent_address_of, bump, bump_of, check_sits_at, sits_at};
use crate::address::{channel_message_address, channel_message_address_of};
use crate::address::{participant_address, participant_address_of, Derived};
use crate::agent::{check_identity, identity_of};
use crate::errors::PodComError;
use crate::events::MessageBroadcast;
use crate::hashing::{content_digest, secure_hash_data};
use crate::pubkey::Pubkey;
use crate::state::{
    Account,
    AgentAccount,
    ChannelAccount,
    ChannelMessage,
    ChannelParticipant,
    Clock,
    CompressedChannelMessage,
    MessageType,
    Signer,
    MAX_BATCH_SIZE,
    MAX_CONTENT_POINTER_LENGTH,
    MAX_EXTERNAL_CONTENT_LENGTH,
    MAX_MESSAGE_CONTENT_LENGTH,
    RATE_LIMIT_MESSAGES_PER_MINUTE,
};
use crate::text::{all_alphanumeric, alphanumeric, byte_len, text_len};

verus! {

/// Seconds that must pass between two broadcasts of one participant.
pub const COOLDOWN_SECONDS: i64 = 1;

/// Length of the burst window in seconds.
pub const BURST_WINDOW_SECONDS: i64 = 10;

/// Count from which on a broadcast inside the burst window is refused.
pub const BURST_LIMIT: u64 = 10;

/// Length of the rate window in seconds.
pub const RATE_WINDOW_SECONDS: i64 = 60;

/// The limiter. From the time of the last broadcast, the count so far and
/// the present time it gives the new count of an accepted broadcast, or
/// nothing for a refused one. A participant who never broadcast has
/// `last_message_at == 0` and is accepted with count 1. Otherwise the
/// cooldown is looked at first, the burst window second and the rate window
/// last; a broadcast that passes the burst check is still counted against
/// the rate window, and one that comes after the rate window starts a new
/// count.
pub open spec fn rate_limit(last_message_at: i64, messages_sent: u64, now: i64) -> Option<u64> {
    let elapsed = now - last_message_at;
    if last_message_at == 0 {
        Some(1u64)
    } else if elapsed < COOLDOWN_SECONDS {
        None
    } else if elapsed < BURST_WINDOW_SECONDS && messages_sent >= BURST_LIMIT {
        None
    } else if elapsed < RATE_WINDOW_SECONDS {
        if messages_sent >= RATE_LIMIT_MESSAGES_PER_MINUTE {
            None
        } else {
            Some((messages_sent + 1) as u64)
        }
    } else {
        Some(1u64)
    }
}

/// Asks the limiter, changing nothing.
pub fn check_rate_limit(last_message_at: i64, messages_sent: u64, now: i64) -> (r: Option<u64>)
    ensures
        r == rate_limit(last_message_at, messages_sent, now),
{
    if last_message_at == 0 {
        return Some(1);
    }
    let elapsed: i128 = now as i128 - last_message_at as i128;
    if elapsed < COOLDOWN_SECONDS as i128 {
        None
    } else if elapsed < BURST_WINDOW_SECONDS as i128 && messages_sent >= BURST_LIMIT {
        None
    } else if elapsed < RATE_WINDOW_SECONDS as i128 {
        if messages_sent >= RATE_LIMIT_MESSAGES_PER_MINUTE as u64 {
            None
        } else {
            Some(messages_sent + 1)
        }
    } else {
        Some(1)
    }
}

/// A membership after a broadcast at `now` was counted as number `count`.
pub open spec fn counted(membership: ChannelParticipant, count: u64, now: i64) -> ChannelParticipant {
    ChannelParticipant { messages_sent: count, last_message_at: now, ..membership }
}

/// Counts a broadcast at `now` against a membership, or refuses it.
pub fn record_broadcast(membership: &mut ChannelParticipant, now: i64) -> (r: Result<
    (),
    PodComError,
>)
    ensures
        match rate_limit(old(membership).last_message_at, old(membership).messages_sent, now) {
            Some(count) => r is Ok && *final(membership) == counted(*old(membership), count, now),
            None => r == Err::<(), PodComError>(PodComError::RateLimitExceeded)
                && *final(membership) == *old(membership),
        },
{
    match check_rate_limit(membership.last_message_at, membership.messages_sent, now) {
        Some(count) => {
            membership.messages_sent = count;
            membership.last_message_at = now;
            Ok(())
        },
        None => Err(PodComError::RateLimitExceeded),
    }
}

/// The records a broadcast with inline content works on.
#[derive(Clone, Debug, PartialEq, Eq)]
pub struct BroadcastMessage {
    pub channel_account: Account<ChannelAccount>,
    /// The sender's membership.
    pub participant_account: Account<ChannelParticipant>,
    /// The sender's identity.
    pub agent_account: Account<AgentAccount>,
    /// Where the message is to be created.
    pub message_account: Account<Option<ChannelMessage>>,
    pub user: Signer,
    pub clock: Clock,
}

/// The addresses that the records of a `BroadcastMessage` are held against.
#[derive(Clone, Copy, Debug, PartialEq, Eq)]
pub struct BroadcastExpected {
    pub agent: Derived,
    pub participant: Derived,
    pub message: Derived,
}

impl BroadcastExpected {
    /// What the records are held against, as the fields of the records give it.
    pub open spec fn of(ctx: BroadcastMessage, nonce: u64) -> BroadcastExpected {
        BroadcastExpected {
            agent: agent_address_of(ctx.user.key),
            participant: participant_address_of(ctx.channel_account.key, ctx.agent_account.key),
            message: channel_message_address_of(ctx.channel_account.key, ctx.user.key, nonce),
        }
    }

    /// Derives what the records are held against.
    pub fn derive(ctx: &BroadcastMessage, nonce: u64) -> (e: BroadcastExpected)
        ensures
            e == BroadcastExpected::of(*ctx, nonce),
    {
        BroadcastExpected {
            agent: agent_address(&ctx.user.key),
            participant: participant_address(&ctx.channel_account.key, &ctx.agent_account.key),
            message: channel_message_address(&ctx.channel_account.key, &ctx.user.key, nonce),
        }
    }
}

/// Why a broadcast is refused, if anything.
pub open spec fn broadcast_verdict(ctx: BroadcastMessage, content: String, e: BroadcastExpected) -> Option<
    PodComError,
> {
    if !identity_of(ctx.agent_account, ctx.user.key, e.agent) {
        Some(PodComError::Unauthorized)
    } else if !sits_at(ctx.participant_account.key, e.participant) {
        Some(PodComError::Unauthorized)
    } else if ctx.participant_account.data.participant != ctx.agent_account.key {
        Some(PodComError::Unauthorized)
    } else if !sits_at(ctx.message_account.key, e.message) {
        Some(PodComError::Unauthorized)
    } else if ctx.message_account.data is Some {
        Some(PodComError::AlreadyExists)
    } else if !ctx.channel_account.data.is_active {
        Some(PodComError::ChannelInactive)
    } else if byte_len(content@) > MAX_MESSAGE_CONTENT_LENGTH {
        Some(PodComError::MessageContentTooLong)
    } else if !ctx.participant_account.data.is_active {
        Some(PodComError::NotInChannel)
    } else if rate_limit(
        ctx.participant_account.data.last_message_at,
        ctx.participant_account.data.messages_sent,
        ctx.clock.unix_timestamp,
    ) is None {
        Some(PodComError::RateLimitExceeded)
    } else {
        None
    }
}

/// The message that a successful broadcast writes. Its sender is the
/// identity that the membership names.
pub open spec fn broadcast_record(
    ctx: BroadcastMessage,
    content: String,
    message_type: MessageType,
    reply_to: Option<Pubkey>,
    e: BroadcastExpected,
) -> ChannelMessage {
    ChannelMessage {
        channel: ctx.channel_account.key,
        sender: ctx.participant_account.data.participant,
        reply_to,
        created_at: ctx.clock.unix_timestamp,
        edited_at: None,
        content,
        message_type,
        bump: bump_of(e.message),
    }
}

/// What a broadcast does: refused, nothing changes; accepted, the
/// membership counts it, the message is written, and it is reported.
pub open spec fn broadcast_outcome(
    before: BroadcastMessage,
    content: String,
    message_type: MessageType,
    reply_to: Option<Pubkey>,
    e: BroadcastExpected,
    after: BroadcastMessage,
    r: Result<MessageBroadcast, PodComError>,
) -> bool {
    match broadcast_verdict(before, content, e) {
        Some(error) => r == Err::<MessageBroadcast, PodComError>(error) && after == before,
        None => {
            &&& r == Ok::<MessageBroadcast, PodComError>(
                MessageBroadcast {
                    channel: before.channel_account.key,
                    sender: before.participant_account.data.participant,
                    message_type,
                    timestamp: before.clock.unix_timestamp,
                },
            )
            &&& after == (BroadcastMessage {
                participant_account: Account {
                    data: counted(
                        before.participant_account.data,
                        rate_limit(
                            before.participant_account.data.last_message_at,
                            before.participant_account.data.messages_sent,
                            before.clock.unix_timestamp,
                        ).unwrap(),
                        before.clock.unix_timestamp,
                    ),
                    ..before.participant_account
                },
                message_account: Account {
                    data: Some(broadcast_record(before, content, message_type, reply_to, e)),
                    ..before.message_account
                },
                ..before
            })
        },
    }
}

/// Broadcasts a message, given the addresses the records are held against.
pub fn broadcast_message_with(
    ctx: &mut BroadcastMessage,
    content: String,
    message_type: MessageType,
    reply_to: Option<Pubkey>,
    e: &BroadcastExpected,
) -> (r: Result<MessageBroadcast, PodComError>)
    ensures
        broadcast_outcome(*old(ctx), content, message_type, reply_to, *e, *final(ctx), r),
{
    if !check_identity(&ctx.agent_account, &ctx.user.key, &e.agent) {
        return Err(PodComError::Unauthorized);
    }
    if !check_sits_at(&ctx.participant_account.key, &e.participant) {
        return Err(PodComError::Unauthorized);
    }
    if ctx.participant_account.data.participant != ctx.agent_account.key {
        return Err(PodComError::Unauthorized);
    }
    if !check_sits_at(&ctx.message_account.key, &e.message) {
        return Err(PodComError::Unauthorized);
    }
    if ctx.message_account.data.is_some() {
        return Err(PodComError::AlreadyExists);
    }
    if !ctx.channel_account.data.is_active {
        return Err(PodComError::ChannelInactive);
    }
    if text_len(content.as_str()) > MAX_MESSAGE_CONTENT_LENGTH {
        return Err(PodComError::MessageContentTooLong);
    }
    if !ctx.participant_account.data.is_active {
        return Err(PodComError::NotInChannel);
    }
    let now: i64 = ctx.clock.unix_timestamp;
    match record_broadcast(&mut ctx.participant_account.data, now) {
        Ok(()) => {},
        Err(error) => {
            return Err(error);
        },
    }
    let sender: Pubkey = ctx.participant_account.data.participant;
    ctx.message_account.data = Some(
        ChannelMessage {
            channel: ctx.channel_account.key,
            sender,
            reply_to,
            created_at: now,
            edited_at: None,
            content,
            message_type,
            bump: bump(&e.message),
        },
    );
    Ok(MessageBroadcast { channel: ctx.channel_account.key, sender, message_type, timestamp: now })
}

/// Broadcasts a message with its content inline. The membership must be
/// that of the user's identity, active, in an active channel; the content
/// at most the limit; and the limiter must let the broadcast pass. `nonce` tells the broadcasts of
/// one sender apart: it goes into the address of the message.
pub fn broadcast_message(
    ctx: &mut BroadcastMessage,
    content: String,
    message_type: MessageType,
    reply_to: Option<Pubkey>,
    nonce: u64,
) -> (r: Result<MessageBroadcast, PodComError>)
    ensures
        broadcast_outcome(
            *old(ctx),
            content,
            message_type,
            reply_to,
            BroadcastExpected::of(*old(ctx), nonce),
            *final(ctx),
            r,
        ),
{
    let e = BroadcastExpected::derive(ctx, nonce);
    broadcast_message_with(ctx, content, message_type, reply_to, &e)
}

/// The records a broadcast with external content works on.
#[derive(Clone, Debug, PartialEq, Eq)]
pub struct BroadcastMessageCompressed {
    pub channel_account: Account<ChannelAccount>,
    /// The sender's membership.
    pub participant_account: Account<ChannelParticipant>,
    /// The sender's identity.
    pub agent_account: Account<AgentAccount>,
    /// The owner key of the identity.
    pub authority: Signer,
    pub clock: Clock,
}

/// What a broadcast with external content is held against: the addresses
/// of identity and membership, and the hash of the content.
#[derive(Clone, Copy, Debug, PartialEq, Eq)]
pub struct CompressedBroadcastExpected {
    pub agent: Derived,
    pub participant: Derived,
    pub content_hash: Result<[u8; 32], PodComError>,
}

impl CompressedBroadcastExpected {
    /// What the records are held against, as the fields of the records give it.
    pub open spec fn of(ctx: BroadcastMessageCompressed, content: Seq<char>) -> CompressedBroadcastExpected {
        CompressedBroadcastExpected {
            agent: agent_address_of(ctx.authority.key),
            participant: participant_address_of(ctx.channel_account.key, ctx.agent_account.key),
            content_hash: Ok(content_digest(vstd::utf8::encode_utf8(content))),
        }
    }

    /// Derives what the records are held against.
    pub fn derive(ctx: &BroadcastMessageCompressed, content: &str) -> (e:
        CompressedBroadcastExpected)
        ensures
            e == CompressedBroadcastExpected::of(*ctx, content@),
    {
        CompressedBroadcastExpected {
            agent: agent_address(&ctx.authority.key),
            participant: participant_address(&ctx.channel_account.key, &ctx.agent_account.key),
            content_hash: secure_hash_data(content.as_bytes()),
        }
    }
}

/// A pointer to external content is acceptable when it is not empty, at
/// most the limit long, and made of letters and digits only.
pub open spec fn content_pointer_ok(pointer: Seq<char>) -> bool {
    pointer.len() > 0 && byte_len(pointer) <= MAX_CONTENT_POINTER_LENGTH && all_alphanumeric(pointer)
}

/// Whether a pointer to external content is acceptable.
pub fn check_content_pointer(pointer: &str) -> (r: bool)
    ensures
        r == content_pointer_ok(pointer@),
{
    !pointer.is_empty() && text_len(pointer) <= MAX_CONTENT_POINTER_LENGTH && alphanumeric(pointer)
}

/// What a successful broadcast with external content hands back: the
/// report, and the record to be archived.
#[derive(Clone, Debug, PartialEq, Eq)]
pub struct CompressedBroadcast {
    pub event: MessageBroadcast,
    pub message: CompressedChannelMessage,
}

/// Why a broadcast with external content is refused before its content is
/// hashed, if anything. In this order: the identity is not the authority's;
/// the membership is not at the address derived for it, or names another
/// identity; the channel is inactive; the content is too long; the pointer
/// is not acceptable; the membership is not active; the limiter refuses.
pub open spec fn compressed_broadcast_checks(
    ctx: BroadcastMessageCompressed,
    content: Seq<char>,
    ipfs_hash: Seq<char>,
    agent: Derived,
    participant: Derived,
) -> Option<PodComError> {
    if !identity_of(ctx.agent_account, ctx.authority.key, agent) {
        Some(PodComError::Unauthorized)
    } else if !sits_at(ctx.participant_account.key, participant) {
        Some(PodComError::Unauthorized)
    } else if ctx.participant_account.data.participant != ctx.agent_account.key {
        Some(PodComError::Unauthorized)
    } else if !ctx.channel_account.data.is_active {
        Some(PodComError::ChannelInactive)
    } else if byte_len(content) > MAX_EXTERNAL_CONTENT_LENGTH {
        Some(PodComError::MessageContentTooLong)
    } else if !content_pointer_ok(ipfs_hash) {
        Some(PodComError::InvalidContentPointer)
    } else if !ctx.participant_account.data.is_active {
        Some(PodComError::NotInChannel)
    } else if rate_limit(
        ctx.participant_account.data.last_message_at,
        ctx.participant_account.data.messages_sent,
        ctx.clock.unix_timestamp,
    ) is None {
        Some(PodComError::RateLimitExceeded)
    } else {
        None
    }
}

/// Why a broadcast with external content is refused, if anything: one of
/// the checks fails, or, all of them passing, the content could not be
/// hashed.
pub open spec fn compressed_broadcast_verdict(
    ctx: BroadcastMessageCompressed,
    content: String,
    ipfs_hash: String,
    e: CompressedBroadcastExpected,
) -> Option<PodComError> {
    if compressed_broadcast_checks(ctx, content@, ipfs_hash@, e.agent, e.participant) is Some {
        compressed_broadcast_checks(ctx, content@, ipfs_hash@, e.agent, e.participant)
    } else {
        match e.content_hash {
            Err(error) => Some(error),
            Ok(_) => None,
        }
    }
}

/// Runs the checks of a broadcast with external content that come before
/// its content is hashed, changing nothing.
pub fn check_compressed_broadcast(
    ctx: &BroadcastMessageCompressed,
    content: &str,
    ipfs_hash: &str,
    agent: &Derived,
    participant: &Derived,
) -> (r: Option<PodComError>)
    ensures
        r == compressed_broadcast_checks(*ctx, content@, ipfs_hash@, *agent, *participant),
{
    if !check_identity(&ctx.agent_account, &ctx.authority.key, agent) {
        Some(PodComError::Unauthorized)
    } else if !check_sits_at(&ctx.participant_account.key, participant) {
        Some(PodComError::Unauthorized)
    } else if ctx.participant_account.data.participant != ctx.agent_account.key {
        Some(PodComError::Unauthorized)
    } else if !ctx.channel_account.data.is_active {
        Some(PodComError::ChannelInactive)
    } else if text_len(content) > MAX_EXTERNAL_CONTENT_LENGTH {
        Some(PodComError::MessageContentTooLong)
    } else if !check_content_pointer(ipfs_hash) {
        Some(PodComError::InvalidContentPointer)
    } else if !ctx.participant_account.data.is_active {
        Some(PodComError::NotInChannel)
    } else if check_rate_limit(
        ctx.participant_account.data.last_message_at,
        ctx.participant_account.data.messages_sent,
        ctx.clock.unix_timestamp,
    ).is_none() {
        Some(PodComError::RateLimitExceeded)
    } else {
        None
    }
}

/// What a broadcast with external content does: refused, nothing changes;
/// accepted, the membership counts it, and the report and the record to be
/// archived are handed back. The record holds the hash of the content and
/// the pointer to it, not the content.
pub open spec fn compressed_broadcast_outcome(
    before: BroadcastMessageCompressed,
    content: String,
    message_type: MessageType,
    reply_to: Option<Pubkey>,
    ipfs_hash: String,
    e: CompressedBroadcastExpected,
    after: BroadcastMessageCompressed,
    r: Result<CompressedBroadcast, PodComError>,
) -> bool {
    match compressed_broadcast_verdict(before, content, ipfs_hash, e) {
        Some(error) => r == Err::<CompressedBroadcast, PodComError>(error) && after == before,
        None => {
            &&& r == Ok::<CompressedBroadcast, PodComError>(
                CompressedBroadcast {
                    event: MessageBroadcast {
                        channel: before.channel_account.key,
                        sender: before.participant_account.data.participant,
                        message_type,
                        timestamp: before.clock.unix_timestamp,
                    },
                    message: CompressedChannelMessage {
                        channel: before.channel_account.key,
                        sender: before.participant_account.data.participant,
                        content_hash: e.content_hash->Ok_0,
                        ipfs_hash,
                        message_type,
                        created_at: before.clock.unix_timestamp,
                        edited_at: None,
                        reply_to,
                    },
                },
            )
            &&& after == (BroadcastMessageCompressed {
                participant_account: Account {
                    data: counted(
                        before.participant_account.data,
                        rate_limit(
                            before.participant_account.data.last_message_at,
                            before.participant_account.data.messages_sent,
                            before.clock.unix_timestamp,
                        ).unwrap(),
                        before.clock.unix_timestamp,
                    ),
                    ..before.participant_account
                },
                ..before
            })
        },
    }
}

/// Broadcasts a message with external content, given the addresses the
/// records are held against and the hash of the content.
pub fn broadcast_message_compressed_with(
    ctx: &mut BroadcastMessageCompressed,
    content: String,
    message_type: MessageType,
    reply_to: Option<Pubkey>,
    ipfs_hash: String,
    e: &CompressedBroadcastExpected,
) -> (r: Result<CompressedBroadcast, PodComError>)
    ensures
        compressed_broadcast_outcome(
            *old(ctx),
            content,
            message_type,
            reply_to,
            ipfs_hash,
            *e,
            *final(ctx),
            r,
        ),
{
    if let Some(error) = check_compressed_broadcast(
        ctx,
        content.as_str(),
        ipfs_hash.as_str(),
        &e.agent,
        &e.participant,
    ) {
        return Err(error);
    }
    let now: i64 = ctx.clock.unix_timestamp;
    let count: u64 = match check_rate_limit(
        ctx.participant_account.data.last_message_at,
        ctx.participant_account.data.messages_sent,
        now,
    ) {
        Some(count) => count,
        None => {
            return Err(PodComError::RateLimitExceeded);
        },
    };
    let content_hash: [u8; 32] = match e.content_hash {
        Ok(digest) => digest,
        Err(error) => {
            return Err(error);
        },
    };
    ctx.participant_account.data.messages_sent = count;
    ctx.participant_account.data.last_message_at = now;
    let sender: Pubkey = ctx.participant_account.data.participant;
    Ok(
        CompressedBroadcast {
            event: MessageBroadcast {
                channel: ctx.channel_account.key,
                sender,
                message_type,
                timestamp: now,
            },
            message: CompressedChannelMessage {
                channel: ctx.channel_account.key,
                sender,
                content_hash,
                ipfs_hash,
                message_type,
                created_at: now,
                edited_at: None,
                reply_to,
            },
        },
    )
}

/// Broadcasts a message whose content is stored elsewhere under
/// `ipfs_hash`. The membership must be that of the authority's identity,
/// active, in an active channel. Once every check has passed, the content is
/// hashed here, in a scoped buffer, and only the hash and the pointer go
/// into the record that is handed back.
pub fn broadcast_message_compressed(
    ctx: &mut BroadcastMessageCompressed,
    content: String,
    message_type: MessageType,
    reply_to: Option<Pubkey>,
    ipfs_hash: String,
) -> (r: Result<CompressedBroadcast, PodComError>)
    ensures
        compressed_broadcast_outcome(
            *old(ctx),
            content,
            message_type,
            reply_to,
            ipfs_hash,
            CompressedBroadcastExpected::of(*old(ctx), content@),
            *final(ctx),
            r,
        ),
{
    let agent = agent_address(&ctx.authority.key);
    let participant = participant_address(&ctx.channel_account.key, &ctx.agent_account.key);
    if let Some(error) = check_compressed_broadcast(
        ctx,
        content.as_str(),
        ipfs_hash.as_str(),
        &agent,
        &participant,
    ) {
        return Err(error);
    }
    let e = CompressedBroadcastExpected {
        agent,
        participant,
        content_hash: secure_hash_data(content.as_str().as_bytes()),
    };
    broadcast_message_compressed_with(ctx, content, message_type, reply_to, ipfs_hash, &e)
}

/// The records a batch synchronisation works on.
#[derive(Clone, Debug, PartialEq, Eq)]
pub struct BatchSyncCompressedMessages {
    pub channel_account: Account<ChannelAccount>,
    pub authority: Signer,
}

/// Why a batch is refused, if anything: it is too large, or the authority
/// did not create the channel.
pub open spec fn batch_verdict(ctx: BatchSyncCompressedMessages, batch: Seq<[u8; 32]>) -> Option<
    PodComError,
> {
    if batch.len() > MAX_BATCH_SIZE {
        Some(PodComError::BatchTooLarge)
    } else if ctx.channel_account.data.creator != ctx.authority.key {
        Some(PodComError::Unauthorized)
    } else {
        None
    }
}

/// Accepts a batch of message hashes for a channel on behalf of its
/// creator, and says how many hashes it holds. No record changes.
pub fn batch_sync_compressed_messages(
    ctx: &BatchSyncCompressedMessages,
    message_hashes: Vec<[u8; 32]>,
    sync_timestamp: i64,
) -> (r: Result<usize, PodComError>)
    ensures
        match batch_verdict(*ctx, message_hashes@) {
            Some(error) => r == Err::<usize, PodComError>(error),
            None => r == Ok::<usize, PodComError>(message_hashes@.len() as usize),
        },
{
    if message_hashes.len() > MAX_BATCH_SIZE {
        return Err(PodComError::BatchTooLarge);
    }
    if ctx.channel_account.data.creator != ctx.authority.key {
        return Err(PodComError::Unauthorized);
    }
    Ok(message_hashes.len())
}

} // verus!
