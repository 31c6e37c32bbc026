//! Channels: creation, settings, and leaving.

use vstd::prelude::*;
use vstd::string::*;
use crate::address::{agent_address, agent_address_of, bump, bump_of, check_sits_at, sits_at};
use crate::address::{channel_address, channel_address_of};
use crate::address::{participant_address, participant_address_of, Derived};
use crate::agent::{check_identity, identity_of};
use crate::errors::PodComError;
use crate::events::ChannelCreated;
use crate::pubkey::Pubkey;
use crate::state::{
    Account,
    AgentAccount,
    ChannelAccount,
    ChannelParticipant,
    ChannelVisibility,
    Clock,
    Signer,
    MAX_CHANNEL_DESCRIPTION_LENGTH,
    MAX_CHANNEL_NAME_LENGTH,
    MAX_FEE_PER_MESSAGE,
    MAX_PARTICIPANTS_PER_CHANNEL,
    MIN_REPUTATION_FOR_CHANNELS,
};
use crate::text::{blank, byte_len, is_blank, text_len, trim, trimmed};

verus! {

/// What is wrong with a channel name, if anything.
pub open spec fn name_verdict(name: Seq<char>) -> Option<PodComError> {
    if is_blank(name) {
        Some(PodComError::EmptyChannelName)
    } else if byte_len(name) > MAX_CHANNEL_NAME_LENGTH {
        Some(PodComError::ChannelNameTooLong)
    } else {
        None
    }
}

/// What is wrong with a channel description, if anything.
pub open spec fn description_verdict(description: Seq<char>) -> Option<PodComError> {
    if is_blank(description) {
        Some(PodComError::EmptyChannelDescription)
    } else if byte_len(description) > MAX_CHANNEL_DESCRIPTION_LENGTH {
        Some(PodComError::ChannelDescriptionTooLong)
    } else {
        None
    }
}

/// What is wrong with a seat count, if anything.
pub open spec fn limit_verdict(max_participants: u32) -> Option<PodComError> {
    if max_participants == 0 || max_participants > MAX_PARTICIPANTS_PER_CHANNEL {
        Some(PodComError::InvalidParticipantLimit)
    } else {
        None
    }
}

/// What is wrong with a fee, if anything.
pub open spec fn fee_limit_verdict(fee_per_message: u64) -> Option<PodComError> {
    if fee_per_message > MAX_FEE_PER_MESSAGE {
        Some(PodComError::FeeTooHigh)
    } else {
        None
    }
}

/// The first thing wrong with the settings of a channel, looked at in the
/// order name, description, seat count, fee.
pub open spec fn settings_verdict(
    name: Seq<char>,
    description: Seq<char>,
    max_participants: u32,
    fee_per_message: u64,
) -> Option<PodComError> {
    if name_verdict(name) is Some {
        name_verdict(name)
    } else if description_verdict(description) is Some {
        description_verdict(description)
    } else if limit_verdict(max_participants) is Some {
        limit_verdict(max_participants)
    } else {
        fee_limit_verdict(fee_per_message)
    }
}

/// Looks for what is wrong with a channel name.
pub fn check_name(name: &str) -> (r: Option<PodComError>)
    ensures
        r == name_verdict(name@),
{
    if blank(name) {
        Some(PodComError::EmptyChannelName)
    } else if text_len(name) > MAX_CHANNEL_NAME_LENGTH {
        Some(PodComError::ChannelNameTooLong)
    } else {
        None
    }
}

/// Looks for what is wrong with a channel description.
pub fn check_description(description: &str) -> (r: Option<PodComError>)
    ensures
        r == description_verdict(description@),
{
    if blank(description) {
        Some(PodComError::EmptyChannelDescription)
    } else if text_len(description) > MAX_CHANNEL_DESCRIPTION_LENGTH {
        Some(PodComError::ChannelDescriptionTooLong)
    } else {
        None
    }
}

/// Looks for what is wrong with a seat count.
pub fn check_limit(max_participants: u32) -> (r: Option<PodComError>)
    ensures
        r == limit_verdict(max_participants),
{
    if max_participants == 0 || max_participants > MAX_PARTICIPANTS_PER_CHANNEL {
        Some(PodComError::InvalidParticipantLimit)
    } else {
        None
    }
}

/// Looks for what is wrong with a fee.
pub fn check_fee_limit(fee_per_message: u64) -> (r: Option<PodComError>)
    ensures
        r == fee_limit_verdict(fee_per_message),
{
    if fee_per_message > MAX_FEE_PER_MESSAGE {
        Some(PodComError::FeeTooHigh)
    } else {
        None
    }
}

/// Looks for the first thing wrong with the settings of a channel.
pub fn check_settings(
    name: &str,
    description: &str,
    max_participants: u32,
    fee_per_message: u64,
) -> (r: Option<PodComError>)
    ensures
        r == settings_verdict(name@, description@, max_participants, fee_per_message),
{
    let wrong = check_name(name);
    if wrong.is_some() {
        return wrong;
    }
    let wrong = check_description(description);
    if wrong.is_some() {
        return wrong;
    }
    let wrong = check_limit(max_participants);
    if wrong.is_some() {
        return wrong;
    }
    check_fee_limit(fee_per_message)
}

/// The channel that a creation writes: name and description without the
/// whitespace around them, the creator holding the first seat, nothing in
/// escrow, active.
pub open spec fn is_new_channel(
    channel: ChannelAccount,
    creator: Pubkey,
    name: Seq<char>,
    description: Seq<char>,
    visibility: ChannelVisibility,
    max_participants: u32,
    fee_per_message: u64,
    now: i64,
    bump: u8,
) -> bool {
    &&& channel.creator == creator
    &&& channel.name@ == trimmed(name)
    &&& channel.description@ == trimmed(description)
    &&& channel.visibility == visibility
    &&& channel.max_participants == max_participants
    &&& channel.current_participants == 1
    &&& channel.fee_per_message == fee_per_message
    &&& channel.escrow_balance == 0
    &&& channel.created_at == now
    &&& channel.is_active
    &&& channel.bump == bump
}

/// The report of a creation.
pub open spec fn is_creation_report(
    event: ChannelCreated,
    channel: Pubkey,
    creator: Pubkey,
    name: Seq<char>,
    visibility: ChannelVisibility,
    now: i64,
) -> bool {
    &&& event.channel == channel
    &&& event.creator == creator
    &&& event.name@ == trimmed(name)
    &&& event.visibility == visibility
    &&& event.timestamp == now
}

fn build_channel(
    creator: Pubkey,
    name: &str,
    description: &str,
    visibility: ChannelVisibility,
    max_participants: u32,
    fee_per_message: u64,
    now: i64,
    bump: u8,
) -> (channel: ChannelAccount)
    ensures
        is_new_channel(
            channel,
            creator,
            name@,
            description@,
            visibility,
            max_participants,
            fee_per_message,
            now,
            bump,
        ),
{
    ChannelAccount {
        creator,
        fee_per_message,
        escrow_balance: 0,
        created_at: now,
        max_participants,
        current_participants: 1,
        name: String::from_str(trim(name)),
        description: String::from_str(trim(description)),
        visibility,
        is_active: true,
        bump,
    }
}

/// The records a channel is created on.
#[derive(Clone, Debug, PartialEq, Eq)]
pub struct CreateChannel {
    /// Where the channel is to be created.
    pub channel_account: Account<Option<ChannelAccount>>,
    pub creator: Signer,
    pub clock: Clock,
}

/// Why a creation is refused, if anything. The name, from which the
/// address of the channel is derived, is looked at first; then whether
/// the record is at that address and free; then the other settings.
pub open spec fn create_verdict(
    ctx: CreateChannel,
    name: Seq<char>,
    description: Seq<char>,
    max_participants: u32,
    fee_per_message: u64,
    expected: Derived,
) -> Option<PodComError> {
    if name_verdict(name) is Some {
        name_verdict(name)
    } else if !sits_at(ctx.channel_account.key, expected) {
        Some(PodComError::Unauthorized)
    } else if ctx.channel_account.data is Some {
        Some(PodComError::AlreadyExists)
    } else {
        settings_verdict(name, description, max_participants, fee_per_message)
    }
}

/// What a creation does: refused, nothing changes; accepted, the channel
/// is written, nothing else changes, and the creation is reported.
pub open spec fn create_outcome(
    before: CreateChannel,
    name: Seq<char>,
    description: Seq<char>,
    visibility: ChannelVisibility,
    max_participants: u32,
    fee_per_message: u64,
    expected: Derived,
    after: CreateChannel,
    r: Result<ChannelCreated, PodComError>,
) -> bool {
    match create_verdict(before, name, description, max_participants, fee_per_message, expected) {
        Some(error) => r == Err::<ChannelCreated, PodComError>(error) && after == before,
        None => {
            &&& r matches Ok(event) && is_creation_report(
                event,
                before.channel_account.key,
                before.creator.key,
                name,
                visibility,
                before.clock.unix_timestamp,
            )
            &&& after.creator == before.creator
            &&& after.clock == before.clock
            &&& after.channel_account.key == before.channel_account.key
            &&& after.channel_account.lamports == before.channel_account.lamports
            &&& after.channel_account.data matches Some(channel) && is_new_channel(
                channel,
                before.creator.key,
                name,
                description,
                visibility,
                max_participants,
                fee_per_message,
                before.clock.unix_timestamp,
                bump_of(expected),
            )
        },
    }
}

/// Creates a channel, given the address its record is held against.
pub fn create_channel_with(
    ctx: &mut CreateChannel,
    name: String,
    description: String,
    visibility: ChannelVisibility,
    max_participants: u32,
    fee_per_message: u64,
    expected: &Derived,
) -> (r: Result<ChannelCreated, PodComError>)
    ensures
        create_outcome(
            *old(ctx),
            name@,
            description@,
            visibility,
            max_participants,
            fee_per_message,
            *expected,
            *final(ctx),
            r,
        ),
{
    if let Some(error) = check_name(name.as_str()) {
        return Err(error);
    }
    if !check_sits_at(&ctx.channel_account.key, expected) {
        return Err(PodComError::Unauthorized);
    }
    if ctx.channel_account.data.is_some() {
        return Err(PodComError::AlreadyExists);
    }
    match check_settings(name.as_str(), description.as_str(), max_participants, fee_per_message) {
        Some(error) => {
            return Err(error);
        },
        None => {},
    }
    let now: i64 = ctx.clock.unix_timestamp;
    let channel = build_channel(
        ctx.creator.key,
        name.as_str(),
        description.as_str(),
        visibility,
        max_participants,
        fee_per_message,
        now,
        bump(expected),
    );
    let event = ChannelCreated {
        channel: ctx.channel_account.key,
        creator: ctx.creator.key,
        name: channel.name.clone(),
        visibility,
        timestamp: now,
    };
    ctx.channel_account.data = Some(channel);
    Ok(event)
}

/// Creates a channel at the address derived from its creator and its name.
/// Name and description must not be blank and must keep to their limits,
/// the seat count must lie between 1 and the ceiling, and the fee at most
/// the ceiling. The creator holds the first seat. The address is derived
/// from the name as given, before it is trimmed.
pub fn create_channel(
    ctx: &mut CreateChannel,
    name: String,
    description: String,
    visibility: ChannelVisibility,
    max_participants: u32,
    fee_per_message: u64,
) -> (r: Result<ChannelCreated, PodComError>)
    ensures
        create_outcome(
            *old(ctx),
            name@,
            description@,
            visibility,
            max_participants,
            fee_per_message,
            channel_address_of(old(ctx).creator.key, name@),
            *final(ctx),
            r,
        ),
{
    let expected = channel_address(&ctx.creator.key, name.as_str());
    create_channel_with(
        ctx,
        name,
        description,
        visibility,
        max_participants,
        fee_per_message,
        &expected,
    )
}

/// The records a gated creation works on.
#[derive(Clone, Debug, PartialEq, Eq)]
pub struct CreateChannelV2 {
    /// The creator's identity.
    pub agent_account: Account<AgentAccount>,
    /// Where the channel is to be created.
    pub channel_account: Account<Option<ChannelAccount>>,
    /// Where the creator's membership is to be created.
    pub participant_account: Account<Option<ChannelParticipant>>,
    pub creator: Signer,
    pub clock: Clock,
}

/// The addresses that the records of a `CreateChannelV2` are held against.
#[derive(Clone, Copy, Debug, PartialEq, Eq)]
pub struct CreateExpected {
    pub agent: Derived,
    pub channel: Derived,
    pub participant: Derived,
}

impl CreateExpected {
    /// What the records are held against, as the fields of the records give it.
    pub open spec fn of(ctx: CreateChannelV2, name: Seq<char>) -> CreateExpected {
        CreateExpected {
            agent: agent_address_of(ctx.creator.key),
            channel: channel_address_of(ctx.creator.key, name),
            participant: participant_address_of(ctx.channel_account.key, ctx.agent_account.key),
        }
    }

    /// Derives what the records are held against.
    pub fn derive(ctx: &CreateChannelV2, name: &str) -> (e: CreateExpected)
        ensures
            e == CreateExpected::of(*ctx, name@),
    {
        CreateExpected {
            agent: agent_address(&ctx.creator.key),
            channel: channel_address(&ctx.creator.key, name),
            participant: participant_address(&ctx.channel_account.key, &ctx.agent_account.key),
        }
    }
}

/// Why a gated creation is refused, if anything. The creator's identity
/// is looked at first, then the name, then the addresses of channel and
/// membership and whether they are free, then the reputation, then the
/// other settings.
pub open spec fn create_v2_verdict(
    ctx: CreateChannelV2,
    name: Seq<char>,
    description: Seq<char>,
    max_participants: u32,
    fee_per_message: u64,
    e: CreateExpected,
) -> Option<PodComError> {
    if !identity_of(ctx.agent_account, ctx.creator.key, e.agent) {
        Some(PodComError::Unauthorized)
    } else if name_verdict(name) is Some {
        name_verdict(name)
    } else if !sits_at(ctx.channel_account.key, e.channel) {
        Some(PodComError::Unauthorized)
    } else if !sits_at(ctx.participant_account.key, e.participant) {
        Some(PodComError::Unauthorized)
    } else if ctx.channel_account.data is Some {
        Some(PodComError::AlreadyExists)
    } else if ctx.participant_account.data is Some {
        Some(PodComError::AlreadyInChannel)
    } else if ctx.agent_account.data.reputation < MIN_REPUTATION_FOR_CHANNELS {
        Some(PodComError::InsufficientReputation)
    } else {
        settings_verdict(name, description, max_participants, fee_per_message)
    }
}

/// A fresh, active membership of `agent` in `channel`, with no broadcast
/// counted.
pub open spec fn new_membership(channel: Pubkey, agent: Pubkey, now: i64, bump: u8) -> ChannelParticipant {
    ChannelParticipant {
        channel,
        participant: agent,
        joined_at: now,
        messages_sent: 0,
        last_message_at: 0,
        is_active: true,
        bump,
    }
}

/// What a gated creation does: refused, nothing changes; accepted, the
/// channel and the creator's membership are written, nothing else changes,
/// and the creation is reported.
pub open spec fn create_v2_outcome(
    before: CreateChannelV2,
    name: Seq<char>,
    description: Seq<char>,
    visibility: ChannelVisibility,
    max_participants: u32,
    fee_per_message: u64,
    e: CreateExpected,
    after: CreateChannelV2,
    r: Result<ChannelCreated, PodComError>,
) -> bool {
    match create_v2_verdict(before, name, description, max_participants, fee_per_message, e) {
        Some(error) => r == Err::<ChannelCreated, PodComError>(error) && after == before,
        None => {
            &&& r matches Ok(event) && is_creation_report(
                event,
                before.channel_account.key,
                before.creator.key,
                name,
                visibility,
                before.clock.unix_timestamp,
            )
            &&& after.creator == before.creator
            &&& after.clock == before.clock
            &&& after.agent_account == before.agent_account
            &&& after.channel_account.key == before.channel_account.key
            &&& after.channel_account.lamports == before.channel_account.lamports
            &&& after.channel_account.data matches Some(channel) && is_new_channel(
                channel,
                before.creator.key,
                name,
                description,
                visibility,
                max_participants,
                fee_per_message,
                before.clock.unix_timestamp,
                bump_of(e.channel),
            )
            &&& after.participant_account == (Account {
                data: Some(
                    new_membership(
                        before.channel_account.key,
                        before.agent_account.key,
                        before.clock.unix_timestamp,
                        bump_of(e.participant),
                    ),
                ),
                ..before.participant_account
            })
        },
    }
}

/// Creates a gated channel, given the addresses the records are held against.
pub fn create_channel_v2_with(
    ctx: &mut CreateChannelV2,
    name: String,
    description: String,
    visibility: ChannelVisibility,
    max_participants: u32,
    fee_per_message: u64,
    e: &CreateExpected,
) -> (r: Result<ChannelCreated, PodComError>)
    ensures
        create_v2_outcome(
            *old(ctx),
            name@,
            description@,
            visibility,
            max_participants,
            fee_per_message,
            *e,
            *final(ctx),
            r,
        ),
{
    if !check_identity(&ctx.agent_account, &ctx.creator.key, &e.agent) {
        return Err(PodComError::Unauthorized);
    }
    if let Some(error) = check_name(name.as_str()) {
        return Err(error);
    }
    if !check_sits_at(&ctx.channel_account.key, &e.channel) {
        return Err(PodComError::Unauthorized);
    }
    if !check_sits_at(&ctx.participant_account.key, &e.participant) {
        return Err(PodComError::Unauthorized);
    }
    if ctx.channel_account.data.is_some() {
        return Err(PodComError::AlreadyExists);
    }
    if ctx.participant_account.data.is_some() {
        return Err(PodComError::AlreadyInChannel);
    }
    if ctx.agent_account.data.reputation < MIN_REPUTATION_FOR_CHANNELS {
        return Err(PodComError::InsufficientReputation);
    }
    match check_settings(name.as_str(), description.as_str(), max_participants, fee_per_message) {
        Some(error) => {
            return Err(error);
        },
        None => {},
    }
    let now: i64 = ctx.clock.unix_timestamp;
    let channel = build_channel(
        ctx.creator.key,
        name.as_str(),
        description.as_str(),
        visibility,
        max_participants,
        fee_per_message,
        now,
        bump(&e.channel),
    );
    let event = ChannelCreated {
        channel: ctx.channel_account.key,
        creator: ctx.creator.key,
        name: channel.name.clone(),
        visibility,
        timestamp: now,
    };
    ctx.channel_account.data = Some(channel);
    ctx.participant_account.data = Some(
        ChannelParticipant {
            channel: ctx.channel_account.key,
            participant: ctx.agent_account.key,
            joined_at: now,
            messages_sent: 0,
            last_message_at: 0,
            is_active: true,
            bump: bump(&e.participant),
        },
    );
    Ok(event)
}

/// Creates a channel on behalf of an identity whose reputation is at least
/// the minimum, and writes the creator's membership with it. The settings
/// are held to the same limits as in an ungated creation.
pub fn create_channel_v2(
    ctx: &mut CreateChannelV2,
    name: String,
    description: String,
    visibility: ChannelVisibility,
    max_participants: u32,
    fee_per_message: u64,
) -> (r: Result<ChannelCreated, PodComError>)
    ensures
        create_v2_outcome(
            *old(ctx),
            name@,
            description@,
            visibility,
            max_participants,
            fee_per_message,
            CreateExpected::of(*old(ctx), name@),
            *final(ctx),
            r,
        ),
{
    let e = CreateExpected::derive(ctx, name.as_str());
    create_channel_v2_with(ctx, name, description, visibility, max_participants, fee_per_message, &e)
}

/// The records a change of settings works on.
#[derive(Clone, Debug, PartialEq, Eq)]
pub struct UpdateChannel {
    pub channel_account: Account<ChannelAccount>,
    pub signer: Signer,
}

/// What is wrong with a new seat count, if one is given and anything is:
/// it breaks the limit, or it is below the seats that are taken.
pub open spec fn seats_verdict(channel: ChannelAccount, max_participants: Option<u32>) -> Option<
    PodComError,
> {
    match max_participants {
        Some(seats) => if limit_verdict(seats) is Some {
            limit_verdict(seats)
        } else if seats < channel.current_participants {
            Some(PodComError::ChannelFull)
        } else {
            None
        },
        None => None,
    }
}

/// Why a change of settings is refused, if anything: the signer did not
/// create the channel, or one of the given values breaks the limit that
/// held at creation, or fewer seats are asked for than are taken. The values
/// are looked at in the order name, description, seat count, fee.
pub open spec fn update_channel_verdict(
    ctx: UpdateChannel,
    name: Option<String>,
    description: Option<String>,
    max_participants: Option<u32>,
    fee_per_message: Option<u64>,
) -> Option<PodComError> {
    if ctx.signer.key != ctx.channel_account.data.creator {
        Some(PodComError::Unauthorized)
    } else if name matches Some(n) && name_verdict(n@) is Some {
        name_verdict(name->0@)
    } else if description matches Some(d) && description_verdict(d@) is Some {
        description_verdict(description->0@)
    } else if seats_verdict(ctx.channel_account.data, max_participants) is Some {
        seats_verdict(ctx.channel_account.data, max_participants)
    } else if fee_per_message matches Some(fee) && fee_limit_verdict(fee) is Some {
        fee_limit_verdict(fee_per_message->0)
    } else {
        None
    }
}

/// A channel after a change of settings: each value that was given
/// replaces the old one.
pub open spec fn updated_channel(
    channel: ChannelAccount,
    name: Option<String>,
    description: Option<String>,
    max_participants: Option<u32>,
    fee_per_message: Option<u64>,
    is_active: Option<bool>,
) -> ChannelAccount {
    ChannelAccount {
        name: match name {
            Some(n) => n,
            None => channel.name,
        },
        description: match description {
            Some(d) => d,
            None => channel.description,
        },
        max_participants: match max_participants {
            Some(seats) => seats,
            None => channel.max_participants,
        },
        fee_per_message: match fee_per_message {
            Some(fee) => fee,
            None => channel.fee_per_message,
        },
        is_active: match is_active {
            Some(active) => active,
            None => channel.is_active,
        },
        ..channel
    }
}

/// What a change of settings does: refused, nothing changes; accepted,
/// every given value is written.
pub open spec fn update_channel_outcome(
    before: UpdateChannel,
    name: Option<String>,
    description: Option<String>,
    max_participants: Option<u32>,
    fee_per_message: Option<u64>,
    is_active: Option<bool>,
    after: UpdateChannel,
    r: Result<(), PodComError>,
) -> bool {
    match update_channel_verdict(before, name, description, max_participants, fee_per_message) {
        Some(error) => r == Err::<(), PodComError>(error) && after == before,
        None => r is Ok && after == (UpdateChannel {
            channel_account: Account {
                data: updated_channel(
                    before.channel_account.data,
                    name,
                    description,
                    max_participants,
                    fee_per_message,
                    is_active,
                ),
                ..before.channel_account
            },
            ..before
        }),
    }
}

fn check_seats(channel: &ChannelAccount, max_participants: Option<u32>) -> (r: Option<PodComError>)
    ensures
        r == seats_verdict(*channel, max_participants),
{
    match max_participants {
        Some(seats) => {
            let wrong = check_limit(seats);
            if wrong.is_some() {
                wrong
            } else if seats < channel.current_participants {
                Some(PodComError::ChannelFull)
            } else {
                None
            }
        },
        None => None,
    }
}

/// Changes settings of a channel on behalf of its creator. Each value is
/// optional and is held to the limit that held at creation; the seat count
/// cannot go below the seats that are taken. Either every given value is
/// written or none is.
pub fn update_channel(
    ctx: &mut UpdateChannel,
    name: Option<String>,
    description: Option<String>,
    max_participants: Option<u32>,
    fee_per_message: Option<u64>,
    is_active: Option<bool>,
) -> (r: Result<(), PodComError>)
    ensures
        update_channel_outcome(
            *old(ctx),
            name,
            description,
            max_participants,
            fee_per_message,
            is_active,
            *final(ctx),
            r,
        ),
{
    if ctx.signer.key != ctx.channel_account.data.creator {
        return Err(PodComError::Unauthorized);
    }
    if let Some(n) = &name {
        let wrong = check_name(n.as_str());
        if let Some(error) = wrong {
            return Err(error);
        }
    }
    if let Some(d) = &description {
        let wrong = check_description(d.as_str());
        if let Some(error) = wrong {
            return Err(error);
        }
    }
    if let Some(error) = check_seats(&ctx.channel_account.data, max_participants) {
        return Err(error);
    }
    if let Some(fee) = fee_per_message {
        if let Some(error) = check_fee_limit(fee) {
            return Err(error);
        }
    }
    if let Some(n) = name {
        ctx.channel_account.data.name = n;
    }
    if let Some(d) = description {
        ctx.channel_account.data.description = d;
    }
    if let Some(seats) = max_participants {
        ctx.channel_account.data.max_participants = seats;
    }
    if let Some(fee) = fee_per_message {
        ctx.channel_account.data.fee_per_message = fee;
    }
    if let Some(active) = is_active {
        ctx.channel_account.data.is_active = active;
    }
    Ok(())
}

/// The record a listing of participants works on.
#[derive(Clone, Debug, PartialEq, Eq)]
pub struct GetChannelParticipants {
    pub channel_account: Account<ChannelAccount>,
}

/// Answers a request for the participants of a channel. The ledger keeps no
/// list of them: memberships are separate records, found by whoever indexes
/// the ledger. So the answer for an active channel is the empty list, and an
/// inactive channel is refused.
pub fn get_channel_participants(ctx: &GetChannelParticipants) -> (r: Result<
    Vec<Pubkey>,
    PodComError,
>)
    ensures
        ctx.channel_account.data.is_active ==> (r matches Ok(list) && list@.len() == 0),
        !ctx.channel_account.data.is_active ==> r == Err::<Vec<Pubkey>, PodComError>(
            PodComError::ChannelInactive,
        ),
{
    if !ctx.channel_account.data.is_active {
        return Err(PodComError::ChannelInactive);
    }
    Ok(Vec::new())
}

} // verus!
