//! Joining and leaving a channel. A join is one step: the fee is taken, the
//! invitation is redeemed and the membership is written, or nothing happens.

use vstd::prelude::*;
use crate::address::{agent_address, agent_address_of, bump, bump_of, check_sits_at, sits_at};
use crate::address::{escrow_address, escrow_address_of};
use crate::address::{invitation_address, invitation_address_of};
use crate::address::{participant_address, participant_address_of, Derived};
use crate::agent::{check_identity, identity_of};
use crate::channel::new_membership;
use crate::errors::PodComError;
use crate::escrow::{channel_plus_fee, check_fee, escrow_less_fee, fee_verdict};
use crate::events::ChannelJoined;
use crate::hashing::{borsh_participant, commitment_of, compute_commitment};
use crate::invitation::{check_redeem, redeem_verdict, redeemed};
use crate::pubkey::Pubkey;
use crate::state::{
    Account,
    AgentAccount,
    ChannelAccount,
    ChannelInvitation,
    ChannelParticipant,
    ChannelVisibility,
    Clock,
    CompressedChannelParticipant,
    EscrowAccount,
    Signer,
};

verus! {

/// Why no seat can be taken, if anything: all are.
pub open spec fn seat_verdict(channel: ChannelAccount) -> Option<PodComError> {
    if channel.current_participants >= channel.max_participants {
        Some(PodComError::ChannelFull)
    } else {
        None
    }
}

/// Why the fee of a channel cannot be taken from the escrow that `payer`
/// hands in, if anything. A channel without a fee asks for no escrow. With
/// a fee, an escrow must be there, sit at the address derived for it,
/// belong to the payer, and hold the fee.
pub open spec fn fee_step_verdict(
    channel: Account<ChannelAccount>,
    escrow: Option<Account<EscrowAccount>>,
    payer: Pubkey,
    expected: Derived,
) -> Option<PodComError> {
    if channel.data.fee_per_message == 0 {
        None
    } else {
        match escrow {
            None => Some(PodComError::InsufficientFunds),
            Some(e) => if !sits_at(e.key, expected) {
                Some(PodComError::Unauthorized)
            } else if e.data.depositor != payer {
                Some(PodComError::Unauthorized)
            } else {
                fee_verdict(e, channel, channel.data.fee_per_message, expected)
            },
        }
    }
}

/// Why `claimant` cannot enter a channel on the invitation handed in, if
/// anything. A public channel asks for none. For a private one an
/// invitation must be there, sit at the address derived for it, and be
/// redeemable by the claimant against the commitment its fields give.
pub open spec fn invitation_step_verdict(
    channel: ChannelAccount,
    invitation: Option<Account<ChannelInvitation>>,
    claimant: Pubkey,
    now: i64,
    expected: Derived,
    commitment: Option<[u8; 32]>,
) -> Option<PodComError> {
    if channel.visibility != ChannelVisibility::Private {
        None
    } else {
        match invitation {
            None => Some(PodComError::PrivateChannelRequiresInvitation),
            Some(i) => if !sits_at(i.key, expected) {
                Some(PodComError::Unauthorized)
            } else {
                match commitment {
                    Some(c) => redeem_verdict(i.data, claimant, now, c),
                    None => Some(PodComError::Unauthorized),
                }
            },
        }
    }
}

/// The escrow handed in, after the join: less the fee, where there is one.
pub open spec fn escrow_after_join(
    channel: ChannelAccount,
    escrow: Option<Account<EscrowAccount>>,
) -> Option<Account<EscrowAccount>> {
    match escrow {
        Some(e) => if channel.fee_per_message > 0 {
            Some(escrow_less_fee(e, channel.fee_per_message))
        } else {
            escrow
        },
        None => None,
    }
}

/// The invitation handed in, after the join: redeemed, where the channel
/// is private.
pub open spec fn invitation_after_join(
    channel: ChannelAccount,
    invitation: Option<Account<ChannelInvitation>>,
) -> Option<Account<ChannelInvitation>> {
    match invitation {
        Some(i) => if channel.visibility == ChannelVisibility::Private {
            Some(Account { data: redeemed(i.data), ..i })
        } else {
            invitation
        },
        None => None,
    }
}

/// The channel after the join: the fee credited, one more seat taken.
pub open spec fn channel_after_join(channel: Account<ChannelAccount>) -> Account<ChannelAccount> {
    Account {
        data: ChannelAccount {
            escrow_balance: (channel.data.escrow_balance + channel.data.fee_per_message) as u64,
            current_participants: (channel.data.current_participants + 1) as u32,
            ..channel.data
        },
        ..channel
    }
}

/// The commitment that the fields of the invitation handed in give.
pub open spec fn commitment_of_handed(invitation: Option<Account<ChannelInvitation>>) -> Option<
    [u8; 32],
> {
    match invitation {
        Some(i) => Some(commitment_of(i.data)),
        None => None,
    }
}

fn compute_commitment_of_handed(invitation: &Option<Account<ChannelInvitation>>) -> (c: Option<
    [u8; 32],
>)
    ensures
        c == commitment_of_handed(*invitation),
{
    match invitation {
        Some(i) => Some(
            compute_commitment(
                &i.data.channel,
                &i.data.inviter,
                &i.data.invitee,
                i.data.nonce,
                i.data.created_at,
            ),
        ),
        None => None,
    }
}

fn check_seat(channel: &ChannelAccount) -> (r: Option<PodComError>)
    ensures
        r == seat_verdict(*channel),
{
    if channel.current_participants >= channel.max_participants {
        Some(PodComError::ChannelFull)
    } else {
        None
    }
}

fn check_fee_step(
    channel: &Account<ChannelAccount>,
    escrow: &Option<Account<EscrowAccount>>,
    payer: &Pubkey,
    expected: &Derived,
) -> (r: Option<PodComError>)
    ensures
        r == fee_step_verdict(*channel, *escrow, *payer, *expected),
{
    if channel.data.fee_per_message == 0 {
        return None;
    }
    match escrow {
        None => Some(PodComError::InsufficientFunds),
        Some(e) => {
            if !check_sits_at(&e.key, expected) {
                Some(PodComError::Unauthorized)
            } else if e.data.depositor != *payer {
                Some(PodComError::Unauthorized)
            } else {
                check_fee(e, channel, channel.data.fee_per_message, expected)
            }
        },
    }
}

fn check_invitation_step(
    channel: &ChannelAccount,
    invitation: &Option<Account<ChannelInvitation>>,
    claimant: &Pubkey,
    now: i64,
    expected: &Derived,
    commitment: &Option<[u8; 32]>,
) -> (r: Option<PodComError>)
    ensures
        r == invitation_step_verdict(*channel, *invitation, *claimant, now, *expected, *commitment),
{
    if channel.visibility != ChannelVisibility::Private {
        return None;
    }
    match invitation {
        None => Some(PodComError::PrivateChannelRequiresInvitation),
        Some(i) => {
            if !check_sits_at(&i.key, expected) {
                Some(PodComError::Unauthorized)
            } else {
                match commitment {
                    Some(c) => check_redeem(&i.data, claimant, now, c),
                    None => Some(PodComError::Unauthorized),
                }
            }
        },
    }
}

/// Takes the fee of the channel from the escrow and redeems the invitation,
/// as far as the channel asks for either, and takes a seat.
fn settle_join(
    channel: &mut Account<ChannelAccount>,
    escrow: &mut Option<Account<EscrowAccount>>,
    invitation: &mut Option<Account<ChannelInvitation>>,
)
    requires
        old(channel).data.fee_per_message > 0 ==> (*old(escrow) matches Some(e) && e.data.amount
            >= old(channel).data.fee_per_message),
        old(channel).data.escrow_balance + old(channel).data.fee_per_message <= u64::MAX,
        old(channel).data.current_participants < u32::MAX,
    ensures
        *final(channel) == channel_after_join(*old(channel)),
        *final(escrow) == escrow_after_join(old(channel).data, *old(escrow)),
        *final(invitation) == invitation_after_join(old(channel).data, *old(invitation)),
{
    let fee: u64 = channel.data.fee_per_message;
    if fee > 0 {
        match escrow {
            Some(e) => {
                e.data.amount = e.data.amount - fee;
            },
            None => {},
        }
    }
    if channel.data.visibility == ChannelVisibility::Private {
        match invitation {
            Some(i) => {
                i.data.is_accepted = true;
                i.data.is_used = true;
            },
            None => {},
        }
    }
    channel.data.escrow_balance = channel.data.escrow_balance + fee;
    channel.data.current_participants = channel.data.current_participants + 1;
}

/// The records a join works on.
#[derive(Clone, Debug, PartialEq, Eq)]
pub struct JoinChannel {
    pub channel_account: Account<ChannelAccount>,
    /// Where the membership is to be created.
    pub participant_account: Account<Option<ChannelParticipant>>,
    /// The identity that joins.
    pub agent_account: Account<AgentAccount>,
    /// The invitation, needed for a private channel.
    pub invitation_account: Option<Account<ChannelInvitation>>,
    /// The escrow, needed for a channel with a fee.
    pub escrow_account: Option<Account<EscrowAccount>>,
    /// The owner key of the identity.
    pub user: Signer,
    pub clock: Clock,
}

/// What the records of a `JoinChannel` are held against: the derived
/// addresses, and the commitment that the fields of the invitation give.
#[derive(Clone, Copy, Debug, PartialEq, Eq)]
pub struct JoinExpected {
    pub agent: Derived,
    pub participant: Derived,
    pub escrow: Derived,
    pub invitation: Derived,
    pub commitment: Option<[u8; 32]>,
}

impl JoinExpected {
    /// What the records are held against, as the fields of the records give it.
    pub open spec fn of(ctx: JoinChannel) -> JoinExpected {
        JoinExpected {
            agent: agent_address_of(ctx.user.key),
            participant: participant_address_of(ctx.channel_account.key, ctx.agent_account.key),
            escrow: escrow_address_of(ctx.channel_account.key, ctx.user.key),
            invitation: invitation_address_of(ctx.channel_account.key, ctx.user.key),
            commitment: commitment_of_handed(ctx.invitation_account),
        }
    }

    /// Derives what the records are held against.
    pub fn derive(ctx: &JoinChannel) -> (e: JoinExpected)
        ensures
            e == JoinExpected::of(*ctx),
    {
        JoinExpected {
            agent: agent_address(&ctx.user.key),
            participant: participant_address(&ctx.channel_account.key, &ctx.agent_account.key),
            escrow: escrow_address(&ctx.channel_account.key, &ctx.user.key),
            invitation: invitation_address(&ctx.channel_account.key, &ctx.user.key),
            commitment: compute_commitment_of_handed(&ctx.invitation_account),
        }
    }
}

/// Why a join is refused, if anything. In this order: the identity is not
/// the user's; no seat is free; the fee cannot be taken; the invitation
/// cannot be redeemed; the membership is not at the address derived for it,
/// or exists already.
pub open spec fn join_verdict(ctx: JoinChannel, e: JoinExpected) -> Option<PodComError> {
    if !identity_of(ctx.agent_account, ctx.user.key, e.agent) {
        Some(PodComError::Unauthorized)
    } else if seat_verdict(ctx.channel_account.data) is Some {
        seat_verdict(ctx.channel_account.data)
    } else if fee_step_verdict(ctx.channel_account, ctx.escrow_account, ctx.user.key, e.escrow)
        is Some {
        fee_step_verdict(ctx.channel_account, ctx.escrow_account, ctx.user.key, e.escrow)
    } else if invitation_step_verdict(
        ctx.channel_account.data,
        ctx.invitation_account,
        ctx.user.key,
        ctx.clock.unix_timestamp,
        e.invitation,
        e.commitment,
    ) is Some {
        invitation_step_verdict(
            ctx.channel_account.data,
            ctx.invitation_account,
            ctx.user.key,
            ctx.clock.unix_timestamp,
            e.invitation,
            e.commitment,
        )
    } else if !sits_at(ctx.participant_account.key, e.participant) {
        Some(PodComError::Unauthorized)
    } else if ctx.participant_account.data is Some {
        Some(PodComError::AlreadyInChannel)
    } else {
        None
    }
}

/// What a join does: refused, no record changes; accepted, the fee moves
/// from the escrow to the channel, the invitation is redeemed, the
/// membership is written with nothing counted, a seat is taken, and the
/// join is reported.
pub open spec fn join_outcome(
    before: JoinChannel,
    e: JoinExpected,
    after: JoinChannel,
    r: Result<ChannelJoined, PodComError>,
) -> bool {
    match join_verdict(before, e) {
        Some(error) => r == Err::<ChannelJoined, PodComError>(error) && after == before,
        None => {
            &&& r == Ok::<ChannelJoined, PodComError>(
                ChannelJoined {
                    channel: before.channel_account.key,
                    participant: before.agent_account.key,
                    timestamp: before.clock.unix_timestamp,
                },
            )
            &&& after == (JoinChannel {
                channel_account: channel_after_join(before.channel_account),
                participant_account: Account {
                    data: Some(
                        new_membership(
                            before.channel_account.key,
                            before.agent_account.key,
                            before.clock.unix_timestamp,
                            bump_of(e.participant),
                        ),
                    ),
                    ..before.participant_account
                },
                invitation_account: invitation_after_join(
                    before.channel_account.data,
                    before.invitation_account,
                ),
                escrow_account: escrow_after_join(
                    before.channel_account.data,
                    before.escrow_account,
                ),
                ..before
            })
        },
    }
}

/// Joins a channel, given what the records are held against.
pub fn join_channel_with(ctx: &mut JoinChannel, e: &JoinExpected) -> (r: Result<
    ChannelJoined,
    PodComError,
>)
    ensures
        join_outcome(*old(ctx), *e, *final(ctx), r),
{
    if !check_identity(&ctx.agent_account, &ctx.user.key, &e.agent) {
        return Err(PodComError::Unauthorized);
    }
    if let Some(error) = check_seat(&ctx.channel_account.data) {
        return Err(error);
    }
    if let Some(error) = check_fee_step(
        &ctx.channel_account,
        &ctx.escrow_account,
        &ctx.user.key,
        &e.escrow,
    ) {
        return Err(error);
    }
    let now: i64 = ctx.clock.unix_timestamp;
    if let Some(error) = check_invitation_step(
        &ctx.channel_account.data,
        &ctx.invitation_account,
        &ctx.user.key,
        now,
        &e.invitation,
        &e.commitment,
    ) {
        return Err(error);
    }
    if !check_sits_at(&ctx.participant_account.key, &e.participant) {
        return Err(PodComError::Unauthorized);
    }
    if ctx.participant_account.data.is_some() {
        return Err(PodComError::AlreadyInChannel);
    }
    settle_join(&mut ctx.channel_account, &mut ctx.escrow_account, &mut ctx.invitation_account);
    ctx.participant_account.data = Some(
        ChannelParticipant {
            channel: ctx.channel_account.key,
            participant: ctx.agent_account.key,
            joined_at: now,
            messages_sent: 0,
            last_message_at: 0,
            is_active: true,
            bump: bump(&e.participant),
        },
    );
    Ok(
        ChannelJoined {
            channel: ctx.channel_account.key,
            participant: ctx.agent_account.key,
            timestamp: now,
        },
    )
}

/// Joins a channel on behalf of the user's identity. A full channel is
/// refused. A channel with a fee takes it from the user's escrow; a private
/// channel redeems the user's invitation; then the membership is written and
/// a seat is taken. If any step is refused, none has happened.
pub fn join_channel(ctx: &mut JoinChannel) -> (r: Result<ChannelJoined, PodComError>)
    ensures
        join_outcome(*old(ctx), JoinExpected::of(*old(ctx)), *final(ctx), r),
{
    let e = JoinExpected::derive(ctx);
    join_channel_with(ctx, &e)
}

/// The records a leave works on.
#[derive(Clone, Debug, PartialEq, Eq)]
pub struct LeaveChannel {
    pub channel_account: Account<ChannelAccount>,
    pub participant_account: Account<ChannelParticipant>,
    pub agent_account: Account<AgentAccount>,
    pub user: Signer,
}

/// The addresses that the records of a `LeaveChannel` are held against.
#[derive(Clone, Copy, Debug, PartialEq, Eq)]
pub struct LeaveExpected {
    pub agent: Derived,
    pub participant: Derived,
}

impl LeaveExpected {
    /// What the records are held against, as the fields of the records give it.
    pub open spec fn of(ctx: LeaveChannel) -> LeaveExpected {
        LeaveExpected {
            agent: agent_address_of(ctx.user.key),
            participant: participant_address_of(ctx.channel_account.key, ctx.agent_account.key),
        }
    }

    /// Derives what the records are held against.
    pub fn derive(ctx: &LeaveChannel) -> (e: LeaveExpected)
        ensures
            e == LeaveExpected::of(*ctx),
    {
        LeaveExpected {
            agent: agent_address(&ctx.user.key),
            participant: participant_address(&ctx.channel_account.key, &ctx.agent_account.key),
        }
    }
}

/// Why a leave is refused, if anything: the identity is not the user's,
/// the membership is not at the address derived for it or names another
/// identity, it is not active, or the channel counts no seat as taken.
pub open spec fn leave_verdict(ctx: LeaveChannel, e: LeaveExpected) -> Option<PodComError> {
    if !identity_of(ctx.agent_account, ctx.user.key, e.agent) {
        Some(PodComError::Unauthorized)
    } else if !sits_at(ctx.participant_account.key, e.participant) {
        Some(PodComError::Unauthorized)
    } else if ctx.participant_account.data.participant != ctx.agent_account.key {
        Some(PodComError::Unauthorized)
    } else if !ctx.participant_account.data.is_active {
        Some(PodComError::NotInChannel)
    } else if ctx.channel_account.data.current_participants == 0 {
        Some(PodComError::ArithmeticOverflow)
    } else {
        None
    }
}

/// What a leave does: refused, nothing changes; accepted, the membership
/// becomes inactive and the seat is given back.
pub open spec fn leave_outcome(
    before: LeaveChannel,
    e: LeaveExpected,
    after: LeaveChannel,
    r: Result<(), PodComError>,
) -> bool {
    match leave_verdict(before, e) {
        Some(error) => r == Err::<(), PodComError>(error) && after == before,
        None => r is Ok && after == (LeaveChannel {
            channel_account: Account {
                data: ChannelAccount {
                    current_participants: (before.channel_account.data.current_participants
                        - 1) as u32,
                    ..before.channel_account.data
                },
                ..before.channel_account
            },
            participant_account: Account {
                data: ChannelParticipant { is_active: false, ..before.participant_account.data },
                ..before.participant_account
            },
            ..before
        }),
    }
}

/// Leaves a channel, given the addresses the records are held against.
pub fn leave_channel_with(ctx: &mut LeaveChannel, e: &LeaveExpected) -> (r: Result<(), PodComError>)
    ensures
        leave_outcome(*old(ctx), *e, *final(ctx), r),
{
    if !check_identity(&ctx.agent_account, &ctx.user.key, &e.agent) {
        return Err(PodComError::Unauthorized);
    }
    if !check_sits_at(&ctx.participant_account.key, &e.participant) {
        return Err(PodComError::Unauthorized);
    }
    if ctx.participant_account.data.participant != ctx.agent_account.key {
        return Err(PodComError::Unauthorized);
    }
    if !ctx.participant_account.data.is_active {
        return Err(PodComError::NotInChannel);
    }
    if ctx.channel_account.data.current_participants == 0 {
        return Err(PodComError::ArithmeticOverflow);
    }
    ctx.participant_account.data.is_active = false;
    ctx.channel_account.data.current_participants = ctx.channel_account.data.current_participants
        - 1;
    Ok(())
}

/// Leaves a channel on behalf of the user's identity. The membership must
/// be active, so nobody leaves twice.
pub fn leave_channel(ctx: &mut LeaveChannel) -> (r: Result<(), PodComError>)
    ensures
        leave_outcome(*old(ctx), LeaveExpected::of(*old(ctx)), *final(ctx), r),
{
    let e = LeaveExpected::derive(ctx);
    leave_channel_with(ctx, &e)
}

/// The records a join with an archived membership works on.
#[derive(Clone, Debug, PartialEq, Eq)]
pub struct JoinChannelCompressed {
    pub channel_account: Account<ChannelAccount>,
    /// The identity that joins.
    pub agent_account: Account<AgentAccount>,
    /// The invitation, needed for a private channel.
    pub invitation_account: Option<Account<ChannelInvitation>>,
    /// The escrow, needed for a channel with a fee.
    pub escrow_account: Option<Account<EscrowAccount>>,
    /// The owner key of the identity.
    pub authority: Signer,
    pub clock: Clock,
}

/// What the records of a `JoinChannelCompressed` are held against.
#[derive(Clone, Copy, Debug, PartialEq, Eq)]
pub struct CompressedJoinExpected {
    pub agent: Derived,
    pub escrow: Derived,
    pub invitation: Derived,
    pub commitment: Option<[u8; 32]>,
}

impl CompressedJoinExpected {
    /// What the records are held against, as the fields of the records give it.
    pub open spec fn of(ctx: JoinChannelCompressed) -> CompressedJoinExpected {
        CompressedJoinExpected {
            agent: agent_address_of(ctx.authority.key),
            escrow: escrow_address_of(ctx.channel_account.key, ctx.authority.key),
            invitation: invitation_address_of(ctx.channel_account.key, ctx.authority.key),
            commitment: commitment_of_handed(ctx.invitation_account),
        }
    }

    /// Derives what the records are held against.
    pub fn derive(ctx: &JoinChannelCompressed) -> (e: CompressedJoinExpected)
        ensures
            e == CompressedJoinExpected::of(*ctx),
    {
        CompressedJoinExpected {
            agent: agent_address(&ctx.authority.key),
            escrow: escrow_address(&ctx.channel_account.key, &ctx.authority.key),
            invitation: invitation_address(&ctx.channel_account.key, &ctx.authority.key),
            commitment: compute_commitment_of_handed(&ctx.invitation_account),
        }
    }
}

/// The membership that is archived for a join: nothing counted yet, and
/// the hash of what else is stored about the participant.
pub open spec fn archived_membership(ctx: JoinChannelCompressed, metadata_hash: [u8; 32]) -> CompressedChannelParticipant {
    CompressedChannelParticipant {
        channel: ctx.channel_account.key,
        participant: ctx.agent_account.key,
        joined_at: ctx.clock.unix_timestamp,
        messages_sent: 0,
        last_message_at: 0,
        metadata_hash,
    }
}

/// Why a join with an archived membership is refused before the
/// membership is serialised, if anything. In this order: the identity is
/// not the authority's; no seat is free; the fee cannot be taken; the
/// invitation cannot be redeemed.
pub open spec fn compressed_join_checks(ctx: JoinChannelCompressed, e: CompressedJoinExpected) -> Option<
    PodComError,
> {
    if !identity_of(ctx.agent_account, ctx.authority.key, e.agent) {
        Some(PodComError::Unauthorized)
    } else if seat_verdict(ctx.channel_account.data) is Some {
        seat_verdict(ctx.channel_account.data)
    } else if fee_step_verdict(ctx.channel_account, ctx.escrow_account, ctx.authority.key, e.escrow)
        is Some {
        fee_step_verdict(ctx.channel_account, ctx.escrow_account, ctx.authority.key, e.escrow)
    } else {
        invitation_step_verdict(
            ctx.channel_account.data,
            ctx.invitation_account,
            ctx.authority.key,
            ctx.clock.unix_timestamp,
            e.invitation,
            e.commitment,
        )
    }
}

/// Why a join with an archived membership is refused, if anything: one of
/// the checks fails, or, all of them passing, there is no serialised
/// membership.
pub open spec fn compressed_join_verdict(
    ctx: JoinChannelCompressed,
    e: CompressedJoinExpected,
    serialized: Option<Seq<u8>>,
) -> Option<PodComError> {
    if compressed_join_checks(ctx, e) is Some {
        compressed_join_checks(ctx, e)
    } else if serialized is None {
        Some(PodComError::SerializationFailed)
    } else {
        None
    }
}

/// Runs the checks of a join with an archived membership that come before
/// the membership is serialised, changing nothing.
pub fn check_compressed_join(ctx: &JoinChannelCompressed, e: &CompressedJoinExpected) -> (r:
    Option<PodComError>)
    ensures
        r == compressed_join_checks(*ctx, *e),
{
    if !check_identity(&ctx.agent_account, &ctx.authority.key, &e.agent) {
        return Some(PodComError::Unauthorized);
    }
    let wrong = check_seat(&ctx.channel_account.data);
    if wrong.is_some() {
        return wrong;
    }
    let wrong = check_fee_step(
        &ctx.channel_account,
        &ctx.escrow_account,
        &ctx.authority.key,
        &e.escrow,
    );
    if wrong.is_some() {
        return wrong;
    }
    check_invitation_step(
        &ctx.channel_account.data,
        &ctx.invitation_account,
        &ctx.authority.key,
        ctx.clock.unix_timestamp,
        &e.invitation,
        &e.commitment,
    )
}

/// What a successful join with an archived membership hands back: the
/// report, the membership, and the bytes under which it is archived.
#[derive(Clone, Debug, PartialEq, Eq)]
pub struct CompressedJoin {
    pub event: ChannelJoined,
    pub participant: CompressedChannelParticipant,
    pub account_data: Vec<u8>,
}

/// What a join with an archived membership does: refused, no record
/// changes; accepted, the fee moves from the escrow to the channel, the
/// invitation is redeemed, a seat is taken, and the report, the membership
/// and its serialised form are handed back.
pub open spec fn compressed_join_outcome(
    before: JoinChannelCompressed,
    metadata_hash: [u8; 32],
    e: CompressedJoinExpected,
    serialized: Option<Seq<u8>>,
    after: JoinChannelCompressed,
    r: Result<CompressedJoin, PodComError>,
) -> bool {
    match compressed_join_verdict(before, e, serialized) {
        Some(error) => r == Err::<CompressedJoin, PodComError>(error) && after == before,
        None => {
            &&& r matches Ok(joined) && joined.event == (ChannelJoined {
                channel: before.channel_account.key,
                participant: before.agent_account.key,
                timestamp: before.clock.unix_timestamp,
            }) && joined.participant == archived_membership(before, metadata_hash)
                && joined.account_data@ == serialized->0
            &&& after == (JoinChannelCompressed {
                channel_account: channel_after_join(before.channel_account),
                invitation_account: invitation_after_join(
                    before.channel_account.data,
                    before.invitation_account,
                ),
                escrow_account: escrow_after_join(
                    before.channel_account.data,
                    before.escrow_account,
                ),
                ..before
            })
        },
    }
}

/// The content of the serialised bytes, where there are any.
pub open spec fn bytes_view(bytes: Option<Vec<u8>>) -> Option<Seq<u8>> {
    match bytes {
        Some(b) => Some(b@),
        None => None,
    }
}

/// Joins a channel with an archived membership, given what the records are
/// held against and the serialised membership, if serialising it succeeded.
pub fn join_channel_compressed_with(
    ctx: &mut JoinChannelCompressed,
    metadata_hash: [u8; 32],
    e: &CompressedJoinExpected,
    serialized: Option<Vec<u8>>,
) -> (r: Result<CompressedJoin, PodComError>)
    ensures
        compressed_join_outcome(
            *old(ctx),
            metadata_hash,
            *e,
            bytes_view(serialized),
            *final(ctx),
            r,
        ),
{
    if let Some(error) = check_compressed_join(ctx, e) {
        return Err(error);
    }
    let now: i64 = ctx.clock.unix_timestamp;
    let account_data: Vec<u8> = match serialized {
        Some(bytes) => bytes,
        None => {
            return Err(PodComError::SerializationFailed);
        },
    };
    settle_join(&mut ctx.channel_account, &mut ctx.escrow_account, &mut ctx.invitation_account);
    Ok(
        CompressedJoin {
            event: ChannelJoined {
                channel: ctx.channel_account.key,
                participant: ctx.agent_account.key,
                timestamp: now,
            },
            participant: CompressedChannelParticipant {
                channel: ctx.channel_account.key,
                participant: ctx.agent_account.key,
                joined_at: now,
                messages_sent: 0,
                last_message_at: 0,
                metadata_hash,
            },
            account_data,
        },
    )
}

/// Joins a channel and hands back the membership for archiving instead of
/// writing it to the ledger. The rules of an ordinary join hold: seat, fee
/// and invitation. Once they are met the membership is serialised; the
/// bytes handed back are its packed fields.
pub fn join_channel_compressed(ctx: &mut JoinChannelCompressed, metadata_hash: [u8; 32]) -> (r:
    Result<CompressedJoin, PodComError>)
    ensures
        compressed_join_outcome(
            *old(ctx),
            metadata_hash,
            CompressedJoinExpected::of(*old(ctx)),
            Some(archived_membership(*old(ctx), metadata_hash).packed()),
            *final(ctx),
            r,
        ),
{
    let e = CompressedJoinExpected::derive(ctx);
    if let Some(error) = check_compressed_join(ctx, &e) {
        return Err(error);
    }
    let membership = CompressedChannelParticipant {
        channel: ctx.channel_account.key,
        participant: ctx.agent_account.key,
        joined_at: ctx.clock.unix_timestamp,
        messages_sent: 0,
        last_message_at: 0,
        metadata_hash,
    };
    let serialized: Option<Vec<u8>> = match borsh_participant(&membership) {
        Ok(bytes) => Some(bytes),
        Err(_) => None,
    };
    join_channel_compressed_with(ctx, metadata_hash, &e, serialized)
}

} // verus!
