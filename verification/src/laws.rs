//! What holds of the ledger's rules across instructions.
//!
//! The laws on substitution are about the records that an instruction can
//! hold against an address derived from fields it is given: identities,
//! escrows, invitations, memberships, messages, and a channel at its
//! creation. A channel that exists is not among them. Its address was
//! derived from the name it was created under, and the record keeps only
//! the trimmed name, which its creator may change. So a channel is taken at
//! the address at which the host hands it over, and the records around it
//! are held against that address.

use vstd::prelude::*;
use crate::address::{agent_address_of, sits_at, Derived};
use crate::agent::{identity_of, register_outcome, register_verdict, update_outcome};
use crate::agent::update_verdict;
use crate::agent::{RegisterAgent, UpdateAgent};
use crate::broadcasts::{broadcast_outcome, broadcast_verdict, compressed_broadcast_outcome};
use crate::broadcasts::{compressed_broadcast_verdict, rate_limit, CompressedBroadcast};
use crate::broadcasts::{BroadcastExpected, BroadcastMessage};
use crate::broadcasts::{BroadcastMessageCompressed, CompressedBroadcastExpected};
use crate::channel::{create_outcome, create_v2_outcome, create_v2_verdict, create_verdict};
use crate::channel::name_verdict;
use crate::channel::{update_channel_outcome, UpdateChannel};
use crate::channel::{CreateChannel, CreateChannelV2, CreateExpected};
use crate::errors::PodComError;
use crate::escrow::{deposit_outcome, deposit_verdict, fee_outcome, fee_verdict, held};
use crate::escrow::{withdraw_outcome, withdraw_verdict};
use crate::escrow::{DepositEscrow, EscrowOp, WithdrawEscrow};
use crate::events::{AgentRegistered, ChannelCreated, ChannelJoined, EscrowDeposit};
use crate::events::{EscrowWithdrawal, MessageBroadcast, MessageSent};
use crate::invitation::{invite_outcome, invite_verdict, redeem_verdict, redeemed};
use crate::invitation::{InviteExpected, InviteToChannel};
use crate::membership::{compressed_join_outcome, compressed_join_verdict, fee_step_verdict};
use crate::membership::{invitation_step_verdict, join_outcome, leave_outcome, CompressedJoin};
use crate::membership::{join_verdict, leave_verdict, seat_verdict};
use crate::membership::{CompressedJoinExpected, JoinChannelCompressed};
use crate::membership::{JoinChannel, JoinExpected, LeaveChannel, LeaveExpected};
use crate::message::{send_outcome, send_verdict, status_outcome, status_verdict};
use crate::message::{SendExpected, SendMessage, StatusExpected, UpdateMessageStatus};
use crate::pubkey::Pubkey;
use crate::state::{
    Account,
    ChannelAccount,
    ChannelInvitation,
    ChannelVisibility,
    EscrowAccount,
    MessageStatus,
    MessageType,
};
use crate::text::lemma_trimmed;

verus! {

/// An owner key has one identity. Once a registration has succeeded, every
/// further registration by the same owner on the record that the first one
/// wrote is refused with `AlreadyExists`, whatever it asks for, and leaves
/// that record as the first one wrote it.
pub proof fn law_register_once(
    first: RegisterAgent,
    capabilities: u64,
    metadata_uri: String,
    after_first: RegisterAgent,
    r1: Result<AgentRegistered, PodComError>,
    second: RegisterAgent,
    capabilities2: u64,
    metadata_uri2: String,
    after_second: RegisterAgent,
    r2: Result<AgentRegistered, PodComError>,
)
    requires
        register_outcome(
            first,
            capabilities,
            metadata_uri,
            agent_address_of(first.signer.key),
            after_first,
            r1,
        ),
        r1 is Ok,
        second.signer.key == first.signer.key,
        second.agent_account == after_first.agent_account,
        register_outcome(
            second,
            capabilities2,
            metadata_uri2,
            agent_address_of(second.signer.key),
            after_second,
            r2,
        ),
    ensures
        r2 == Err::<AgentRegistered, PodComError>(PodComError::AlreadyExists),
        after_second.agent_account == after_first.agent_account,
{
}

/// One step in the life of an escrow: an operation, and whether it was
/// accepted.
#[derive(Clone, Copy, Debug, PartialEq, Eq)]
pub struct EscrowStep {
    pub op: EscrowOp,
    pub accepted: bool,
}

/// The amount after a step: changed by the operation if it was accepted,
/// unchanged if it was refused.
pub open spec fn follows(before: u64, step: EscrowStep, after: u64) -> bool {
    if step.accepted {
        after == before + step.op.delta()
    } else {
        after == before
    }
}

/// `amounts` are the amounts an escrow held before, between and after the
/// `steps`.
pub open spec fn is_replay(amounts: Seq<u64>, steps: Seq<EscrowStep>) -> bool {
    &&& amounts.len() == steps.len() + 1
    &&& forall|i: int| 0 <= i < steps.len() ==> follows(amounts[i], #[trigger] steps[i], amounts[i + 1])
}

/// Sum of the accepted deposits.
pub open spec fn deposited(steps: Seq<EscrowStep>) -> int
    decreases steps.len(),
{
    if steps.len() == 0 {
        0
    } else {
        deposited(steps.drop_last()) + match steps.last().op {
            EscrowOp::Deposit(amount) => if steps.last().accepted {
                amount as int
            } else {
                0
            },
            _ => 0,
        }
    }
}

/// Sum of the accepted withdrawals.
pub open spec fn withdrawn(steps: Seq<EscrowStep>) -> int
    decreases steps.len(),
{
    if steps.len() == 0 {
        0
    } else {
        withdrawn(steps.drop_last()) + match steps.last().op {
            EscrowOp::Withdraw(amount) => if steps.last().accepted {
                amount as int
            } else {
                0
            },
            _ => 0,
        }
    }
}

/// Sum of the fees that were taken.
pub open spec fn consumed(steps: Seq<EscrowStep>) -> int
    decreases steps.len(),
{
    if steps.len() == 0 {
        0
    } else {
        consumed(steps.drop_last()) + match steps.last().op {
            EscrowOp::ConsumeFee(fee) => if steps.last().accepted {
                fee as int
            } else {
                0
            },
            _ => 0,
        }
    }
}

/// A deposit is a step of the escrow it works on.
pub proof fn law_deposit_is_step(
    before: DepositEscrow,
    amount: u64,
    expected: Derived,
    after: DepositEscrow,
    r: Result<EscrowDeposit, PodComError>,
)
    requires
        deposit_outcome(before, amount, expected, after, r),
    ensures
        follows(
            held(before.escrow_account.data),
            EscrowStep { op: EscrowOp::Deposit(amount), accepted: r is Ok },
            held(after.escrow_account.data),
        ),
{
}

/// A withdrawal is a step of the escrow it works on.
pub proof fn law_withdraw_is_step(
    before: WithdrawEscrow,
    amount: u64,
    expected: Derived,
    after: WithdrawEscrow,
    r: Result<EscrowWithdrawal, PodComError>,
)
    requires
        withdraw_outcome(before, amount, expected, after, r),
    ensures
        follows(
            before.escrow_account.data.amount,
            EscrowStep { op: EscrowOp::Withdraw(amount), accepted: r is Ok },
            after.escrow_account.data.amount,
        ),
{
}

/// Taking a fee is a step of the escrow it is taken from.
pub proof fn law_fee_is_step(
    escrow_before: Account<EscrowAccount>,
    channel_before: Account<ChannelAccount>,
    fee: u64,
    expected: Derived,
    escrow_after: Account<EscrowAccount>,
    channel_after: Account<ChannelAccount>,
    r: Result<(), PodComError>,
)
    requires
        fee_outcome(escrow_before, channel_before, fee, expected, escrow_after, channel_after, r),
    ensures
        follows(
            escrow_before.data.amount,
            EscrowStep { op: EscrowOp::ConsumeFee(fee), accepted: r is Ok },
            escrow_after.data.amount,
        ),
{
}

/// Nothing is lost or made in an escrow. After any sequence of deposits,
/// withdrawals and fees, accepted or refused, the amount held is the amount
/// held at first, plus the deposits, less the withdrawals and the fees, and
/// it was at no time below zero.
pub proof fn law_escrow_conservation(amounts: Seq<u64>, steps: Seq<EscrowStep>)
    requires
        is_replay(amounts, steps),
    ensures
        amounts.last() == amounts[0] + deposited(steps) - withdrawn(steps) - consumed(steps),
        forall|i: int| 0 <= i < amounts.len() ==> amounts[i] >= 0,
    decreases steps.len(),
{
    if steps.len() > 0 {
        let shorter = steps.drop_last();
        let earlier = amounts.drop_last();
        assert forall|i: int| 0 <= i < shorter.len() implies follows(
            earlier[i],
            #[trigger] shorter[i],
            earlier[i + 1],
        ) by {
            assert(follows(amounts[i], steps[i], amounts[i + 1]));
        }
        law_escrow_conservation(earlier, shorter);
        let n = steps.len() as int;
        assert(follows(amounts[n - 1], steps[n - 1], amounts[n]));
        assert(earlier.last() == amounts[n - 1]);
        assert(earlier[0] == amounts[0]);
    }
}

/// The cooldown holds whatever else does. If the limiter accepted a
/// broadcast at `first`, a time other than 0, it refuses every broadcast of
/// the same participant less than a second later.
pub proof fn law_cooldown(last_message_at: i64, messages_sent: u64, first: i64, second: i64)
    requires
        rate_limit(last_message_at, messages_sent, first) is Some,
        first != 0,
        second - first < 1,
    ensures
        rate_limit(first, rate_limit(last_message_at, messages_sent, first).unwrap(), second)
            is None,
{
}

/// Two broadcasts of one participant less than a second apart: the second
/// is refused, whatever it holds. The first was accepted at a time other
/// than 0; the second works on the membership as the first left it.
pub proof fn law_cooldown_between_broadcasts(
    first: BroadcastMessage,
    content: String,
    message_type: MessageType,
    reply_to: Option<Pubkey>,
    e: BroadcastExpected,
    after_first: BroadcastMessage,
    r: Result<MessageBroadcast, PodComError>,
    second: BroadcastMessage,
    content2: String,
    e2: BroadcastExpected,
)
    requires
        broadcast_outcome(first, content, message_type, reply_to, e, after_first, r),
        r is Ok,
        first.clock.unix_timestamp != 0,
        second.participant_account == after_first.participant_account,
        second.clock.unix_timestamp - first.clock.unix_timestamp < 1,
    ensures
        broadcast_verdict(second, content2, e2) is Some,
{
    law_cooldown(
        first.participant_account.data.last_message_at,
        first.participant_account.data.messages_sent,
        first.clock.unix_timestamp,
        second.clock.unix_timestamp,
    );
}

/// The same of two broadcasts with external content.
pub proof fn law_cooldown_between_compressed_broadcasts(
    first: BroadcastMessageCompressed,
    content: String,
    message_type: MessageType,
    reply_to: Option<Pubkey>,
    ipfs_hash: String,
    e: CompressedBroadcastExpected,
    after_first: BroadcastMessageCompressed,
    r: Result<CompressedBroadcast, PodComError>,
    second: BroadcastMessageCompressed,
    content2: String,
    ipfs_hash2: String,
    e2: CompressedBroadcastExpected,
)
    requires
        compressed_broadcast_outcome(
            first,
            content,
            message_type,
            reply_to,
            ipfs_hash,
            e,
            after_first,
            r,
        ),
        r is Ok,
        first.clock.unix_timestamp != 0,
        second.participant_account == after_first.participant_account,
        second.clock.unix_timestamp - first.clock.unix_timestamp < 1,
    ensures
        compressed_broadcast_verdict(second, content2, ipfs_hash2, e2) is Some,
{
    law_cooldown(
        first.participant_account.data.last_message_at,
        first.participant_account.data.messages_sent,
        first.clock.unix_timestamp,
        second.clock.unix_timestamp,
    );
}

/// An invitation is good for one join. Once it was redeemed, no claimant,
/// at no time and against no commitment, redeems it again.
pub proof fn law_invitation_single_use(
    invitation: ChannelInvitation,
    claimant: Pubkey,
    now: i64,
    commitment: [u8; 32],
    later_claimant: Pubkey,
    later: i64,
    later_commitment: [u8; 32],
)
    requires
        redeem_verdict(invitation, claimant, now, commitment) is None,
    ensures
        redeem_verdict(redeemed(invitation), later_claimant, later, later_commitment) is Some,
        later_claimant == invitation.invitee ==> redeem_verdict(
            redeemed(invitation),
            later_claimant,
            later,
            later_commitment,
        ) == Some(PodComError::InvitationAlreadyUsed),
{
}

/// A private channel is entered once on an invitation. After a join that
/// went through, every further join to a private channel that hands in the
/// invitation as the first join left it is refused, whoever asks and
/// whenever.
pub proof fn law_invitation_single_use_in_join(
    first: JoinChannel,
    e: JoinExpected,
    after_first: JoinChannel,
    r: Result<ChannelJoined, PodComError>,
    second: JoinChannel,
    e2: JoinExpected,
)
    requires
        join_outcome(first, e, after_first, r),
        r is Ok,
        first.channel_account.data.visibility == ChannelVisibility::Private,
        second.channel_account.data.visibility == ChannelVisibility::Private,
        second.invitation_account == after_first.invitation_account,
    ensures
        join_verdict(second, e2) is Some,
{
}

/// An identity has one membership in a channel. After a join that went
/// through, every further join that hands in the membership as the first
/// join left it is refused.
pub proof fn law_join_once(
    first: JoinChannel,
    e: JoinExpected,
    after_first: JoinChannel,
    r: Result<ChannelJoined, PodComError>,
    second: JoinChannel,
    e2: JoinExpected,
)
    requires
        join_outcome(first, e, after_first, r),
        r is Ok,
        second.participant_account == after_first.participant_account,
    ensures
        join_verdict(second, e2) is Some,
{
}

/// An invitee has one invitation to a channel. After an invitation was
/// issued, every further one on the record that the first one wrote is
/// refused.
pub proof fn law_invite_once(
    first: InviteToChannel,
    invitee: Pubkey,
    nonce: u64,
    e: InviteExpected,
    after_first: InviteToChannel,
    r: Result<[u8; 32], PodComError>,
    second: InviteToChannel,
    e2: InviteExpected,
)
    requires
        invite_outcome(first, invitee, nonce, e, after_first, r),
        r is Ok,
        second.invitation_account == after_first.invitation_account,
    ensures
        invite_verdict(second, e2) is Some,
{
}

/// A registration is refused as unauthorized where the record is not at
/// the address derived for the owner.
pub proof fn law_substitution_register(
    ctx: RegisterAgent,
    capabilities: u64,
    metadata_uri: String,
    expected: Derived,
)
    requires
        !sits_at(ctx.agent_account.key, expected),
    ensures
        register_verdict(ctx, capabilities, metadata_uri, expected) == Some(
            PodComError::Unauthorized,
        ),
{
}

/// An update of an identity is refused as unauthorized where the record
/// is not the signer's identity at the address derived for the signer.
pub proof fn law_substitution_update_agent(
    ctx: UpdateAgent,
    metadata_uri: Option<String>,
    expected: Derived,
)
    requires
        !identity_of(ctx.agent_account, ctx.signer.key, expected),
    ensures
        update_verdict(ctx, metadata_uri, expected) == Some(PodComError::Unauthorized),
{
}

/// A direct message is refused as unauthorized where the sender's identity
/// is not the signer's at its derived address, or where the message is not
/// at the address derived for it.
pub proof fn law_substitution_send_message(ctx: SendMessage, e: SendExpected)
    requires
        !identity_of(ctx.sender_agent, ctx.signer.key, e.agent) || !sits_at(
            ctx.message_account.key,
            e.message,
        ),
    ensures
        send_verdict(ctx, e) == Some(PodComError::Unauthorized),
{
}

/// A status update is refused as unauthorized where the signer's identity
/// or the message is not at its derived address.
pub proof fn law_substitution_update_message_status(
    ctx: UpdateMessageStatus,
    new_status: MessageStatus,
    e: StatusExpected,
)
    requires
        !identity_of(ctx.recipient_agent, ctx.signer.key, e.agent) || !sits_at(
            ctx.message_account.key,
            e.message,
        ),
    ensures
        status_verdict(ctx, new_status, e) == Some(PodComError::Unauthorized),
{
}

/// A creation under an acceptable name is refused as unauthorized where
/// the channel is not at the address derived for it.
pub proof fn law_substitution_create_channel(
    ctx: CreateChannel,
    name: Seq<char>,
    description: Seq<char>,
    max_participants: u32,
    fee_per_message: u64,
    expected: Derived,
)
    requires
        name_verdict(name) is None,
        !sits_at(ctx.channel_account.key, expected),
    ensures
        create_verdict(ctx, name, description, max_participants, fee_per_message, expected)
            == Some(PodComError::Unauthorized),
{
}

/// A gated creation is refused as unauthorized where the creator's
/// identity is not at its derived address, and, under an acceptable name,
/// where the channel or the membership is not.
pub proof fn law_substitution_create_channel_v2(
    ctx: CreateChannelV2,
    name: Seq<char>,
    description: Seq<char>,
    max_participants: u32,
    fee_per_message: u64,
    e: CreateExpected,
)
    requires
        !identity_of(ctx.agent_account, ctx.creator.key, e.agent) || (name_verdict(name) is None
            && (!sits_at(ctx.channel_account.key, e.channel) || !sits_at(
            ctx.participant_account.key,
            e.participant,
        ))),
    ensures
        create_v2_verdict(ctx, name, description, max_participants, fee_per_message, e) == Some(
            PodComError::Unauthorized,
        ),
{
}

/// A deposit is refused as unauthorized where the escrow is not at the
/// address derived for it.
pub proof fn law_substitution_deposit(ctx: DepositEscrow, amount: u64, expected: Derived)
    requires
        !sits_at(ctx.escrow_account.key, expected),
    ensures
        deposit_verdict(ctx, amount, expected) == Some(PodComError::Unauthorized),
{
}

/// A withdrawal is refused as unauthorized where the escrow is not at the
/// address derived for it.
pub proof fn law_substitution_withdraw(ctx: WithdrawEscrow, amount: u64, expected: Derived)
    requires
        !sits_at(ctx.escrow_account.key, expected),
    ensures
        withdraw_verdict(ctx, amount, expected) == Some(PodComError::Unauthorized),
{
}

/// A fee is refused as unauthorized where the escrow is not at the address
/// derived for it.
pub proof fn law_substitution_consume_fee(
    escrow: Account<EscrowAccount>,
    channel: Account<ChannelAccount>,
    fee: u64,
    expected: Derived,
)
    requires
        !sits_at(escrow.key, expected),
    ensures
        fee_verdict(escrow, channel, fee, expected) == Some(PodComError::Unauthorized),
{
}

/// An invitation is refused as unauthorized where the inviter's identity
/// is not at its derived address, where an inviter who did not create the
/// channel hands in a membership that is not at its derived address, or
/// where the invitation is not at the address derived for it.
pub proof fn law_substitution_invite(ctx: InviteToChannel, e: InviteExpected)
    requires
        !identity_of(ctx.agent_account, ctx.inviter.key, e.agent) || (ctx.inviter.key
            != ctx.channel_account.data.creator && (ctx.participant_account matches Some(m)
            && !sits_at(m.key, e.participant))) || !sits_at(
            ctx.invitation_account.key,
            e.invitation,
        ),
    ensures
        invite_verdict(ctx, e) == Some(PodComError::Unauthorized),
{
}

/// A leave is refused as unauthorized where the user's identity or the
/// membership is not at its derived address.
pub proof fn law_substitution_leave(ctx: LeaveChannel, e: LeaveExpected)
    requires
        !identity_of(ctx.agent_account, ctx.user.key, e.agent) || !sits_at(
            ctx.participant_account.key,
            e.participant,
        ),
    ensures
        leave_verdict(ctx, e) == Some(PodComError::Unauthorized),
{
}

/// A broadcast is refused as unauthorized where the sender's identity, the
/// membership or the message is not at its derived address, or where the
/// membership names another identity.
pub proof fn law_substitution_broadcast(ctx: BroadcastMessage, content: String, e: BroadcastExpected)
    requires
        !identity_of(ctx.agent_account, ctx.user.key, e.agent) || !sits_at(
            ctx.participant_account.key,
            e.participant,
        ) || ctx.participant_account.data.participant != ctx.agent_account.key || !sits_at(
            ctx.message_account.key,
            e.message,
        ),
    ensures
        broadcast_verdict(ctx, content, e) == Some(PodComError::Unauthorized),
{
}

/// A broadcast with external content is refused as unauthorized where the
/// sender's identity or the membership is not at its derived address, or
/// where the membership names another identity.
pub proof fn law_substitution_broadcast_compressed(
    ctx: BroadcastMessageCompressed,
    content: String,
    ipfs_hash: String,
    e: CompressedBroadcastExpected,
)
    requires
        !identity_of(ctx.agent_account, ctx.authority.key, e.agent) || !sits_at(
            ctx.participant_account.key,
            e.participant,
        ) || ctx.participant_account.data.participant != ctx.agent_account.key,
    ensures
        compressed_broadcast_verdict(ctx, content, ipfs_hash, e) == Some(PodComError::Unauthorized),
{
}

/// The records that a join takes something from or writes to are where
/// they are derived to be: the identity; the escrow, where the channel has a
/// fee; the invitation, where the channel is private; and the membership.
/// The channel itself is not held against a derived address.
pub open spec fn join_records_in_place(ctx: JoinChannel, e: JoinExpected) -> bool {
    &&& identity_of(ctx.agent_account, ctx.user.key, e.agent)
    &&& (ctx.channel_account.data.fee_per_message > 0 ==> (ctx.escrow_account matches Some(escrow)
        ==> sits_at(escrow.key, e.escrow)))
    &&& (ctx.channel_account.data.visibility == ChannelVisibility::Private ==> (
    ctx.invitation_account matches Some(invitation) ==> sits_at(invitation.key, e.invitation)))
    &&& sits_at(ctx.participant_account.key, e.participant)
}

/// A join never goes through on a record that is out of place. It is
/// refused as unauthorized where the identity is out of place; where a seat
/// is free and the escrow of a channel with a fee is out of place; where,
/// besides, the fee can be taken and the invitation to a private channel is
/// out of place; and where, besides, the invitation can be redeemed and the
/// membership is out of place.
pub proof fn law_substitution_join(ctx: JoinChannel, e: JoinExpected)
    requires
        !join_records_in_place(ctx, e),
    ensures
        join_verdict(ctx, e) is Some,
        !identity_of(ctx.agent_account, ctx.user.key, e.agent) ==> join_verdict(ctx, e) == Some(
            PodComError::Unauthorized,
        ),
        identity_of(ctx.agent_account, ctx.user.key, e.agent) && seat_verdict(
            ctx.channel_account.data,
        ) is None && ctx.channel_account.data.fee_per_message > 0 && (
        ctx.escrow_account matches Some(escrow) && !sits_at(escrow.key, e.escrow))
            ==> join_verdict(ctx, e) == Some(PodComError::Unauthorized),
        identity_of(ctx.agent_account, ctx.user.key, e.agent) && seat_verdict(
            ctx.channel_account.data,
        ) is None && fee_step_verdict(
            ctx.channel_account,
            ctx.escrow_account,
            ctx.user.key,
            e.escrow,
        ) is None && ctx.channel_account.data.visibility == ChannelVisibility::Private && (
        ctx.invitation_account matches Some(invitation) && !sits_at(invitation.key, e.invitation))
            ==> join_verdict(ctx, e) == Some(PodComError::Unauthorized),
        identity_of(ctx.agent_account, ctx.user.key, e.agent) && seat_verdict(
            ctx.channel_account.data,
        ) is None && fee_step_verdict(
            ctx.channel_account,
            ctx.escrow_account,
            ctx.user.key,
            e.escrow,
        ) is None && invitation_step_verdict(
            ctx.channel_account.data,
            ctx.invitation_account,
            ctx.user.key,
            ctx.clock.unix_timestamp,
            e.invitation,
            e.commitment,
        ) is None && !sits_at(ctx.participant_account.key, e.participant) ==> join_verdict(ctx, e)
            == Some(PodComError::Unauthorized),
{
}

/// The records that a join with an archived membership takes something
/// from are where they are derived to be.
pub open spec fn compressed_join_records_in_place(
    ctx: JoinChannelCompressed,
    e: CompressedJoinExpected,
) -> bool {
    &&& identity_of(ctx.agent_account, ctx.authority.key, e.agent)
    &&& (ctx.channel_account.data.fee_per_message > 0 ==> (ctx.escrow_account matches Some(escrow)
        ==> sits_at(escrow.key, e.escrow)))
    &&& (ctx.channel_account.data.visibility == ChannelVisibility::Private ==> (
    ctx.invitation_account matches Some(invitation) ==> sits_at(invitation.key, e.invitation)))
}

/// A join with an archived membership never goes through on a record that
/// is out of place, and is refused as unauthorized under the conditions of
/// an ordinary join.
pub proof fn law_substitution_join_compressed(
    ctx: JoinChannelCompressed,
    e: CompressedJoinExpected,
    serialized: Option<Seq<u8>>,
)
    requires
        !compressed_join_records_in_place(ctx, e),
    ensures
        compressed_join_verdict(ctx, e, serialized) is Some,
        !identity_of(ctx.agent_account, ctx.authority.key, e.agent) ==> compressed_join_verdict(
            ctx,
            e,
            serialized,
        ) == Some(PodComError::Unauthorized),
        identity_of(ctx.agent_account, ctx.authority.key, e.agent) && seat_verdict(
            ctx.channel_account.data,
        ) is None && ctx.channel_account.data.fee_per_message > 0 && (
        ctx.escrow_account matches Some(escrow) && !sits_at(escrow.key, e.escrow))
            ==> compressed_join_verdict(ctx, e, serialized) == Some(PodComError::Unauthorized),
        identity_of(ctx.agent_account, ctx.authority.key, e.agent) && seat_verdict(
            ctx.channel_account.data,
        ) is None && fee_step_verdict(
            ctx.channel_account,
            ctx.escrow_account,
            ctx.authority.key,
            e.escrow,
        ) is None && ctx.channel_account.data.visibility == ChannelVisibility::Private && (
        ctx.invitation_account matches Some(invitation) && !sits_at(invitation.key, e.invitation))
            ==> compressed_join_verdict(ctx, e, serialized) == Some(PodComError::Unauthorized),
{
}

/// A registered identity is well formed.
pub proof fn law_registered_agent_well_formed(
    before: RegisterAgent,
    capabilities: u64,
    metadata_uri: String,
    expected: Derived,
    after: RegisterAgent,
    r: Result<AgentRegistered, PodComError>,
)
    requires
        register_outcome(before, capabilities, metadata_uri, expected, after, r),
        r is Ok,
    ensures
        after.agent_account.data matches Some(agent) && agent.well_formed(),
{
}

/// An update leaves a well-formed identity well formed.
pub proof fn law_updated_agent_well_formed(
    before: UpdateAgent,
    capabilities: Option<u64>,
    metadata_uri: Option<String>,
    expected: Derived,
    after: UpdateAgent,
    r: Result<(), PodComError>,
)
    requires
        update_outcome(before, capabilities, metadata_uri, expected, after, r),
        before.agent_account.data.well_formed(),
    ensures
        after.agent_account.data.well_formed(),
{
}

/// A message that was sent is well formed.
pub proof fn law_sent_message_well_formed(
    before: SendMessage,
    recipient: Pubkey,
    payload_hash: [u8; 32],
    message_type: MessageType,
    e: SendExpected,
    after: SendMessage,
    r: Result<MessageSent, PodComError>,
)
    requires
        send_outcome(before, recipient, payload_hash, message_type, e, after, r),
        r is Ok,
    ensures
        after.message_account.data matches Some(message) && message.well_formed(),
{
}

/// A status update leaves a well-formed message well formed.
pub proof fn law_status_update_well_formed(
    before: UpdateMessageStatus,
    new_status: MessageStatus,
    e: StatusExpected,
    after: UpdateMessageStatus,
    r: Result<(), PodComError>,
)
    requires
        status_outcome(before, new_status, e, after, r),
        before.message_account.data.well_formed(),
    ensures
        after.message_account.data.well_formed(),
{
}

/// A channel that was created is well formed.
pub proof fn law_created_channel_well_formed(
    before: CreateChannel,
    name: Seq<char>,
    description: Seq<char>,
    visibility: ChannelVisibility,
    max_participants: u32,
    fee_per_message: u64,
    expected: Derived,
    after: CreateChannel,
    r: Result<ChannelCreated, PodComError>,
)
    requires
        create_outcome(
            before,
            name,
            description,
            visibility,
            max_participants,
            fee_per_message,
            expected,
            after,
            r,
        ),
        r is Ok,
    ensures
        after.channel_account.data matches Some(channel) && channel.well_formed(),
{
    lemma_trimmed(name);
    lemma_trimmed(description);
}

/// A gated creation writes a well-formed channel and a well-formed
/// membership of its creator.
pub proof fn law_created_channel_v2_well_formed(
    before: CreateChannelV2,
    name: Seq<char>,
    description: Seq<char>,
    visibility: ChannelVisibility,
    max_participants: u32,
    fee_per_message: u64,
    e: CreateExpected,
    after: CreateChannelV2,
    r: Result<ChannelCreated, PodComError>,
)
    requires
        create_v2_outcome(
            before,
            name,
            description,
            visibility,
            max_participants,
            fee_per_message,
            e,
            after,
            r,
        ),
        r is Ok,
    ensures
        after.channel_account.data matches Some(channel) && channel.well_formed(),
        after.participant_account.data matches Some(membership) && membership.well_formed(),
{
    lemma_trimmed(name);
    lemma_trimmed(description);
}

/// A change of settings leaves a well-formed channel well formed.
pub proof fn law_updated_channel_well_formed(
    before: UpdateChannel,
    name: Option<String>,
    description: Option<String>,
    max_participants: Option<u32>,
    fee_per_message: Option<u64>,
    is_active: Option<bool>,
    after: UpdateChannel,
    r: Result<(), PodComError>,
)
    requires
        update_channel_outcome(
            before,
            name,
            description,
            max_participants,
            fee_per_message,
            is_active,
            after,
            r,
        ),
        before.channel_account.data.well_formed(),
    ensures
        after.channel_account.data.well_formed(),
{
}

/// A join leaves a well-formed channel and a well-formed invitation well
/// formed, never takes more seats than there are, and writes a well-formed
/// membership.
pub proof fn law_join_well_formed(
    before: JoinChannel,
    e: JoinExpected,
    after: JoinChannel,
    r: Result<ChannelJoined, PodComError>,
)
    requires
        join_outcome(before, e, after, r),
        before.channel_account.data.well_formed(),
    ensures
        after.channel_account.data.well_formed(),
        r is Ok ==> (after.participant_account.data matches Some(membership)
            && membership.well_formed()),
        (before.invitation_account matches Some(i) && i.data.well_formed()) ==> (
        after.invitation_account matches Some(i) && i.data.well_formed()),
{
}

/// A join with an archived membership leaves a well-formed channel and a
/// well-formed invitation well formed.
pub proof fn law_compressed_join_well_formed(
    before: JoinChannelCompressed,
    metadata_hash: [u8; 32],
    e: CompressedJoinExpected,
    serialized: Option<Seq<u8>>,
    after: JoinChannelCompressed,
    r: Result<CompressedJoin, PodComError>,
)
    requires
        compressed_join_outcome(before, metadata_hash, e, serialized, after, r),
        before.channel_account.data.well_formed(),
    ensures
        after.channel_account.data.well_formed(),
        (before.invitation_account matches Some(i) && i.data.well_formed()) ==> (
        after.invitation_account matches Some(i) && i.data.well_formed()),
{
}

/// A leave leaves a well-formed channel and a well-formed membership well
/// formed.
pub proof fn law_leave_well_formed(
    before: LeaveChannel,
    e: LeaveExpected,
    after: LeaveChannel,
    r: Result<(), PodComError>,
)
    requires
        leave_outcome(before, e, after, r),
        before.channel_account.data.well_formed(),
        before.participant_account.data.well_formed(),
    ensures
        after.channel_account.data.well_formed(),
        after.participant_account.data.well_formed(),
{
}

/// Deposits, withdrawals and fees leave a well-formed channel well formed.
pub proof fn law_escrow_keeps_channel_well_formed(
    deposit: DepositEscrow,
    withdrawal: WithdrawEscrow,
    escrow: Account<EscrowAccount>,
    channel: Account<ChannelAccount>,
    amount: u64,
    expected: Derived,
    after_deposit: DepositEscrow,
    after_withdrawal: WithdrawEscrow,
    escrow_after: Account<EscrowAccount>,
    channel_after: Account<ChannelAccount>,
    deposited: Result<EscrowDeposit, PodComError>,
    withdrawn: Result<EscrowWithdrawal, PodComError>,
    taken: Result<(), PodComError>,
)
    requires
        deposit_outcome(deposit, amount, expected, after_deposit, deposited),
        withdraw_outcome(withdrawal, amount, expected, after_withdrawal, withdrawn),
        fee_outcome(escrow, channel, amount, expected, escrow_after, channel_after, taken),
    ensures
        deposit.channel_account.data.well_formed()
            ==> after_deposit.channel_account.data.well_formed(),
        withdrawal.channel_account.data.well_formed()
            ==> after_withdrawal.channel_account.data.well_formed(),
        channel.data.well_formed() ==> channel_after.data.well_formed(),
{
}

/// An invitation that was issued is well formed, and redeeming leaves a
/// well-formed invitation well formed.
pub proof fn law_invitation_well_formed(
    before: InviteToChannel,
    invitee: Pubkey,
    nonce: u64,
    e: InviteExpected,
    after: InviteToChannel,
    r: Result<[u8; 32], PodComError>,
    invitation: ChannelInvitation,
)
    requires
        invite_outcome(before, invitee, nonce, e, after, r),
    ensures
        r is Ok ==> (after.invitation_account.data matches Some(issued) && issued.well_formed()),
        invitation.well_formed() ==> redeemed(invitation).well_formed(),
{
}

/// After a broadcast that was accepted the membership is well formed,
/// whatever it was before; a refused one leaves it as it was.
pub proof fn law_broadcast_well_formed(
    before: BroadcastMessage,
    content: String,
    message_type: MessageType,
    reply_to: Option<Pubkey>,
    e: BroadcastExpected,
    after: BroadcastMessage,
    r: Result<MessageBroadcast, PodComError>,
)
    requires
        broadcast_outcome(before, content, message_type, reply_to, e, after, r),
    ensures
        r is Ok ==> after.participant_account.data.well_formed(),
        r is Err ==> after.participant_account == before.participant_account,
{
}

/// After a broadcast with external content that was accepted the
/// membership is well formed, whatever it was before; a refused one leaves
/// it as it was.
pub proof fn law_compressed_broadcast_well_formed(
    before: BroadcastMessageCompressed,
    content: String,
    message_type: MessageType,
    reply_to: Option<Pubkey>,
    ipfs_hash: String,
    e: CompressedBroadcastExpected,
    after: BroadcastMessageCompressed,
    r: Result<CompressedBroadcast, PodComError>,
)
    requires
        compressed_broadcast_outcome(
            before,
            content,
            message_type,
            reply_to,
            ipfs_hash,
            e,
            after,
            r,
        ),
    ensures
        r is Ok ==> after.participant_account.data.well_formed(),
        r is Err ==> after.participant_account == before.participant_account,
{
}

} // verus!
