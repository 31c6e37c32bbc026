//! Invitations to private channels: issued by the creator or a member,
//! bound to their fields by a commitment, and good for one join.

use vstd::prelude::*;
use crate::address::{agent_address, agent_address_of, bump, bump_of, check_sits_at, sits_at};
use crate::agent::{check_identity, identity_of};
use crate::address::{invitation_address, invitation_address_of};
use crate::address::{participant_address, participant_address_of, Derived};
use crate::errors::PodComError;
use crate::hashing::{commitment_of, compute_commitment, invitation_commitment};
use crate::pubkey::Pubkey;
use crate::secure::digests_equal;
use crate::state::{
    Account,
    AgentAccount,
    ChannelAccount,
    ChannelInvitation,
    ChannelParticipant,
    Clock,
    Signer,
    MESSAGE_EXPIRATION_SECONDS,
};

verus! {

/// Why `claimant` cannot redeem `invitation` at time `now`, if anything:
/// it is someone else's, it was redeemed before, it has lapsed, or its
/// stored commitment is not `commitment`, the one its fields give.
pub open spec fn redeem_verdict(
    invitation: ChannelInvitation,
    claimant: Pubkey,
    now: i64,
    commitment: [u8; 32],
) -> Option<PodComError> {
    if invitation.invitee != claimant {
        Some(PodComError::Unauthorized)
    } else if invitation.is_used || invitation.is_accepted {
        Some(PodComError::InvitationAlreadyUsed)
    } else if now > invitation.expires_at {
        Some(PodComError::InvitationExpired)
    } else if commitment != invitation.invitation_hash {
        Some(PodComError::Unauthorized)
    } else {
        None
    }
}

/// An invitation after it was redeemed: accepted and used, both at once.
pub open spec fn redeemed(invitation: ChannelInvitation) -> ChannelInvitation {
    ChannelInvitation { is_accepted: true, is_used: true, ..invitation }
}

/// Looks for a reason to refuse a redemption, changing nothing.
pub fn check_redeem(
    invitation: &ChannelInvitation,
    claimant: &Pubkey,
    now: i64,
    commitment: &[u8; 32],
) -> (r: Option<PodComError>)
    ensures
        r == redeem_verdict(*invitation, *claimant, now, *commitment),
{
    if invitation.invitee != *claimant {
        Some(PodComError::Unauthorized)
    } else if invitation.is_used || invitation.is_accepted {
        Some(PodComError::InvitationAlreadyUsed)
    } else if now > invitation.expires_at {
        Some(PodComError::InvitationExpired)
    } else if !digests_equal(commitment, &invitation.invitation_hash) {
        Some(PodComError::Unauthorized)
    } else {
        None
    }
}

/// Redeems an invitation against a commitment computed from its fields.
/// Either it is refused and stays as it was, or it is marked accepted and
/// used.
pub fn redeem_with(
    invitation: &mut ChannelInvitation,
    claimant: &Pubkey,
    now: i64,
    commitment: &[u8; 32],
) -> (r: Result<(), PodComError>)
    ensures
        match redeem_verdict(*old(invitation), *claimant, now, *commitment) {
            Some(e) => r == Err::<(), PodComError>(e) && *final(invitation) == *old(invitation),
            None => r is Ok && *final(invitation) == redeemed(*old(invitation)),
        },
{
    match check_redeem(invitation, claimant, now, commitment) {
        Some(e) => Err(e),
        None => {
            invitation.is_accepted = true;
            invitation.is_used = true;
            Ok(())
        },
    }
}

/// Redeems an invitation for `claimant` at time `now`. The commitment is
/// computed anew from the fields of the invitation and held against the
/// stored one, so an invitation that was written or edited by hand is
/// refused.
pub fn redeem(invitation: &mut ChannelInvitation, claimant: &Pubkey, now: i64) -> (r: Result<
    (),
    PodComError,
>)
    ensures
        match redeem_verdict(*old(invitation), *claimant, now, commitment_of(*old(invitation))) {
            Some(e) => r == Err::<(), PodComError>(e) && *final(invitation) == *old(invitation),
            None => r is Ok && *final(invitation) == redeemed(*old(invitation)),
        },
{
    let commitment = compute_commitment(
        &invitation.channel,
        &invitation.inviter,
        &invitation.invitee,
        invitation.nonce,
        invitation.created_at,
    );
    redeem_with(invitation, claimant, now, &commitment)
}

/// The records an invitation is issued on.
#[derive(Clone, Debug, PartialEq, Eq)]
pub struct InviteToChannel {
    pub channel_account: Account<ChannelAccount>,
    /// The inviter's membership, needed unless the inviter created the channel.
    pub participant_account: Option<Account<ChannelParticipant>>,
    /// The inviter's identity.
    pub agent_account: Account<AgentAccount>,
    /// Where the invitation is to be created.
    pub invitation_account: Account<Option<ChannelInvitation>>,
    pub inviter: Signer,
    pub clock: Clock,
}

/// What the records of an `InviteToChannel` are held against: the derived
/// addresses and the commitment of the invitation to be written.
#[derive(Clone, Copy, Debug, PartialEq, Eq)]
pub struct InviteExpected {
    pub agent: Derived,
    pub participant: Derived,
    pub invitation: Derived,
    pub commitment: [u8; 32],
}

impl InviteExpected {
    /// What the records are held against, as the fields of the records give it.
    pub open spec fn of(ctx: InviteToChannel, invitee: Pubkey, nonce: u64) -> InviteExpected {
        InviteExpected {
            agent: agent_address_of(ctx.inviter.key),
            participant: participant_address_of(ctx.channel_account.key, ctx.agent_account.key),
            invitation: invitation_address_of(ctx.channel_account.key, invitee),
            commitment: invitation_commitment(
                ctx.channel_account.key,
                ctx.inviter.key,
                invitee,
                nonce,
                ctx.clock.unix_timestamp,
            ),
        }
    }

    /// Derives what the records are held against.
    pub fn derive(ctx: &InviteToChannel, invitee: &Pubkey, nonce: u64) -> (e: InviteExpected)
        ensures
            e == InviteExpected::of(*ctx, *invitee, nonce),
    {
        InviteExpected {
            agent: agent_address(&ctx.inviter.key),
            participant: participant_address(&ctx.channel_account.key, &ctx.agent_account.key),
            invitation: invitation_address(&ctx.channel_account.key, invitee),
            commitment: compute_commitment(
                &ctx.channel_account.key,
                &ctx.inviter.key,
                invitee,
                nonce,
                ctx.clock.unix_timestamp,
            ),
        }
    }
}

/// The inviter created the channel, or holds an active membership that sits
/// at the address derived for it.
pub open spec fn may_invite(ctx: InviteToChannel, participant: Derived) -> bool {
    ctx.inviter.key == ctx.channel_account.data.creator || (ctx.participant_account matches Some(
        membership,
    ) && sits_at(membership.key, participant) && membership.data.is_active)
}

/// Why an invitation cannot be issued, if anything, given the addresses of
/// the inviter's identity, the inviter's membership and the invitation.
pub open spec fn invite_checks(
    ctx: InviteToChannel,
    agent: Derived,
    participant: Derived,
    invitation: Derived,
) -> Option<PodComError> {
    if !identity_of(ctx.agent_account, ctx.inviter.key, agent) {
        Some(PodComError::Unauthorized)
    } else if !may_invite(ctx, participant) {
        Some(PodComError::Unauthorized)
    } else if !sits_at(ctx.invitation_account.key, invitation) {
        Some(PodComError::Unauthorized)
    } else if ctx.invitation_account.data is Some {
        Some(PodComError::AlreadyExists)
    } else if ctx.clock.unix_timestamp + MESSAGE_EXPIRATION_SECONDS > i64::MAX {
        Some(PodComError::ArithmeticOverflow)
    } else {
        None
    }
}

/// Why an invitation cannot be issued, if anything. The commitment plays
/// no part in it.
pub open spec fn invite_verdict(ctx: InviteToChannel, e: InviteExpected) -> Option<PodComError> {
    invite_checks(ctx, e.agent, e.participant, e.invitation)
}

/// The invitation that a successful `invite_to_channel` writes.
pub open spec fn issued_invitation(
    ctx: InviteToChannel,
    invitee: Pubkey,
    nonce: u64,
    e: InviteExpected,
) -> ChannelInvitation {
    ChannelInvitation {
        channel: ctx.channel_account.key,
        inviter: ctx.inviter.key,
        invitee,
        invitation_hash: e.commitment,
        created_at: ctx.clock.unix_timestamp,
        expires_at: (ctx.clock.unix_timestamp + MESSAGE_EXPIRATION_SECONDS) as i64,
        nonce,
        is_accepted: false,
        is_used: false,
        bump: bump_of(e.invitation),
    }
}

/// What `invite_to_channel` does, given what the records are held against:
/// a refusal leaves every record as it was; otherwise only the invitation
/// is written, and its commitment is returned.
pub open spec fn invite_outcome(
    before: InviteToChannel,
    invitee: Pubkey,
    nonce: u64,
    e: InviteExpected,
    after: InviteToChannel,
    r: Result<[u8; 32], PodComError>,
) -> bool {
    match invite_verdict(before, e) {
        Some(error) => r == Err::<[u8; 32], PodComError>(error) && after == before,
        None => r == Ok::<[u8; 32], PodComError>(e.commitment) && after == (InviteToChannel {
            invitation_account: Account {
                data: Some(issued_invitation(before, invitee, nonce, e)),
                ..before.invitation_account
            },
            ..before
        }),
    }
}

fn check_may_invite(ctx: &InviteToChannel, participant: &Derived) -> (r: bool)
    ensures
        r == may_invite(*ctx, *participant),
{
    if ctx.inviter.key == ctx.channel_account.data.creator {
        true
    } else {
        match &ctx.participant_account {
            Some(membership) => check_sits_at(&membership.key, participant)
                && membership.data.is_active,
            None => false,
        }
    }
}

/// Looks for a reason not to issue an invitation, changing nothing.
pub fn check_invite(
    ctx: &InviteToChannel,
    agent: &Derived,
    participant: &Derived,
    invitation: &Derived,
) -> (r: Option<PodComError>)
    ensures
        r == invite_checks(*ctx, *agent, *participant, *invitation),
{
    if !check_identity(&ctx.agent_account, &ctx.inviter.key, agent) {
        Some(PodComError::Unauthorized)
    } else if !check_may_invite(ctx, participant) {
        Some(PodComError::Unauthorized)
    } else if !check_sits_at(&ctx.invitation_account.key, invitation) {
        Some(PodComError::Unauthorized)
    } else if ctx.invitation_account.data.is_some() {
        Some(PodComError::AlreadyExists)
    } else if ctx.clock.unix_timestamp > i64::MAX - MESSAGE_EXPIRATION_SECONDS {
        Some(PodComError::ArithmeticOverflow)
    } else {
        None
    }
}

/// Issues an invitation, given the addresses and the commitment that the
/// records are held against.
pub fn invite_to_channel_with(
    ctx: &mut InviteToChannel,
    invitee: Pubkey,
    nonce: u64,
    e: &InviteExpected,
) -> (r: Result<[u8; 32], PodComError>)
    ensures
        invite_outcome(*old(ctx), invitee, nonce, *e, *final(ctx), r),
{
    if let Some(error) = check_invite(ctx, &e.agent, &e.participant, &e.invitation) {
        return Err(error);
    }
    let now: i64 = ctx.clock.unix_timestamp;
    let expires_at: i64 = now + MESSAGE_EXPIRATION_SECONDS;
    ctx.invitation_account.data = Some(
        ChannelInvitation {
            channel: ctx.channel_account.key,
            inviter: ctx.inviter.key,
            invitee,
            invitation_hash: e.commitment,
            created_at: now,
            expires_at,
            nonce,
            is_accepted: false,
            is_used: false,
            bump: bump(&e.invitation),
        },
    );
    Ok(e.commitment)
}

/// Invites `invitee` to a channel. The inviter must be the creator of the
/// channel or an active member of it; the invitation is committed to by a
/// hash over channel, inviter, invitee, nonce and the time of issue, and
/// lapses seven days later. One invitation per channel and invitee: a
/// second one is refused. The hash is taken once every check has passed.
pub fn invite_to_channel(ctx: &mut InviteToChannel, invitee: Pubkey, nonce: u64) -> (r: Result<
    [u8; 32],
    PodComError,
>)
    ensures
        invite_outcome(
            *old(ctx),
            invitee,
            nonce,
            InviteExpected::of(*old(ctx), invitee, nonce),
            *final(ctx),
            r,
        ),
{
    let agent = agent_address(&ctx.inviter.key);
    let participant = participant_address(&ctx.channel_account.key, &ctx.agent_account.key);
    let invitation = invitation_address(&ctx.channel_account.key, &invitee);
    if let Some(error) = check_invite(ctx, &agent, &participant, &invitation) {
        return Err(error);
    }
    let e = InviteExpected {
        agent,
        participant,
        invitation,
        commitment: compute_commitment(
            &ctx.channel_account.key,
            &ctx.inviter.key,
            &invitee,
            nonce,
            ctx.clock.unix_timestamp,
        ),
    };
    invite_to_channel_with(ctx, invitee, nonce, &e)
}

} // verus!
