use pod_com::address::{agent_address, invitation_address, participant_address};
use pod_com::errors::PodComError;
use pod_com::hashing::compute_commitment;
use pod_com::invitation::{
    check_redeem, invite_to_channel, invite_to_channel_with, redeem, redeem_with, InviteExpected,
    InviteToChannel,
};
use pod_com::pubkey::Pubkey;
use pod_com::state::{
    Account, AgentAccount, ChannelAccount, ChannelInvitation, ChannelParticipant,
    ChannelVisibility, Clock, Signer,
};

const WEEK: i64 = 604800;

fn iv_key(n: u8) -> Pubkey {
    Pubkey { bytes: [n; 32] }
}

fn iv_invitation(invitee: u8) -> ChannelInvitation {
    ChannelInvitation {
        channel: iv_key(50),
        inviter: iv_key(1),
        invitee: iv_key(invitee),
        invitation_hash: compute_commitment(&iv_key(50), &iv_key(1), &iv_key(invitee), 7, 1000),
        created_at: 1000,
        expires_at: 1000 + WEEK,
        nonce: 7,
        is_accepted: false,
        is_used: false,
        bump: 254,
    }
}

fn iv_agent(owner: u8) -> Account<AgentAccount> {
    let (address, bump) = agent_address(&iv_key(owner)).unwrap();
    Account {
        key: address,
        lamports: 0,
        data: AgentAccount {
            pubkey: iv_key(owner),
            capabilities: 1,
            reputation: 100,
            last_updated: 0,
            metadata_uri: "uri://a".to_string(),
            bump,
        },
    }
}

fn iv_ctx(inviter: u8, invitee: u8, membership: Option<bool>) -> InviteToChannel {
    let agent = iv_agent(inviter);
    let (slot, _) = invitation_address(&iv_key(50), &iv_key(invitee)).unwrap();
    let member = membership.map(|active| {
        let (address, bump) = participant_address(&iv_key(50), &agent.key).unwrap();
        Account {
            key: address,
            lamports: 0,
            data: ChannelParticipant {
                channel: iv_key(50),
                participant: agent.key,
                joined_at: 900,
                messages_sent: 0,
                last_message_at: 0,
                is_active: active,
                bump,
            },
        }
    });
    InviteToChannel {
        channel_account: Account {
            key: iv_key(50),
            lamports: 0,
            data: ChannelAccount {
                creator: iv_key(1),
                fee_per_message: 0,
                escrow_balance: 0,
                created_at: 900,
                max_participants: 10,
                current_participants: 1,
                name: "inner".to_string(),
                description: "circle".to_string(),
                visibility: ChannelVisibility::Private,
                is_active: true,
                bump: 255,
            },
        },
        participant_account: member,
        agent_account: agent,
        invitation_account: Account { key: slot, lamports: 0, data: None },
        inviter: Signer { key: iv_key(inviter), lamports: 0 },
        clock: Clock { unix_timestamp: 1000 },
    }
}

#[test]
fn redeem_marks_accepted_and_used_together() {
    let mut invitation = iv_invitation(2);
    assert_eq!(redeem(&mut invitation, &iv_key(2), 1000 + WEEK), Ok(()));
    assert!(invitation.is_accepted && invitation.is_used);
    assert_eq!(
        invitation,
        ChannelInvitation { is_accepted: true, is_used: true, ..iv_invitation(2) }
    );
}

#[test]
fn redeem_is_for_the_invitee() {
    let mut invitation = iv_invitation(2);
    assert_eq!(redeem(&mut invitation, &iv_key(3), 2000), Err(PodComError::Unauthorized));
    assert_eq!(invitation, iv_invitation(2));
}

#[test]
fn redeem_refuses_a_used_or_accepted_invitation() {
    for (accepted, used) in [(true, false), (false, true), (true, true)] {
        let mut invitation =
            ChannelInvitation { is_accepted: accepted, is_used: used, ..iv_invitation(2) };
        let before = invitation.clone();
        assert_eq!(
            redeem(&mut invitation, &iv_key(2), 2000),
            Err(PodComError::InvitationAlreadyUsed)
        );
        assert_eq!(invitation, before);
    }
}

#[test]
fn redeem_refuses_a_lapsed_invitation() {
    let mut invitation = iv_invitation(2);
    assert_eq!(
        redeem(&mut invitation, &iv_key(2), 1000 + WEEK + 1),
        Err(PodComError::InvitationExpired)
    );
    assert_eq!(invitation, iv_invitation(2));
}

#[test]
fn redeem_refuses_an_edited_invitation() {
    let edits: [fn(&mut ChannelInvitation); 5] = [
        |i| i.nonce = 8,
        |i| i.created_at = 999,
        |i| i.inviter = iv_key(9),
        |i| i.channel = iv_key(51),
        |i| i.invitation_hash[0] ^= 1,
    ];
    for edit in edits {
        let mut invitation = iv_invitation(2);
        edit(&mut invitation);
        let before = invitation.clone();
        assert_eq!(redeem(&mut invitation, &iv_key(2), 2000), Err(PodComError::Unauthorized));
        assert_eq!(invitation, before);
    }
    // an invitation made out to another invitee by hand
    let mut forged = ChannelInvitation { invitee: iv_key(3), ..iv_invitation(2) };
    assert_eq!(redeem(&mut forged, &iv_key(3), 2000), Err(PodComError::Unauthorized));
}

#[test]
fn redeem_with_holds_the_stored_commitment_against_the_one_given() {
    let mut invitation = iv_invitation(2);
    let stored = invitation.invitation_hash;
    assert_eq!(check_redeem(&invitation, &iv_key(2), 2000, &stored), None);
    assert_eq!(
        check_redeem(&invitation, &iv_key(2), 2000, &[0u8; 32]),
        Some(PodComError::Unauthorized)
    );
    assert_eq!(
        redeem_with(&mut invitation, &iv_key(2), 2000, &[0u8; 32]),
        Err(PodComError::Unauthorized)
    );
    assert_eq!(redeem_with(&mut invitation, &iv_key(2), 2000, &stored), Ok(()));
    assert_eq!(
        redeem_with(&mut invitation, &iv_key(2), 2000, &stored),
        Err(PodComError::InvitationAlreadyUsed)
    );
    assert_eq!(
        redeem_with(&mut invitation, &iv_key(3), 2000, &stored),
        Err(PodComError::Unauthorized)
    );
}

#[test]
fn the_creator_invites_without_a_membership() {
    let mut ctx = iv_ctx(1, 2, None);
    let commitment = invite_to_channel(&mut ctx, iv_key(2), 7).unwrap();
    assert_eq!(commitment, compute_commitment(&iv_key(50), &iv_key(1), &iv_key(2), 7, 1000));
    let written = ctx.invitation_account.data.clone().unwrap();
    assert_eq!(written.invitation_hash, commitment);
    assert_eq!(written.expires_at, 1000 + WEEK);
    let mut redeemable = written;
    assert_eq!(redeem(&mut redeemable, &iv_key(2), 1001), Ok(()));
}

#[test]
fn a_member_invites_on_an_active_membership() {
    let mut ctx = iv_ctx(3, 2, Some(true));
    invite_to_channel(&mut ctx, iv_key(2), 1).unwrap();
    assert_eq!(ctx.invitation_account.data.unwrap().inviter, iv_key(3));

    for mut refused in [iv_ctx(3, 2, None), iv_ctx(3, 2, Some(false))] {
        let before = refused.clone();
        assert_eq!(
            invite_to_channel(&mut refused, iv_key(2), 1),
            Err(PodComError::Unauthorized)
        );
        assert_eq!(refused, before);
    }
    let mut misplaced = iv_ctx(3, 2, Some(true));
    misplaced.participant_account.as_mut().unwrap().key = iv_key(9);
    assert_eq!(invite_to_channel(&mut misplaced, iv_key(2), 1), Err(PodComError::Unauthorized));
}

#[test]
fn invite_refuses_foreign_identity_and_misplaced_invitation() {
    let mut ctx = iv_ctx(1, 2, None);
    ctx.agent_account.data.pubkey = iv_key(4);
    assert_eq!(invite_to_channel(&mut ctx, iv_key(2), 7), Err(PodComError::Unauthorized));
    let mut ctx = iv_ctx(1, 2, None);
    ctx.agent_account.key = iv_key(9);
    assert_eq!(invite_to_channel(&mut ctx, iv_key(2), 7), Err(PodComError::Unauthorized));
    // the address of the invitation of another invitee
    let mut ctx = iv_ctx(1, 2, None);
    assert_eq!(invite_to_channel(&mut ctx, iv_key(3), 7), Err(PodComError::Unauthorized));
}

#[test]
fn one_invitation_per_channel_and_invitee() {
    let mut ctx = iv_ctx(1, 2, None);
    invite_to_channel(&mut ctx, iv_key(2), 7).unwrap();
    let before = ctx.clone();
    assert_eq!(invite_to_channel(&mut ctx, iv_key(2), 8), Err(PodComError::AlreadyExists));
    assert_eq!(ctx, before);
}

#[test]
fn invite_refuses_a_time_whose_expiry_is_out_of_range() {
    let mut ctx = iv_ctx(1, 2, None);
    ctx.clock.unix_timestamp = i64::MAX - WEEK + 1;
    let e = InviteExpected::derive(&ctx, &iv_key(2), 7);
    assert_eq!(
        invite_to_channel_with(&mut ctx, iv_key(2), 7, &e),
        Err(PodComError::ArithmeticOverflow)
    );
    assert_eq!(ctx.invitation_account.data, None);
}
