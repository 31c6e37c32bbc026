use pod_com::address::{
    agent_address, escrow_address, invitation_address, participant_address,
};
use pod_com::errors::PodComError;
use pod_com::hashing::compute_commitment;
use pod_com::membership::{
    join_channel, join_channel_compressed, join_channel_compressed_with, join_channel_with,
    leave_channel, CompressedJoinExpected, JoinChannel, JoinChannelCompressed, JoinExpected,
    LeaveChannel,
};
use pod_com::pubkey::Pubkey;
use pod_com::state::{
    Account, AgentAccount, ChannelAccount, ChannelInvitation, ChannelParticipant,
    ChannelVisibility, Clock, CompressedChannelParticipant, EscrowAccount, Signer,
};

fn mb_key(n: u8) -> Pubkey {
    Pubkey { bytes: [n; 32] }
}

fn mb_agent(owner: u8) -> Account<AgentAccount> {
    let (address, bump) = agent_address(&mb_key(owner)).unwrap();
    Account {
        key: address,
        lamports: 0,
        data: AgentAccount {
            pubkey: mb_key(owner),
            capabilities: 1,
            reputation: 100,
            last_updated: 0,
            metadata_uri: "uri://a".to_string(),
            bump,
        },
    }
}

fn mb_channel(visibility: ChannelVisibility, fee: u64) -> Account<ChannelAccount> {
    Account {
        key: mb_key(50),
        lamports: 0,
        data: ChannelAccount {
            creator: mb_key(1),
            fee_per_message: fee,
            escrow_balance: 100,
            created_at: 900,
            max_participants: 3,
            current_participants: 1,
            name: "general".to_string(),
            description: "talk".to_string(),
            visibility,
            is_active: true,
            bump: 255,
        },
    }
}

fn mb_escrow(depositor: u8, amount: u64) -> Account<EscrowAccount> {
    let (address, bump) = escrow_address(&mb_key(50), &mb_key(depositor)).unwrap();
    Account {
        key: address,
        lamports: amount,
        data: EscrowAccount {
            channel: mb_key(50),
            depositor: mb_key(depositor),
            amount,
            created_at: 900,
            bump,
        },
    }
}

fn mb_invitation(invitee: u8) -> Account<ChannelInvitation> {
    let (address, bump) = invitation_address(&mb_key(50), &mb_key(invitee)).unwrap();
    Account {
        key: address,
        lamports: 0,
        data: ChannelInvitation {
            channel: mb_key(50),
            inviter: mb_key(1),
            invitee: mb_key(invitee),
            invitation_hash: compute_commitment(&mb_key(50), &mb_key(1), &mb_key(invitee), 7, 950),
            created_at: 950,
            expires_at: 950 + 604800,
            nonce: 7,
            is_accepted: false,
            is_used: false,
            bump,
        },
    }
}

fn mb_join(
    visibility: ChannelVisibility,
    fee: u64,
    escrow: Option<Account<EscrowAccount>>,
    invitation: Option<Account<ChannelInvitation>>,
) -> JoinChannel {
    let agent = mb_agent(2);
    let (slot, _) = participant_address(&mb_key(50), &agent.key).unwrap();
    JoinChannel {
        channel_account: mb_channel(visibility, fee),
        participant_account: Account { key: slot, lamports: 0, data: None },
        agent_account: agent,
        invitation_account: invitation,
        escrow_account: escrow,
        user: Signer { key: mb_key(2), lamports: 0 },
        clock: Clock { unix_timestamp: 1000 },
    }
}

fn mb_refused(mut ctx: JoinChannel, error: PodComError) {
    let before = ctx.clone();
    assert_eq!(join_channel(&mut ctx).unwrap_err(), error);
    assert_eq!(ctx, before);
}

#[test]
fn join_with_fee_and_invitation_settles_everything_at_once() {
    let mut ctx =
        mb_join(ChannelVisibility::Private, 10, Some(mb_escrow(2, 25)), Some(mb_invitation(2)));
    let (_, bump) =
        participant_address(&ctx.channel_account.key, &ctx.agent_account.key).unwrap();
    let event = join_channel(&mut ctx).unwrap();
    assert_eq!(event.channel, mb_key(50));
    assert_eq!(event.participant, ctx.agent_account.key);
    assert_eq!(event.timestamp, 1000);
    assert_eq!(ctx.escrow_account.as_ref().unwrap().data.amount, 15);
    assert_eq!(ctx.escrow_account.as_ref().unwrap().lamports, 25);
    assert_eq!(ctx.channel_account.data.escrow_balance, 110);
    assert_eq!(ctx.channel_account.data.current_participants, 2);
    let invitation = ctx.invitation_account.as_ref().unwrap();
    assert!(invitation.data.is_accepted && invitation.data.is_used);
    assert_eq!(
        ctx.participant_account.data,
        Some(ChannelParticipant {
            channel: mb_key(50),
            participant: ctx.agent_account.key,
            joined_at: 1000,
            messages_sent: 0,
            last_message_at: 0,
            is_active: true,
            bump,
        })
    );
}

#[test]
fn a_free_public_channel_touches_neither_escrow_nor_invitation() {
    let mut ctx =
        mb_join(ChannelVisibility::Public, 0, Some(mb_escrow(2, 25)), Some(mb_invitation(2)));
    join_channel(&mut ctx).unwrap();
    assert_eq!(ctx.escrow_account, Some(mb_escrow(2, 25)));
    assert_eq!(ctx.invitation_account, Some(mb_invitation(2)));
    assert_eq!(ctx.channel_account.data.escrow_balance, 100);
    assert_eq!(ctx.channel_account.data.current_participants, 2);
}

#[test]
fn join_refuses_a_foreign_identity() {
    let mut ctx = mb_join(ChannelVisibility::Public, 0, None, None);
    ctx.agent_account = mb_agent(3);
    mb_refused(ctx, PodComError::Unauthorized);
    let mut ctx = mb_join(ChannelVisibility::Public, 0, None, None);
    ctx.agent_account.key = mb_key(9);
    mb_refused(ctx, PodComError::Unauthorized);
}

#[test]
fn join_refuses_a_full_channel_first() {
    let mut ctx = mb_join(ChannelVisibility::Private, 10, None, None);
    ctx.channel_account.data.current_participants = 3;
    mb_refused(ctx, PodComError::ChannelFull);
    let mut ctx = mb_join(ChannelVisibility::Public, 0, None, None);
    ctx.channel_account.data.current_participants = 4;
    mb_refused(ctx, PodComError::ChannelFull);
}

#[test]
fn join_fee_step_refusals() {
    mb_refused(mb_join(ChannelVisibility::Public, 10, None, None), PodComError::InsufficientFunds);
    mb_refused(
        mb_join(ChannelVisibility::Public, 10, Some(mb_escrow(2, 9)), None),
        PodComError::InsufficientFunds,
    );
    // somebody else's escrow, at its own address
    mb_refused(
        mb_join(ChannelVisibility::Public, 10, Some(mb_escrow(3, 25)), None),
        PodComError::Unauthorized,
    );
    // somebody else's escrow, made out to the user by hand
    let mut forged = mb_escrow(3, 25);
    forged.data.depositor = mb_key(2);
    mb_refused(
        mb_join(ChannelVisibility::Public, 10, Some(forged), None),
        PodComError::Unauthorized,
    );
    // the user's escrow address holding somebody else's record
    let mut foreign = mb_escrow(2, 25);
    foreign.data.depositor = mb_key(3);
    mb_refused(
        mb_join(ChannelVisibility::Public, 10, Some(foreign), None),
        PodComError::Unauthorized,
    );
    let mut ctx = mb_join(ChannelVisibility::Public, 10, Some(mb_escrow(2, 25)), None);
    ctx.channel_account.data.escrow_balance = u64::MAX - 9;
    mb_refused(ctx, PodComError::ArithmeticOverflow);
}

#[test]
fn join_invitation_step_refusals() {
    mb_refused(
        mb_join(ChannelVisibility::Private, 0, None, None),
        PodComError::PrivateChannelRequiresInvitation,
    );
    // the invitation of another invitee, at its own address
    mb_refused(
        mb_join(ChannelVisibility::Private, 0, None, Some(mb_invitation(3))),
        PodComError::Unauthorized,
    );
    let mut used = mb_invitation(2);
    used.data.is_used = true;
    mb_refused(
        mb_join(ChannelVisibility::Private, 0, None, Some(used)),
        PodComError::InvitationAlreadyUsed,
    );
    let mut edited = mb_invitation(2);
    edited.data.nonce = 8;
    mb_refused(
        mb_join(ChannelVisibility::Private, 0, None, Some(edited)),
        PodComError::Unauthorized,
    );
    let mut lapsed = mb_join(ChannelVisibility::Private, 0, None, Some(mb_invitation(2)));
    lapsed.clock.unix_timestamp = 950 + 604800 + 1;
    mb_refused(lapsed, PodComError::InvitationExpired);
}

#[test]
fn a_refused_invitation_leaves_the_fee_where_it_was() {
    let mut used = mb_invitation(2);
    used.data.is_accepted = true;
    mb_refused(
        mb_join(ChannelVisibility::Private, 10, Some(mb_escrow(2, 25)), Some(used)),
        PodComError::InvitationAlreadyUsed,
    );
}

#[test]
fn join_refuses_a_misplaced_or_existing_membership() {
    let mut ctx = mb_join(ChannelVisibility::Public, 10, Some(mb_escrow(2, 25)), None);
    ctx.participant_account.key = mb_key(9);
    mb_refused(ctx, PodComError::Unauthorized);
    let mut ctx = mb_join(ChannelVisibility::Public, 10, Some(mb_escrow(2, 25)), None);
    join_channel(&mut ctx).unwrap();
    mb_refused(ctx, PodComError::AlreadyInChannel);
}

#[test]
fn join_with_is_decided_by_what_is_handed_in() {
    let mut ctx =
        mb_join(ChannelVisibility::Private, 10, Some(mb_escrow(2, 25)), Some(mb_invitation(2)));
    let good = JoinExpected::derive(&ctx);
    assert_eq!(good.commitment, Some(ctx.invitation_account.as_ref().unwrap().data.invitation_hash));
    for bad in [
        JoinExpected { agent: None, ..good },
        JoinExpected { escrow: None, ..good },
        JoinExpected { invitation: None, ..good },
        JoinExpected { commitment: None, ..good },
        JoinExpected { commitment: Some([0u8; 32]), ..good },
        JoinExpected { participant: Some((mb_key(9), 1)), ..good },
    ] {
        let before = ctx.clone();
        assert_eq!(join_channel_with(&mut ctx, &bad).unwrap_err(), PodComError::Unauthorized);
        assert_eq!(ctx, before);
    }
    join_channel_with(&mut ctx, &good).unwrap();
}

#[test]
fn leave_gives_the_seat_back_once() {
    let mut join = mb_join(ChannelVisibility::Public, 0, None, None);
    join_channel(&mut join).unwrap();
    let mut ctx = LeaveChannel {
        channel_account: join.channel_account,
        participant_account: Account {
            key: join.participant_account.key,
            lamports: 0,
            data: join.participant_account.data.unwrap(),
        },
        agent_account: join.agent_account,
        user: join.user,
    };
    assert_eq!(leave_channel(&mut ctx), Ok(()));
    assert!(!ctx.participant_account.data.is_active);
    assert_eq!(ctx.channel_account.data.current_participants, 1);
    let before = ctx.clone();
    assert_eq!(leave_channel(&mut ctx), Err(PodComError::NotInChannel));
    assert_eq!(ctx, before);
}

#[test]
fn leave_refusals() {
    let mut join = mb_join(ChannelVisibility::Public, 0, None, None);
    join_channel(&mut join).unwrap();
    let ctx = LeaveChannel {
        channel_account: join.channel_account,
        participant_account: Account {
            key: join.participant_account.key,
            lamports: 0,
            data: join.participant_account.data.unwrap(),
        },
        agent_account: join.agent_account,
        user: join.user,
    };
    let mut foreign = ctx.clone();
    foreign.user.key = mb_key(3);
    assert_eq!(leave_channel(&mut foreign), Err(PodComError::Unauthorized));
    let mut misplaced = ctx.clone();
    misplaced.participant_account.key = mb_key(9);
    assert_eq!(leave_channel(&mut misplaced), Err(PodComError::Unauthorized));
    let mut renamed = ctx.clone();
    renamed.participant_account.data.participant = mb_key(9);
    assert_eq!(leave_channel(&mut renamed), Err(PodComError::Unauthorized));
    let mut empty = ctx.clone();
    empty.channel_account.data.current_participants = 0;
    assert_eq!(leave_channel(&mut empty), Err(PodComError::ArithmeticOverflow));
}

fn mb_compressed(
    visibility: ChannelVisibility,
    fee: u64,
    escrow: Option<Account<EscrowAccount>>,
    invitation: Option<Account<ChannelInvitation>>,
) -> JoinChannelCompressed {
    JoinChannelCompressed {
        channel_account: mb_channel(visibility, fee),
        agent_account: mb_agent(2),
        invitation_account: invitation,
        escrow_account: escrow,
        authority: Signer { key: mb_key(2), lamports: 0 },
        clock: Clock { unix_timestamp: 1000 },
    }
}

#[test]
fn compressed_join_hands_back_the_membership_and_its_bytes() {
    let mut ctx = mb_compressed(
        ChannelVisibility::Private,
        10,
        Some(mb_escrow(2, 25)),
        Some(mb_invitation(2)),
    );
    let joined = join_channel_compressed(&mut ctx, [6u8; 32]).unwrap();
    assert_eq!(joined.event.channel, mb_key(50));
    assert_eq!(joined.event.participant, ctx.agent_account.key);
    assert_eq!(joined.event.timestamp, 1000);
    assert_eq!(
        joined.participant,
        CompressedChannelParticipant {
            channel: mb_key(50),
            participant: ctx.agent_account.key,
            joined_at: 1000,
            messages_sent: 0,
            last_message_at: 0,
            metadata_hash: [6u8; 32],
        }
    );
    assert_eq!(joined.account_data, joined.participant.hash_input());
    assert_eq!(joined.account_data.len(), 120);
    assert_eq!(&joined.account_data[64..72], &1000i64.to_le_bytes());
    assert_eq!(ctx.channel_account.data.current_participants, 2);
    assert_eq!(ctx.channel_account.data.escrow_balance, 110);
    assert_eq!(ctx.escrow_account.as_ref().unwrap().data.amount, 15);
    assert!(ctx.invitation_account.as_ref().unwrap().data.is_used);
}

#[test]
fn compressed_join_refusals() {
    let refused = |mut ctx: JoinChannelCompressed, error: PodComError| {
        let before = ctx.clone();
        assert_eq!(join_channel_compressed(&mut ctx, [6u8; 32]).unwrap_err(), error);
        assert_eq!(ctx, before);
    };
    let mut foreign = mb_compressed(ChannelVisibility::Public, 0, None, None);
    foreign.authority.key = mb_key(3);
    refused(foreign, PodComError::Unauthorized);
    let mut full = mb_compressed(ChannelVisibility::Public, 0, None, None);
    full.channel_account.data.current_participants = 3;
    refused(full, PodComError::ChannelFull);
    refused(
        mb_compressed(ChannelVisibility::Public, 10, None, None),
        PodComError::InsufficientFunds,
    );
    refused(
        mb_compressed(ChannelVisibility::Public, 10, Some(mb_escrow(3, 25)), None),
        PodComError::Unauthorized,
    );
    refused(
        mb_compressed(ChannelVisibility::Private, 0, None, None),
        PodComError::PrivateChannelRequiresInvitation,
    );
    let mut used = mb_invitation(2);
    used.data.is_used = true;
    refused(
        mb_compressed(ChannelVisibility::Private, 0, None, Some(used)),
        PodComError::InvitationAlreadyUsed,
    );
}

#[test]
fn compressed_join_without_serialised_bytes_is_refused() {
    let mut ctx = mb_compressed(ChannelVisibility::Public, 10, Some(mb_escrow(2, 25)), None);
    let e = CompressedJoinExpected::derive(&ctx);
    let before = ctx.clone();
    assert_eq!(
        join_channel_compressed_with(&mut ctx, [6u8; 32], &e, None).unwrap_err(),
        PodComError::SerializationFailed
    );
    assert_eq!(ctx, before);
    let joined = join_channel_compressed_with(&mut ctx, [6u8; 32], &e, Some(vec![1, 2, 3])).unwrap();
    assert_eq!(joined.account_data, vec![1, 2, 3]);
}
