use pod_com::address::{agent_address, channel_address, participant_address};
use pod_com::channel::{
    check_settings, create_channel, create_channel_v2, create_channel_with,
    get_channel_participants, update_channel, CreateChannel, CreateChannelV2,
    GetChannelParticipants, UpdateChannel,
};
use pod_com::errors::PodComError;
use pod_com::pubkey::Pubkey;
use pod_com::state::{
    Account, AgentAccount, ChannelAccount, ChannelParticipant, ChannelVisibility, Clock, Signer,
};

fn ch_key(n: u8) -> Pubkey {
    Pubkey { bytes: [n; 32] }
}

fn ch_create_ctx(creator: u8, name: &str) -> CreateChannel {
    let slot = channel_address(&ch_key(creator), name).map(|d| d.0).unwrap_or(ch_key(0));
    CreateChannel {
        channel_account: Account { key: slot, lamports: 7, data: None },
        creator: Signer { key: ch_key(creator), lamports: 0 },
        clock: Clock { unix_timestamp: 1000 },
    }
}

fn ch_create(
    ctx: &mut CreateChannel,
    name: &str,
    description: &str,
    max: u32,
    fee: u64,
) -> Result<(), PodComError> {
    create_channel(
        ctx,
        name.to_string(),
        description.to_string(),
        ChannelVisibility::Public,
        max,
        fee,
    )
    .map(|_| ())
}

fn ch_channel(creator: u8) -> Account<ChannelAccount> {
    Account {
        key: ch_key(50),
        lamports: 0,
        data: ChannelAccount {
            creator: ch_key(creator),
            fee_per_message: 3,
            escrow_balance: 0,
            created_at: 1000,
            max_participants: 10,
            current_participants: 4,
            name: "general".to_string(),
            description: "talk".to_string(),
            visibility: ChannelVisibility::Public,
            is_active: true,
            bump: 255,
        },
    }
}

fn ch_v2_ctx(creator: u8, name: &str, reputation: u64) -> CreateChannelV2 {
    let (agent_key, agent_bump) = agent_address(&ch_key(creator)).unwrap();
    let (channel_key, _) = channel_address(&ch_key(creator), name).unwrap();
    let (member_key, _) = participant_address(&channel_key, &agent_key).unwrap();
    CreateChannelV2 {
        agent_account: Account {
            key: agent_key,
            lamports: 0,
            data: AgentAccount {
                pubkey: ch_key(creator),
                capabilities: 1,
                reputation,
                last_updated: 0,
                metadata_uri: "uri://a".to_string(),
                bump: agent_bump,
            },
        },
        channel_account: Account { key: channel_key, lamports: 0, data: None },
        participant_account: Account { key: member_key, lamports: 0, data: None },
        creator: Signer { key: ch_key(creator), lamports: 0 },
        clock: Clock { unix_timestamp: 1000 },
    }
}

#[test]
fn create_writes_the_channel_trimmed() {
    let name = " general ";
    let (_, bump) = channel_address(&ch_key(1), name).unwrap();
    let mut ctx = ch_create_ctx(1, name);
    let event = create_channel(
        &mut ctx,
        name.to_string(),
        "  a place to talk\n".to_string(),
        ChannelVisibility::Private,
        25,
        1_000_000_000,
    )
    .unwrap();
    assert_eq!(event.channel, ctx.channel_account.key);
    assert_eq!(event.creator, ch_key(1));
    assert_eq!(event.name, "general");
    assert_eq!(event.visibility, ChannelVisibility::Private);
    assert_eq!(event.timestamp, 1000);
    assert_eq!(ctx.channel_account.lamports, 7);
    assert_eq!(
        ctx.channel_account.data,
        Some(ChannelAccount {
            creator: ch_key(1),
            fee_per_message: 1_000_000_000,
            escrow_balance: 0,
            created_at: 1000,
            max_participants: 25,
            current_participants: 1,
            name: "general".to_string(),
            description: "a place to talk".to_string(),
            visibility: ChannelVisibility::Private,
            is_active: true,
            bump,
        })
    );
}

#[test]
fn create_refuses_bad_settings() {
    let cases: [(&str, &str, u32, u64, PodComError); 9] = [
        (" ", "talk", 10, 0, PodComError::EmptyChannelName),
        ("", "talk", 10, 0, PodComError::EmptyChannelName),
        ("general", " \t", 10, 0, PodComError::EmptyChannelDescription),
        ("general", "", 10, 0, PodComError::EmptyChannelDescription),
        ("general", "talk", 0, 0, PodComError::InvalidParticipantLimit),
        ("general", "talk", 1001, 0, PodComError::InvalidParticipantLimit),
        ("general", "talk", 10, 1_000_000_001, PodComError::FeeTooHigh),
        ("general", "talk", 0, u64::MAX, PodComError::InvalidParticipantLimit),
        (" ", "", 0, u64::MAX, PodComError::EmptyChannelName),
    ];
    for (name, description, max, fee, error) in cases {
        let mut ctx = ch_create_ctx(1, name);
        let before = ctx.clone();
        assert_eq!(ch_create(&mut ctx, name, description, max, fee), Err(error));
        assert_eq!(ctx, before);
    }
    let mut ctx = ch_create_ctx(1, "general");
    assert_eq!(
        ch_create(&mut ctx, "general", &"d".repeat(201), 10, 0),
        Err(PodComError::ChannelDescriptionTooLong)
    );
    assert_eq!(ch_create(&mut ctx, "general", &"d".repeat(200), 1000, 1_000_000_000), Ok(()));
}

#[test]
fn name_limit_is_fifty_bytes_where_the_address_is_handed_in() {
    let long = "n".repeat(51);
    let mut ctx = ch_create_ctx(1, "general");
    ctx.channel_account.key = ch_key(9);
    let r = create_channel_with(
        &mut ctx,
        long,
        "talk".to_string(),
        ChannelVisibility::Public,
        10,
        0,
        &Some((ch_key(9), 1)),
    );
    assert_eq!(r.unwrap_err(), PodComError::ChannelNameTooLong);
    let r = create_channel_with(
        &mut ctx,
        "n".repeat(50),
        "talk".to_string(),
        ChannelVisibility::Public,
        10,
        0,
        &Some((ch_key(9), 1)),
    );
    assert_eq!(r.unwrap().name.len(), 50);
    assert_eq!(check_settings(&"n".repeat(51), "talk", 10, 0), Some(PodComError::ChannelNameTooLong));
    assert_eq!(check_settings(&"n".repeat(50), "talk", 10, 0), None);
}

#[test]
fn every_name_of_up_to_fifty_bytes_has_an_address() {
    for len in [1usize, 31, 32, 33, 49, 50] {
        let name = "n".repeat(len);
        let mut ctx = ch_create_ctx(1, &name);
        assert_eq!(ch_create(&mut ctx, &name, "talk", 10, 0), Ok(()));
        assert_eq!(ctx.channel_account.data.unwrap().name.len(), len);
    }
    for len in [51usize, 64, 65, 200] {
        let name = "n".repeat(len);
        let mut ctx = ch_create_ctx(1, &name);
        let before = ctx.clone();
        assert_eq!(ch_create(&mut ctx, &name, "talk", 10, 0), Err(PodComError::ChannelNameTooLong));
        assert_eq!(ctx, before);
    }
}

#[test]
fn a_bad_name_is_reported_before_the_address() {
    let mut ctx = ch_create_ctx(1, "general");
    ctx.channel_account.key = ch_key(9);
    assert_eq!(ch_create(&mut ctx, " ", "talk", 10, 0), Err(PodComError::EmptyChannelName));
    assert_eq!(
        ch_create(&mut ctx, &"n".repeat(51), "talk", 10, 0),
        Err(PodComError::ChannelNameTooLong)
    );
    assert_eq!(ch_create(&mut ctx, "general", "", 0, 0), Err(PodComError::Unauthorized));
}

#[test]
fn create_refuses_a_misplaced_or_occupied_record() {
    let mut ctx = ch_create_ctx(1, "general");
    ctx.channel_account.key = ch_key(9);
    assert_eq!(ch_create(&mut ctx, "general", "talk", 10, 0), Err(PodComError::Unauthorized));
    // the address of a channel of another name
    let mut ctx = ch_create_ctx(1, "general");
    assert_eq!(ch_create(&mut ctx, "random", "talk", 10, 0), Err(PodComError::Unauthorized));
    let mut ctx = ch_create_ctx(1, "general");
    assert_eq!(ch_create(&mut ctx, "general", "talk", 10, 0), Ok(()));
    let before = ctx.clone();
    assert_eq!(ch_create(&mut ctx, "general", "other", 20, 5), Err(PodComError::AlreadyExists));
    assert_eq!(ctx, before);
}

#[test]
fn gated_creation_writes_channel_and_membership() {
    let mut ctx = ch_v2_ctx(1, "general", 50);
    let (_, member_bump) = participant_address(&ctx.channel_account.key, &ctx.agent_account.key)
        .unwrap();
    let event = create_channel_v2(
        &mut ctx,
        "general".to_string(),
        "talk".to_string(),
        ChannelVisibility::Public,
        10,
        0,
    )
    .unwrap();
    assert_eq!(event.name, "general");
    let channel = ctx.channel_account.data.clone().unwrap();
    assert_eq!(channel.current_participants, 1);
    assert_eq!(channel.creator, ch_key(1));
    assert!(channel.is_active);
    assert_eq!(
        ctx.participant_account.data,
        Some(ChannelParticipant {
            channel: ctx.channel_account.key,
            participant: ctx.agent_account.key,
            joined_at: 1000,
            messages_sent: 0,
            last_message_at: 0,
            is_active: true,
            bump: member_bump,
        })
    );
}

#[test]
fn gated_creation_needs_reputation() {
    let mut ctx = ch_v2_ctx(1, "general", 49);
    let before = ctx.clone();
    let r = create_channel_v2(
        &mut ctx,
        "general".to_string(),
        "talk".to_string(),
        ChannelVisibility::Public,
        10,
        0,
    );
    assert_eq!(r.unwrap_err(), PodComError::InsufficientReputation);
    assert_eq!(ctx, before);
}

#[test]
fn gated_creation_refuses_what_creation_refuses() {
    let attempt = |ctx: &mut CreateChannelV2, description: &str, max: u32, fee: u64| {
        create_channel_v2(
            ctx,
            "general".to_string(),
            description.to_string(),
            ChannelVisibility::Public,
            max,
            fee,
        )
        .map(|_| ())
    };
    let mut ctx = ch_v2_ctx(1, "general", 100);
    assert_eq!(attempt(&mut ctx, "", 10, 0), Err(PodComError::EmptyChannelDescription));
    assert_eq!(attempt(&mut ctx, "talk", 0, 0), Err(PodComError::InvalidParticipantLimit));
    assert_eq!(attempt(&mut ctx, "talk", 10, 1_000_000_001), Err(PodComError::FeeTooHigh));
    let mut misplaced = ch_v2_ctx(1, "general", 100);
    misplaced.participant_account.key = ch_key(9);
    assert_eq!(attempt(&mut misplaced, "talk", 10, 0), Err(PodComError::Unauthorized));
    let mut foreign = ch_v2_ctx(1, "general", 100);
    foreign.agent_account.data.pubkey = ch_key(2);
    assert_eq!(attempt(&mut foreign, "talk", 10, 0), Err(PodComError::Unauthorized));
    let mut taken = ch_v2_ctx(1, "general", 100);
    taken.participant_account.data = Some(ChannelParticipant {
        channel: ch_key(0),
        participant: ch_key(0),
        joined_at: 0,
        messages_sent: 0,
        last_message_at: 0,
        is_active: false,
        bump: 0,
    });
    assert_eq!(attempt(&mut taken, "talk", 10, 0), Err(PodComError::AlreadyInChannel));
    assert_eq!(attempt(&mut ctx, "talk", 10, 0), Ok(()));
    assert_eq!(attempt(&mut ctx, "talk", 10, 0), Err(PodComError::AlreadyExists));
}

#[test]
fn update_is_for_the_creator() {
    let mut ctx =
        UpdateChannel { channel_account: ch_channel(1), signer: Signer { key: ch_key(2), lamports: 0 } };
    let before = ctx.clone();
    assert_eq!(
        update_channel(&mut ctx, None, None, None, None, Some(false)),
        Err(PodComError::Unauthorized)
    );
    assert_eq!(ctx, before);
}

#[test]
fn update_replaces_each_given_value() {
    let mut ctx =
        UpdateChannel { channel_account: ch_channel(1), signer: Signer { key: ch_key(1), lamports: 0 } };
    update_channel(
        &mut ctx,
        Some("random".to_string()),
        Some("anything".to_string()),
        Some(4),
        Some(0),
        Some(false),
    )
    .unwrap();
    let c = &ctx.channel_account.data;
    assert_eq!(c.name, "random");
    assert_eq!(c.description, "anything");
    assert_eq!(c.max_participants, 4);
    assert_eq!(c.fee_per_message, 0);
    assert!(!c.is_active);
    assert_eq!(c.current_participants, 4);

    update_channel(&mut ctx, None, None, None, None, Some(true)).unwrap();
    let c = &ctx.channel_account.data;
    assert_eq!(c.name, "random");
    assert_eq!(c.max_participants, 4);
    assert!(c.is_active);
}

#[test]
fn update_holds_values_to_the_limits_of_creation() {
    let cases: [(Option<&str>, Option<&str>, Option<u32>, Option<u64>, PodComError); 8] = [
        (Some(" "), None, None, None, PodComError::EmptyChannelName),
        (Some("nnnnnnnnnnnnnnnnnnnnnnnnnnnnnnnnnnnnnnnnnnnnnnnnnnn"), None, None, None, PodComError::ChannelNameTooLong),
        (None, Some(""), None, None, PodComError::EmptyChannelDescription),
        (None, None, Some(0), None, PodComError::InvalidParticipantLimit),
        (None, None, Some(1001), None, PodComError::InvalidParticipantLimit),
        (None, None, Some(3), None, PodComError::ChannelFull),
        (None, None, None, Some(1_000_000_001), PodComError::FeeTooHigh),
        (Some("ok"), Some("ok"), Some(3), Some(1), PodComError::ChannelFull),
    ];
    for (name, description, max, fee, error) in cases {
        let mut ctx = UpdateChannel {
            channel_account: ch_channel(1),
            signer: Signer { key: ch_key(1), lamports: 0 },
        };
        let before = ctx.clone();
        let r = update_channel(
            &mut ctx,
            name.map(|s| s.to_string()),
            description.map(|s| s.to_string()),
            max,
            fee,
            Some(false),
        );
        assert_eq!(r, Err(error));
        assert_eq!(ctx, before);
    }
    let mut ctx =
        UpdateChannel { channel_account: ch_channel(1), signer: Signer { key: ch_key(1), lamports: 0 } };
    assert_eq!(
        update_channel(&mut ctx, None, Some("d".repeat(201)), None, None, None),
        Err(PodComError::ChannelDescriptionTooLong)
    );
}

#[test]
fn participants_are_listed_elsewhere() {
    let mut ctx = GetChannelParticipants { channel_account: ch_channel(1) };
    assert_eq!(get_channel_participants(&ctx), Ok(vec![]));
    ctx.channel_account.data.is_active = false;
    assert_eq!(get_channel_participants(&ctx), Err(PodComError::ChannelInactive));
}
