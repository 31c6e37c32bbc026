use pod_com::address::{agent_address, message_address};
use pod_com::errors::PodComError;
use pod_com::message::{
    send_message, send_message_with, update_message_status, SendExpected, SendMessage,
    UpdateMessageStatus,
};
use pod_com::pubkey::Pubkey;
use pod_com::state::{
    Account, AgentAccount, Clock, MessageAccount, MessageStatus, MessageType, Signer,
};

const WEEK: i64 = 7 * 24 * 60 * 60;

fn ms_key(n: u8) -> Pubkey {
    Pubkey { bytes: [n; 32] }
}

fn ms_agent(owner: u8) -> Account<AgentAccount> {
    let (address, bump) = agent_address(&ms_key(owner)).unwrap();
    Account {
        key: address,
        lamports: 0,
        data: AgentAccount {
            pubkey: ms_key(owner),
            capabilities: 1,
            reputation: 100,
            last_updated: 0,
            metadata_uri: "uri://a".to_string(),
            bump,
        },
    }
}

fn ms_send_ctx(sender: u8, recipient: Pubkey, hash: [u8; 32], kind: MessageType) -> SendMessage {
    let agent = ms_agent(sender);
    let (slot, _) = message_address(&agent.key, &recipient, &hash, &kind).unwrap();
    SendMessage {
        message_account: Account { key: slot, lamports: 0, data: None },
        sender_agent: agent,
        signer: Signer { key: ms_key(sender), lamports: 0 },
        clock: Clock { unix_timestamp: 1000 },
    }
}

fn ms_status_ctx(caller: u8, status: MessageStatus, now: i64) -> UpdateMessageStatus {
    let sender = ms_agent(1);
    let recipient = ms_agent(2);
    let hash = [8u8; 32];
    let (slot, bump) =
        message_address(&sender.key, &recipient.key, &hash, &MessageType::Text).unwrap();
    UpdateMessageStatus {
        message_account: Account {
            key: slot,
            lamports: 0,
            data: MessageAccount {
                sender: sender.key,
                recipient: recipient.key,
                payload_hash: hash,
                created_at: 1000,
                expires_at: 1000 + WEEK,
                message_type: MessageType::Text,
                status,
                bump,
            },
        },
        recipient_agent: ms_agent(caller),
        signer: Signer { key: ms_key(caller), lamports: 0 },
        clock: Clock { unix_timestamp: now },
    }
}

#[test]
fn send_writes_a_pending_message_from_the_identity() {
    let recipient = ms_agent(2).key;
    let mut ctx = ms_send_ctx(1, recipient, [8u8; 32], MessageType::Data);
    let event = send_message(&mut ctx, recipient, [8u8; 32], MessageType::Data).unwrap();
    assert_eq!(event.sender, ctx.sender_agent.key);
    assert_ne!(event.sender, ms_key(1));
    assert_eq!(event.recipient, recipient);
    assert_eq!(event.message_type, MessageType::Data);
    assert_eq!(event.timestamp, 1000);
    let message = ctx.message_account.data.clone().unwrap();
    assert_eq!(message.sender, ctx.sender_agent.key);
    assert_eq!(message.recipient, recipient);
    assert_eq!(message.payload_hash, [8u8; 32]);
    assert_eq!(message.created_at, 1000);
    assert_eq!(message.expires_at, 1000 + 604800);
    assert_eq!(message.status, MessageStatus::Pending);
    assert_eq!(message.message_type, MessageType::Data);

    let before = ctx.clone();
    assert_eq!(
        send_message(&mut ctx, recipient, [8u8; 32], MessageType::Data).unwrap_err(),
        PodComError::AlreadyExists
    );
    assert_eq!(ctx, before);
}

#[test]
fn send_refuses_a_foreign_identity_or_a_misplaced_record() {
    let recipient = ms_agent(2).key;
    let mut ctx = ms_send_ctx(1, recipient, [8u8; 32], MessageType::Text);
    ctx.signer.key = ms_key(3);
    assert_eq!(
        send_message(&mut ctx, recipient, [8u8; 32], MessageType::Text).unwrap_err(),
        PodComError::Unauthorized
    );
    let mut ctx = ms_send_ctx(1, recipient, [8u8; 32], MessageType::Text);
    ctx.sender_agent.key = ms_key(9);
    assert_eq!(
        send_message(&mut ctx, recipient, [8u8; 32], MessageType::Text).unwrap_err(),
        PodComError::Unauthorized
    );
    // the record of a message with another payload
    let mut ctx = ms_send_ctx(1, recipient, [8u8; 32], MessageType::Text);
    let before = ctx.clone();
    assert_eq!(
        send_message(&mut ctx, recipient, [7u8; 32], MessageType::Text).unwrap_err(),
        PodComError::Unauthorized
    );
    assert_eq!(ctx, before);
}

#[test]
fn every_message_type_has_an_address() {
    let recipient = ms_agent(2).key;
    for kind in [
        MessageType::Text,
        MessageType::Response,
        MessageType::Custom(0),
        MessageType::Custom(251),
        MessageType::Custom(252),
        MessageType::Custom(255),
    ] {
        let mut ctx = ms_send_ctx(1, recipient, [8u8; 32], kind);
        send_message(&mut ctx, recipient, [8u8; 32], kind).unwrap();
        assert_eq!(ctx.message_account.data.unwrap().message_type, kind);
    }
    // the record of a message of another type is out of place
    let mut ctx = ms_send_ctx(1, recipient, [8u8; 32], MessageType::Custom(251));
    assert_eq!(
        send_message(&mut ctx, recipient, [8u8; 32], MessageType::Custom(252)).unwrap_err(),
        PodComError::Unauthorized
    );
}

#[test]
fn send_refuses_a_time_whose_expiry_is_out_of_range() {
    let recipient = ms_agent(2).key;
    let mut ctx = ms_send_ctx(1, recipient, [8u8; 32], MessageType::Text);
    ctx.clock.unix_timestamp = i64::MAX - 604800 + 1;
    let e = SendExpected::derive(&ctx, &recipient, &[8u8; 32], &MessageType::Text);
    assert_eq!(
        send_message_with(&mut ctx, recipient, [8u8; 32], MessageType::Text, &e).unwrap_err(),
        PodComError::ArithmeticOverflow
    );
    ctx.clock.unix_timestamp = i64::MAX - 604800;
    send_message(&mut ctx, recipient, [8u8; 32], MessageType::Text).unwrap();
    assert_eq!(ctx.message_account.data.unwrap().expires_at, i64::MAX);
}

#[test]
fn recipient_marks_delivered_or_read() {
    for target in [MessageStatus::Delivered, MessageStatus::Read] {
        let mut ctx = ms_status_ctx(2, MessageStatus::Pending, 2000);
        update_message_status(&mut ctx, target).unwrap();
        assert_eq!(ctx.message_account.data.status, target);

        let mut ctx = ms_status_ctx(1, MessageStatus::Pending, 2000);
        let before = ctx.clone();
        assert_eq!(update_message_status(&mut ctx, target).unwrap_err(), PodComError::Unauthorized);
        assert_eq!(ctx, before);
    }
}

#[test]
fn sender_or_recipient_marks_failed() {
    for caller in [1u8, 2u8] {
        for current in [MessageStatus::Pending, MessageStatus::Delivered, MessageStatus::Read] {
            let mut ctx = ms_status_ctx(caller, current, 2000);
            update_message_status(&mut ctx, MessageStatus::Failed).unwrap();
            assert_eq!(ctx.message_account.data.status, MessageStatus::Failed);
        }
    }
    let mut ctx = ms_status_ctx(3, MessageStatus::Pending, 2000);
    assert_eq!(
        update_message_status(&mut ctx, MessageStatus::Failed).unwrap_err(),
        PodComError::Unauthorized
    );
}

#[test]
fn steps_outside_the_state_machine_are_refused() {
    let cases = [
        (MessageStatus::Pending, MessageStatus::Pending),
        (MessageStatus::Delivered, MessageStatus::Pending),
        (MessageStatus::Delivered, MessageStatus::Delivered),
        (MessageStatus::Delivered, MessageStatus::Read),
        (MessageStatus::Read, MessageStatus::Delivered),
        (MessageStatus::Read, MessageStatus::Read),
        (MessageStatus::Failed, MessageStatus::Pending),
        (MessageStatus::Failed, MessageStatus::Delivered),
        (MessageStatus::Failed, MessageStatus::Read),
        (MessageStatus::Failed, MessageStatus::Failed),
    ];
    for (current, target) in cases {
        let mut ctx = ms_status_ctx(2, current, 2000);
        let before = ctx.clone();
        assert_eq!(
            update_message_status(&mut ctx, target).unwrap_err(),
            PodComError::InvalidMessageStatusTransition
        );
        assert_eq!(ctx, before);
    }
}

#[test]
fn nothing_moves_after_expiry() {
    for target in [
        MessageStatus::Pending,
        MessageStatus::Delivered,
        MessageStatus::Read,
        MessageStatus::Failed,
    ] {
        let mut ctx = ms_status_ctx(2, MessageStatus::Pending, 1000 + WEEK + 1);
        assert_eq!(
            update_message_status(&mut ctx, target).unwrap_err(),
            PodComError::MessageExpired
        );
    }
    let mut ctx = ms_status_ctx(2, MessageStatus::Pending, 1000 + WEEK);
    update_message_status(&mut ctx, MessageStatus::Read).unwrap();
}

#[test]
fn status_update_refuses_misplaced_records() {
    let mut ctx = ms_status_ctx(2, MessageStatus::Pending, 2000);
    ctx.message_account.key = ms_key(9);
    assert_eq!(
        update_message_status(&mut ctx, MessageStatus::Read).unwrap_err(),
        PodComError::Unauthorized
    );
    let mut ctx = ms_status_ctx(2, MessageStatus::Pending, 2000);
    ctx.message_account.data.payload_hash = [0u8; 32];
    assert_eq!(
        update_message_status(&mut ctx, MessageStatus::Read).unwrap_err(),
        PodComError::Unauthorized
    );
    let mut ctx = ms_status_ctx(2, MessageStatus::Pending, 2000);
    ctx.recipient_agent.key = ms_key(9);
    assert_eq!(
        update_message_status(&mut ctx, MessageStatus::Read).unwrap_err(),
        PodComError::Unauthorized
    );
    // misplaced records come before expiry
    let mut ctx = ms_status_ctx(2, MessageStatus::Pending, 1000 + WEEK + 1);
    ctx.message_account.key = ms_key(9);
    assert_eq!(
        update_message_status(&mut ctx, MessageStatus::Read).unwrap_err(),
        PodComError::Unauthorized
    );
}
