use light_hasher::{Hasher, Poseidon};
use pod_com::errors::PodComError;
use pod_com::hashing::{
    compute_commitment, digest_or_failed, hash_packed, pack_invitation, secure_hash_data,
    HashAlgorithm,
};
use pod_com::pubkey::Pubkey;
use pod_com::secure::{constant_time_equals, digests_equal, SecureBuffer};
use pod_com::state::{CompressedChannelMessage, CompressedChannelParticipant, MessageType};

fn hs_key(n: u8) -> Pubkey {
    Pubkey { bytes: [n; 32] }
}

fn hs_hex(s: &str) -> Vec<u8> {
    (0..s.len()).step_by(2).map(|i| u8::from_str_radix(&s[i..i + 2], 16).unwrap()).collect()
}

#[test]
fn invitation_preimage_layout() {
    let bytes = pack_invitation(&hs_key(1), &hs_key(2), &hs_key(3), 7, -2);
    assert_eq!(bytes.len(), 32 + 32 + 32 + 8 + 8);
    assert_eq!(&bytes[0..32], &[1u8; 32]);
    assert_eq!(&bytes[32..64], &[2u8; 32]);
    assert_eq!(&bytes[64..96], &[3u8; 32]);
    assert_eq!(&bytes[96..104], &[7, 0, 0, 0, 0, 0, 0, 0]);
    assert_eq!(&bytes[104..112], &[0xfe, 0xff, 0xff, 0xff, 0xff, 0xff, 0xff, 0xff]);
}

#[test]
fn commitment_is_keccak_of_the_preimage() {
    let bytes = pack_invitation(&hs_key(1), &hs_key(2), &hs_key(3), 7, 1000);
    let expected = anchor_lang::solana_program::keccak::hash(&bytes).to_bytes();
    let commitment = compute_commitment(&hs_key(1), &hs_key(2), &hs_key(3), 7, 1000);
    assert_eq!(commitment, expected);
    assert_ne!(commitment, compute_commitment(&hs_key(1), &hs_key(2), &hs_key(3), 8, 1000));
    assert_ne!(commitment, compute_commitment(&hs_key(1), &hs_key(2), &hs_key(3), 7, 1001));
    assert_ne!(commitment, compute_commitment(&hs_key(1), &hs_key(2), &hs_key(4), 7, 1000));
}

#[test]
fn keccak_and_sha256_known_digests() {
    let keccak = hash_packed(HashAlgorithm::Keccak, b"abc".to_vec()).unwrap();
    assert_eq!(
        keccak.to_vec(),
        hs_hex("4e03657aea45a94fc7d47ba826c8d667c0d1e6e33a64a036ec44f58fa12d6c45")
    );
    let sha = hash_packed(HashAlgorithm::Sha256, b"abc".to_vec()).unwrap();
    assert_eq!(
        sha.to_vec(),
        hs_hex("ba7816bf8f01cfea414140de5dae2223b00361a396177a9cb410ff61f20015ad")
    );
    let empty = hash_packed(HashAlgorithm::Keccak, Vec::new()).unwrap();
    assert_eq!(
        empty.to_vec(),
        hs_hex("c5d2460186f7233c927e7db2dcc703c0e500b653ca82273b7bfad8045d85a470")
    );
}

#[test]
fn secure_hash_data_is_sha256_of_any_length() {
    assert_eq!(
        secure_hash_data(b"abc").unwrap().to_vec(),
        hs_hex("ba7816bf8f01cfea414140de5dae2223b00361a396177a9cb410ff61f20015ad")
    );
    assert_eq!(
        secure_hash_data(b"").unwrap().to_vec(),
        hs_hex("e3b0c44298fc1c149afbf4c8996fb92427ae41e4649b934ca495991b7852b855")
    );
    let long = vec![7u8; 10000];
    assert_eq!(secure_hash_data(&long), hash_packed(HashAlgorithm::Sha256, long.clone()));
    assert_ne!(secure_hash_data(&long), secure_hash_data(&long[1..]));
}

#[test]
fn poseidon_hashes_one_field_element() {
    let data = [1u8; 31];
    let expected = Poseidon::hash(&data).unwrap();
    assert_eq!(hash_packed(HashAlgorithm::Poseidon, data.to_vec()), Ok(expected));
    assert_ne!(expected.to_vec(), data.to_vec());
    // short inputs stand for the same field element as their zero-padded form
    assert_eq!(
        hash_packed(HashAlgorithm::Poseidon, vec![]),
        hash_packed(HashAlgorithm::Poseidon, vec![0u8; 32])
    );
    assert_eq!(
        hash_packed(HashAlgorithm::Poseidon, vec![1u8; 33]),
        Err(PodComError::HashingFailed)
    );
    // 32 bytes above the field modulus
    assert_eq!(
        hash_packed(HashAlgorithm::Poseidon, vec![0xffu8; 32]),
        Err(PodComError::HashingFailed)
    );
}

#[test]
fn digest_or_failed_maps_the_hashers_answer() {
    assert_eq!(digest_or_failed(Ok([4u8; 32])), Ok([4u8; 32]));
    assert_eq!(
        digest_or_failed(Err(light_hasher::errors::HasherError::IntegerOverflow)),
        Err(PodComError::HashingFailed)
    );
}

#[test]
fn compressed_message_preimage_layout() {
    let message = CompressedChannelMessage {
        channel: hs_key(1),
        sender: hs_key(2),
        content_hash: [3u8; 32],
        ipfs_hash: "Qm1".to_string(),
        message_type: MessageType::Command,
        created_at: 258,
        edited_at: None,
        reply_to: None,
    };
    let bytes = message.hash_input();
    assert_eq!(bytes.len(), 96 + 3 + 1 + 8);
    assert_eq!(&bytes[0..32], &[1u8; 32]);
    assert_eq!(&bytes[32..64], &[2u8; 32]);
    assert_eq!(&bytes[64..96], &[3u8; 32]);
    assert_eq!(&bytes[96..99], b"Qm1");
    assert_eq!(bytes[99], 2);
    assert_eq!(&bytes[100..108], &[2, 1, 0, 0, 0, 0, 0, 0]);

    let full = CompressedChannelMessage {
        edited_at: Some(3),
        reply_to: Some(hs_key(9)),
        message_type: MessageType::Custom(200),
        ..message.clone()
    };
    let bytes = full.hash_input();
    assert_eq!(bytes.len(), 96 + 3 + 1 + 8 + 8 + 32);
    assert_eq!(bytes[99], 200);
    assert_eq!(&bytes[108..116], &[3, 0, 0, 0, 0, 0, 0, 0]);
    assert_eq!(&bytes[116..148], &[9u8; 32]);

    assert_eq!(message.hash(HashAlgorithm::Poseidon), Err(PodComError::HashingFailed));
    let keccak = message.hash(HashAlgorithm::Keccak).unwrap();
    assert_eq!(Ok(keccak), hash_packed(HashAlgorithm::Keccak, message.hash_input()));
    assert_ne!(Ok(keccak), full.hash(HashAlgorithm::Keccak));
}

#[test]
fn hash_bytes_of_message_types() {
    assert_eq!(MessageType::Text.hash_byte(), 0);
    assert_eq!(MessageType::Data.hash_byte(), 1);
    assert_eq!(MessageType::Command.hash_byte(), 2);
    assert_eq!(MessageType::Response.hash_byte(), 3);
    assert_eq!(MessageType::Custom(77).hash_byte(), 77);
}

#[test]
fn compressed_participant_preimage_layout() {
    let participant = CompressedChannelParticipant {
        channel: hs_key(1),
        participant: hs_key(2),
        joined_at: 1,
        messages_sent: 2,
        last_message_at: 3,
        metadata_hash: [4u8; 32],
    };
    let bytes = participant.hash_input();
    assert_eq!(bytes.len(), 120);
    assert_eq!(&bytes[0..32], &[1u8; 32]);
    assert_eq!(&bytes[32..64], &[2u8; 32]);
    assert_eq!(&bytes[64..72], &[1, 0, 0, 0, 0, 0, 0, 0]);
    assert_eq!(&bytes[72..80], &[2, 0, 0, 0, 0, 0, 0, 0]);
    assert_eq!(&bytes[80..88], &[3, 0, 0, 0, 0, 0, 0, 0]);
    assert_eq!(&bytes[88..120], &[4u8; 32]);
    assert_eq!(
        participant.hash(HashAlgorithm::Sha256),
        hash_packed(HashAlgorithm::Sha256, bytes)
    );
}

#[test]
fn secure_buffer_starts_zeroed_and_compares() {
    let mut buffer = SecureBuffer::new(4).ok().unwrap();
    assert_eq!(buffer.as_slice(), &[0, 0, 0, 0]);
    assert!(buffer.secure_compare(&[0, 0, 0, 0]));
    assert!(!buffer.secure_compare(&[0, 0, 0]));
    buffer.copy_from_slice(&[1, 2, 3, 4]);
    assert_eq!(buffer.as_slice(), &[1, 2, 3, 4]);
    assert!(buffer.secure_compare(&[1, 2, 3, 4]));
    assert!(!buffer.secure_compare(&[1, 2, 3, 5]));
    assert!(!buffer.secure_compare(&[0, 2, 3, 4]));
    buffer.as_mut_slice()[0] = 9;
    assert_eq!(buffer.as_slice(), &[9, 2, 3, 4]);
    buffer.zeroize();
    assert_eq!(buffer.as_slice(), &[0, 0, 0, 0]);
    let empty = SecureBuffer::new(0).ok().unwrap();
    assert!(empty.secure_compare(&[]));
}

#[test]
fn constant_time_equality() {
    assert!(constant_time_equals(b"", b""));
    assert!(constant_time_equals(b"abc", b"abc"));
    assert!(!constant_time_equals(b"abc", b"abd"));
    assert!(!constant_time_equals(b"abc", b"bbc"));
    assert!(!constant_time_equals(b"abc", b"ab"));
    assert!(digests_equal(&[5u8; 32], &[5u8; 32]));
    let mut other = [5u8; 32];
    other[31] = 6;
    assert!(!digests_equal(&[5u8; 32], &other));
}
