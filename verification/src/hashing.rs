//! Hashes the ledger relies on, and the byte strings that are hashed.

use vstd::prelude::*;
use vstd::bytes::{spec_u64_to_le_bytes, u64_to_le_bytes};
use vstd::slice::slice_to_vec;
use crate::errors::PodComError;
use crate::pubkey::Pubkey;
use crate::secure::SecureBuffer;
use crate::state::{
    ChannelInvitation,
    CompressedChannelMessage,
    CompressedChannelParticipant,
    MessageType,
};

verus! {

/// The Keccak-256 digest of a byte string, as `keccak::hash` of
/// solana_program computes it.
pub uninterp spec fn keccak256(data: Seq<u8>) -> Seq<u8>;

/// The Poseidon hash over BN254 of a byte string read as one big-endian
/// field element, as `Poseidon::hash` of light_hasher computes it, or nothing
/// where that function fails.
pub uninterp spec fn poseidon_hash(data: Seq<u8>) -> Option<Seq<u8>>;

/// The error type `HasherError` of light_hasher, carried through unread.
#[verifier::external_type_specification]
#[verifier::external_body]
pub struct ExHasherError(light_hasher::errors::HasherError);

/// Calls `keccak::hash` of solana_program, reached through anchor_lang. The
/// digest depends on the bytes alone and is named `keccak256`.
#[verifier::external_body]
pub(crate) fn keccak(data: &[u8]) -> (digest: [u8; 32])
    ensures
        digest@ == keccak256(data@),
{
    anchor_lang::solana_program::keccak::hash(data).to_bytes()
}

/// Calls `Poseidon::hash` of light_hasher, which pads its input to 32 bytes
/// and hashes it as one field element. The outcome depends on the bytes
/// alone and is named `poseidon_hash`. The function refuses an input longer
/// than 32 bytes.
#[verifier::external_body]
pub(crate) fn poseidon(data: &[u8]) -> (r: Result<[u8; 32], light_hasher::errors::HasherError>)
    ensures
        match r {
            Ok(digest) => poseidon_hash(data@) == Some(digest@),
            Err(_) => poseidon_hash(data@) is None,
        },
        data@.len() > 32 ==> r is Err,
{
    <light_hasher::Poseidon as light_hasher::Hasher>::hash(data)
}

/// The Keccak-256 digest of a byte string, as `Keccak::hash` of light_hasher
/// computes it.
pub uninterp spec fn light_keccak256(data: Seq<u8>) -> Seq<u8>;

/// The SHA-256 digest of a byte string, as `Sha256::hash` of light_hasher
/// computes it.
pub uninterp spec fn light_sha256(data: Seq<u8>) -> Seq<u8>;

/// Calls `Keccak::hash` of light_hasher, which hashes any input and always
/// answers. The digest depends on the bytes alone and is named
/// `light_keccak256`.
#[verifier::external_body]
pub(crate) fn light_keccak(data: &[u8]) -> (r: Result<[u8; 32], light_hasher::errors::HasherError>)
    ensures
        r is Ok,
        r matches Ok(digest) ==> digest@ == light_keccak256(data@),
{
    <light_hasher::Keccak as light_hasher::Hasher>::hash(data)
}

/// Calls `Sha256::hash` of light_hasher, which hashes any input and always
/// answers. The digest depends on the bytes alone and is named
/// `light_sha256`.
#[verifier::external_body]
pub(crate) fn light_sha(data: &[u8]) -> (r: Result<[u8; 32], light_hasher::errors::HasherError>)
    ensures
        r is Ok,
        r matches Ok(digest) ==> digest@ == light_sha256(data@),
{
    <light_hasher::Sha256 as light_hasher::Hasher>::hash(data)
}

/// The hash functions under which a byte string can be hashed.
#[derive(Clone, Copy, Debug, PartialEq, Eq, Structural)]
pub enum HashAlgorithm {
    /// Hashes one field element: a byte string of at most 32 bytes that,
    /// read as a number, lies below the field's modulus. Anything else it
    /// refuses, a packed record among it.
    Poseidon,
    /// Hashes a byte string of any length.
    Keccak,
    /// Hashes a byte string of any length.
    Sha256,
}

/// A signed 64-bit number as its eight little-endian bytes.
pub open spec fn i64_le_bytes(x: i64) -> Seq<u8> {
    spec_u64_to_le_bytes(x as u64)
}

fn i64_to_le_bytes(x: i64) -> (v: Vec<u8>)
    ensures
        v@ == i64_le_bytes(x),
{
    u64_to_le_bytes(#[verifier::truncate] (x as u64))
}

/// The 32-byte value with the given bytes.
pub open spec fn digest_of(bytes: Seq<u8>) -> [u8; 32] {
    choose|d: [u8; 32]| d@ == bytes
}

/// A 32-byte value is known by its bytes.
pub proof fn lemma_digest_of(d: [u8; 32])
    ensures
        digest_of(d@) == d,
{
    let e = digest_of(d@);
    assert(e@ == d@);
    assert(e =~= d);
}

/// The Poseidon hash of a byte string, or `HashingFailed` where there is
/// none.
pub open spec fn poseidon_digest(data: Seq<u8>) -> Result<[u8; 32], PodComError> {
    match poseidon_hash(data) {
        Some(bytes) => Ok(digest_of(bytes)),
        None => Err(PodComError::HashingFailed),
    }
}

/// The content hash of a byte string: its SHA-256 digest. Content of every
/// length has one.
pub open spec fn content_digest(data: Seq<u8>) -> [u8; 32] {
    digest_of(light_sha256(data))
}

/// Turns the hasher's answer into the ledger's: the digest, or `HashingFailed`.
pub fn digest_or_failed(answer: Result<[u8; 32], light_hasher::errors::HasherError>) -> (r: Result<
    [u8; 32],
    PodComError,
>)
    ensures
        match answer {
            Ok(digest) => r == Ok::<[u8; 32], PodComError>(digest),
            Err(_) => r == Err::<[u8; 32], PodComError>(PodComError::HashingFailed),
        },
{
    match answer {
        Ok(digest) => Ok(digest),
        Err(_) => Err(PodComError::HashingFailed),
    }
}

/// Hashes content of any length with SHA-256. The bytes are copied into a
/// scoped buffer, hashed there, and the buffer is zeroed before the function
/// returns.
pub fn secure_hash_data(data: &[u8]) -> (r: Result<[u8; 32], PodComError>)
    ensures
        r == Ok::<[u8; 32], PodComError>(content_digest(data@)),
{
    match SecureBuffer::new(data.len()) {
        Ok(mut buffer) => {
            buffer.copy_from_slice(data);
            let answer = light_sha(buffer.as_slice());
            buffer.zeroize();
            proof {
                if let Ok(digest) = answer {
                    lemma_digest_of(digest);
                }
            }
            digest_or_failed(answer)
        },
        Err(e) => Err(e),
    }
}

/// The hash of a byte string under an algorithm, or `HashingFailed` where
/// the algorithm refuses the input.
pub open spec fn digest_under(algorithm: HashAlgorithm, data: Seq<u8>) -> Result<
    [u8; 32],
    PodComError,
> {
    match algorithm {
        HashAlgorithm::Poseidon => poseidon_digest(data),
        HashAlgorithm::Keccak => Ok(digest_of(light_keccak256(data))),
        HashAlgorithm::Sha256 => Ok(digest_of(light_sha256(data))),
    }
}

/// Overwrites a byte string with zeroes.
fn wipe(bytes: &mut Vec<u8>)
    ensures
        final(bytes)@.len() == old(bytes)@.len(),
        forall|i: int| 0 <= i < final(bytes)@.len() ==> final(bytes)@[i] == 0u8,
{
    let n: usize = bytes.len();
    let mut i: usize = 0;
    while i < n
        invariant
            i <= n,
            n == bytes@.len(),
            forall|j: int| 0 <= j < i ==> bytes@[j] == 0u8,
        decreases n - i,
    {
        bytes[i] = 0u8;
        i += 1;
    }
}

/// Hashes a pre-image under an algorithm. The pre-image is moved into a
/// scoped buffer and wiped where it was; the buffer is zeroed once the
/// hash is taken.
pub fn hash_packed(algorithm: HashAlgorithm, packed: Vec<u8>) -> (r: Result<[u8; 32], PodComError>)
    ensures
        r == digest_under(algorithm, packed@),
{
    let mut packed = packed;
    match SecureBuffer::new(packed.len()) {
        Ok(mut buffer) => {
            buffer.copy_from_slice(packed.as_slice());
            wipe(&mut packed);
            let answer = match algorithm {
                HashAlgorithm::Poseidon => poseidon(buffer.as_slice()),
                HashAlgorithm::Keccak => light_keccak(buffer.as_slice()),
                HashAlgorithm::Sha256 => light_sha(buffer.as_slice()),
            };
            buffer.zeroize();
            proof {
                if let Ok(digest) = answer {
                    lemma_digest_of(digest);
                }
            }
            digest_or_failed(answer)
        },
        Err(e) => Err(e),
    }
}

/// The bytes an invitation commits to: channel, inviter, invitee, then the
/// nonce and the time of creation, both little-endian.
pub open spec fn invitation_preimage(
    channel: Pubkey,
    inviter: Pubkey,
    invitee: Pubkey,
    nonce: u64,
    created_at: i64,
) -> Seq<u8> {
    channel@ + inviter@ + invitee@ + spec_u64_to_le_bytes(nonce) + i64_le_bytes(created_at)
}

/// The commitment of an invitation: Keccak-256 over its defining fields.
pub open spec fn invitation_commitment(
    channel: Pubkey,
    inviter: Pubkey,
    invitee: Pubkey,
    nonce: u64,
    created_at: i64,
) -> [u8; 32] {
    digest_of(keccak256(invitation_preimage(channel, inviter, invitee, nonce, created_at)))
}

/// The commitment that the fields of a stored invitation give.
pub open spec fn commitment_of(invitation: ChannelInvitation) -> [u8; 32] {
    invitation_commitment(
        invitation.channel,
        invitation.inviter,
        invitation.invitee,
        invitation.nonce,
        invitation.created_at,
    )
}

fn key_bytes(key: &Pubkey) -> (v: Vec<u8>)
    ensures
        v@ == key@,
{
    slice_to_vec(key.bytes.as_slice())
}

/// Packs the fields an invitation commits to.
pub fn pack_invitation(
    channel: &Pubkey,
    inviter: &Pubkey,
    invitee: &Pubkey,
    nonce: u64,
    created_at: i64,
) -> (bytes: Vec<u8>)
    ensures
        bytes@ == invitation_preimage(*channel, *inviter, *invitee, nonce, created_at),
{
    let mut bytes: Vec<u8> = key_bytes(channel);
    let mut part: Vec<u8> = key_bytes(inviter);
    bytes.append(&mut part);
    let mut part: Vec<u8> = key_bytes(invitee);
    bytes.append(&mut part);
    let mut part: Vec<u8> = u64_to_le_bytes(nonce);
    bytes.append(&mut part);
    let mut part: Vec<u8> = i64_to_le_bytes(created_at);
    bytes.append(&mut part);
    bytes
}

/// Computes the commitment of an invitation with the given fields.
pub fn compute_commitment(
    channel: &Pubkey,
    inviter: &Pubkey,
    invitee: &Pubkey,
    nonce: u64,
    created_at: i64,
) -> (digest: [u8; 32])
    ensures
        digest == invitation_commitment(*channel, *inviter, *invitee, nonce, created_at),
{
    let bytes = pack_invitation(channel, inviter, invitee, nonce, created_at);
    let digest = keccak(bytes.as_slice());
    proof {
        lemma_digest_of(digest);
    }
    digest
}

impl MessageType {
    /// The byte that stands for a message type inside a hash pre-image.
    pub open spec fn hash_byte_of(self) -> u8 {
        match self {
            MessageType::Text => 0,
            MessageType::Data => 1,
            MessageType::Command => 2,
            MessageType::Response => 3,
            MessageType::Custom(value) => value,
        }
    }

    /// The byte that stands for this message type inside a hash pre-image.
    pub fn hash_byte(&self) -> (b: u8)
        ensures
            b == self.hash_byte_of(),
    {
        match self {
            MessageType::Text => 0,
            MessageType::Data => 1,
            MessageType::Command => 2,
            MessageType::Response => 3,
            MessageType::Custom(value) => *value,
        }
    }
}

/// The eight bytes of a time where there is one, nothing otherwise.
pub open spec fn optional_time_bytes(t: Option<i64>) -> Seq<u8> {
    match t {
        Some(at) => i64_le_bytes(at),
        None => Seq::empty(),
    }
}

/// The bytes of a key where there is one, nothing otherwise.
pub open spec fn optional_key_bytes(k: Option<Pubkey>) -> Seq<u8> {
    match k {
        Some(key) => key@,
        None => Seq::empty(),
    }
}

impl CompressedChannelMessage {
    /// The bytes that are hashed for this message: the fixed fields, the
    /// content pointer, and the optional fields where they are set.
    pub open spec fn packed(self) -> Seq<u8> {
        self.channel@ + self.sender@ + self.content_hash@ + vstd::utf8::encode_utf8(
            self.ipfs_hash@,
        ) + seq![self.message_type.hash_byte_of()] + i64_le_bytes(self.created_at)
            + optional_time_bytes(self.edited_at) + optional_key_bytes(self.reply_to)
    }

    /// Packs the message into the byte string that is hashed.
    pub fn hash_input(&self) -> (bytes: Vec<u8>)
        ensures
            bytes@ == self.packed(),
    {
        let mut bytes: Vec<u8> = key_bytes(&self.channel);
        let mut part: Vec<u8> = key_bytes(&self.sender);
        bytes.append(&mut part);
        let mut part: Vec<u8> = slice_to_vec(self.content_hash.as_slice());
        bytes.append(&mut part);
        let mut part: Vec<u8> = slice_to_vec(self.ipfs_hash.as_str().as_bytes());
        bytes.append(&mut part);
        bytes.push(self.message_type.hash_byte());
        let mut part: Vec<u8> = i64_to_le_bytes(self.created_at);
        bytes.append(&mut part);
        if let Some(edited) = self.edited_at {
            let mut part: Vec<u8> = i64_to_le_bytes(edited);
            bytes.append(&mut part);
        }
        if let Some(reply_to) = self.reply_to {
            let mut part: Vec<u8> = key_bytes(&reply_to);
            bytes.append(&mut part);
        }
        assert(bytes@ =~= self.packed());
        bytes
    }

    /// Hashes the message under an algorithm. Keccak and SHA-256 hash every
    /// message; Poseidon refuses, as a packed message is longer than one
    /// field element.
    pub fn hash(&self, algorithm: HashAlgorithm) -> (r: Result<[u8; 32], PodComError>)
        ensures
            r == digest_under(algorithm, self.packed()),
            algorithm != HashAlgorithm::Poseidon ==> r is Ok,
    {
        hash_packed(algorithm, self.hash_input())
    }
}

impl CompressedChannelParticipant {
    /// The 120 bytes that stand for this membership, in hashing and in
    /// storage alike: the fields in order, numbers little-endian.
    pub open spec fn packed(self) -> Seq<u8> {
        self.channel@ + self.participant@ + i64_le_bytes(self.joined_at) + spec_u64_to_le_bytes(
            self.messages_sent,
        ) + i64_le_bytes(self.last_message_at) + self.metadata_hash@
    }

    /// Packs the membership into the byte string that is hashed.
    pub fn hash_input(&self) -> (bytes: Vec<u8>)
        ensures
            bytes@ == self.packed(),
    {
        let mut bytes: Vec<u8> = key_bytes(&self.channel);
        let mut part: Vec<u8> = key_bytes(&self.participant);
        bytes.append(&mut part);
        let mut part: Vec<u8> = i64_to_le_bytes(self.joined_at);
        bytes.append(&mut part);
        let mut part: Vec<u8> = u64_to_le_bytes(self.messages_sent);
        bytes.append(&mut part);
        let mut part: Vec<u8> = i64_to_le_bytes(self.last_message_at);
        bytes.append(&mut part);
        let mut part: Vec<u8> = slice_to_vec(self.metadata_hash.as_slice());
        bytes.append(&mut part);
        bytes
    }

    /// Hashes the membership under an algorithm. Keccak and SHA-256 hash
    /// every membership; Poseidon refuses, as a packed membership is longer
    /// than one field element.
    pub fn hash(&self, algorithm: HashAlgorithm) -> (r: Result<[u8; 32], PodComError>)
        ensures
            r == digest_under(algorithm, self.packed()),
            algorithm != HashAlgorithm::Poseidon ==> r is Ok,
    {
        hash_packed(algorithm, self.hash_input())
    }
}

/// The error type `std::io::Error`, which `borsh::to_vec` returns, carried
/// through unread.
#[verifier::external_type_specification]
#[verifier::external_body]
pub struct ExIoError(std::io::Error);

/// Calls `borsh::to_vec` on the fields of a membership, in the order in
/// which the record declares them. Borsh writes fixed-size fields one after
/// the other, keys and hashes as their bytes and numbers little-endian. It
/// writes into a vector, which takes every write, so for these fields it
/// always answers.
#[verifier::external_body]
pub(crate) fn borsh_participant(p: &CompressedChannelParticipant) -> (r: Result<
    Vec<u8>,
    std::io::Error,
>)
    ensures
        r is Ok,
        r matches Ok(bytes) ==> bytes@ == p.packed(),
{
    borsh::to_vec(
        &(
            p.channel.bytes,
            p.participant.bytes,
            p.joined_at,
            p.messages_sent,
            p.last_message_at,
            p.metadata_hash,
        ),
    )
}

} // verus!
