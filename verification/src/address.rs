//! Deterministic addresses. Every record sits at an address derived from a
//! tag and the fields that identify it, so any instruction can recompute
//! where a record it was handed must sit. The one record that cannot be
//! held against its address later is a channel: it is derived from the name
//! given at creation, which the record does not keep as given.

use vstd::prelude::*;
use vstd::bytes::{spec_u64_to_le_bytes, u64_to_le_bytes};
use vstd::slice::{slice_subrange, slice_to_vec};
use vstd::string::*;
use crate::pubkey::Pubkey;
use crate::state::MessageType;

verus! {

/// What `Pubkey::try_find_program_address` of solana_program returns for a
/// list of seeds and a program id: the address and its bump, or nothing
/// when no bump gives an address off the curve or the seeds are not
/// acceptable.
pub uninterp spec fn program_address(seeds: Seq<Seq<u8>>, program_id: Seq<u8>) -> Option<
    (Seq<u8>, u8),
>;

/// An address with its bump, or nothing, as a derivation hands it back.
pub type Derived = Option<(Pubkey, u8)>;

/// A derivation with its address as bytes.
pub open spec fn derived_view(d: Derived) -> Option<(Seq<u8>, u8)> {
    match d {
        Some((address, bump)) => Some((address@, bump)),
        None => None,
    }
}

/// The derivation whose address has the given bytes.
pub open spec fn derived_of(v: Option<(Seq<u8>, u8)>) -> Derived {
    choose|d: Derived| derived_view(d) == v
}

/// A derivation is known by its bytes.
pub proof fn lemma_derived_of(d: Derived)
    ensures
        derived_of(derived_view(d)) == d,
{
    let e = derived_of(derived_view(d));
    assert(derived_view(e) == derived_view(d));
    match (d, e) {
        (Some((a, _)), Some((b, _))) => {
            crate::pubkey::lemma_view(a, b);
        },
        _ => {},
    }
}

/// The record key is the derived address.
pub open spec fn sits_at(key: Pubkey, d: Derived) -> bool {
    d matches Some((address, _)) && address == key
}

/// The bump of a derivation, 0 where there is none.
pub open spec fn bump_of(d: Derived) -> u8 {
    match d {
        Some((_, bump)) => bump,
        None => 0,
    }
}

/// Whether a record key is the derived address.
pub fn check_sits_at(key: &Pubkey, d: &Derived) -> (r: bool)
    ensures
        r == sits_at(*key, *d),
{
    match d {
        Some((address, _)) => *address == *key,
        None => false,
    }
}

/// The bump of a derivation, 0 where there is none.
pub fn bump(d: &Derived) -> (r: u8)
    ensures
        r == bump_of(*d),
{
    match d {
        Some((_, bump)) => *bump,
        None => 0,
    }
}

/// The address derived for a list of seeds under this program's id.
pub open spec fn derive_of(seeds: Seq<Seq<u8>>) -> Derived {
    derived_of(program_address(seeds, program_id_bytes()))
}

/// Longest seed that a derivation takes, in bytes.
pub const MAX_SEED_LENGTH: usize = 32;

/// Calls `Pubkey::try_find_program_address` of solana_program, reached
/// through anchor_lang, which searches the bumps from 255 down for the first
/// that hashes seeds, bump and program id to a point off the curve. The result depends on the arguments
/// alone and is named `program_address`.
#[verifier::external_body]
pub(crate) fn try_find_program_address(seeds: &Vec<Vec<u8>>, program_id: &Pubkey) -> (r: Derived)
    ensures
        derived_view(r) == program_address(seeds.deep_view(), program_id@),
{
    let parts: Vec<&[u8]> = seeds.iter().map(|s| s.as_slice()).collect();
    let id = anchor_lang::solana_program::pubkey::Pubkey::new_from_array(program_id.bytes);
    match anchor_lang::solana_program::pubkey::Pubkey::try_find_program_address(&parts, &id) {
        Some((address, bump)) => Some((Pubkey { bytes: address.to_bytes() }, bump)),
        None => None,
    }
}

/// The id of the program that owns every record: the last seed-like input
/// of each derivation.
pub open spec fn program_id_bytes() -> Seq<u8> {
    seq![
        241u8, 68u8, 251u8, 195u8, 60u8, 189u8, 165u8, 239u8, 142u8, 221u8, 194u8, 190u8, 221u8,
        120u8, 166u8, 68u8, 35u8, 7u8, 36u8, 198u8, 222u8, 12u8, 219u8, 209u8, 178u8, 39u8, 182u8,
        242u8, 39u8, 255u8, 224u8, 184u8,
    ]
}

/// The id of the program that owns every record.
pub fn program_id() -> (id: Pubkey)
    ensures
        id@ == program_id_bytes(),
{
    let id = Pubkey {
        bytes: [
            241u8, 68u8, 251u8, 195u8, 60u8, 189u8, 165u8, 239u8, 142u8, 221u8, 194u8, 190u8,
            221u8, 120u8, 166u8, 68u8, 35u8, 7u8, 36u8, 198u8, 222u8, 12u8, 219u8, 209u8, 178u8,
            39u8, 182u8, 242u8, 39u8, 255u8, 224u8, 184u8,
        ],
    };
    assert(id@ =~= program_id_bytes());
    id
}

/// Derives the address for a list of seeds under this program's id.
fn derive(seeds: &Vec<Vec<u8>>) -> (d: Derived)
    ensures
        d == derive_of(seeds.deep_view()),
{
    let d = try_find_program_address(seeds, &program_id());
    proof {
        lemma_derived_of(d);
    }
    d
}

/// The bytes of the tag `agent`.
pub open spec fn agent_tag() -> Seq<u8> {
    seq![97u8, 103u8, 101u8, 110u8, 116u8]
}

/// Where the identity of an owner key sits: derived from `agent` and the key.
pub open spec fn agent_address_of(owner: Pubkey) -> Derived {
    derive_of(seq![agent_tag(), owner@])
}

/// A key as a seed.
fn key_seed(key: &Pubkey) -> (v: Vec<u8>)
    ensures
        v@ == key@,
{
    slice_to_vec(key.bytes.as_slice())
}

/// Derives the address of the identity that an owner key controls.
pub fn agent_address(owner: &Pubkey) -> (d: Derived)
    ensures
        d == agent_address_of(*owner),
{
    let mut seeds: Vec<Vec<u8>> = Vec::new();
    seeds.push(vec![97u8, 103u8, 101u8, 110u8, 116u8]);
    seeds.push(key_seed(owner));
    assert(seeds.deep_view() =~~= seq![agent_tag(), owner@]);
    derive(&seeds)
}

/// The bytes of the tag `channel`.
pub open spec fn channel_tag() -> Seq<u8> {
    seq![99u8, 104u8, 97u8, 110u8, 110u8, 101u8, 108u8]
}

/// The bytes of a channel name as seeds. A seed holds at most 32 bytes, so
/// a longer name is two seeds: its first 32 bytes, and the rest. The address
/// hashes the seeds one after the other, so it depends on the bytes of the
/// name alone, not on where they are cut.
pub open spec fn name_seeds(bytes: Seq<u8>) -> Seq<Seq<u8>> {
    if bytes.len() <= MAX_SEED_LENGTH {
        seq![bytes]
    } else {
        seq![
            bytes.subrange(0, MAX_SEED_LENGTH as int),
            bytes.subrange(MAX_SEED_LENGTH as int, bytes.len() as int),
        ]
    }
}

/// Where the channel that `creator` names `name` sits.
pub open spec fn channel_address_of(creator: Pubkey, name: Seq<char>) -> Derived {
    derive_of(seq![channel_tag(), creator@] + name_seeds(vstd::utf8::encode_utf8(name)))
}

/// Derives the address of a channel from its creator and the name given at
/// creation, as given. Every name of up to 64 bytes makes seeds that a
/// derivation takes.
pub fn channel_address(creator: &Pubkey, name: &str) -> (d: Derived)
    ensures
        d == channel_address_of(*creator, name@),
{
    let bytes: Vec<u8> = name.as_bytes_vec();
    let mut seeds: Vec<Vec<u8>> = Vec::new();
    seeds.push(vec![99u8, 104u8, 97u8, 110u8, 110u8, 101u8, 108u8]);
    seeds.push(key_seed(creator));
    if bytes.len() <= MAX_SEED_LENGTH {
        seeds.push(bytes);
    } else {
        seeds.push(slice_to_vec(slice_subrange(bytes.as_slice(), 0, MAX_SEED_LENGTH)));
        seeds.push(slice_to_vec(slice_subrange(bytes.as_slice(), MAX_SEED_LENGTH, bytes.len())));
    }
    assert(seeds.deep_view() =~~= seq![channel_tag(), creator@] + name_seeds(
        vstd::utf8::encode_utf8(name@),
    ));
    derive(&seeds)
}

/// The bytes of the tag `escrow`.
pub open spec fn escrow_tag() -> Seq<u8> {
    seq![101u8, 115u8, 99u8, 114u8, 111u8, 119u8]
}

/// Where the escrow of a depositor in a channel sits.
pub open spec fn escrow_address_of(channel: Pubkey, depositor: Pubkey) -> Derived {
    derive_of(seq![escrow_tag(), channel@, depositor@])
}

/// Derives the address of the escrow of a depositor in a channel.
pub fn escrow_address(channel: &Pubkey, depositor: &Pubkey) -> (d: Derived)
    ensures
        d == escrow_address_of(*channel, *depositor),
{
    let mut seeds: Vec<Vec<u8>> = Vec::new();
    seeds.push(vec![101u8, 115u8, 99u8, 114u8, 111u8, 119u8]);
    seeds.push(key_seed(channel));
    seeds.push(key_seed(depositor));
    assert(seeds.deep_view() =~~= seq![escrow_tag(), channel@, depositor@]);
    derive(&seeds)
}

/// The bytes of the tag `participant`.
pub open spec fn participant_tag() -> Seq<u8> {
    seq![112u8, 97u8, 114u8, 116u8, 105u8, 99u8, 105u8, 112u8, 97u8, 110u8, 116u8]
}

/// Where the membership of an identity in a channel sits.
pub open spec fn participant_address_of(channel: Pubkey, agent: Pubkey) -> Derived {
    derive_of(seq![participant_tag(), channel@, agent@])
}

/// Derives the address of the membership of an identity in a channel.
pub fn participant_address(channel: &Pubkey, agent: &Pubkey) -> (d: Derived)
    ensures
        d == participant_address_of(*channel, *agent),
{
    let mut seeds: Vec<Vec<u8>> = Vec::new();
    seeds.push(vec![112u8, 97u8, 114u8, 116u8, 105u8, 99u8, 105u8, 112u8, 97u8, 110u8, 116u8]);
    seeds.push(key_seed(channel));
    seeds.push(key_seed(agent));
    assert(seeds.deep_view() =~~= seq![participant_tag(), channel@, agent@]);
    derive(&seeds)
}

/// The bytes of the tag `invitation`.
pub open spec fn invitation_tag() -> Seq<u8> {
    seq![105u8, 110u8, 118u8, 105u8, 116u8, 97u8, 116u8, 105u8, 111u8, 110u8]
}

/// Where the invitation of an invitee to a channel sits. One address per
/// pair, so a pair has at most one invitation.
pub open spec fn invitation_address_of(channel: Pubkey, invitee: Pubkey) -> Derived {
    derive_of(seq![invitation_tag(), channel@, invitee@])
}

/// Derives the address of the invitation of an invitee to a channel.
pub fn invitation_address(channel: &Pubkey, invitee: &Pubkey) -> (d: Derived)
    ensures
        d == invitation_address_of(*channel, *invitee),
{
    let mut seeds: Vec<Vec<u8>> = Vec::new();
    seeds.push(vec![105u8, 110u8, 118u8, 105u8, 116u8, 97u8, 116u8, 105u8, 111u8, 110u8]);
    seeds.push(key_seed(channel));
    seeds.push(key_seed(invitee));
    assert(seeds.deep_view() =~~= seq![invitation_tag(), channel@, invitee@]);
    derive(&seeds)
}

impl MessageType {
    /// The seed that stands for a message type in the address of a message.
    /// The four named types are the bytes 0 to 3. A custom type of a value
    /// up to 251 is one byte, 4 above its value. A custom type of a higher
    /// value is two bytes: 255, and by how much its value lies above 251.
    pub open spec fn seed_of(self) -> Seq<u8> {
        match self {
            MessageType::Text => seq![0u8],
            MessageType::Data => seq![1u8],
            MessageType::Command => seq![2u8],
            MessageType::Response => seq![3u8],
            MessageType::Custom(value) => if value <= 251 {
                seq![(value + 4) as u8]
            } else {
                seq![255u8, (value - 251) as u8]
            },
        }
    }

    /// The seed of a message type.
    pub fn seed(&self) -> (v: Vec<u8>)
        ensures
            v@ == self.seed_of(),
    {
        let v: Vec<u8> = match self {
            MessageType::Text => vec![0u8],
            MessageType::Data => vec![1u8],
            MessageType::Command => vec![2u8],
            MessageType::Response => vec![3u8],
            MessageType::Custom(value) => if *value <= 251 {
                vec![*value + 4]
            } else {
                vec![255u8, *value - 251]
            },
        };
        assert(v@ =~= self.seed_of());
        v
    }
}

/// The bytes of the tag `message`.
pub open spec fn message_tag() -> Seq<u8> {
    seq![109u8, 101u8, 115u8, 115u8, 97u8, 103u8, 101u8]
}

/// Where a direct message sits: derived from sender, recipient, payload
/// hash and the seed of its type.
pub open spec fn message_address_of(
    sender: Pubkey,
    recipient: Pubkey,
    payload_hash: [u8; 32],
    message_type: MessageType,
) -> Derived {
    derive_of(
        seq![message_tag(), sender@, recipient@, payload_hash@, message_type.seed_of()],
    )
}

/// Derives the address of a direct message.
pub fn message_address(
    sender: &Pubkey,
    recipient: &Pubkey,
    payload_hash: &[u8; 32],
    message_type: &MessageType,
) -> (d: Derived)
    ensures
        d == message_address_of(*sender, *recipient, *payload_hash, *message_type),
{
    let mut seeds: Vec<Vec<u8>> = Vec::new();
    seeds.push(vec![109u8, 101u8, 115u8, 115u8, 97u8, 103u8, 101u8]);
    seeds.push(key_seed(sender));
    seeds.push(key_seed(recipient));
    seeds.push(slice_to_vec(payload_hash.as_slice()));
    seeds.push(message_type.seed());
    assert(seeds.deep_view() =~~= seq![
        message_tag(),
        sender@,
        recipient@,
        payload_hash@,
        message_type.seed_of(),
    ]);
    derive(&seeds)
}

/// The bytes of the tag `channel_message`.
pub open spec fn channel_message_tag() -> Seq<u8> {
    seq![
        99u8, 104u8, 97u8, 110u8, 110u8, 101u8, 108u8, 95u8, 109u8, 101u8, 115u8, 115u8, 97u8,
        103u8, 101u8,
    ]
}

/// Where a broadcast sits: derived from the channel, the sender's owner key
/// and a nonce of the sender's choosing, little-endian.
pub open spec fn channel_message_address_of(channel: Pubkey, user: Pubkey, nonce: u64) -> Derived {
    derive_of(
        seq![channel_message_tag(), channel@, user@, spec_u64_to_le_bytes(nonce)],
    )
}

/// Derives the address of a broadcast.
pub fn channel_message_address(channel: &Pubkey, user: &Pubkey, nonce: u64) -> (d: Derived)
    ensures
        d == channel_message_address_of(*channel, *user, nonce),
{
    let mut seeds: Vec<Vec<u8>> = Vec::new();
    seeds.push(
        vec![
            99u8, 104u8, 97u8, 110u8, 110u8, 101u8, 108u8, 95u8, 109u8, 101u8, 115u8, 115u8, 97u8,
            103u8, 101u8,
        ],
    );
    seeds.push(key_seed(channel));
    seeds.push(key_seed(user));
    seeds.push(u64_to_le_bytes(nonce));
    assert(seeds.deep_view() =~~= seq![
        channel_message_tag(),
        channel@,
        user@,
        spec_u64_to_le_bytes(nonce),
    ]);
    derive(&seeds)
}

} // verus!
