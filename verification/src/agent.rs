//! Identities: one per owner key, at the address derived from that key.

use vstd::prelude::*;
use vstd::string::*;
use crate::address::{agent_address, agent_address_of, bump, bump_of, check_sits_at, sits_at};
use crate::address::Derived;
use crate::errors::PodComError;
use crate::events::AgentRegistered;
use crate::pubkey::Pubkey;
use crate::state::{
    Account,
    AgentAccount,
    Clock,
    Signer,
    INITIAL_REPUTATION,
    MAX_CAPABILITIES,
    MAX_METADATA_URI_LENGTH,
};
use crate::text::{blank, byte_len, is_blank, text_len};

verus! {

/// The identity record belongs to `owner` and sits where the identity of
/// `owner` is derived to sit.
pub open spec fn identity_of(agent: Account<AgentAccount>, owner: Pubkey, expected: Derived) -> bool {
    agent.data.pubkey == owner && sits_at(agent.key, expected)
}

/// Whether an identity record belongs to `owner` and sits at its derived
/// address.
pub fn check_identity(agent: &Account<AgentAccount>, owner: &Pubkey, expected: &Derived) -> (r:
    bool)
    ensures
        r == identity_of(*agent, *owner, *expected),
{
    agent.data.pubkey == *owner && check_sits_at(&agent.key, expected)
}

/// The records a registration works on.
#[derive(Clone, Debug, PartialEq, Eq)]
pub struct RegisterAgent {
    /// Where the identity is to be created.
    pub agent_account: Account<Option<AgentAccount>>,
    /// The owner key.
    pub signer: Signer,
    pub clock: Clock,
}

/// Why a registration is refused, if anything: the record is not at the
/// address derived from the owner key, an identity is there already, the
/// metadata pointer is blank or too long, or the capability mask is too high.
pub open spec fn register_verdict(
    ctx: RegisterAgent,
    capabilities: u64,
    metadata_uri: String,
    expected: Derived,
) -> Option<PodComError> {
    if !sits_at(ctx.agent_account.key, expected) {
        Some(PodComError::Unauthorized)
    } else if ctx.agent_account.data is Some {
        Some(PodComError::AlreadyExists)
    } else if is_blank(metadata_uri@) || byte_len(metadata_uri@) > MAX_METADATA_URI_LENGTH {
        Some(PodComError::InvalidMetadataUriLength)
    } else if capabilities > MAX_CAPABILITIES {
        Some(PodComError::InvalidCapabilities)
    } else {
        None
    }
}

/// The identity that a successful registration writes.
pub open spec fn registered_agent(
    ctx: RegisterAgent,
    capabilities: u64,
    metadata_uri: String,
    expected: Derived,
) -> AgentAccount {
    AgentAccount {
        pubkey: ctx.signer.key,
        capabilities,
        reputation: INITIAL_REPUTATION,
        last_updated: ctx.clock.unix_timestamp,
        metadata_uri,
        bump: bump_of(expected),
    }
}

/// What a registration does: refused, nothing changes; accepted, the
/// identity is written with the baseline reputation and reported.
pub open spec fn register_outcome(
    before: RegisterAgent,
    capabilities: u64,
    metadata_uri: String,
    expected: Derived,
    after: RegisterAgent,
    r: Result<AgentRegistered, PodComError>,
) -> bool {
    match register_verdict(before, capabilities, metadata_uri, expected) {
        Some(error) => r == Err::<AgentRegistered, PodComError>(error) && after == before,
        None => {
            &&& r == Ok::<AgentRegistered, PodComError>(
                AgentRegistered {
                    agent: before.signer.key,
                    capabilities,
                    metadata_uri,
                    timestamp: before.clock.unix_timestamp,
                },
            )
            &&& after == (RegisterAgent {
                agent_account: Account {
                    data: Some(registered_agent(before, capabilities, metadata_uri, expected)),
                    ..before.agent_account
                },
                ..before
            })
        },
    }
}

/// Registers an identity, given the address its record is held against.
pub fn register_agent_with(
    ctx: &mut RegisterAgent,
    capabilities: u64,
    metadata_uri: String,
    expected: &Derived,
) -> (r: Result<AgentRegistered, PodComError>)
    ensures
        register_outcome(*old(ctx), capabilities, metadata_uri, *expected, *final(ctx), r),
{
    if !check_sits_at(&ctx.agent_account.key, expected) {
        return Err(PodComError::Unauthorized);
    }
    if ctx.agent_account.data.is_some() {
        return Err(PodComError::AlreadyExists);
    }
    if blank(metadata_uri.as_str()) || text_len(metadata_uri.as_str()) > MAX_METADATA_URI_LENGTH {
        return Err(PodComError::InvalidMetadataUriLength);
    }
    if capabilities > MAX_CAPABILITIES {
        return Err(PodComError::InvalidCapabilities);
    }
    let reported: String = metadata_uri.clone();
    ctx.agent_account.data = Some(
        AgentAccount {
            pubkey: ctx.signer.key,
            capabilities,
            reputation: INITIAL_REPUTATION,
            last_updated: ctx.clock.unix_timestamp,
            metadata_uri,
            bump: bump(expected),
        },
    );
    Ok(
        AgentRegistered {
            agent: ctx.signer.key,
            capabilities,
            metadata_uri: reported,
            timestamp: ctx.clock.unix_timestamp,
        },
    )
}

/// Registers the identity of the signing owner key at the address derived
/// from that key. A key has one identity: where one exists, the registration
/// is refused and the existing record stays as it is.
pub fn register_agent(ctx: &mut RegisterAgent, capabilities: u64, metadata_uri: String) -> (r:
    Result<AgentRegistered, PodComError>)
    ensures
        register_outcome(
            *old(ctx),
            capabilities,
            metadata_uri,
            agent_address_of(old(ctx).signer.key),
            *final(ctx),
            r,
        ),
{
    let expected = agent_address(&ctx.signer.key);
    register_agent_with(ctx, capabilities, metadata_uri, &expected)
}

/// The records an update of an identity works on.
#[derive(Clone, Debug, PartialEq, Eq)]
pub struct UpdateAgent {
    pub agent_account: Account<AgentAccount>,
    pub signer: Signer,
    pub clock: Clock,
}

/// Why an update is refused, if anything: the signer is not the owner, the
/// record is not at the address derived from its owner key, or the new
/// metadata pointer is too long.
pub open spec fn update_verdict(
    ctx: UpdateAgent,
    metadata_uri: Option<String>,
    expected: Derived,
) -> Option<PodComError> {
    if !identity_of(ctx.agent_account, ctx.signer.key, expected) {
        Some(PodComError::Unauthorized)
    } else if metadata_uri matches Some(uri) && byte_len(uri@) > MAX_METADATA_URI_LENGTH {
        Some(PodComError::InvalidMetadataUriLength)
    } else {
        None
    }
}

/// The identity after an update: each field that was given is replaced, and
/// the time of the update is noted.
pub open spec fn updated_agent(
    agent: AgentAccount,
    capabilities: Option<u64>,
    metadata_uri: Option<String>,
    now: i64,
) -> AgentAccount {
    AgentAccount {
        capabilities: match capabilities {
            Some(c) => c,
            None => agent.capabilities,
        },
        metadata_uri: match metadata_uri {
            Some(uri) => uri,
            None => agent.metadata_uri,
        },
        last_updated: now,
        ..agent
    }
}

/// What an update does: refused, nothing changes; accepted, the given
/// fields are replaced and the time is noted.
pub open spec fn update_outcome(
    before: UpdateAgent,
    capabilities: Option<u64>,
    metadata_uri: Option<String>,
    expected: Derived,
    after: UpdateAgent,
    r: Result<(), PodComError>,
) -> bool {
    match update_verdict(before, metadata_uri, expected) {
        Some(error) => r == Err::<(), PodComError>(error) && after == before,
        None => r is Ok && after == (UpdateAgent {
            agent_account: Account {
                data: updated_agent(
                    before.agent_account.data,
                    capabilities,
                    metadata_uri,
                    before.clock.unix_timestamp,
                ),
                ..before.agent_account
            },
            ..before
        }),
    }
}

/// Updates an identity, given the address its record is held against.
pub fn update_agent_with(
    ctx: &mut UpdateAgent,
    capabilities: Option<u64>,
    metadata_uri: Option<String>,
    expected: &Derived,
) -> (r: Result<(), PodComError>)
    ensures
        update_outcome(*old(ctx), capabilities, metadata_uri, *expected, *final(ctx), r),
{
    if !check_identity(&ctx.agent_account, &ctx.signer.key, expected) {
        return Err(PodComError::Unauthorized);
    }
    if let Some(uri) = &metadata_uri {
        if text_len(uri.as_str()) > MAX_METADATA_URI_LENGTH {
            return Err(PodComError::InvalidMetadataUriLength);
        }
    }
    if let Some(c) = capabilities {
        ctx.agent_account.data.capabilities = c;
    }
    if let Some(uri) = metadata_uri {
        ctx.agent_account.data.metadata_uri = uri;
    }
    ctx.agent_account.data.last_updated = ctx.clock.unix_timestamp;
    Ok(())
}

/// Updates the capabilities, the metadata pointer, or both, of the signer's
/// own identity. The record must belong to the signer and sit at the address
/// derived from the signer's key.
pub fn update_agent(
    ctx: &mut UpdateAgent,
    capabilities: Option<u64>,
    metadata_uri: Option<String>,
) -> (r: Result<(), PodComError>)
    ensures
        update_outcome(
            *old(ctx),
            capabilities,
            metadata_uri,
            agent_address_of(old(ctx).signer.key),
            *final(ctx),
            r,
        ),
{
    let expected = agent_address(&ctx.signer.key);
    update_agent_with(ctx, capabilities, metadata_uri, &expected)
}

} // verus!
