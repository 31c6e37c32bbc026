//! Value held in custody for a depositor in a channel: paid in, paid out,
//! and consumed as fees.

use vstd::prelude::*;
use crate::address::{bump, bump_of, check_sits_at, escrow_address, escrow_address_of, sits_at};
use crate::address::Derived;
use crate::errors::PodComError;
use crate::events::{EscrowDeposit, EscrowWithdrawal};
use crate::state::{Account, ChannelAccount, Clock, EscrowAccount, Signer, MAX_DEPOSIT};

verus! {

/// One change of an escrow's amount.
#[derive(Clone, Copy, Debug, PartialEq, Eq, Structural)]
pub enum EscrowOp {
    Deposit(u64),
    Withdraw(u64),
    ConsumeFee(u64),
}

impl EscrowOp {
    /// By how much the operation changes the amount held.
    pub open spec fn delta(self) -> int {
        match self {
            EscrowOp::Deposit(amount) => amount as int,
            EscrowOp::Withdraw(amount) => -(amount as int),
            EscrowOp::ConsumeFee(fee) => -(fee as int),
        }
    }
}

/// The amount an escrow holds; nothing where there is no escrow yet.
pub open spec fn held(escrow: Option<EscrowAccount>) -> u64 {
    match escrow {
        Some(e) => e.amount,
        None => 0,
    }
}

/// The records a deposit works on.
#[derive(Clone, Debug, PartialEq, Eq)]
pub struct DepositEscrow {
    /// The escrow of the depositor in the channel, or the free address at
    /// which it is to be created.
    pub escrow_account: Account<Option<EscrowAccount>>,
    pub channel_account: Account<ChannelAccount>,
    pub depositor: Signer,
    pub clock: Clock,
}

/// Why a deposit is refused, if anything.
pub open spec fn deposit_verdict(ctx: DepositEscrow, amount: u64, expected: Derived) -> Option<
    PodComError,
> {
    if !sits_at(ctx.escrow_account.key, expected) {
        Some(PodComError::Unauthorized)
    } else if ctx.escrow_account.data matches Some(e) && e.depositor != ctx.depositor.key {
        Some(PodComError::Unauthorized)
    } else if amount == 0 || amount > MAX_DEPOSIT {
        Some(PodComError::InvalidAmount)
    } else if ctx.depositor.lamports < amount {
        Some(PodComError::InsufficientFunds)
    } else if held(ctx.escrow_account.data) + amount > u64::MAX || ctx.escrow_account.lamports
        + amount > u64::MAX || ctx.channel_account.data.escrow_balance + amount > u64::MAX {
        Some(PodComError::ArithmeticOverflow)
    } else {
        None
    }
}

/// The escrow after a deposit: created with the amount, or topped up by it.
pub open spec fn escrow_after_deposit(ctx: DepositEscrow, amount: u64, expected: Derived) -> EscrowAccount {
    match ctx.escrow_account.data {
        Some(e) => EscrowAccount { amount: (e.amount + amount) as u64, ..e },
        None => EscrowAccount {
            channel: ctx.channel_account.key,
            depositor: ctx.depositor.key,
            amount,
            created_at: ctx.clock.unix_timestamp,
            bump: bump_of(expected),
        },
    }
}

/// What a deposit does: refused, nothing changes; accepted, `amount` moves
/// from the depositor's wallet to the escrow's address, the escrow's amount
/// and the channel's escrow balance grow by it, and the deposit is reported.
pub open spec fn deposit_outcome(
    before: DepositEscrow,
    amount: u64,
    expected: Derived,
    after: DepositEscrow,
    r: Result<EscrowDeposit, PodComError>,
) -> bool {
    match deposit_verdict(before, amount, expected) {
        Some(error) => r == Err::<EscrowDeposit, PodComError>(error) && after == before,
        None => {
            &&& r == Ok::<EscrowDeposit, PodComError>(
                EscrowDeposit {
                    channel: before.channel_account.key,
                    depositor: before.depositor.key,
                    amount,
                    timestamp: before.clock.unix_timestamp,
                },
            )
            &&& after == (DepositEscrow {
                escrow_account: Account {
                    lamports: (before.escrow_account.lamports + amount) as u64,
                    data: Some(escrow_after_deposit(before, amount, expected)),
                    ..before.escrow_account
                },
                channel_account: Account {
                    data: ChannelAccount {
                        escrow_balance: (before.channel_account.data.escrow_balance
                            + amount) as u64,
                        ..before.channel_account.data
                    },
                    ..before.channel_account
                },
                depositor: Signer {
                    lamports: (before.depositor.lamports - amount) as u64,
                    ..before.depositor
                },
                ..before
            })
            &&& held(after.escrow_account.data) == held(before.escrow_account.data)
                + EscrowOp::Deposit(amount).delta()
        },
    }
}

/// Deposits into an escrow, given the address the escrow is held against.
pub fn deposit_escrow_with(ctx: &mut DepositEscrow, amount: u64, expected: &Derived) -> (r: Result<
    EscrowDeposit,
    PodComError,
>)
    ensures
        deposit_outcome(*old(ctx), amount, *expected, *final(ctx), r),
{
    if !check_sits_at(&ctx.escrow_account.key, expected) {
        return Err(PodComError::Unauthorized);
    }
    let amount_before: u64 = match &ctx.escrow_account.data {
        Some(e) => {
            if e.depositor != ctx.depositor.key {
                return Err(PodComError::Unauthorized);
            }
            e.amount
        },
        None => 0,
    };
    if amount == 0 || amount > MAX_DEPOSIT {
        return Err(PodComError::InvalidAmount);
    }
    if ctx.depositor.lamports < amount {
        return Err(PodComError::InsufficientFunds);
    }
    let new_amount: Option<u64> = amount_before.checked_add(amount);
    let new_lamports: Option<u64> = ctx.escrow_account.lamports.checked_add(amount);
    let new_balance: Option<u64> = ctx.channel_account.data.escrow_balance.checked_add(amount);
    match (new_amount, new_lamports, new_balance) {
        (Some(escrow_amount), Some(lamports), Some(balance)) => {
            let created_at: i64 = match &ctx.escrow_account.data {
                Some(e) => e.created_at,
                None => ctx.clock.unix_timestamp,
            };
            let record = match &ctx.escrow_account.data {
                Some(e) => EscrowAccount {
                    channel: e.channel,
                    depositor: e.depositor,
                    amount: escrow_amount,
                    created_at,
                    bump: e.bump,
                },
                None => EscrowAccount {
                    channel: ctx.channel_account.key,
                    depositor: ctx.depositor.key,
                    amount: escrow_amount,
                    created_at,
                    bump: bump(expected),
                },
            };
            ctx.depositor.lamports = ctx.depositor.lamports - amount;
            ctx.escrow_account.lamports = lamports;
            ctx.escrow_account.data = Some(record);
            ctx.channel_account.data.escrow_balance = balance;
            Ok(
                EscrowDeposit {
                    channel: ctx.channel_account.key,
                    depositor: ctx.depositor.key,
                    amount,
                    timestamp: ctx.clock.unix_timestamp,
                },
            )
        },
        _ => Err(PodComError::ArithmeticOverflow),
    }
}

/// Deposits `amount` into the escrow of the depositor in the channel. The
/// escrow must sit at the address derived from channel and depositor; the
/// amount must be positive and at most the ceiling. The first deposit
/// creates the escrow, later ones add to it.
pub fn deposit_escrow(ctx: &mut DepositEscrow, amount: u64) -> (r: Result<
    EscrowDeposit,
    PodComError,
>)
    ensures
        deposit_outcome(
            *old(ctx),
            amount,
            escrow_address_of(old(ctx).channel_account.key, old(ctx).depositor.key),
            *final(ctx),
            r,
        ),
{
    let expected = escrow_address(&ctx.channel_account.key, &ctx.depositor.key);
    deposit_escrow_with(ctx, amount, &expected)
}

/// The records a withdrawal works on.
#[derive(Clone, Debug, PartialEq, Eq)]
pub struct WithdrawEscrow {
    pub escrow_account: Account<EscrowAccount>,
    pub channel_account: Account<ChannelAccount>,
    pub depositor: Signer,
    pub clock: Clock,
}

/// Why a withdrawal is refused, if anything.
pub open spec fn withdraw_verdict(ctx: WithdrawEscrow, amount: u64, expected: Derived) -> Option<
    PodComError,
> {
    if ctx.escrow_account.data.depositor != ctx.depositor.key {
        Some(PodComError::Unauthorized)
    } else if !sits_at(ctx.escrow_account.key, expected) {
        Some(PodComError::Unauthorized)
    } else if ctx.escrow_account.data.amount < amount || ctx.escrow_account.lamports < amount {
        Some(PodComError::InsufficientFunds)
    } else if ctx.channel_account.data.escrow_balance < amount || ctx.depositor.lamports + amount
        > u64::MAX {
        Some(PodComError::ArithmeticOverflow)
    } else {
        None
    }
}

/// What a withdrawal does: refused, nothing changes; accepted, `amount`
/// moves from the escrow's address back to the depositor, the escrow's
/// amount and the channel's escrow balance shrink by it, and the withdrawal
/// is reported.
pub open spec fn withdraw_outcome(
    before: WithdrawEscrow,
    amount: u64,
    expected: Derived,
    after: WithdrawEscrow,
    r: Result<EscrowWithdrawal, PodComError>,
) -> bool {
    match withdraw_verdict(before, amount, expected) {
        Some(error) => r == Err::<EscrowWithdrawal, PodComError>(error) && after == before,
        None => {
            &&& r == Ok::<EscrowWithdrawal, PodComError>(
                EscrowWithdrawal {
                    channel: before.channel_account.key,
                    depositor: before.depositor.key,
                    amount,
                    timestamp: before.clock.unix_timestamp,
                },
            )
            &&& after == (WithdrawEscrow {
                escrow_account: Account {
                    lamports: (before.escrow_account.lamports - amount) as u64,
                    data: EscrowAccount {
                        amount: (before.escrow_account.data.amount - amount) as u64,
                        ..before.escrow_account.data
                    },
                    ..before.escrow_account
                },
                channel_account: Account {
                    data: ChannelAccount {
                        escrow_balance: (before.channel_account.data.escrow_balance
                            - amount) as u64,
                        ..before.channel_account.data
                    },
                    ..before.channel_account
                },
                depositor: Signer {
                    lamports: (before.depositor.lamports + amount) as u64,
                    ..before.depositor
                },
                ..before
            })
            &&& after.escrow_account.data.amount == before.escrow_account.data.amount
                + EscrowOp::Withdraw(amount).delta()
        },
    }
}

/// Withdraws from an escrow, given the address the escrow is held against.
pub fn withdraw_escrow_with(ctx: &mut WithdrawEscrow, amount: u64, expected: &Derived) -> (r:
    Result<EscrowWithdrawal, PodComError>)
    ensures
        withdraw_outcome(*old(ctx), amount, *expected, *final(ctx), r),
{
    if ctx.escrow_account.data.depositor != ctx.depositor.key {
        return Err(PodComError::Unauthorized);
    }
    if !check_sits_at(&ctx.escrow_account.key, expected) {
        return Err(PodComError::Unauthorized);
    }
    if ctx.escrow_account.data.amount < amount || ctx.escrow_account.lamports < amount {
        return Err(PodComError::InsufficientFunds);
    }
    if ctx.channel_account.data.escrow_balance < amount {
        return Err(PodComError::ArithmeticOverflow);
    }
    let wallet: u64 = match ctx.depositor.lamports.checked_add(amount) {
        Some(lamports) => lamports,
        None => {
            return Err(PodComError::ArithmeticOverflow);
        },
    };
    ctx.escrow_account.lamports = ctx.escrow_account.lamports - amount;
    ctx.depositor.lamports = wallet;
    ctx.escrow_account.data.amount = ctx.escrow_account.data.amount - amount;
    ctx.channel_account.data.escrow_balance = ctx.channel_account.data.escrow_balance - amount;
    Ok(
        EscrowWithdrawal {
            channel: ctx.channel_account.key,
            depositor: ctx.depositor.key,
            amount,
            timestamp: ctx.clock.unix_timestamp,
        },
    )
}

/// Withdraws `amount` from an escrow back to its depositor. Only the
/// depositor can withdraw, only from the escrow that sits at the address
/// derived from channel and depositor, and never more than it holds.
pub fn withdraw_escrow(ctx: &mut WithdrawEscrow, amount: u64) -> (r: Result<
    EscrowWithdrawal,
    PodComError,
>)
    ensures
        withdraw_outcome(
            *old(ctx),
            amount,
            escrow_address_of(old(ctx).channel_account.key, old(ctx).depositor.key),
            *final(ctx),
            r,
        ),
{
    let expected = escrow_address(&ctx.channel_account.key, &ctx.depositor.key);
    withdraw_escrow_with(ctx, amount, &expected)
}

/// Why a fee cannot be taken from an escrow into a channel, if anything:
/// the escrow does not sit at the address derived for it, holds too little,
/// or the channel's balance would leave its range.
pub open spec fn fee_verdict(
    escrow: Account<EscrowAccount>,
    channel: Account<ChannelAccount>,
    fee: u64,
    expected: Derived,
) -> Option<PodComError> {
    if !sits_at(escrow.key, expected) {
        Some(PodComError::Unauthorized)
    } else if escrow.data.amount < fee {
        Some(PodComError::InsufficientFunds)
    } else if channel.data.escrow_balance + fee > u64::MAX {
        Some(PodComError::ArithmeticOverflow)
    } else {
        None
    }
}

/// An escrow after `fee` was taken from it.
pub open spec fn escrow_less_fee(escrow: Account<EscrowAccount>, fee: u64) -> Account<
    EscrowAccount,
> {
    Account {
        data: EscrowAccount { amount: (escrow.data.amount - fee) as u64, ..escrow.data },
        ..escrow
    }
}

/// A channel after `fee` was credited to its escrow balance.
pub open spec fn channel_plus_fee(channel: Account<ChannelAccount>, fee: u64) -> Account<
    ChannelAccount,
> {
    Account {
        data: ChannelAccount {
            escrow_balance: (channel.data.escrow_balance + fee) as u64,
            ..channel.data
        },
        ..channel
    }
}

/// What taking a fee does: refused, nothing changes; accepted, the escrow
/// loses the fee and the channel's balance gains it.
pub open spec fn fee_outcome(
    escrow_before: Account<EscrowAccount>,
    channel_before: Account<ChannelAccount>,
    fee: u64,
    expected: Derived,
    escrow_after: Account<EscrowAccount>,
    channel_after: Account<ChannelAccount>,
    r: Result<(), PodComError>,
) -> bool {
    match fee_verdict(escrow_before, channel_before, fee, expected) {
        Some(error) => r == Err::<(), PodComError>(error) && escrow_after == escrow_before
            && channel_after == channel_before,
        None => {
            &&& r is Ok
            &&& escrow_after == escrow_less_fee(escrow_before, fee)
            &&& channel_after == channel_plus_fee(channel_before, fee)
            &&& escrow_after.data.amount == escrow_before.data.amount + EscrowOp::ConsumeFee(
                fee,
            ).delta()
        },
    }
}

/// Looks for a reason not to take a fee, changing nothing.
pub fn check_fee(
    escrow: &Account<EscrowAccount>,
    channel: &Account<ChannelAccount>,
    fee: u64,
    expected: &Derived,
) -> (r: Option<PodComError>)
    ensures
        r == fee_verdict(*escrow, *channel, fee, *expected),
{
    if !check_sits_at(&escrow.key, expected) {
        Some(PodComError::Unauthorized)
    } else if escrow.data.amount < fee {
        Some(PodComError::InsufficientFunds)
    } else if channel.data.escrow_balance > u64::MAX - fee {
        Some(PodComError::ArithmeticOverflow)
    } else {
        None
    }
}

/// Takes a fee, given the address the escrow is held against.
pub fn consume_fee_with(
    escrow: &mut Account<EscrowAccount>,
    channel: &mut Account<ChannelAccount>,
    fee: u64,
    expected: &Derived,
) -> (r: Result<(), PodComError>)
    ensures
        fee_outcome(
            *old(escrow),
            *old(channel),
            fee,
            *expected,
            *final(escrow),
            *final(channel),
            r,
        ),
{
    match check_fee(escrow, channel, fee, expected) {
        Some(e) => Err(e),
        None => {
            escrow.data.amount = escrow.data.amount - fee;
            channel.data.escrow_balance = channel.data.escrow_balance + fee;
            Ok(())
        },
    }
}

/// Takes `fee` from an escrow and credits it to the channel. The escrow
/// must sit at the address derived from the channel and the escrow's own
/// depositor, so nobody else's escrow can be handed in.
pub fn consume_fee(
    escrow: &mut Account<EscrowAccount>,
    channel: &mut Account<ChannelAccount>,
    fee: u64,
) -> (r: Result<(), PodComError>)
    ensures
        fee_outcome(
            *old(escrow),
            *old(channel),
            fee,
            escrow_address_of(old(channel).key, old(escrow).data.depositor),
            *final(escrow),
            *final(channel),
            r,
        ),
{
    let expected = escrow_address(&channel.key, &escrow.data.depositor);
    consume_fee_with(escrow, channel, fee, &expected)
}

} // verus!
