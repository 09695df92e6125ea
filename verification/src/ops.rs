//! The three operations of the ledger: create, donate, withdraw.
//!
//! Each operation receives the accounts it touches, already resolved by
//! the surrounding store, and performs its accounting step in one piece:
//! either the whole postcondition holds afterwards, or an error is
//! reported and nothing changed.

use vstd::prelude::*;

use crate::record::{Fundraiser, FundraiserAccount, LedgerError, Wallet};

verus! {

/// The byte size the store allocates for a fundraiser record: the four
/// serialized fields plus margin for the text fields to grow.
pub const RECORD_SPACE: usize = 9000;

/// The reserve floor for a record account of `data_len` bytes under the
/// store's default rent schedule: the minimum balance the account must
/// retain to stay rent-exempt.
pub open spec fn reserve_floor_of(data_len: int) -> int {
    6960 * (128 + data_len)
}

/// Relies on `Rent::minimum_balance` of the rent module that `anchor_lang`
/// re-exports: for the default schedule (`Rent::default()`, 3480
/// lamports per byte-year with an exemption threshold of 2 years), the
/// rent-exempt minimum for `data_len` bytes is
/// `(((128 + data_len) * 3480) as f64 * 2.0) as u64`. For every `data_len`
/// admitted here the products stay far below 2^52, where `f64` arithmetic
/// on whole numbers is exact, so the result equals `6960 * (128 + data_len)`.
#[verifier::external_body]
fn default_rent_minimum(data_len: usize) -> (r: u64)
    requires
        data_len <= 10_485_760,
    ensures
        r == reserve_floor_of(data_len as int),
{
    anchor_lang::solana_program::rent::Rent::default().minimum_balance(data_len)
}

/// The accounts a creation touches: the freshly allocated record account
/// and the creator, who becomes the administrator.
#[derive(Clone, PartialEq, Debug)]
pub struct Create {
    pub fundraiser: FundraiserAccount,
    pub user: Wallet,
}

/// The accounts a donation touches: the target record account and the
/// donor paying the contribution.
#[derive(Clone, PartialEq, Debug)]
pub struct Donate {
    pub fundraiser: FundraiserAccount,
    pub user: Wallet,
}

/// The accounts a withdrawal touches: the record account being drained
/// and the administrator receiving the withdrawable balance.
#[derive(Clone, PartialEq, Debug)]
pub struct Withdraw {
    pub fundraiser: FundraiserAccount,
    pub admin: Wallet,
}

/// Initialize a freshly allocated record: the labels are set once, the
/// accumulator starts at zero, and the creator becomes the administrator.
///
/// Duplicate creation for the same identity never reaches this point: the
/// store derives the record's address from the creator's identity alone
/// and refuses to allocate twice, so there is exactly one record per
/// administrator.
pub fn create(ctx: &mut Create, name: String, description: String) -> (r: Result<(), LedgerError>)
    ensures
        r is Ok,
        final(ctx).fundraiser.fundraiser.name == name,
        final(ctx).fundraiser.fundraiser.description == description,
        final(ctx).fundraiser.fundraiser.amount_donated == 0,
        final(ctx).fundraiser.fundraiser.admin == old(ctx).user.key,
        final(ctx).fundraiser.lamports == old(ctx).fundraiser.lamports,
        final(ctx).user == old(ctx).user,
{
    ctx.fundraiser.fundraiser = Fundraiser {
        name,
        description,
        amount_donated: 0,
        admin: ctx.user.key,
    };
    Ok(())
}

/// The state of the record account after one successful contribution of
/// `amount`: the held balance and the accumulator both grow by `amount`,
/// everything else is untouched.
pub open spec fn contribute_effect(a: FundraiserAccount, amount: u64) -> FundraiserAccount {
    FundraiserAccount {
        fundraiser: Fundraiser {
            name: a.fundraiser.name,
            description: a.fundraiser.description,
            amount_donated: (a.fundraiser.amount_donated + amount) as u64,
            admin: a.fundraiser.admin,
        },
        lamports: (a.lamports + amount) as u64,
    }
}

/// Contribute `amount` from the donor to the fundraiser: move the value,
/// then grow the accumulator by the same amount.
///
/// Any identity may donate; there is no authorization check. A zero
/// amount is accepted and succeeds as a degenerate no-op. The transfer
/// comes strictly before the accumulator update: a transfer the donor
/// cannot cover fails the whole operation and leaves every field exactly
/// as it was.
pub fn donate(ctx: &mut Donate, amount: u64) -> (r: Result<(), LedgerError>)
    requires
        old(ctx).fundraiser.fundraiser.amount_donated + amount <= u64::MAX,
        old(ctx).fundraiser.lamports + amount <= u64::MAX,
    ensures
        r is Ok <==> amount <= old(ctx).user.lamports,
        r is Err ==> r == Err::<(), LedgerError>(LedgerError::InsufficientFunds),
        r is Err ==> *final(ctx) == *old(ctx),
        r is Ok ==> final(ctx).fundraiser == contribute_effect(old(ctx).fundraiser, amount),
        r is Ok ==> final(ctx).fundraiser.fundraiser.amount_donated
            == old(ctx).fundraiser.fundraiser.amount_donated + amount,
        r is Ok ==> final(ctx).fundraiser.lamports == old(ctx).fundraiser.lamports + amount,
        r is Ok ==> final(ctx).user.key == old(ctx).user.key,
        r is Ok ==> final(ctx).user.lamports == old(ctx).user.lamports - amount,
{
    if ctx.user.lamports < amount {
        return Err(LedgerError::InsufficientFunds);
    }
    ctx.user.lamports = ctx.user.lamports - amount;
    ctx.fundraiser.lamports = ctx.fundraiser.lamports + amount;
    ctx.fundraiser.fundraiser.amount_donated = ctx.fundraiser.fundraiser.amount_donated + amount;
    Ok(())
}

/// Drain the record account to the given reserve floor and credit the
/// administrator with everything above it.
///
/// Only the record's administrator may settle. The withdrawable amount is
/// the held balance minus the floor; if it is not strictly positive —
/// including the case where the floor exceeds the balance, which a naive
/// unsigned subtraction would wrap into a huge withdrawal — the operation
/// fails with `InsufficientFunds` and changes nothing. On success the
/// account holds exactly the floor and the accumulator is reset to zero.
pub fn withdraw_to_floor(ctx: &mut Withdraw, reserve_floor: u64) -> (r: Result<(), LedgerError>)
    requires
        old(ctx).admin.lamports + old(ctx).fundraiser.lamports <= u64::MAX,
    ensures
        r is Ok <==> (old(ctx).admin.key == old(ctx).fundraiser.fundraiser.admin
            && old(ctx).fundraiser.lamports > reserve_floor),
        old(ctx).admin.key != old(ctx).fundraiser.fundraiser.admin
            ==> r == Err::<(), LedgerError>(LedgerError::Unauthorized),
        (old(ctx).admin.key == old(ctx).fundraiser.fundraiser.admin
            && old(ctx).fundraiser.lamports <= reserve_floor)
            ==> r == Err::<(), LedgerError>(LedgerError::InsufficientFunds),
        r is Err ==> *final(ctx) == *old(ctx),
        r is Ok ==> final(ctx).fundraiser.lamports == reserve_floor,
        r is Ok ==> final(ctx).fundraiser.fundraiser.amount_donated == 0,
        r is Ok ==> final(ctx).fundraiser.fundraiser.name == old(ctx).fundraiser.fundraiser.name,
        r is Ok ==> final(ctx).fundraiser.fundraiser.description
            == old(ctx).fundraiser.fundraiser.description,
        r is Ok ==> final(ctx).fundraiser.fundraiser.admin == old(ctx).fundraiser.fundraiser.admin,
        r is Ok ==> final(ctx).admin.key == old(ctx).admin.key,
        r is Ok ==> final(ctx).admin.lamports
            == old(ctx).admin.lamports + (old(ctx).fundraiser.lamports - reserve_floor),
{
    if ctx.admin.key != ctx.fundraiser.fundraiser.admin {
        return Err(LedgerError::Unauthorized);
    }
    let held: u64 = ctx.fundraiser.lamports;
    if held <= reserve_floor {
        return Err(LedgerError::InsufficientFunds);
    }
    let withdrawable: u64 = held - reserve_floor;
    ctx.fundraiser.lamports = reserve_floor;
    ctx.admin.lamports = ctx.admin.lamports + withdrawable;
    ctx.fundraiser.fundraiser.amount_donated = 0;
    Ok(())
}

/// Settle a fundraiser: compute the reserve floor for the record's byte
/// size under the default rent schedule, then drain the account to that
/// floor as `withdraw_to_floor` describes.
pub fn withdraw(ctx: &mut Withdraw) -> (r: Result<(), LedgerError>)
    requires
        old(ctx).admin.lamports + old(ctx).fundraiser.lamports <= u64::MAX,
    ensures
        r is Ok <==> (old(ctx).admin.key == old(ctx).fundraiser.fundraiser.admin
            && old(ctx).fundraiser.lamports > reserve_floor_of(RECORD_SPACE as int)),
        old(ctx).admin.key != old(ctx).fundraiser.fundraiser.admin
            ==> r == Err::<(), LedgerError>(LedgerError::Unauthorized),
        (old(ctx).admin.key == old(ctx).fundraiser.fundraiser.admin
            && old(ctx).fundraiser.lamports <= reserve_floor_of(RECORD_SPACE as int))
            ==> r == Err::<(), LedgerError>(LedgerError::InsufficientFunds),
        r is Err ==> *final(ctx) == *old(ctx),
        r is Ok ==> final(ctx).fundraiser.lamports == reserve_floor_of(RECORD_SPACE as int),
        r is Ok ==> final(ctx).fundraiser.fundraiser.amount_donated == 0,
        r is Ok ==> final(ctx).fundraiser.fundraiser.name == old(ctx).fundraiser.fundraiser.name,
        r is Ok ==> final(ctx).fundraiser.fundraiser.description
            == old(ctx).fundraiser.fundraiser.description,
        r is Ok ==> final(ctx).fundraiser.fundraiser.admin == old(ctx).fundraiser.fundraiser.admin,
        r is Ok ==> final(ctx).admin.key == old(ctx).admin.key,
        r is Ok ==> final(ctx).admin.lamports == old(ctx).admin.lamports
            + (old(ctx).fundraiser.lamports - reserve_floor_of(RECORD_SPACE as int)),
{
    let floor: u64 = default_rent_minimum(RECORD_SPACE);
    withdraw_to_floor(ctx, floor)
}

} // verus!
