//! The fundraiser record, the accounts that take part in the three
//! operations, and the failures those operations can report.

use vstd::prelude::*;

verus! {

/// The identity of an account holder: the administrator who opens and
/// settles a fundraiser, or a donor who contributes to one.
///
/// The accounting rules only ever compare identities for equality, so an
/// identity is carried as a plain number.
#[derive(Clone, Copy, PartialEq, Eq, Structural, Debug)]
pub struct Identity {
    pub id: u64,
}

impl Identity {
    pub fn new(id: u64) -> (r: Identity)
        ensures
            r.id == id,
    {
        Identity { id }
    }
}

/// One fundraiser's persisted record.
///
/// `name` and `description` are set once at creation and never change.
/// `amount_donated` accumulates every successful contribution since the
/// last settlement and is reset to zero by a settlement. `admin` is the
/// only identity allowed to settle, fixed at creation.
#[derive(Clone, PartialEq, Debug)]
pub struct Fundraiser {
    pub name: String,
    pub description: String,
    pub amount_donated: u64,
    pub admin: Identity,
}

/// A plain account: who owns it and how many lamports it holds.
#[derive(Clone, Copy, PartialEq, Eq, Structural, Debug)]
pub struct Wallet {
    pub key: Identity,
    pub lamports: u64,
}

/// The record together with the balance its account physically holds.
///
/// The held balance is owned by the surrounding store, not by the record
/// itself; it is what the reserve rules of settlement are about.
#[derive(Clone, PartialEq, Debug)]
pub struct FundraiserAccount {
    pub fundraiser: Fundraiser,
    pub lamports: u64,
}

/// The failures an operation can report.
///
/// Every operation either commits its whole postcondition or reports one
/// of these and changes nothing.
#[derive(Clone, Copy, PartialEq, Eq, Structural, Debug)]
pub enum LedgerError {
    /// Opening was attempted for an identity that already has a record.
    /// Raised by the surrounding store's allocation step and propagated
    /// unchanged; the accounting core itself never constructs it.
    AlreadyExists,
    /// Settlement was attempted by an identity other than the record's
    /// administrator.
    Unauthorized,
    /// Settlement found nothing withdrawable above the reserve floor, or
    /// a contribution could not be covered by the donor's balance.
    InsufficientFunds,
    /// The host's value-movement primitive rejected a transfer for a
    /// reason outside the accounting rules (for example, a malformed
    /// destination). Propagated unchanged by the surrounding runtime; the
    /// accounting core itself never constructs it.
    TransferFailed,
}

} // verus!
