//! A minimal fundraising ledger.
//!
//! An administrator opens a fundraiser record, donors contribute funds
//! into it, and the administrator settles: everything the record's
//! account holds above the store's reserve floor is withdrawn and the
//! donation accumulator is reset. The accounting rules of the three
//! operations — who may do what, how the balances move, and that the
//! held balance never drops below the reserve floor — are stated as
//! contracts and verified.

mod laws;
mod ops;
mod record;

pub use laws::{after_contributions, lemma_accumulation, sum_of};
pub use ops::{
    contribute_effect, create, donate, reserve_floor_of, withdraw, withdraw_to_floor, Create,
    Donate, Withdraw, RECORD_SPACE,
};
pub use record::{Fundraiser, FundraiserAccount, Identity, LedgerError, Wallet};
