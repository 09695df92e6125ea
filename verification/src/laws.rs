//! The accumulation law: what a whole run of contributions does to a
//! fresh record.

use vstd::prelude::*;

use crate::ops::contribute_effect;
use crate::record::FundraiserAccount;

verus! {

/// The sum of a run of contribution amounts.
pub open spec fn sum_of(amounts: Seq<u64>) -> int
    decreases amounts.len(),
{
    if amounts.len() == 0 {
        0
    } else {
        amounts[0] + sum_of(amounts.drop_first())
    }
}

/// The record account after the whole run of contributions, each applied
/// as one successful donation.
pub open spec fn after_contributions(a: FundraiserAccount, amounts: Seq<u64>) -> FundraiserAccount
    decreases amounts.len(),
{
    if amounts.len() == 0 {
        a
    } else {
        after_contributions(contribute_effect(a, amounts[0]), amounts.drop_first())
    }
}

proof fn lemma_sum_of_nonneg(amounts: Seq<u64>)
    ensures
        sum_of(amounts) >= 0,
    decreases amounts.len(),
{
    if amounts.len() > 0 {
        lemma_sum_of_nonneg(amounts.drop_first());
    }
}

proof fn lemma_contributions_add_up(a: FundraiserAccount, amounts: Seq<u64>)
    requires
        a.fundraiser.amount_donated + sum_of(amounts) <= u64::MAX,
        a.lamports + sum_of(amounts) <= u64::MAX,
    ensures
        after_contributions(a, amounts).fundraiser.amount_donated
            == a.fundraiser.amount_donated + sum_of(amounts),
        after_contributions(a, amounts).lamports == a.lamports + sum_of(amounts),
        after_contributions(a, amounts).fundraiser.name == a.fundraiser.name,
        after_contributions(a, amounts).fundraiser.description == a.fundraiser.description,
        after_contributions(a, amounts).fundraiser.admin == a.fundraiser.admin,
    decreases amounts.len(),
{
    if amounts.len() > 0 {
        lemma_sum_of_nonneg(amounts.drop_first());
        lemma_contributions_add_up(contribute_effect(a, amounts[0]), amounts.drop_first());
    }
}

/// Accumulation: on a fresh record, a run of contributions with amounts
/// a1..an leaves `amount_donated` equal to the sum of the ai, and raises
/// the held balance by exactly that sum. The labels and the administrator
/// are untouched.
pub proof fn lemma_accumulation(a: FundraiserAccount, amounts: Seq<u64>)
    requires
        a.fundraiser.amount_donated == 0,
        a.lamports + sum_of(amounts) <= u64::MAX,
    ensures
        after_contributions(a, amounts).fundraiser.amount_donated == sum_of(amounts),
        after_contributions(a, amounts).lamports == a.lamports + sum_of(amounts),
        after_contributions(a, amounts).fundraiser.name == a.fundraiser.name,
        after_contributions(a, amounts).fundraiser.description == a.fundraiser.description,
        after_contributions(a, amounts).fundraiser.admin == a.fundraiser.admin,
{
    lemma_sum_of_nonneg(amounts);
    lemma_contributions_add_up(a, amounts);
}

} // verus!
