//! The trusted boundary to the route's retry budget.
//!
//! The budget is tower's token bucket (`tower::retry::budget`): a shared,
//! internally synchronised admission gate whose balance is replenished by
//! deposits and drained, over time windows, by withdrawals. Its clock- and
//! window-driven behaviour is outside what this crate states: a withdrawal
//! may succeed or fail depending on the budget's history and the time, so
//! the wrappers here promise nothing about the outcome, and the retry
//! policy is verified to behave correctly whichever way each call goes.

use vstd::prelude::*;

use std::sync::Arc;
use tower::retry::budget::TpsBudget;

verus! {

#[verifier::external_type_specification]
#[verifier::external_body]
pub struct ExTpsBudget(TpsBudget);

/// Relies on `Arc::clone`: the duplicate is a second handle to the very
/// same underlying budget.
#[verifier::external_body]
pub fn share_budget(budget: &Arc<TpsBudget>) -> (r: Arc<TpsBudget>)
    ensures
        r == *budget,
{
    Arc::clone(budget)
}

/// Relies on tower's `Budget::withdraw`: attempts to spend one retry
/// token, returning `false` when the budget is exhausted. The outcome
/// depends on the budget's internal, clock-driven state, so nothing is
/// promised of it; callers must be correct for either answer.
#[verifier::external_body]
pub fn budget_withdraw(budget: &Arc<TpsBudget>) -> bool {
    tower::retry::budget::Budget::withdraw(&**budget)
}

/// Relies on tower's `Budget::deposit`: returns one token to the budget.
#[verifier::external_body]
pub fn budget_deposit(budget: &Arc<TpsBudget>) {
    tower::retry::budget::Budget::deposit(&**budget)
}

} // verus!
