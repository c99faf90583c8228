//! The program's entry points: each runs one instruction on its accounts and
//! returns the token transfers that the instruction asks for.
use vstd::prelude::*;
use crate::instructions::borrow::{Borrow, borrowed, can_borrow_at, collateral_deposit, loan_payout};
use crate::instructions::initialize::{
    InitializeLendingPool, InitializeLendingPoolBumps, initialized_pool,
};
use crate::instructions::list_lend::{ListLend, ListLendBumps, deposit, listed};
use crate::instructions::register_user::{RegisterUser, RegisterUserBumps, registered};
use crate::instructions::repay::{Repay, can_repay, collateral_return, repayment};
use crate::instructions::withdraw::{WithDraw, withdrawal};
use crate::transfer::TokenTransfer;

verus! {

/// Sets up the program-wide state.
pub fn initialize_lend(accounts: &mut InitializeLendingPool, bumps: InitializeLendingPoolBumps)
    ensures
        *final(accounts) == initialized_pool(*old(accounts), bumps),
{
    accounts.initialize_lending_pool(bumps);
}

/// Registers the signing lender under `seed`.
pub fn register_user(accounts: &mut RegisterUser, bumps: RegisterUserBumps, seed: u64)
    ensures
        *final(accounts) == registered(*old(accounts), bumps, seed),
{
    accounts.register_user(bumps, seed);
}

/// Offers a loan of `lend_amount` for `duration`; returns the lender's deposit.
pub fn list_lend(
    accounts: &mut ListLend,
    seed: u64,
    lend_amount: u64,
    duration: i64,
    bumps: ListLendBumps,
) -> (t: TokenTransfer)
    ensures
        *final(accounts) == listed(*old(accounts), seed, lend_amount, duration, bumps),
        t == deposit(*old(accounts), lend_amount),
{
    accounts.initialize_lending(seed, lend_amount, duration, bumps)
}

/// Lends the offered tokens to the borrower at time `now`; returns the collateral
/// deposit and the payout.
pub fn borrow(accounts: &mut Borrow, now: i64) -> (r: (TokenTransfer, TokenTransfer))
    requires
        can_borrow_at(*old(accounts), now),
    ensures
        *final(accounts) == borrowed(*old(accounts), now),
        r.0 == collateral_deposit(*old(accounts)),
        r.1 == loan_payout(*old(accounts)),
{
    accounts.borrow_transfer_funds(now)
}

/// Repays the loan; returns the repayment and the return of the collateral.
pub fn repay_funds(accounts: &Repay) -> (r: (TokenTransfer, TokenTransfer))
    requires
        can_repay(*accounts),
    ensures
        r.0 == repayment(*accounts),
        r.1 == collateral_return(*accounts),
{
    accounts.repay()
}

/// Hands the lent amount back to the lender.
pub fn withdraw_funds(accounts: &WithDraw) -> (t: TokenTransfer)
    ensures
        t == withdrawal(*accounts),
{
    accounts.transfer_funds()
}

} // verus!
