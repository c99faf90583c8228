//! Properties that tie the instructions together over a loan's life.
use vstd::prelude::*;
use crate::instructions::borrow::{Borrow, borrowed, borrowed_loan, can_borrow_at, collateral_deposit, loan_payout};
use crate::instructions::list_lend::{ListLend, ListLendBumps, deposit, listed_loan};
use crate::instructions::register_user::{RegisterUser, RegisterUserBumps, registered};
use crate::instructions::repay::{Repay, can_repay, collateral_return, owed, repayment};
use crate::instructions::initialize::{InitializeLendingPool, InitializeLendingPoolBumps, initialized_pool};
use crate::instructions::list_lend::listed;
use crate::instructions::withdraw::{WithDraw, withdrawal};
use crate::state::{LoanStatus, UserState};
use crate::transfer::LenderSeeds;

verus! {

/// The amount a lender deposits when offering a loan is the amount paid out to the
/// borrower, out of the vault it was deposited into, and the amount the lender can
/// withdraw, before or after the loan is taken.
pub proof fn lemma_lent_amount_flows_through(
    l: ListLend,
    seed: u64,
    lend_amount: u64,
    duration: i64,
    bumps: ListLendBumps,
    b: Borrow,
    now: i64,
    w: WithDraw,
)
    requires
        b.loan_state.data == listed_loan(l, seed, lend_amount, duration, bumps),
        b.lend_vault == l.lend_vault,
        can_borrow_at(b, now),
        w.loan_state.data == listed_loan(l, seed, lend_amount, duration, bumps)
            || w.loan_state.data == borrowed_loan(b, now),
    ensures
        deposit(l, lend_amount).amount == lend_amount,
        loan_payout(b).amount == lend_amount,
        withdrawal(w).amount == lend_amount,
        loan_payout(b).from == deposit(l, lend_amount).to,
{
}

/// A listed offer is pending with no borrower; once borrowed at `now` it is active,
/// belongs to the borrower, runs from `now` for its duration, and keeps its terms.
pub proof fn lemma_offer_then_borrow(
    l: ListLend,
    seed: u64,
    lend_amount: u64,
    duration: i64,
    bumps: ListLendBumps,
    b: Borrow,
    now: i64,
)
    requires
        b.loan_state.data == listed_loan(l, seed, lend_amount, duration, bumps),
        can_borrow_at(b, now),
    ensures
        listed_loan(l, seed, lend_amount, duration, bumps).status == LoanStatus::Pending,
        listed_loan(l, seed, lend_amount, duration, bumps).borrower.is_none(),
        listed_loan(l, seed, lend_amount, duration, bumps).start_time.is_none(),
        borrowed_loan(b, now).status == LoanStatus::Active,
        borrowed_loan(b, now).borrower == Some(b.borrower),
        borrowed_loan(b, now).start_time == Some(now),
        borrowed_loan(b, now).end_time == Some((now + duration) as i64),
        borrowed_loan(b, now).lend_amount == lend_amount,
        borrowed_loan(b, now).seed == seed,
        borrowed_loan(b, now).lender == l.lender,
        borrowed_loan(b, now).intrest_rate == b.loan_state.data.intrest_rate,
        borrowed_loan(b, now).collateral_amount == b.loan_state.data.collateral_amount,
{
}

/// Borrowing changes only the loan: the program-wide state and the lender's record,
/// their loan counters included, stay as they were.
pub proof fn lemma_borrow_changes_only_the_loan(b: Borrow, now: i64)
    requires
        can_borrow_at(b, now),
    ensures
        borrowed(b, now).global_state == b.global_state,
        borrowed(b, now).user_state == b.user_state,
        borrowed(b, now).loan_state.key == b.loan_state.key,
        borrowed(b, now).global_state.data.total_loans == b.global_state.data.total_loans,
        borrowed(b, now).user_state.data.active_loans == b.user_state.data.active_loans,
{
}

/// The collateral a borrower posts is the collateral handed back on repayment, the
/// same amount of the same mint, moved back along the same accounts.
pub proof fn lemma_collateral_returned(b: Borrow, now: i64, r: Repay)
    requires
        can_borrow_at(b, now),
        r.loan_state.data == borrowed_loan(b, now),
        r.mint_sol == b.mint_sol,
        r.borrower_ata == b.borrower_ata,
        r.borrower_vault == b.borrower_vault,
    ensures
        collateral_return(r).amount == collateral_deposit(b).amount,
        collateral_return(r).mint == collateral_deposit(b).mint,
        collateral_return(r).from == collateral_deposit(b).to,
        collateral_return(r).to == collateral_deposit(b).from,
{
}

/// What a borrower repays is the lent amount twice over plus a hundredth of the
/// interest rate, so never less than the lent amount.
pub proof fn lemma_repayment_covers_loan(r: Repay)
    requires
        can_repay(r),
    ensures
        repayment(r).amount == 2 * r.loan_state.data.lend_amount + r.loan_state.data.intrest_rate
            / 100,
        repayment(r).amount >= r.loan_state.data.lend_amount,
{
}

/// A lender who registers and then lists an offer, signing both, is the lender of the
/// offer: the registered wallet is the offer's lender, and the record starts with no
/// loans.
pub proof fn lemma_registered_lender_owns_offer(
    u: RegisterUser,
    ubumps: RegisterUserBumps,
    seed: u64,
    l: ListLend,
    lend_amount: u64,
    duration: i64,
    lbumps: ListLendBumps,
)
    requires
        u.lender == l.lender,
    ensures
        ({
            let user: UserState = registered(u, ubumps, seed).user_state.data;
            let loan = listed_loan(l, seed, lend_amount, duration, lbumps);
            &&& user.wallet == loan.lender
            &&& user.seed == loan.seed
            &&& user.active_loans == 0
            &&& user.completed_loans == 0
            &&& user.reputation_score == 0
        }),
{
}

/// The payout of a listed loan is signed with the seeds the offer was listed under:
/// the lender's address, the listing's seed, and the bump recorded for the loan.
pub proof fn lemma_payout_signed_with_listing_seeds(
    l: ListLend,
    seed: u64,
    lend_amount: u64,
    duration: i64,
    bumps: ListLendBumps,
    b: Borrow,
)
    requires
        b.loan_state.data == listed_loan(l, seed, lend_amount, duration, bumps),
        b.lender == l.lender,
    ensures
        loan_payout(b).signer == Some(
            LenderSeeds { lender: l.lender, seed: seed, bump: bumps.loan_state },
        ),
        loan_payout(b).authority == b.user_state.key,
{
}

/// Borrowing posts exactly the collateral recorded on the loan, whatever the lent
/// amount, from the borrower's token account into the collateral vault, in the
/// collateral mint and signed by the borrower; the payout is the recorded lent amount,
/// from the lend vault to the borrower's USDT account, with the lender's program
/// account as authority.
pub proof fn lemma_borrow_moves_recorded_amounts(b: Borrow)
    ensures
        collateral_deposit(b).amount == b.loan_state.data.collateral_amount,
        collateral_deposit(b).from == b.borrower_ata,
        collateral_deposit(b).to == b.borrower_vault,
        collateral_deposit(b).authority == b.borrower,
        collateral_deposit(b).mint == b.mint_sol.key,
        collateral_deposit(b).decimals == b.mint_sol.decimals,
        collateral_deposit(b).signer.is_none(),
        loan_payout(b).amount == b.loan_state.data.lend_amount,
        loan_payout(b).from == b.lend_vault,
        loan_payout(b).to == b.borrower_ata_usdt,
        loan_payout(b).authority == b.user_state.key,
        loan_payout(b).mint == b.mint_usdt.key,
        loan_payout(b).decimals == b.mint_usdt.decimals,
{
}

/// Borrowing at `now` sets exactly the status, borrower and time window of the loan;
/// every term of the loan is kept.
pub proof fn lemma_borrow_sets_only_the_window(b: Borrow, now: i64)
    requires
        can_borrow_at(b, now),
    ensures
        ({
            let old_loan = b.loan_state.data;
            let new_loan = borrowed(b, now).loan_state.data;
            &&& new_loan.status == LoanStatus::Active
            &&& new_loan.borrower == Some(b.borrower)
            &&& new_loan.start_time == Some(now)
            &&& new_loan.end_time matches Some(end) && end == now + old_loan.duration
            &&& new_loan.lend_amount == old_loan.lend_amount
            &&& new_loan.intrest_rate == old_loan.intrest_rate
            &&& new_loan.collateral_amount == old_loan.collateral_amount
            &&& new_loan.duration == old_loan.duration
            &&& new_loan.token == old_loan.token
            &&& new_loan.lender == old_loan.lender
            &&& new_loan.bumps == old_loan.bumps
            &&& new_loan.seed == old_loan.seed
        }),
        borrowed(b, now).loan_state.key == b.loan_state.key,
        borrowed(b, now).lend_vault == b.lend_vault,
        borrowed(b, now).borrower_vault == b.borrower_vault,
{
}

/// Repaying hands back exactly the collateral recorded on the loan, from the
/// collateral vault to the borrower's token account, and asks of the borrower twice
/// the lent amount plus a hundredth of the rate, from the borrower's token account
/// into the collateral vault.
pub proof fn lemma_repay_moves_recorded_amounts(r: Repay)
    requires
        can_repay(r),
    ensures
        collateral_return(r).amount == r.loan_state.data.collateral_amount,
        collateral_return(r).from == r.borrower_vault,
        collateral_return(r).to == r.borrower_ata,
        collateral_return(r).authority == r.user_state.key,
        collateral_return(r).mint == r.mint_sol.key,
        repayment(r).amount == 2 * r.loan_state.data.lend_amount + r.loan_state.data.intrest_rate
            / 100,
        repayment(r).from == r.borrower_ata,
        repayment(r).to == r.borrower_vault,
        repayment(r).authority == r.borrower,
{
}

/// The amount owed is twice the lent amount plus a hundredth of the rate, for every
/// loan, and a repayment is possible exactly when that amount fits in a `u64`.
pub proof fn lemma_owed_amount(lend_amount: u64, intrest_rate: u64, r: Repay)
    ensures
        owed(lend_amount, intrest_rate) == 2 * lend_amount + intrest_rate / 100,
        can_repay(r) <==> 2 * r.loan_state.data.lend_amount + r.loan_state.data.intrest_rate / 100
            <= u64::MAX,
{
}

/// Every offer carries the same terms whatever its amount: rate 5 and collateral 5,
/// pending, no borrower, no time window; it records the lent amount, duration, seed,
/// the lender, the USDT mint and the loan's bump. Listing changes no other account.
pub proof fn lemma_listed_offer_terms(
    l: ListLend,
    seed: u64,
    lend_amount: u64,
    duration: i64,
    bumps: ListLendBumps,
)
    ensures
        ({
            let loan = listed_loan(l, seed, lend_amount, duration, bumps);
            &&& loan.intrest_rate == 5
            &&& loan.collateral_amount == 5
            &&& loan.status == LoanStatus::Pending
            &&& loan.borrower.is_none()
            &&& loan.start_time.is_none()
            &&& loan.end_time.is_none()
            &&& loan.lend_amount == lend_amount
            &&& loan.duration == duration
            &&& loan.seed == seed
            &&& loan.lender == l.lender
            &&& loan.token == l.mint_usdt.key
            &&& loan.bumps == bumps.loan_state
        }),
        listed(l, seed, lend_amount, duration, bumps).loan_state.data == listed_loan(
            l,
            seed,
            lend_amount,
            duration,
            bumps,
        ),
        listed(l, seed, lend_amount, duration, bumps).loan_state.key == l.loan_state.key,
        listed(l, seed, lend_amount, duration, bumps).user_state == l.user_state,
        listed(l, seed, lend_amount, duration, bumps).lend_vault == l.lend_vault,
        listed(l, seed, lend_amount, duration, bumps).lender_ata == l.lender_ata,
        deposit(l, lend_amount).amount == lend_amount,
        deposit(l, lend_amount).from == l.lender_ata,
        deposit(l, lend_amount).to == l.lend_vault,
        deposit(l, lend_amount).authority == l.lender,
        deposit(l, lend_amount).mint == l.mint_usdt.key,
        deposit(l, lend_amount).decimals == l.mint_usdt.decimals,
{
}

/// Withdrawing always moves the recorded lent amount out of the lend vault into the
/// lender's token account, whatever the loan's status or borrower: it reverses the
/// listing's deposit when both name the same vault and lender account.
pub proof fn lemma_withdrawal_route(w: WithDraw, l: ListLend, lend_amount: u64)
    ensures
        withdrawal(w).from == w.lend_vault,
        withdrawal(w).to == w.lender_ata,
        withdrawal(w).amount == w.loan_state.data.lend_amount,
        withdrawal(w).authority == w.user_state.key,
        withdrawal(w).mint == w.mint_usdt.key,
        w.lend_vault == l.lend_vault && w.lender_ata == l.lender_ata ==> withdrawal(w).from
            == deposit(l, lend_amount).to && withdrawal(w).to == deposit(l, lend_amount).from,
{
}

/// Setting up the pool records the given bump, whatever it is, and changes nothing else.
pub proof fn lemma_initialize_records_bump(a: InitializeLendingPool, bumps: InitializeLendingPoolBumps)
    ensures
        ({
            let after = initialized_pool(a, bumps);
            &&& after.global_state.data.bumps == bumps.global_state
            &&& after.global_state.data.total_loans == a.global_state.data.total_loans
            &&& after.global_state.data.treasure_fees == a.global_state.data.treasure_fees
            &&& after.global_state.data.authority == a.global_state.data.authority
            &&& after.global_state.data.platform_fee == a.global_state.data.platform_fee
            &&& after.global_state.key == a.global_state.key
            &&& after.admin == a.admin
            &&& after.mint_sol == a.mint_sol
            &&& after.mint_usdt == a.mint_usdt
            &&& after.treasure_vault == a.treasure_vault
        }),
{
}

/// Registering writes the signing lender as wallet, zero counters and reputation,
/// and the given seed and bump, and changes nothing else.
pub proof fn lemma_register_writes_fresh_record(u: RegisterUser, bumps: RegisterUserBumps, seed: u64)
    ensures
        ({
            let after = registered(u, bumps, seed);
            &&& after.user_state.data.wallet == u.lender
            &&& after.user_state.data.active_loans == 0
            &&& after.user_state.data.completed_loans == 0
            &&& after.user_state.data.reputation_score == 0
            &&& after.user_state.data.bumps == bumps.user_state
            &&& after.user_state.data.seed == seed
            &&& after.user_state.key == u.user_state.key
            &&& after.lender == u.lender
            &&& after.admin == u.admin
        }),
{
}

} // verus!
