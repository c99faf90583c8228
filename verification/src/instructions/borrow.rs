//! Taking a loan: the borrower posts collateral and receives the lent tokens.
use vstd::prelude::*;
use crate::state::{GlobalState, LoanState, LoanStatus, MintAccount, ProgramAccount, Pubkey, UserState};
use crate::transfer::{LenderSeeds, TokenTransfer};

verus! {

/// The accounts of a borrowing, as the instruction reads them.
#[derive(Clone, Copy, Debug, PartialEq, Eq)]
pub struct Borrow {
    pub admin: Pubkey,
    pub lender: Pubkey,
    pub borrower: Pubkey,
    pub borrower_ata: Pubkey,
    pub borrower_ata_usdt: Pubkey,
    pub mint_sol: MintAccount,
    pub mint_usdt: MintAccount,
    pub global_state: ProgramAccount<GlobalState>,
    pub user_state: ProgramAccount<UserState>,
    pub loan_state: ProgramAccount<LoanState>,
    pub lend_vault: Pubkey,
    pub borrower_vault: Pubkey,
}

/// A borrowing at time `now` is possible when the loan's end time fits in an `i64`.
pub open spec fn can_borrow_at(a: Borrow, now: i64) -> bool {
    i64::MIN <= now + a.loan_state.data.duration <= i64::MAX
}

/// The loan once borrowed at `now`: active, with its borrower and its time window.
pub open spec fn borrowed_loan(a: Borrow, now: i64) -> LoanState {
    LoanState {
        status: LoanStatus::Active,
        borrower: Some(a.borrower),
        start_time: Some(now),
        end_time: Some((now + a.loan_state.data.duration) as i64),
        ..a.loan_state.data
    }
}

/// The accounts after the borrowing. The loan counters of the program and of the
/// lender are left as they were.
pub open spec fn borrowed(a: Borrow, now: i64) -> Borrow {
    Borrow { loan_state: ProgramAccount { data: borrowed_loan(a, now), ..a.loan_state }, ..a }
}

/// The borrower's collateral, moved into the collateral vault and signed by the borrower.
pub open spec fn collateral_deposit(a: Borrow) -> TokenTransfer {
    TokenTransfer {
        from: a.borrower_ata,
        to: a.borrower_vault,
        authority: a.borrower,
        mint: a.mint_sol.key,
        amount: a.loan_state.data.collateral_amount,
        decimals: a.mint_sol.decimals,
        signer: None,
    }
}

/// The lent tokens, paid out of the vault to the borrower and signed by the lender's
/// program account with the lender's address, the loan's seed and the loan's bump.
pub open spec fn loan_payout(a: Borrow) -> TokenTransfer {
    TokenTransfer {
        from: a.lend_vault,
        to: a.borrower_ata_usdt,
        authority: a.user_state.key,
        mint: a.mint_usdt.key,
        amount: a.loan_state.data.lend_amount,
        decimals: a.mint_usdt.decimals,
        signer: Some(
            LenderSeeds {
                lender: a.lender,
                seed: a.loan_state.data.seed,
                bump: a.loan_state.data.bumps,
            },
        ),
    }
}

impl Borrow {
    /// Returns the collateral deposit and the payout, in that order, and marks the
    /// loan active from `now` for its duration.
    pub fn borrow_transfer_funds(&mut self, now: i64) -> (r: (TokenTransfer, TokenTransfer))
        requires
            can_borrow_at(*old(self), now),
        ensures
            *final(self) == borrowed(*old(self), now),
            r.0 == collateral_deposit(*old(self)),
            r.1 == loan_payout(*old(self)),
    {
        let collateral = TokenTransfer {
            from: self.borrower_ata,
            to: self.borrower_vault,
            authority: self.borrower,
            mint: self.mint_sol.key,
            amount: self.loan_state.data.collateral_amount,
            decimals: self.mint_sol.decimals,
            signer: None,
        };
        let payout = TokenTransfer {
            from: self.lend_vault,
            to: self.borrower_ata_usdt,
            authority: self.user_state.key,
            mint: self.mint_usdt.key,
            amount: self.loan_state.data.lend_amount,
            decimals: self.mint_usdt.decimals,
            signer: Some(
                LenderSeeds {
                    lender: self.lender,
                    seed: self.loan_state.data.seed,
                    bump: self.loan_state.data.bumps,
                },
            ),
        };
        let start_time = now;
        let end_time = start_time + self.loan_state.data.duration;
        self.loan_state.data.status = LoanStatus::Active;
        self.loan_state.data.borrower = Some(self.borrower);
        self.loan_state.data.start_time = Some(start_time);
        self.loan_state.data.end_time = Some(end_time);
        (collateral, payout)
    }
}

} // verus!
