//! Offering a loan: the lender's tokens go into the loan's vault.
use vstd::prelude::*;
use crate::state::{LoanState, LoanStatus, MintAccount, ProgramAccount, Pubkey, UserState};
use crate::transfer::TokenTransfer;

verus! {

/// The interest rate written into every new offer.
pub const DEFAULT_INTREST_RATE: u64 = 5;

/// The collateral written into every new offer.
pub const DEFAULT_COLLATERAL_AMOUNT: u64 = 5;

/// The accounts of a new loan offer, as the instruction reads them.
#[derive(Clone, Copy, Debug, PartialEq, Eq)]
pub struct ListLend {
    pub lender: Pubkey,
    pub user_state: ProgramAccount<UserState>,
    pub loan_state: ProgramAccount<LoanState>,
    pub lend_vault: Pubkey,
    pub mint_usdt: MintAccount,
    pub lender_ata: Pubkey,
}

/// The bumps of the lender's and the loan's state addresses.
#[derive(Clone, Copy, Debug, PartialEq, Eq)]
pub struct ListLendBumps {
    pub user_state: u8,
    pub loan_state: u8,
}

/// A new offer: pending, not yet borrowed, with the default rate and collateral.
pub open spec fn listed_loan(
    a: ListLend,
    seed: u64,
    lend_amount: u64,
    duration: i64,
    bumps: ListLendBumps,
) -> LoanState {
    LoanState {
        lend_amount: lend_amount,
        intrest_rate: DEFAULT_INTREST_RATE,
        collateral_amount: DEFAULT_COLLATERAL_AMOUNT,
        start_time: None,
        end_time: None,
        duration: duration,
        status: LoanStatus::Pending,
        token: a.mint_usdt.key,
        lender: a.lender,
        borrower: None,
        bumps: bumps.loan_state,
        seed: seed,
    }
}

/// The accounts once the offer is written.
pub open spec fn listed(
    a: ListLend,
    seed: u64,
    lend_amount: u64,
    duration: i64,
    bumps: ListLendBumps,
) -> ListLend {
    ListLend {
        loan_state: ProgramAccount {
            data: listed_loan(a, seed, lend_amount, duration, bumps),
            ..a.loan_state
        },
        ..a
    }
}

/// The lender's deposit of `amount` into the loan's vault, signed by the lender.
pub open spec fn deposit(a: ListLend, amount: u64) -> TokenTransfer {
    TokenTransfer {
        from: a.lender_ata,
        to: a.lend_vault,
        authority: a.lender,
        mint: a.mint_usdt.key,
        amount: amount,
        decimals: a.mint_usdt.decimals,
        signer: None,
    }
}

impl ListLend {
    /// Writes the offer and returns the deposit of the lent amount into the vault.
    pub fn initialize_lending(
        &mut self,
        seed: u64,
        lend_amount: u64,
        duration: i64,
        bumps: ListLendBumps,
    ) -> (t: TokenTransfer)
        ensures
            *final(self) == listed(*old(self), seed, lend_amount, duration, bumps),
            t == deposit(*old(self), lend_amount),
    {
        self.loan_state.data = LoanState {
            lend_amount,
            collateral_amount: DEFAULT_COLLATERAL_AMOUNT,
            duration,
            status: LoanStatus::Pending,
            intrest_rate: DEFAULT_INTREST_RATE,
            seed,
            token: self.mint_usdt.key,
            start_time: None,
            end_time: None,
            lender: self.lender,
            borrower: None,
            bumps: bumps.loan_state,
        };
        self.transfer_funds(lend_amount)
    }

    /// The transfer of `amount` from the lender's token account into the vault.
    pub fn transfer_funds(&self, amount: u64) -> (t: TokenTransfer)
        ensures
            t == deposit(*self, amount),
    {
        TokenTransfer {
            from: self.lender_ata,
            to: self.lend_vault,
            authority: self.lender,
            mint: self.mint_usdt.key,
            amount,
            decimals: self.mint_usdt.decimals,
            signer: None,
        }
    }
}

} // verus!
