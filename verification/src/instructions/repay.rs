//! Repaying a loan: the borrower pays back with interest and gets the collateral back.
use vstd::prelude::*;
use crate::state::{GlobalState, LoanState, MintAccount, ProgramAccount, Pubkey, UserState};
use crate::transfer::TokenTransfer;

verus! {

/// What a borrower owes on a loan of `lend_amount` at rate `intrest_rate`:
/// `lend_amount + (lend_amount + intrest_rate / 100)`.
pub open spec fn owed(lend_amount: u64, intrest_rate: u64) -> int {
    lend_amount + (lend_amount + intrest_rate / 100)
}

/// The amount owed, or `None` where it does not fit in a `u64`.
pub fn repay_amount_with_intrest(lend_amount: u64, intrest_rate: u64) -> (r: Option<u64>)
    ensures
        2 * lend_amount + intrest_rate / 100 <= u64::MAX ==> r == Some(
            (2 * lend_amount + intrest_rate / 100) as u64,
        ),
        2 * lend_amount + intrest_rate / 100 > u64::MAX ==> r is None,
        r == (if owed(lend_amount, intrest_rate) <= u64::MAX {
            Some(owed(lend_amount, intrest_rate) as u64)
        } else {
            None::<u64>
        }),
{
    match lend_amount.checked_add(intrest_rate / 100) {
        Some(inner) => lend_amount.checked_add(inner),
        None => None,
    }
}

/// The accounts of a repayment, as the instruction reads them.
#[derive(Clone, Copy, Debug, PartialEq, Eq)]
pub struct Repay {
    pub admin: Pubkey,
    pub lender: Pubkey,
    pub borrower: Pubkey,
    pub borrower_ata: Pubkey,
    pub lender_ata: Pubkey,
    pub mint_sol: MintAccount,
    pub mint_usdt: MintAccount,
    pub global_state: ProgramAccount<GlobalState>,
    pub user_state: ProgramAccount<UserState>,
    pub loan_state: ProgramAccount<LoanState>,
    pub lend_vault: Pubkey,
    pub borrower_vault: Pubkey,
}

/// A repayment is possible when the amount owed on the loan fits in a `u64`.
pub open spec fn can_repay(a: Repay) -> bool {
    owed(a.loan_state.data.lend_amount, a.loan_state.data.intrest_rate) <= u64::MAX
}

/// The borrower's payment of what is owed, signed by the borrower.
pub open spec fn repayment(a: Repay) -> TokenTransfer {
    TokenTransfer {
        from: a.borrower_ata,
        to: a.borrower_vault,
        authority: a.borrower,
        mint: a.mint_sol.key,
        amount: owed(a.loan_state.data.lend_amount, a.loan_state.data.intrest_rate) as u64,
        decimals: a.mint_usdt.decimals,
        signer: None,
    }
}

/// The collateral handed back from the vault, with the lender's program account as
/// authority and no signer seeds.
pub open spec fn collateral_return(a: Repay) -> TokenTransfer {
    TokenTransfer {
        from: a.borrower_vault,
        to: a.borrower_ata,
        authority: a.user_state.key,
        mint: a.mint_sol.key,
        amount: a.loan_state.data.collateral_amount,
        decimals: a.mint_usdt.decimals,
        signer: None,
    }
}

impl Repay {
    /// Returns the repayment and the return of the collateral, in that order.
    /// No account data changes.
    pub fn repay(&self) -> (r: (TokenTransfer, TokenTransfer))
        requires
            can_repay(*self),
        ensures
            r.0 == repayment(*self),
            r.1 == collateral_return(*self),
    {
        let lend_amount = self.loan_state.data.lend_amount;
        let inner = lend_amount + self.loan_state.data.intrest_rate / 100;
        let repay_amount_with_intrest = lend_amount + inner;
        let pay = TokenTransfer {
            from: self.borrower_ata,
            to: self.borrower_vault,
            authority: self.borrower,
            mint: self.mint_sol.key,
            amount: repay_amount_with_intrest,
            decimals: self.mint_usdt.decimals,
            signer: None,
        };
        let give_back = TokenTransfer {
            from: self.borrower_vault,
            to: self.borrower_ata,
            authority: self.user_state.key,
            mint: self.mint_sol.key,
            amount: self.loan_state.data.collateral_amount,
            decimals: self.mint_usdt.decimals,
            signer: None,
        };
        (pay, give_back)
    }
}

} // verus!
