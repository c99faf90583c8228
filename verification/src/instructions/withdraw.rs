//! Withdrawing: the lent amount goes from the vault back to the lender.
use vstd::prelude::*;
use crate::state::{LoanState, MintAccount, ProgramAccount, Pubkey, UserState};
use crate::transfer::TokenTransfer;

verus! {

/// The accounts of a withdrawal, as the instruction reads them.
#[derive(Clone, Copy, Debug, PartialEq, Eq)]
pub struct WithDraw {
    pub admin: Pubkey,
    pub lender: Pubkey,
    pub user_state: ProgramAccount<UserState>,
    pub loan_state: ProgramAccount<LoanState>,
    pub mint_usdt: MintAccount,
    pub lender_ata: Pubkey,
    pub lend_vault: Pubkey,
}

/// The lent amount moved from the vault to the lender, with the lender's program
/// account as authority and no signer seeds.
pub open spec fn withdrawal(a: WithDraw) -> TokenTransfer {
    TokenTransfer {
        from: a.lend_vault,
        to: a.lender_ata,
        authority: a.user_state.key,
        mint: a.mint_usdt.key,
        amount: a.loan_state.data.lend_amount,
        decimals: a.mint_usdt.decimals,
        signer: None,
    }
}

impl WithDraw {
    /// Returns the withdrawal of the lent amount. No account data changes.
    pub fn transfer_funds(&self) -> (t: TokenTransfer)
        ensures
            t == withdrawal(*self),
    {
        TokenTransfer {
            from: self.lend_vault,
            to: self.lender_ata,
            authority: self.user_state.key,
            mint: self.mint_usdt.key,
            amount: self.loan_state.data.lend_amount,
            decimals: self.mint_usdt.decimals,
            signer: None,
        }
    }
}

} // verus!
