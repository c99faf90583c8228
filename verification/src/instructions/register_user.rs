//! Registering a lender.
use vstd::prelude::*;
use crate::state::{MintAccount, ProgramAccount, Pubkey, UserState};

verus! {

/// The accounts of a lender's registration, as the instruction reads them.
#[derive(Clone, Copy, Debug, PartialEq, Eq)]
pub struct RegisterUser {
    pub admin: Pubkey,
    pub lender: Pubkey,
    pub user_state: ProgramAccount<UserState>,
    pub mint_usdt: MintAccount,
    pub user_usdt_ata: Pubkey,
}

/// The bump of the lender's state address.
#[derive(Clone, Copy, Debug, PartialEq, Eq)]
pub struct RegisterUserBumps {
    pub user_state: u8,
}

/// A freshly registered lender: its wallet, no loans, no reputation yet.
pub open spec fn new_user(lender: Pubkey, bump: u8, seed: u64) -> UserState {
    UserState {
        wallet: lender,
        active_loans: 0,
        completed_loans: 0,
        reputation_score: 0,
        bumps: bump,
        seed: seed,
    }
}

/// The accounts after the registration.
pub open spec fn registered(a: RegisterUser, bumps: RegisterUserBumps, seed: u64) -> RegisterUser {
    RegisterUser {
        user_state: ProgramAccount {
            data: new_user(a.lender, bumps.user_state, seed),
            ..a.user_state
        },
        ..a
    }
}

impl RegisterUser {
    /// Writes a fresh lender record for the signing lender.
    pub fn register_user(&mut self, bumps: RegisterUserBumps, seed: u64)
        ensures
            *final(self) == registered(*old(self), bumps, seed),
    {
        self.user_state.data = UserState {
            wallet: self.lender,
            active_loans: 0,
            completed_loans: 0,
            reputation_score: 0,
            bumps: bumps.user_state,
            seed,
        };
    }
}

} // verus!
