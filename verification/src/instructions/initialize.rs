//! Setting up the program-wide state.
use vstd::prelude::*;
use crate::state::{GlobalState, MintAccount, ProgramAccount, Pubkey};

verus! {

/// The accounts of the pool set-up, as the instruction reads them.
#[derive(Clone, Copy, Debug, PartialEq, Eq)]
pub struct InitializeLendingPool {
    pub admin: Pubkey,
    pub global_state: ProgramAccount<GlobalState>,
    pub mint_sol: MintAccount,
    pub mint_usdt: MintAccount,
    pub treasure_vault: Pubkey,
}

/// The bump of the program-wide state's address.
#[derive(Clone, Copy, Debug, PartialEq, Eq)]
pub struct InitializeLendingPoolBumps {
    pub global_state: u8,
}

/// The accounts after the set-up: only the state's bump is recorded.
pub open spec fn initialized_pool(
    a: InitializeLendingPool,
    bumps: InitializeLendingPoolBumps,
) -> InitializeLendingPool {
    InitializeLendingPool {
        global_state: ProgramAccount {
            data: GlobalState { bumps: bumps.global_state, ..a.global_state.data },
            ..a.global_state
        },
        ..a
    }
}

impl InitializeLendingPool {
    /// Records the bump of the program-wide state.
    pub fn initialize_lending_pool(&mut self, bumps: InitializeLendingPoolBumps)
        ensures
            *final(self) == initialized_pool(*old(self), bumps),
    {
        self.global_state.data.bumps = bumps.global_state;
    }
}

} // verus!
