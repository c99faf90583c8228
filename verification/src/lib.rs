//! A verified model of a peer-to-peer token lending program: the accounts it
//! keeps, what each instruction writes to them, and the token transfers it asks for.
pub mod state;
pub mod transfer;
pub mod instructions;
pub mod safe_lend;
pub mod laws;

pub use instructions::borrow::Borrow;
pub use instructions::initialize::{InitializeLendingPool, InitializeLendingPoolBumps};
pub use instructions::list_lend::{ListLend, ListLendBumps};
pub use instructions::register_user::{RegisterUser, RegisterUserBumps};
pub use instructions::repay::{Repay, repay_amount_with_intrest};
pub use instructions::withdraw::WithDraw;
pub use state::{GlobalState, LoanState, LoanStatus, MintAccount, ProgramAccount, Pubkey, UserState};
pub use transfer::{LenderSeeds, TokenTransfer};
