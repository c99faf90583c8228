//! The data that the lending program keeps in its accounts.
use vstd::prelude::*;

verus! {

/// A 32-byte account address, held as its raw bytes.
#[derive(Clone, Copy, Debug, PartialEq, Eq)]
pub struct Pubkey {
    pub bytes: [u8; 32],
}

/// Where a loan stands in its life.
#[derive(Clone, Copy, Debug, PartialEq, Eq)]
pub enum LoanStatus {
    Active,
    Completed,
    Pending,
}

/// Program-wide bookkeeping, one account per admin.
#[derive(Clone, Copy, Debug, PartialEq, Eq)]
pub struct GlobalState {
    pub total_loans: u64,
    pub treasure_fees: u64,
    pub authority: Pubkey,
    pub platform_fee: u64,
    pub bumps: u8,
}

/// A registered lender.
#[derive(Clone, Copy, Debug, PartialEq, Eq)]
pub struct UserState {
    pub wallet: Pubkey,
    pub active_loans: u64,
    pub completed_loans: u64,
    pub reputation_score: u64,
    pub bumps: u8,
    pub seed: u64,
}

/// One loan offer and, once it is taken, the loan itself.
#[derive(Clone, Copy, Debug, PartialEq, Eq)]
pub struct LoanState {
    pub lend_amount: u64,
    pub intrest_rate: u64,
    pub collateral_amount: u64,
    pub start_time: Option<i64>,
    pub end_time: Option<i64>,
    pub duration: i64,
    pub status: LoanStatus,
    pub token: Pubkey,
    pub lender: Pubkey,
    pub borrower: Option<Pubkey>,
    pub bumps: u8,
    pub seed: u64,
}

/// A program-owned account: its address and the data it holds.
#[derive(Clone, Copy, Debug, PartialEq, Eq)]
pub struct ProgramAccount<T> {
    pub key: Pubkey,
    pub data: T,
}

/// A token mint as the instructions read it: its address and its decimals.
#[derive(Clone, Copy, Debug, PartialEq, Eq)]
pub struct MintAccount {
    pub key: Pubkey,
    pub decimals: u8,
}

} // verus!
