use safe_lend::safe_lend::{borrow, initialize_lend, list_lend, register_user, repay_funds, withdraw_funds};
use safe_lend::{
    Borrow, GlobalState, InitializeLendingPool, InitializeLendingPoolBumps, LenderSeeds, ListLend,
    ListLendBumps, LoanState, LoanStatus, MintAccount, ProgramAccount, Pubkey, RegisterUser,
    RegisterUserBumps, Repay, TokenTransfer, UserState, WithDraw, repay_amount_with_intrest,
};

fn key(n: u8) -> Pubkey {
    Pubkey { bytes: [n; 32] }
}

fn zero_global() -> GlobalState {
    GlobalState { total_loans: 0, treasure_fees: 0, authority: key(0), platform_fee: 0, bumps: 0 }
}

fn zero_user() -> UserState {
    UserState {
        wallet: key(0),
        active_loans: 0,
        completed_loans: 0,
        reputation_score: 0,
        bumps: 0,
        seed: 0,
    }
}

fn zero_loan() -> LoanState {
    LoanState {
        lend_amount: 0,
        intrest_rate: 0,
        collateral_amount: 0,
        start_time: None,
        end_time: None,
        duration: 0,
        status: LoanStatus::Pending,
        token: key(0),
        lender: key(0),
        borrower: None,
        bumps: 0,
        seed: 0,
    }
}

const ADMIN: u8 = 1;
const LENDER: u8 = 2;
const BORROWER: u8 = 3;
const USER_STATE: u8 = 4;
const LOAN_STATE: u8 = 5;
const VAULT: u8 = 6;
const LENDER_ATA: u8 = 7;
const BORROWER_ATA: u8 = 8;
const BORROWER_ATA_USDT: u8 = 9;
const BORROWER_VAULT: u8 = 10;
const MINT_SOL: u8 = 11;
const MINT_USDT: u8 = 12;
const GLOBAL: u8 = 13;

fn sol() -> MintAccount {
    MintAccount { key: key(MINT_SOL), decimals: 9 }
}

fn usdt() -> MintAccount {
    MintAccount { key: key(MINT_USDT), decimals: 6 }
}

fn list_accounts() -> ListLend {
    ListLend {
        lender: key(LENDER),
        user_state: ProgramAccount { key: key(USER_STATE), data: zero_user() },
        loan_state: ProgramAccount { key: key(LOAN_STATE), data: zero_loan() },
        lend_vault: key(VAULT),
        mint_usdt: usdt(),
        lender_ata: key(LENDER_ATA),
    }
}

fn listed_loan(amount: u64, duration: i64) -> LoanState {
    let mut l = list_accounts();
    list_lend(&mut l, 42, amount, duration, ListLendBumps { user_state: 250, loan_state: 251 });
    l.loan_state.data
}

fn borrow_accounts(loan: LoanState) -> Borrow {
    Borrow {
        admin: key(ADMIN),
        lender: key(LENDER),
        borrower: key(BORROWER),
        borrower_ata: key(BORROWER_ATA),
        borrower_ata_usdt: key(BORROWER_ATA_USDT),
        mint_sol: sol(),
        mint_usdt: usdt(),
        global_state: ProgramAccount { key: key(GLOBAL), data: zero_global() },
        user_state: ProgramAccount { key: key(USER_STATE), data: zero_user() },
        loan_state: ProgramAccount { key: key(LOAN_STATE), data: loan },
        lend_vault: key(VAULT),
        borrower_vault: key(BORROWER_VAULT),
    }
}

fn repay_accounts(loan: LoanState) -> Repay {
    Repay {
        admin: key(ADMIN),
        lender: key(LENDER),
        borrower: key(BORROWER),
        borrower_ata: key(BORROWER_ATA),
        lender_ata: key(LENDER_ATA),
        mint_sol: sol(),
        mint_usdt: usdt(),
        global_state: ProgramAccount { key: key(GLOBAL), data: zero_global() },
        user_state: ProgramAccount { key: key(USER_STATE), data: zero_user() },
        loan_state: ProgramAccount { key: key(LOAN_STATE), data: loan },
        lend_vault: key(VAULT),
        borrower_vault: key(BORROWER_VAULT),
    }
}

fn withdraw_accounts(loan: LoanState) -> WithDraw {
    WithDraw {
        admin: key(ADMIN),
        lender: key(LENDER),
        user_state: ProgramAccount { key: key(USER_STATE), data: zero_user() },
        loan_state: ProgramAccount { key: key(LOAN_STATE), data: loan },
        mint_usdt: usdt(),
        lender_ata: key(LENDER_ATA),
        lend_vault: key(VAULT),
    }
}

#[test]
fn initialize_records_only_the_bump() {
    let mut a = InitializeLendingPool {
        admin: key(ADMIN),
        global_state: ProgramAccount { key: key(GLOBAL), data: zero_global() },
        mint_sol: sol(),
        mint_usdt: usdt(),
        treasure_vault: key(VAULT),
    };
    let before = a;
    initialize_lend(&mut a, InitializeLendingPoolBumps { global_state: 254 });
    assert_eq!(a.global_state.data.bumps, 254);
    assert_eq!(a.global_state.data.total_loans, 0);
    assert_eq!(a.global_state.key, before.global_state.key);
    assert_eq!(a.admin, before.admin);
}

#[test]
fn register_user_writes_fresh_record() {
    let mut a = RegisterUser {
        admin: key(ADMIN),
        lender: key(LENDER),
        user_state: ProgramAccount {
            key: key(USER_STATE),
            data: UserState { active_loans: 9, reputation_score: 3, ..zero_user() },
        },
        mint_usdt: usdt(),
        user_usdt_ata: key(LENDER_ATA),
    };
    register_user(&mut a, RegisterUserBumps { user_state: 253 }, 77);
    assert_eq!(
        a.user_state.data,
        UserState {
            wallet: key(LENDER),
            active_loans: 0,
            completed_loans: 0,
            reputation_score: 0,
            bumps: 253,
            seed: 77,
        }
    );
    assert_eq!(a.user_state.key, key(USER_STATE));
}

#[test]
fn list_lend_writes_pending_offer_and_deposits() {
    let mut a = list_accounts();
    let t = list_lend(&mut a, 42, 1_000, 3_600, ListLendBumps { user_state: 250, loan_state: 251 });
    assert_eq!(
        a.loan_state.data,
        LoanState {
            lend_amount: 1_000,
            intrest_rate: 5,
            collateral_amount: 5,
            start_time: None,
            end_time: None,
            duration: 3_600,
            status: LoanStatus::Pending,
            token: key(MINT_USDT),
            lender: key(LENDER),
            borrower: None,
            bumps: 251,
            seed: 42,
        }
    );
    assert_eq!(
        t,
        TokenTransfer {
            from: key(LENDER_ATA),
            to: key(VAULT),
            authority: key(LENDER),
            mint: key(MINT_USDT),
            amount: 1_000,
            decimals: 6,
            signer: None,
        }
    );
}

#[test]
fn transfer_funds_uses_given_amount() {
    let a = list_accounts();
    let t = a.transfer_funds(55);
    assert_eq!(t.amount, 55);
    assert_eq!(t.from, key(LENDER_ATA));
    assert_eq!(t.to, key(VAULT));
}

#[test]
fn borrow_activates_loan_and_pays_out() {
    let loan = listed_loan(1_000, 3_600);
    let mut b = borrow_accounts(loan);
    let (collateral, payout) = borrow(&mut b, 1_700_000_000);
    assert_eq!(b.loan_state.data.status, LoanStatus::Active);
    assert_eq!(b.loan_state.data.borrower, Some(key(BORROWER)));
    assert_eq!(b.loan_state.data.start_time, Some(1_700_000_000));
    assert_eq!(b.loan_state.data.end_time, Some(1_700_003_600));
    assert_eq!(b.loan_state.data.lend_amount, 1_000);
    assert_eq!(
        collateral,
        TokenTransfer {
            from: key(BORROWER_ATA),
            to: key(BORROWER_VAULT),
            authority: key(BORROWER),
            mint: key(MINT_SOL),
            amount: 5,
            decimals: 9,
            signer: None,
        }
    );
    assert_eq!(
        payout,
        TokenTransfer {
            from: key(VAULT),
            to: key(BORROWER_ATA_USDT),
            authority: key(USER_STATE),
            mint: key(MINT_USDT),
            amount: 1_000,
            decimals: 6,
            signer: Some(LenderSeeds { lender: key(LENDER), seed: 42, bump: 251 }),
        }
    );
}

#[test]
fn borrow_with_negative_duration() {
    let loan = listed_loan(10, -100);
    let mut b = borrow_accounts(loan);
    borrow(&mut b, 50);
    assert_eq!(b.loan_state.data.end_time, Some(-50));
}

#[test]
fn borrow_leaves_counters_unchanged() {
    let loan = listed_loan(1_000, 3_600);
    let mut b = borrow_accounts(loan);
    b.global_state.data.total_loans = 4;
    b.user_state.data.active_loans = 2;
    let before = b;
    borrow(&mut b, 10);
    assert_eq!(b.global_state, before.global_state);
    assert_eq!(b.user_state, before.user_state);
    assert_eq!(b.global_state.data.total_loans, 4);
    assert_eq!(b.user_state.data.active_loans, 2);
}

#[test]
fn repay_amount_formula() {
    assert_eq!(repay_amount_with_intrest(1_000, 5), Some(2_000));
    assert_eq!(repay_amount_with_intrest(1_000, 250), Some(2_002));
    assert_eq!(repay_amount_with_intrest(0, 99), Some(0));
    assert_eq!(repay_amount_with_intrest(u64::MAX / 2, 100), Some(u64::MAX));
    assert_eq!(repay_amount_with_intrest(u64::MAX / 2 + 1, 0), None);
    assert_eq!(repay_amount_with_intrest(u64::MAX, 0), None);
    assert_eq!(repay_amount_with_intrest(0, u64::MAX), Some(u64::MAX / 100));
}

#[test]
fn repay_pays_back_and_returns_collateral() {
    let loan = listed_loan(1_000, 3_600);
    let mut b = borrow_accounts(loan);
    borrow(&mut b, 100);
    let r = repay_accounts(b.loan_state.data);
    let (pay, give_back) = repay_funds(&r);
    assert_eq!(
        pay,
        TokenTransfer {
            from: key(BORROWER_ATA),
            to: key(BORROWER_VAULT),
            authority: key(BORROWER),
            mint: key(MINT_SOL),
            amount: 2_000,
            decimals: 6,
            signer: None,
        }
    );
    assert_eq!(
        give_back,
        TokenTransfer {
            from: key(BORROWER_VAULT),
            to: key(BORROWER_ATA),
            authority: key(USER_STATE),
            mint: key(MINT_SOL),
            amount: 5,
            decimals: 6,
            signer: None,
        }
    );
}

#[test]
fn withdraw_returns_lent_amount() {
    let loan = listed_loan(1_000, 3_600);
    let w = withdraw_accounts(loan);
    let t = withdraw_funds(&w);
    assert_eq!(
        t,
        TokenTransfer {
            from: key(VAULT),
            to: key(LENDER_ATA),
            authority: key(USER_STATE),
            mint: key(MINT_USDT),
            amount: 1_000,
            decimals: 6,
            signer: None,
        }
    );
    assert_eq!(w.transfer_funds(), t);
}

#[test]
fn lent_amount_flows_through() {
    let mut l = list_accounts();
    let deposit = list_lend(&mut l, 42, 777, 60, ListLendBumps { user_state: 1, loan_state: 2 });
    let mut b = borrow_accounts(l.loan_state.data);
    let (_, payout) = borrow(&mut b, 5);
    let before = withdraw_funds(&withdraw_accounts(l.loan_state.data));
    let after = withdraw_funds(&withdraw_accounts(b.loan_state.data));
    assert_eq!(deposit.amount, 777);
    assert_eq!(payout.amount, 777);
    assert_eq!(before.amount, 777);
    assert_eq!(after.amount, 777);
    assert_eq!(payout.from, deposit.to);
}

#[test]
fn collateral_returned_matches_posted() {
    let mut b = borrow_accounts(LoanState { collateral_amount: 31, ..listed_loan(10, 10) });
    let (posted, _) = borrow(&mut b, 0);
    let (_, returned) = repay_funds(&repay_accounts(b.loan_state.data));
    assert_eq!(returned.amount, posted.amount);
    assert_eq!(returned.mint, posted.mint);
    assert_eq!(returned.from, posted.to);
    assert_eq!(returned.to, posted.from);
}

#[test]
fn registered_lender_owns_offer() {
    let mut u = RegisterUser {
        admin: key(ADMIN),
        lender: key(LENDER),
        user_state: ProgramAccount { key: key(USER_STATE), data: zero_user() },
        mint_usdt: usdt(),
        user_usdt_ata: key(LENDER_ATA),
    };
    register_user(&mut u, RegisterUserBumps { user_state: 9 }, 42);
    let loan = listed_loan(5, 5);
    assert_eq!(u.user_state.data.wallet, loan.lender);
    assert_eq!(u.user_state.data.seed, loan.seed);
}

#[test]
fn lender_seed_bytes() {
    let mut lender = [0u8; 32];
    lender[0] = 0xaa;
    lender[31] = 0xbb;
    let s = LenderSeeds { lender: Pubkey { bytes: lender }, seed: 0x0102_0304_0506_0708, bump: 255 };
    let bytes = s.to_seed_bytes();
    assert_eq!(bytes.len(), 4);
    assert_eq!(bytes[0], b"lender".to_vec());
    assert_eq!(bytes[1], lender.to_vec());
    assert_eq!(bytes[2], vec![8, 7, 6, 5, 4, 3, 2, 1]);
    assert_eq!(bytes[3], vec![255]);
}
