//! The instructions of the lending program, one module each.
pub mod initialize;
pub mod register_user;
pub mod list_lend;
pub mod borrow;
pub mod repay;
pub mod withdraw;
