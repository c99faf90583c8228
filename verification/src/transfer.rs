//! The token transfers that the instructions ask the token program to make.
use vstd::prelude::*;
use vstd::bytes::spec_u64_to_le_bytes;
use crate::state::Pubkey;

verus! {

/// The seeds with which a lender's program account signs:
/// `"lender"`, the lender's address, a loan seed in little-endian bytes, and a bump.
#[derive(Clone, Copy, Debug, PartialEq, Eq)]
pub struct LenderSeeds {
    pub lender: Pubkey,
    pub seed: u64,
    pub bump: u8,
}

/// A `transfer_checked` call on the token program: move `amount` tokens of `mint`
/// (with `decimals`) from `from` to `to`, authorised by `authority`. Where the
/// authority is a program account, `signer` holds the seeds it signs with.
#[derive(Clone, Copy, Debug, PartialEq, Eq)]
pub struct TokenTransfer {
    pub from: Pubkey,
    pub to: Pubkey,
    pub authority: Pubkey,
    pub mint: Pubkey,
    pub amount: u64,
    pub decimals: u8,
    pub signer: Option<LenderSeeds>,
}

/// The bytes of the seed prefix `"lender"`.
pub open spec fn lender_prefix() -> Seq<u8> {
    seq![108u8, 101u8, 110u8, 100u8, 101u8, 114u8]
}

/// The seed list of `s`, each seed as a byte string.
pub open spec fn lender_seed_bytes(s: LenderSeeds) -> Seq<Seq<u8>> {
    seq![lender_prefix(), s.lender.bytes@, spec_u64_to_le_bytes(s.seed), seq![s.bump]]
}

impl LenderSeeds {
    /// The seeds as the byte strings that a signed invocation takes.
    pub fn to_seed_bytes(&self) -> (r: Vec<Vec<u8>>)
        ensures
            r@.len() == 4,
            forall|i: int| 0 <= i < 4 ==> #[trigger] r@[i]@ == lender_seed_bytes(*self)[i],
    {
        let mut r: Vec<Vec<u8>> = Vec::new();
        r.push(vec![108u8, 101u8, 110u8, 100u8, 101u8, 114u8]);
        r.push(vstd::slice::slice_to_vec(self.lender.bytes.as_slice()));
        r.push(vstd::bytes::u64_to_le_bytes(self.seed));
        r.push(vec![self.bump]);
        assert(r@[0]@ =~= lender_prefix());
        assert(r@[3]@ =~= seq![self.bump]);
        r
    }
}

} // verus!
