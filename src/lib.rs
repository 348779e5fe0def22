use vstd::prelude::*;

pub mod governance;
pub mod mining;
pub mod staking;

pub use governance::{JdhChainError as GovernanceError, Proposal, Vote, Vote as VoteAccount, VoteType};
pub use mining::{MiningError, MiningTier, MiningVault, UserMiningDeposit};
pub use staking::{JdhChainError as StakingError, StakingPool, UserStake};

verus! {

/// Identity of an account on the ledger (a wallet, a mint, a pool, a proposal):
/// its 32-byte address, carried through the records unchanged.
#[derive(Clone, Copy, Debug, PartialEq, Eq)]
pub struct AccountKey {
    pub bytes: [u8; 32],
}

impl AccountKey {
    pub fn new(bytes: [u8; 32]) -> (r: AccountKey)
        ensures
            r.bytes == bytes,
    {
        AccountKey { bytes }
    }
}

} // verus!
