use vstd::prelude::*;

verus! {

/// Where a stake address delegates, and its balances as decimal text.
#[derive(Debug, Clone)]
pub struct StakeDelegation {
    pub stake_address: String,
    pub delegated_pool: Option<String>,
    pub delegated_drep: Option<String>,
    pub total_balance: Option<String>,
    pub utxo_balance: Option<String>,
    pub rewards_available: Option<String>,
}

/// A registered stake pool and its descriptive metadata.
#[derive(Debug, Clone)]
pub struct StakePool {
    pub pool_id: String,
    pub hex: Option<String>,
    pub ticker: Option<String>,
    pub name: Option<String>,
    pub description: Option<String>,
    pub homepage: Option<String>,
    pub retiring_epoch: Option<u32>,
}

/// One page of the stake pool listing.
#[derive(Debug, Clone)]
pub struct StakePoolPage {
    pub pools: Vec<StakePool>,
    pub has_more: bool,
    pub total: Option<u64>,
}

} // verus!
