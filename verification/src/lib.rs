//! A pooled-stake lottery engine.
//!
//! Participants pay a fixed entry fee into a shared pool. Once the pool holds
//! the fee of every required participant, winners are drawn from a randomness
//! seed and the pool is split between the winners, referrers, the treasury,
//! the investor and the fee that the engine retains.
use crate::assoc::{distinct_keys, has_distinct_keys};
use crate::big_lottery::{check_account_duplicates, distinct_names};
use crate::config::Config;
use crate::errors::LotteryError;
use crate::lottery::{Lottery, LotteryStatus};
use crate::lottery_config::{fees_for, LotteryConfig, StoredCashback};
use vstd::prelude::*;

pub mod assoc;
pub mod big_lottery;
pub mod config;
pub mod distribution;
pub mod errors;
pub mod fungible_token;
pub mod lottery;
pub mod lottery_config;
pub mod payout;
pub mod registry;
pub mod simple_lottery;
pub mod utils;
pub mod views;

verus! {

/// The name of an account, or of the asset that a pool is held in.
pub type AccountId = String;

/// An amount of an asset, in its smallest unit.
pub type Balance = u128;

/// The identifier that the registry gives to a pool.
pub type LotteryId = u64;

/// The randomness that the environment supplies for one selection of winners.
pub type RandomSeed = [u8; 32];

/// The engine: the open pools, the configuration, the fees retained and
/// the cashback that awaits its transfer.
#[derive(Debug)]
pub struct Contract {
    pub config: Config,
    /// The open pools, in the order of their opening.
    pub lotteries: Vec<Lottery>,
    /// The fungible tokens that pools may be held in; none occurs twice.
    pub whitelisted_tokens: Vec<AccountId>,
    /// The fees retained, by asset; no asset occurs twice.
    pub fees: Vec<(AccountId, Balance)>,
    /// The identifier that the next pool gets.
    pub next_lottery_id: LotteryId,
    /// The cashback that awaits its transfer: the asset, its amount for
    /// each account, and the accounts.
    pub cashback_accounts: Vec<(AccountId, StoredCashback)>,
    pub lotteries_config: LotteryConfig,
}

impl Contract {
    /// What holds of the engine between two operations: the configuration
    /// is valid, every pool is well-formed and open, and no two pools have
    /// one identifier, which the registry has given out.
    pub open spec fn wf(&self) -> bool {
        &&& self.config.valid()
        &&& self.lotteries_config.wf()
        &&& self.lotteries_config.valid()
        &&& distinct_keys(self.fees@)
        &&& distinct_names(self.whitelisted_tokens@)
        &&& forall|i: int|
            0 <= i < self.lotteries@.len() ==> {
                &&& (#[trigger] self.lotteries@[i]).wf()
                &&& self.lotteries@[i].spec_status() == LotteryStatus::Active
                &&& self.lotteries@[i].spec_id() < self.next_lottery_id
            }
        &&& forall|i: int, j: int|
            0 <= i < j < self.lotteries@.len() ==> (#[trigger] self.lotteries@[i]).spec_id() != (
            #[trigger] self.lotteries@[j]).spec_id()
    }

    /// Sets the engine up with a fee schedule and the tables of what a pool
    /// may look like. An invalid fee schedule and an empty table are turned
    /// down, the fee schedule first.
    pub fn new(
        config: Config,
        entry_fees: Vec<(AccountId, Vec<Balance>)>,
        num_participants: Vec<u32>,
        big_lottery_num_participants: Vec<u32>,
    ) -> (res: Result<Self, LotteryError>)
        ensures
            match res {
                Ok(contract) => {
                    &&& config.valid()
                    &&& entry_fees@.len() > 0
                    &&& num_participants@.len() > 0
                    &&& big_lottery_num_participants@.len() > 0
                    &&& contract.wf()
                    &&& contract.config == config
                    &&& contract.lotteries@.len() == 0
                    &&& contract.whitelisted_tokens@.len() == 0
                    &&& contract.fees@.len() == 0
                    &&& contract.next_lottery_id == 0
                    &&& contract.cashback_accounts@.len() == 0
                    &&& forall|name: Seq<char>|
                        contract.lotteries_config.spec_entry_fees(name) == fees_for(
                            entry_fees@,
                            name,
                        )
                    &&& contract.lotteries_config.num_participants == num_participants
                    &&& contract.lotteries_config.big_lottery_num_participants
                        == big_lottery_num_participants
                },
                Err(e) => if !config.valid() {
                    e == LotteryError::InvalidFeeSchedule
                } else {
                    &&& e == LotteryError::EmptyLotteryConfig
                    &&& (entry_fees@.len() == 0 || num_participants@.len() == 0
                        || big_lottery_num_participants@.len() == 0)
                },
            },
    {
        match config.assert_valid() {
            Ok(()) => {},
            Err(e) => {
                return Err(e);
            },
        }
        let lottery_config = LotteryConfig::new(
            entry_fees,
            num_participants,
            big_lottery_num_participants,
        );
        match lottery_config.assert_valid() {
            Ok(()) => {},
            Err(e) => {
                return Err(e);
            },
        }
        Ok(
            Contract {
                config,
                lotteries: Vec::new(),
                whitelisted_tokens: Vec::new(),
                fees: Vec::new(),
                next_lottery_id: 0,
                cashback_accounts: Vec::new(),
                lotteries_config: lottery_config,
            },
        )
    }
}

impl Contract {
    /// Whether the engine is well-formed, as it is after every operation. A
    /// state that comes from elsewhere is to be looked at before it is used.
    pub fn is_valid(&self) -> (res: bool)
        ensures
            res == self.wf(),
    {
        if !(self.config.assert_valid().is_ok() && has_distinct_keys(
            &self.lotteries_config.entry_fees,
        ) && self.lotteries_config.assert_valid().is_ok() && has_distinct_keys(&self.fees)
            && check_account_duplicates(&self.whitelisted_tokens)) {
            return false;
        }
        let mut j: usize = 0;
        while j < self.lotteries.len()
            invariant
                j <= self.lotteries@.len(),
                forall|i: int|
                    0 <= i < j ==> {
                        &&& (#[trigger] self.lotteries@[i]).wf()
                        &&& self.lotteries@[i].spec_status() == LotteryStatus::Active
                        &&& self.lotteries@[i].spec_id() < self.next_lottery_id
                    },
                forall|a: int, b: int|
                    0 <= a < b < j ==> (#[trigger] self.lotteries@[a]).spec_id() != (
                    #[trigger] self.lotteries@[b]).spec_id(),
            decreases self.lotteries.len() - j,
        {
            let lottery = &self.lotteries[j];
            if !lottery.is_open_pool() || lottery.get_id() >= self.next_lottery_id {
                return false;
            }
            let mut i: usize = 0;
            while i < j
                invariant
                    i <= j < self.lotteries@.len(),
                    forall|a: int|
                        0 <= a < i ==> (#[trigger] self.lotteries@[a]).spec_id()
                            != self.lotteries@[j as int].spec_id(),
                decreases j - i,
            {
                if self.lotteries[i].get_id() == self.lotteries[j].get_id() {
                    return false;
                }
                i = i + 1;
            }
            j = j + 1;
        }
        true
    }
}

} // verus!
