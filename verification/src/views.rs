//! What the engine shows of its state, and what it reports of a finished pool.
use crate::lottery::{account_ids, clone_accounts, entry_accounts, Lottery, LotteryStatus};
use crate::lottery_config::{LotteryType, StoredCashback};
use crate::{AccountId, Balance, Contract, LotteryId};
use vstd::prelude::*;

verus! {

/// The outcome of a finished single-winner pool.
#[derive(Debug)]
pub struct SimpleLotteryResult {
    pub lottery_id: LotteryId,
    pub lottery_token_id: AccountId,
    pub participants: Vec<AccountId>,
    pub winner: AccountId,
    /// What the winner receives.
    pub winning_amount: Balance,
    /// What the engine retains.
    pub contract_fee: Balance,
}

/// The outcome of a finished tiered pool.
#[derive(Debug)]
pub struct BigLotteryResult {
    pub lottery_id: LotteryId,
    pub lottery_token_id: AccountId,
    pub participants: Vec<AccountId>,
    pub winners_up_to_50: Vec<AccountId>,
    pub winners_up_to_10: Vec<AccountId>,
    /// The pool that was paid out.
    pub total_winning_amount: Balance,
    /// What the engine retains.
    pub contract_fee: Balance,
}

/// The outcome of a finished pool.
#[derive(Debug)]
pub enum LotteryResult {
    SimpleLotteryResult(SimpleLotteryResult),
    BigLotteryResult(BigLotteryResult),
}

/// The state of the engine apart from its pools.
#[derive(Debug)]
pub struct ContractParams {
    /// The fees retained, by asset.
    pub fees_collected: Vec<(AccountId, Balance)>,
    pub config: ConfigView,
    /// The number of accounts that await their cashback, by queued payout.
    pub cashback_accounts_num: Vec<(AccountId, u32)>,
    pub whitelisted_tokens: Vec<AccountId>,
}

/// The sizes of the tiers of a tiered pool.
#[derive(Clone, Copy, Debug, PartialEq, Eq, Structural)]
pub struct BigLotteryParams {
    pub cashbacked_num: u32,
    pub ten_percent_winners_num: u32,
    pub fifty_percent_winners_num: u32,
}

/// The configuration, as it is shown.
#[derive(Debug)]
pub struct ConfigView {
    pub owner_id: AccountId,
    pub contract_fee_ratio: u32,
    pub entry_fees_required: Vec<(AccountId, Vec<Balance>)>,
    pub num_participants_required: Vec<(LotteryType, Vec<u32>)>,
}

/// A pool, as it is shown.
#[derive(Debug)]
pub struct LotteryView {
    pub lottery_token_id: AccountId,
    pub lottery_status: LotteryStatus,
    /// The accounts that have entered, in the order of their admission.
    pub entries: Vec<AccountId>,
    pub entry_fee: Balance,
    pub current_pool: Balance,
    pub required_pool: Balance,
    /// The sizes of the tiers, for a tiered pool.
    pub big_lottery_params: Option<BigLotteryParams>,
}

/// Copies a list of numbers of participants.
pub fn clone_nums(values: &Vec<u32>) -> (res: Vec<u32>)
    ensures
        res@ == values@,
{
    let mut res: Vec<u32> = Vec::new();
    let mut i: usize = 0;
    while i < values.len()
        invariant
            i <= values@.len(),
            res@ == values@.subrange(0, i as int),
        decreases values.len() - i,
    {
        res.push(values[i]);
        i = i + 1;
        assert(res@ =~= values@.subrange(0, i as int));
    }
    assert(values@.subrange(0, i as int) =~= values@);
    res
}

/// Copies a list of amounts.
pub fn clone_amounts(values: &Vec<Balance>) -> (res: Vec<Balance>)
    ensures
        res@ == values@,
{
    let mut res: Vec<Balance> = Vec::new();
    let mut i: usize = 0;
    while i < values.len()
        invariant
            i <= values@.len(),
            res@ == values@.subrange(0, i as int),
        decreases values.len() - i,
    {
        res.push(values[i]);
        i = i + 1;
        assert(res@ =~= values@.subrange(0, i as int));
    }
    assert(values@.subrange(0, i as int) =~= values@);
    res
}

/// The two lists hold the same fees for the same assets in the same order.
pub open spec fn same_fees(
    left: Seq<(AccountId, Vec<Balance>)>,
    right: Seq<(AccountId, Vec<Balance>)>,
) -> bool {
    &&& left.len() == right.len()
    &&& forall|i: int|
        0 <= i < left.len() ==> (#[trigger] left[i]).0 == right[i].0 && left[i].1@ == right[i].1@
}

/// The number of accounts of each queued cashback, with its asset. A number
/// that exceeds 32 bits is cut down to its lowest 32.
pub open spec fn cashback_counts(queue: Seq<(AccountId, StoredCashback)>) -> Seq<(AccountId, u32)> {
    Seq::new(queue.len(), |i: int| (queue[i].0, queue[i].1.accounts@.len() as u32))
}

/// What the view shows of the pool.
pub open spec fn shows(view: LotteryView, lottery: Lottery) -> bool {
    &&& view.lottery_token_id == lottery.spec_lottery_token_id()
    &&& view.lottery_status == lottery.spec_status()
    &&& view.entries@ == account_ids(lottery.spec_entries())
    &&& view.entry_fee == lottery.spec_entry_fee()
    &&& view.current_pool == lottery.spec_current_pool()
    &&& view.required_pool == lottery.spec_required_pool()
    &&& view.big_lottery_params == match lottery {
        Lottery::SimpleLottery(_) => None,
        Lottery::Lottery(lottery) => Some(
            BigLotteryParams {
                cashbacked_num: lottery.cashbacked_num,
                ten_percent_winners_num: lottery.ten_percent_winners_num,
                fifty_percent_winners_num: lottery.fifty_percent_winners_num,
            },
        ),
    }
}

impl Contract {
    /// The state of the engine apart from its pools: the fees retained, the
    /// configuration, the queued cashback and the whitelist.
    pub fn get_contract_view(&self) -> (res: ContractParams)
        ensures
            res.fees_collected@ == self.fees@,
            res.config.owner_id == self.config.owner_id,
            res.config.contract_fee_ratio == self.config.contract_fee_ratio,
            same_fees(res.config.entry_fees_required@, self.lotteries_config.entry_fees@),
            res.config.num_participants_required@.len() == 2,
            res.config.num_participants_required@[0].0 == LotteryType::SimpleLottery,
            res.config.num_participants_required@[0].1@ == self.lotteries_config.num_participants@,
            res.config.num_participants_required@[1].0 == LotteryType::BigLottery,
            res.config.num_participants_required@[1].1@
                == self.lotteries_config.big_lottery_num_participants@,
            res.cashback_accounts_num@ == cashback_counts(self.cashback_accounts@),
            res.whitelisted_tokens@ == self.whitelisted_tokens@,
    {
        let mut fees_collected: Vec<(AccountId, Balance)> = Vec::new();
        let mut i: usize = 0;
        while i < self.fees.len()
            invariant
                i <= self.fees@.len(),
                fees_collected@ == self.fees@.subrange(0, i as int),
            decreases self.fees.len() - i,
        {
            fees_collected.push((self.fees[i].0.clone(), self.fees[i].1));
            i = i + 1;
            assert(fees_collected@ =~= self.fees@.subrange(0, i as int));
        }
        assert(self.fees@.subrange(0, i as int) =~= self.fees@);
        let mut entry_fees_required: Vec<(AccountId, Vec<Balance>)> = Vec::new();
        let mut j: usize = 0;
        while j < self.lotteries_config.entry_fees.len()
            invariant
                j <= self.lotteries_config.entry_fees@.len(),
                entry_fees_required@.len() == j,
                forall|k: int|
                    0 <= k < j ==> (#[trigger] entry_fees_required@[k]).0
                        == self.lotteries_config.entry_fees@[k].0 && entry_fees_required@[k].1@
                        == self.lotteries_config.entry_fees@[k].1@,
            decreases self.lotteries_config.entry_fees.len() - j,
        {
            let pair = &self.lotteries_config.entry_fees[j];
            entry_fees_required.push((pair.0.clone(), clone_amounts(&pair.1)));
            j = j + 1;
        }
        let mut num_participants_required: Vec<(LotteryType, Vec<u32>)> = Vec::new();
        num_participants_required.push(
            (LotteryType::SimpleLottery, clone_nums(&self.lotteries_config.num_participants)),
        );
        num_participants_required.push(
            (
                LotteryType::BigLottery,
                clone_nums(&self.lotteries_config.big_lottery_num_participants),
            ),
        );
        let mut cashback_accounts_num: Vec<(AccountId, u32)> = Vec::new();
        let mut k: usize = 0;
        while k < self.cashback_accounts.len()
            invariant
                k <= self.cashback_accounts@.len(),
                cashback_accounts_num@ == cashback_counts(self.cashback_accounts@).subrange(
                    0,
                    k as int,
                ),
            decreases self.cashback_accounts.len() - k,
        {
            let stored = &self.cashback_accounts[k];
            let count = #[verifier::truncate]
            (stored.1.accounts.len() as u32);
            cashback_accounts_num.push((stored.0.clone(), count));
            k = k + 1;
            assert(cashback_accounts_num@ =~= cashback_counts(self.cashback_accounts@).subrange(
                0,
                k as int,
            ));
        }
        assert(cashback_counts(self.cashback_accounts@).subrange(0, k as int) =~= cashback_counts(
            self.cashback_accounts@,
        ));
        ContractParams {
            fees_collected,
            config: ConfigView {
                owner_id: self.config.owner_id.clone(),
                contract_fee_ratio: self.config.contract_fee_ratio,
                entry_fees_required,
                num_participants_required,
            },
            cashback_accounts_num,
            whitelisted_tokens: clone_accounts(&self.whitelisted_tokens),
        }
    }

    /// The pool, as it is shown.
    pub fn get_lottery_view(&self, lottery: Lottery) -> (res: LotteryView)
        ensures
            shows(res, lottery),
    {
        match lottery {
            Lottery::Lottery(lottery) => LotteryView {
                lottery_token_id: lottery.lottery_token_id.clone(),
                lottery_status: lottery.lottery_status,
                entries: entry_accounts(&lottery.entries),
                entry_fee: lottery.entry_fee,
                current_pool: lottery.current_pool,
                required_pool: lottery.required_pool,
                big_lottery_params: Some(
                    BigLotteryParams {
                        cashbacked_num: lottery.cashbacked_num,
                        ten_percent_winners_num: lottery.ten_percent_winners_num,
                        fifty_percent_winners_num: lottery.fifty_percent_winners_num,
                    },
                ),
            },
            Lottery::SimpleLottery(lottery) => LotteryView {
                lottery_token_id: lottery.lottery_token_id.clone(),
                lottery_status: lottery.lottery_status,
                entries: entry_accounts(&lottery.entries),
                entry_fee: lottery.entry_fee,
                current_pool: lottery.current_pool,
                required_pool: lottery.required_pool,
                big_lottery_params: None,
            },
        }
    }

    /// The number of open pools.
    pub fn get_lotteries_num(&self) -> (res: u64)
        ensures
            res == self.lotteries@.len(),
    {
        self.lotteries.len() as u64
    }

    /// The state of the engine apart from its pools.
    pub fn get_contract_params(&self) -> (res: ContractParams)
        ensures
            res.fees_collected@ == self.fees@,
            res.config.owner_id == self.config.owner_id,
            res.config.contract_fee_ratio == self.config.contract_fee_ratio,
            same_fees(res.config.entry_fees_required@, self.lotteries_config.entry_fees@),
            res.config.num_participants_required@.len() == 2,
            res.config.num_participants_required@[0].0 == LotteryType::SimpleLottery,
            res.config.num_participants_required@[0].1@ == self.lotteries_config.num_participants@,
            res.config.num_participants_required@[1].0 == LotteryType::BigLottery,
            res.config.num_participants_required@[1].1@
                == self.lotteries_config.big_lottery_num_participants@,
            res.cashback_accounts_num@ == cashback_counts(self.cashback_accounts@),
            res.whitelisted_tokens@ == self.whitelisted_tokens@,
    {
        self.get_contract_view()
    }

    /// The open pool with the identifier, as it is shown.
    pub fn get_lottery(&self, lottery_id: LotteryId) -> (res: Option<LotteryView>)
        ensures
            match res {
                Some(view) => exists|i: int|
                    {
                        &&& 0 <= i < self.lotteries@.len()
                        &&& (#[trigger] self.lotteries@[i]).spec_id() == lottery_id
                        &&& shows(view, self.lotteries@[i])
                    },
                None => forall|i: int|
                    0 <= i < self.lotteries@.len() ==> (#[trigger] self.lotteries@[i]).spec_id()
                        != lottery_id,
            },
    {
        match self.lottery_position(lottery_id) {
            Some(at) => {
                let lottery = self.lotteries[at].clone();
                proof {
                    lottery.lemma_same_as_wf(&self.lotteries@[at as int]);
                }
                let view = self.get_lottery_view(lottery);
                assert(self.lotteries@[at as int].spec_id() == lottery_id);
                Some(view)
            },
            None => None,
        }
    }

    /// The place behind the last pool of a page.
    pub open spec fn page_end(total: int, from_index: Option<u64>, limit: Option<u64>) -> int {
        let from = match from_index {
            Some(from) => from as int,
            None => 0,
        };
        let until = match limit {
            Some(limit) => from + limit,
            None => from + total,
        };
        if until < total {
            until
        } else {
            total
        }
    }

    /// Copies of the open pools from the place `from_index` on, or from the
    /// first, at most `limit` of them, or all.
    pub fn get_lotteries_paged(&self, from_index: Option<u64>, limit: Option<u64>) -> (res: Vec<
        Lottery,
    >)
        ensures
            res@.len() == if Self::page_end(self.lotteries@.len() as int, from_index, limit) > (
            match from_index {
                Some(from) => from as int,
                None => 0,
            }) {
                Self::page_end(self.lotteries@.len() as int, from_index, limit) - (
                match from_index {
                    Some(from) => from as int,
                    None => 0,
                })
            } else {
                0
            },
            forall|i: int|
                0 <= i < res@.len() ==> (#[trigger] res@[i]).same_as(
                    &self.lotteries@[i + (match from_index {
                        Some(from) => from as int,
                        None => 0,
                    })],
                ),
    {
        let total: u64 = self.lotteries.len() as u64;
        let from: u64 = match from_index {
            Some(from) => from,
            None => 0,
        };
        let limit: u64 = match limit {
            Some(limit) => limit,
            None => total,
        };
        let until: u64 = if limit >= total || from >= total - limit {
            total
        } else {
            from + limit
        };
        let mut res: Vec<Lottery> = Vec::new();
        if from >= until {
            return res;
        }
        let mut index: usize = from as usize;
        while index < until as usize
            invariant
                from <= index <= until <= total == self.lotteries@.len(),
                res@.len() == index - from,
                forall|i: int|
                    0 <= i < res@.len() ==> (#[trigger] res@[i]).same_as(
                        &self.lotteries@[i + from],
                    ),
            decreases until - index,
        {
            res.push(self.lotteries[index].clone());
            index = index + 1;
        }
        res
    }
}

} // verus!
