//! Paying out a finished pool: the transfers, the fee that is retained, and
//! the cashback that is queued for a later transfer.
use crate::assoc::{distinct_keys, key_position, lemma_lookup_at, lemma_lookup_push, lemma_lookup_update, lookup};
use crate::big_lottery::WinnerType;
use crate::config::Config;
use crate::errors::LotteryError;
use crate::lottery::{account_ids, entry_accounts, Lottery, ONE_PERCENT_RATIO};
use crate::lottery_config::StoredCashback;
use crate::payout::{
    copy_accounts, distribute_big, distribute_simple, push_tier_transfers,
    spec_big_lottery_payout, spec_big_transfers, spec_simple_lottery_payout,
    spec_simple_transfers, tier_transfers, total_amount, Transfer,
};
use crate::views::{BigLotteryResult, LotteryResult, SimpleLotteryResult};
use crate::{AccountId, Balance, Contract};
use vstd::prelude::*;

verus! {

/// The transfers that pay the queued cashback, in the order of the queue.
pub open spec fn cashback_transfers(queue: Seq<(AccountId, StoredCashback)>) -> Seq<Transfer>
    decreases queue.len(),
{
    if queue.len() == 0 {
        Seq::empty()
    } else {
        cashback_transfers(queue.drop_last()) + tier_transfers(
            queue.last().1.accounts@,
            queue.last().0,
            queue.last().1.amount,
        )
    }
}

/// The fee that the engine has retained of the asset.
pub open spec fn fee_balance(fees: Seq<(AccountId, Balance)>, token: Seq<char>) -> Balance {
    match lookup(fees, token) {
        Some(balance) => balance,
        None => 0,
    }
}

/// The reason for which the pool cannot be paid out under the fee schedule,
/// if there is one.
pub open spec fn payout_error(lottery: Lottery, config: Config) -> Option<LotteryError> {
    match lottery {
        Lottery::SimpleLottery(lottery) => match spec_simple_lottery_payout(
            lottery,
            config,
            ONE_PERCENT_RATIO,
        ) {
            Ok(_) => None,
            Err(e) => Some(e),
        },
        Lottery::Lottery(lottery) => match spec_big_lottery_payout(lottery, config) {
            Ok(_) => None,
            Err(e) => Some(e),
        },
    }
}

/// What the engine retains of the pool under the fee schedule.
pub open spec fn retained_fee(lottery: Lottery, config: Config) -> Balance {
    match lottery {
        Lottery::SimpleLottery(lottery) => spec_simple_lottery_payout(
            lottery,
            config,
            ONE_PERCENT_RATIO,
        )->Ok_0.contract_fees,
        Lottery::Lottery(lottery) => spec_big_lottery_payout(lottery, config)->Ok_0.contract_fees,
    }
}

/// The transfers that pay the pool out under the fee schedule, without
/// the cashback.
pub open spec fn payout_transfers(lottery: Lottery, config: Config) -> Seq<Transfer> {
    match lottery {
        Lottery::SimpleLottery(lottery) => spec_simple_transfers(
            lottery,
            config,
            spec_simple_lottery_payout(lottery, config, ONE_PERCENT_RATIO)->Ok_0,
        ),
        Lottery::Lottery(lottery) => spec_big_transfers(
            lottery,
            config,
            spec_big_lottery_payout(lottery, config)->Ok_0,
        ),
    }
}

/// The cashback that the pool queues: nothing for a single-winner pool, and
/// for a tiered pool half the entry fee for each account of its last tier.
pub open spec fn queued_cashback(lottery: Lottery, config: Config, queued: Seq<
    (AccountId, StoredCashback),
>) -> bool {
    match lottery {
        Lottery::SimpleLottery(_) => queued.len() == 0,
        Lottery::Lottery(lottery) => {
            &&& queued.len() == 1
            &&& queued[0].0 == lottery.lottery_token_id
            &&& queued[0].1.amount == spec_big_lottery_payout(lottery, config)->Ok_0.cashback
            &&& queued[0].1.accounts@ == lottery.winners->Some_0.cashback@
        },
    }
}

/// What the referrers of the entries have received out of the contract fee
/// before the payout: in a tiered pool what was paid on admission, in a
/// single-winner pool nothing.
pub open spec fn referrals_off_the_fee(lottery: Lottery) -> Balance {
    match lottery {
        Lottery::SimpleLottery(_) => 0,
        Lottery::Lottery(lottery) => lottery.refferal_transfered,
    }
}

/// What the queued cashback amounts to.
pub open spec fn queued_amount(queued: Seq<(AccountId, StoredCashback)>) -> int
    decreases queued.len(),
{
    if queued.len() == 0 {
        0
    } else {
        queued_amount(queued.drop_last()) + queued.last().1.amount * queued.last().1.accounts@.len()
    }
}

/// What the report of a finished pool says of it.
pub open spec fn reports(result: LotteryResult, lottery: Lottery, config: Config) -> bool {
    match (result, lottery) {
        (LotteryResult::SimpleLotteryResult(result), Lottery::SimpleLottery(lottery)) => {
            let payout = spec_simple_lottery_payout(lottery, config, ONE_PERCENT_RATIO)->Ok_0;
            &&& result.lottery_id == lottery.id
            &&& result.lottery_token_id == lottery.lottery_token_id
            &&& result.participants@ == account_ids(lottery.entries@)
            &&& result.winner == lottery.winner->Some_0.account_id
            &&& result.winning_amount == payout.winner_amount
            &&& result.contract_fee == payout.contract_fees
        },
        (LotteryResult::BigLotteryResult(result), Lottery::Lottery(lottery)) => {
            let payout = spec_big_lottery_payout(lottery, config)->Ok_0;
            &&& result.lottery_id == lottery.id
            &&& result.lottery_token_id == lottery.lottery_token_id
            &&& result.participants@ == account_ids(lottery.entries@)
            &&& result.winners_up_to_50@ == lottery.winners->Some_0.up_to_fifty_percent@
            &&& result.winners_up_to_10@ == lottery.winners->Some_0.up_to_ten_percent@
            &&& result.total_winning_amount == lottery.current_pool
            &&& result.contract_fee == payout.contract_fees
        },
        _ => false,
    }
}

impl Contract {
    /// The reason for which the pool cannot be paid out, if there is one:
    /// the fee schedule does not fit it, or the fee retained of its asset
    /// would exceed the balance type.
    pub open spec fn distribute_error(&self, lottery: Lottery) -> Option<LotteryError> {
        if payout_error(lottery, self.config) is Some {
            payout_error(lottery, self.config)
        } else if fee_balance(self.fees@, lottery.spec_lottery_token_id()@) + retained_fee(
            lottery,
            self.config,
        ) > u128::MAX {
            Some(LotteryError::BalanceOverflow)
        } else {
            None
        }
    }

    /// Adds to the fee retained of the asset.
    pub fn deposit_fees(&mut self, token_id: &AccountId, amount: Balance) -> (res: Result<
        (),
        LotteryError,
    >)
        requires
            distinct_keys(old(self).fees@),
        ensures
            distinct_keys(final(self).fees@),
            res is Ok <==> fee_balance(old(self).fees@, token_id@) + amount <= u128::MAX,
            match res {
                Ok(()) => {
                    &&& forall|name: Seq<char>|
                        #[trigger] fee_balance(final(self).fees@, name) == if name == token_id@ {
                            (fee_balance(old(self).fees@, name) + amount) as Balance
                        } else {
                            fee_balance(old(self).fees@, name)
                        }
                    &&& *final(self) == (Contract { fees: final(self).fees, ..*old(self) })
                },
                Err(e) => e == LotteryError::BalanceOverflow && *final(self) == *old(self),
            },
    {
        match key_position(&self.fees, token_id) {
            Some(at) => {
                proof {
                    lemma_lookup_at(self.fees@, token_id@, at as int);
                }
                let balance = self.fees[at].1;
                let fee_amount = match balance.checked_add(amount) {
                    Some(fee_amount) => fee_amount,
                    None => {
                        return Err(LotteryError::BalanceOverflow);
                    },
                };
                let pair = (token_id.clone(), fee_amount);
                let ghost kept = pair;
                self.fees.set(at, pair);
                proof {
                    assert forall|name: Seq<char>|
                        #[trigger] fee_balance(final(self).fees@, name) == if name == token_id@ {
                            (fee_balance(old(self).fees@, name) + amount) as Balance
                        } else {
                            fee_balance(old(self).fees@, name)
                        } by {
                        lemma_lookup_update(old(self).fees@, at as int, kept, name);
                    }
                    lemma_lookup_update(old(self).fees@, at as int, kept, token_id@);
                }
                Ok(())
            },
            None => {
                let pair = (token_id.clone(), amount);
                let ghost kept = pair;
                self.fees.push(pair);
                proof {
                    assert forall|name: Seq<char>|
                        #[trigger] fee_balance(final(self).fees@, name) == if name == token_id@ {
                            (fee_balance(old(self).fees@, name) + amount) as Balance
                        } else {
                            fee_balance(old(self).fees@, name)
                        } by {
                        lemma_lookup_push(old(self).fees@, kept, name);
                    }
                    lemma_lookup_push(old(self).fees@, kept, token_id@);
                }
                Ok(())
            },
        }
    }

    /// Pays out a finished pool: computes the transfers to the winners, the
    /// treasury and the investor, retains the rest of the contract fee, and
    /// queues the cashback of a tiered pool.
    ///
    /// What is transferred, what is queued, what the referrers of the
    /// entries of a tiered pool have received already and what is retained
    /// add up to the pool. Where the pool cannot be paid out, nothing changes.
    pub fn distribute(&mut self, lottery: Lottery) -> (res: Result<
        (LotteryResult, Vec<Transfer>),
        LotteryError,
    >)
        requires
            old(self).wf(),
            lottery.wf(),
        ensures
            match res {
                Ok((result, transfers)) => {
                    &&& old(self).distribute_error(lottery) is None
                    &&& final(self).wf()
                    &&& reports(result, lottery, old(self).config)
                    &&& transfers@ == payout_transfers(lottery, old(self).config)
                    &&& forall|name: Seq<char>|
                        #[trigger] fee_balance(final(self).fees@, name) == if name
                            == lottery.spec_lottery_token_id()@ {
                            (fee_balance(old(self).fees@, name) + retained_fee(
                                lottery,
                                old(self).config,
                            )) as Balance
                        } else {
                            fee_balance(old(self).fees@, name)
                        }
                    &&& exists|queued: Seq<(AccountId, StoredCashback)>|
                        {
                            &&& #[trigger] queued_cashback(lottery, old(self).config, queued)
                            &&& final(self).cashback_accounts@ == old(self).cashback_accounts@
                                + queued
                            &&& total_amount(transfers@) + queued_amount(queued)
                                + referrals_off_the_fee(lottery) + retained_fee(
                                lottery,
                                old(self).config,
                            ) == lottery.spec_current_pool()
                        }
                    &&& *final(self) == (Contract {
                        fees: final(self).fees,
                        cashback_accounts: final(self).cashback_accounts,
                        ..*old(self)
                    })
                },
                Err(e) => {
                    &&& old(self).distribute_error(lottery) == Some(e)
                    &&& *final(self) == *old(self)
                },
            },
    {
        match lottery {
            Lottery::SimpleLottery(lottery) => {
                let (payout, transfers) = match distribute_simple(
                    &lottery,
                    &self.config,
                    ONE_PERCENT_RATIO,
                ) {
                    Ok(plan) => plan,
                    Err(e) => {
                        return Err(e);
                    },
                };
                if payout.contract_fees > 0 {
                    match self.deposit_fees(&lottery.lottery_token_id, payout.contract_fees) {
                        Ok(()) => {},
                        Err(e) => {
                            return Err(e);
                        },
                    }
                }
                let result = SimpleLotteryResult {
                    lottery_id: lottery.id,
                    lottery_token_id: lottery.lottery_token_id.clone(),
                    participants: entry_accounts(&lottery.entries),
                    winner: lottery.get_winner_unwrap(),
                    winning_amount: payout.winner_amount,
                    contract_fee: payout.contract_fees,
                };
                proof {
                    let queued = Seq::<(AccountId, StoredCashback)>::empty();
                    assert(queued_cashback(
                        Lottery::SimpleLottery(lottery),
                        old(self).config,
                        queued,
                    ));
                    assert(self.cashback_accounts@ =~= old(self).cashback_accounts@ + queued);
                }
                Ok((LotteryResult::SimpleLotteryResult(result), transfers))
            },
            Lottery::Lottery(lottery) => {
                let (payout, transfers, cashback) = match distribute_big(&lottery, &self.config) {
                    Ok(plan) => plan,
                    Err(e) => {
                        return Err(e);
                    },
                };
                match self.deposit_fees(&lottery.lottery_token_id, payout.contract_fees) {
                    Ok(()) => {},
                    Err(e) => {
                        return Err(e);
                    },
                }
                let pair = (lottery.lottery_token_id.clone(), cashback);
                let ghost kept = pair;
                self.cashback_accounts.push(pair);
                let result = BigLotteryResult {
                    lottery_id: lottery.id,
                    lottery_token_id: lottery.lottery_token_id.clone(),
                    participants: entry_accounts(&lottery.entries),
                    winners_up_to_50: copy_accounts(
                        lottery.get_winners(WinnerType::UpToFiftyPercent),
                    ),
                    winners_up_to_10: copy_accounts(lottery.get_winners(WinnerType::UpToTenPercent)),
                    total_winning_amount: lottery.current_pool,
                    contract_fee: payout.contract_fees,
                };
                proof {
                    let queued = seq![kept];
                    assert(queued_cashback(Lottery::Lottery(lottery), old(self).config, queued));
                    assert(self.cashback_accounts@ =~= old(self).cashback_accounts@ + queued);
                    assert(queued.drop_last() =~= Seq::<(AccountId, StoredCashback)>::empty());
                    assert(queued_amount(queued.drop_last()) == 0);
                    assert(queued_amount(queued) == kept.1.amount * kept.1.accounts@.len());
                }
                Ok((LotteryResult::BigLotteryResult(result), transfers))
            },
        }
    }

    /// Hands out the transfers of the queued cashback and empties the queue.
    pub fn update_cashback_storage(&mut self) -> (transfers: Vec<Transfer>)
        ensures
            transfers@ == cashback_transfers(old(self).cashback_accounts@),
            final(self).cashback_accounts@.len() == 0,
            *final(self) == (Contract {
                cashback_accounts: final(self).cashback_accounts,
                ..*old(self)
            }),
    {
        let transfers = cashback_transfers_of(&self.cashback_accounts);
        self.cashback_accounts = Vec::new();
        transfers
    }
}

/// The fee that the engine has retained of the asset.
pub fn fee_balance_of(fees: &Vec<(AccountId, Balance)>, token_id: &AccountId) -> (res: Balance)
    requires
        distinct_keys(fees@),
    ensures
        res == fee_balance(fees@, token_id@),
{
    match key_position(fees, token_id) {
        Some(at) => {
            proof {
                lemma_lookup_at(fees@, token_id@, at as int);
            }
            fees[at].1
        },
        None => 0,
    }
}

/// The transfers that pay the queued cashback, in the order of the queue.
pub fn cashback_transfers_of(queue: &Vec<(AccountId, StoredCashback)>) -> (transfers: Vec<Transfer>)
    ensures
        transfers@ == cashback_transfers(queue@),
{
    let mut transfers: Vec<Transfer> = Vec::new();
    let mut i: usize = 0;
    while i < queue.len()
        invariant
            i <= queue@.len(),
            transfers@ == cashback_transfers(queue@.subrange(0, i as int)),
        decreases queue.len() - i,
    {
        let stored = &queue[i];
        push_tier_transfers(&mut transfers, stored.1.accounts.as_slice(), &stored.0, stored.1.amount);
        i = i + 1;
        proof {
            let done = queue@.subrange(0, i as int);
            assert(done.drop_last() =~= queue@.subrange(0, i - 1));
            assert(done.last() == queue@[i - 1]);
        }
    }
    assert(queue@.subrange(0, i as int) =~= queue@);
    transfers
}

} // verus!
