//! The amounts that a finished pool pays: to its winners, to the referrer,
//! to the treasury and the investor, and what the engine retains.
use crate::big_lottery::{BigLottery, WinnerType};
use crate::config::{compute_internal_fee_ratio, Config, MAX_RATIO};
use crate::errors::LotteryError;
use crate::lottery_config::StoredCashback;
use crate::simple_lottery::SimpleLottery;
use crate::utils::{lemma_ratio_bounded, ratio, spec_ratio};
use crate::{AccountId, Balance};
use vstd::prelude::*;

verus! {

/// What is left of a contract fee, and who gets the rest of it.
#[derive(Clone, Copy, Debug, PartialEq, Eq, Structural)]
pub struct FeeSplit {
    pub treasury_fees: Balance,
    pub investor_fees: Balance,
    /// What the engine retains.
    pub contract_fees: Balance,
}

/// The amounts that a finished single-winner pool pays.
#[derive(Clone, Copy, Debug, PartialEq, Eq, Structural)]
pub struct SimplePayout {
    /// What the winner receives.
    pub winner_amount: Balance,
    /// What the referrer of the winning entry receives.
    pub referrer_amount: Balance,
    pub treasury_fees: Balance,
    pub investor_fees: Balance,
    /// What the engine retains.
    pub contract_fees: Balance,
}

/// The amounts that a finished tiered pool pays.
#[derive(Clone, Copy, Debug, PartialEq, Eq, Structural)]
pub struct BigPayout {
    /// What each account of the first tier receives.
    pub reward_fifty_percents_up: Balance,
    /// What each account of the second tier receives.
    pub reward_ten_percents_up: Balance,
    /// What each account of the cashback tier receives.
    pub cashback: Balance,
    pub treasury_fees: Balance,
    pub investor_fees: Balance,
    /// What the engine retains.
    pub contract_fees: Balance,
}

/// The split of a contract fee: what the referrers have received already
/// leaves it first and must leave something; the treasury and the investor
/// take their shares of what is left, and the rest is retained.
pub open spec fn spec_split_fees(
    contract_fees: Balance,
    refferal_transfered: Balance,
    treasury_ratio: u32,
    investor_ratio: u32,
) -> Result<FeeSplit, LotteryError> {
    if refferal_transfered > 0 && contract_fees <= refferal_transfered {
        Err(LotteryError::ReferralAboveFees)
    } else {
        let fees = (contract_fees - refferal_transfered) as Balance;
        let treasury_fees = spec_ratio(fees, treasury_ratio);
        let investor_fees = spec_ratio(fees, investor_ratio);
        if fees < treasury_fees + investor_fees {
            Err(LotteryError::FeesBelowCuts)
        } else {
            Ok(
                FeeSplit {
                    treasury_fees: treasury_fees as Balance,
                    investor_fees: investor_fees as Balance,
                    contract_fees: (fees - treasury_fees - investor_fees) as Balance,
                },
            )
        }
    }
}

/// Splits a contract fee between the referrers, who have theirs already, the
/// treasury, the investor and the engine.
pub fn split_fees(
    contract_fees: Balance,
    refferal_transfered: Balance,
    treasury_ratio: u32,
    investor_ratio: u32,
) -> (res: Result<FeeSplit, LotteryError>)
    requires
        treasury_ratio <= MAX_RATIO,
        investor_ratio <= MAX_RATIO,
    ensures
        res == spec_split_fees(contract_fees, refferal_transfered, treasury_ratio, investor_ratio),
        res matches Ok(split) ==> split.treasury_fees + split.investor_fees + split.contract_fees
            + refferal_transfered == contract_fees,
{
    let mut fees = contract_fees;
    if refferal_transfered > 0 {
        if contract_fees <= refferal_transfered {
            return Err(LotteryError::ReferralAboveFees);
        }
        fees = contract_fees - refferal_transfered;
    }
    let treasury_fees = compute_internal_fee_ratio(fees, treasury_ratio);
    let investor_fees = compute_internal_fee_ratio(fees, investor_ratio);
    if fees - treasury_fees < investor_fees {
        return Err(LotteryError::FeesBelowCuts);
    }
    Ok(FeeSplit { treasury_fees, investor_fees, contract_fees: fees - treasury_fees - investor_fees })
}

/// What a finished single-winner pool of `pool` pays.
///
/// The contract fee is its share of the pool, and the winner's payout the
/// rest, which must exceed the fee. Where the winning entry has a referrer,
/// the referrer's share of the payout goes to the referrer: it is taken from
/// the winner, not from the fee. The whole contract fee is then split
/// between the treasury, the investor and the engine.
pub open spec fn spec_simple_payout(
    pool: Balance,
    has_referrer: bool,
    contract_fee_ratio: u32,
    referrer_ratio: u32,
    treasury_ratio: u32,
    investor_ratio: u32,
) -> Result<SimplePayout, LotteryError> {
    let contract_fees = spec_ratio(pool, contract_fee_ratio) as Balance;
    let reward = (pool - contract_fees) as Balance;
    if reward <= contract_fees {
        Err(LotteryError::RewardBelowFees)
    } else {
        let referrer_amount = if has_referrer {
            spec_ratio(reward, referrer_ratio) as Balance
        } else {
            0
        };
        match spec_split_fees(contract_fees, 0, treasury_ratio, investor_ratio) {
            Ok(split) => Ok(
                SimplePayout {
                    winner_amount: (reward - referrer_amount) as Balance,
                    referrer_amount,
                    treasury_fees: split.treasury_fees,
                    investor_fees: split.investor_fees,
                    contract_fees: split.contract_fees,
                },
            ),
            Err(e) => Err(e),
        }
    }
}

/// Computes what a finished single-winner pool of `pool` pays. What is paid
/// and what is retained add up to the pool.
pub fn simple_payout(
    pool: Balance,
    has_referrer: bool,
    contract_fee_ratio: u32,
    referrer_ratio: u32,
    treasury_ratio: u32,
    investor_ratio: u32,
) -> (res: Result<SimplePayout, LotteryError>)
    requires
        contract_fee_ratio <= MAX_RATIO,
        referrer_ratio <= MAX_RATIO,
        treasury_ratio <= MAX_RATIO,
        investor_ratio <= MAX_RATIO,
    ensures
        res == spec_simple_payout(
            pool,
            has_referrer,
            contract_fee_ratio,
            referrer_ratio,
            treasury_ratio,
            investor_ratio,
        ),
        res matches Ok(payout) ==> payout.winner_amount + payout.referrer_amount
            + payout.treasury_fees + payout.investor_fees + payout.contract_fees == pool,
{
    let contract_fees = ratio(pool, contract_fee_ratio);
    let reward = pool - contract_fees;
    if reward <= contract_fees {
        return Err(LotteryError::RewardBelowFees);
    }
    let referrer_amount = if has_referrer {
        ratio(reward, referrer_ratio)
    } else {
        0
    };
    match split_fees(contract_fees, 0, treasury_ratio, investor_ratio) {
        Ok(split) => Ok(
            SimplePayout {
                winner_amount: reward - referrer_amount,
                referrer_amount,
                treasury_fees: split.treasury_fees,
                investor_fees: split.investor_fees,
                contract_fees: split.contract_fees,
            },
        ),
        Err(e) => Err(e),
    }
}

/// What each account of the first tier receives: the fee and half of it.
pub open spec fn spec_reward_fifty(entry_fee: Balance) -> int {
    entry_fee + entry_fee / 2
}

/// What each account of the second tier receives: the fee and a tenth of it.
pub open spec fn spec_reward_ten(entry_fee: Balance) -> int {
    entry_fee + entry_fee / 10
}

/// What each account of the cashback tier receives: half of the fee.
pub open spec fn spec_cashback(entry_fee: Balance) -> int {
    entry_fee as int / 2
}

/// What the three tiers receive together.
pub open spec fn spec_exact_reward(entry_fee: Balance, fifty: int, ten: int, cashbacked: int) -> int {
    spec_reward_fifty(entry_fee) * fifty + spec_reward_ten(entry_fee) * ten + spec_cashback(
        entry_fee,
    ) * cashbacked
}

/// The tiers of a pool of `10 * tenth` participants receive less than the
/// pool holds, so that a contract fee is left.
pub proof fn lemma_exact_reward_below_pool(entry_fee: Balance, tenth: int)
    requires
        entry_fee > 0,
        tenth >= 1,
    ensures
        spec_reward_fifty(entry_fee) <= spec_reward_fifty(entry_fee) * (2 * tenth),
        spec_reward_ten(entry_fee) <= spec_reward_ten(entry_fee) * (3 * tenth),
        0 <= spec_cashback(entry_fee) * (5 * tenth),
        spec_exact_reward(entry_fee, 2 * tenth, 3 * tenth, 5 * tenth) < entry_fee * (10 * tenth),
{
    let fee = entry_fee as int;
    let half = fee / 2;
    let part = fee / 10;
    assert(0 <= half && 2 * half <= fee);
    assert(0 <= part && 10 * part <= fee);
    assert((fee + half) * (2 * tenth) + (fee + part) * (3 * tenth) + half * (5 * tenth) == 5 * (fee
        * tenth) + 7 * (half * tenth) + 3 * (part * tenth)) by (nonlinear_arith);
    assert(2 * (half * tenth) <= fee * tenth) by (nonlinear_arith)
        requires
            2 * half <= fee,
            tenth >= 1,
    ;
    assert(10 * (part * tenth) <= fee * tenth) by (nonlinear_arith)
        requires
            10 * part <= fee,
            tenth >= 1,
    ;
    assert(fee * tenth >= 1) by (nonlinear_arith)
        requires
            fee >= 1,
            tenth >= 1,
    ;
    assert(fee * (10 * tenth) == 10 * (fee * tenth)) by (nonlinear_arith);
    assert(0 <= half * tenth && 0 <= part * tenth) by (nonlinear_arith)
        requires
            0 <= half,
            0 <= part,
            tenth >= 1,
    ;
    assert(fee + half <= (fee + half) * (2 * tenth) && fee + part <= (fee + part) * (3 * tenth) && 0
        <= half * (5 * tenth)) by (nonlinear_arith)
        requires
            0 <= half,
            0 <= part,
            0 <= fee,
            tenth >= 1,
    ;
}

/// What a finished tiered pool pays.
///
/// The tiers receive fixed multiples of the entry fee, and the contract fee
/// is what they leave of the pool. It is split as that of any pool, and
/// what is left of it after the referrers must be less than the tiers receive.
pub open spec fn spec_big_payout(lottery: BigLottery, treasury_ratio: u32, investor_ratio: u32)
    -> Result<BigPayout, LotteryError> {
    let exact_reward = spec_exact_reward(
        lottery.entry_fee,
        lottery.fifty_percent_winners_num as int,
        lottery.ten_percent_winners_num as int,
        lottery.cashbacked_num as int,
    );
    let contract_fees = (lottery.current_pool - exact_reward) as Balance;
    if lottery.refferal_transfered > 0 && contract_fees <= lottery.refferal_transfered {
        Err(LotteryError::ReferralAboveFees)
    } else if exact_reward <= contract_fees - lottery.refferal_transfered {
        Err(LotteryError::RewardBelowFees)
    } else {
        match spec_split_fees(
            contract_fees,
            lottery.refferal_transfered,
            treasury_ratio,
            investor_ratio,
        ) {
            Ok(split) => Ok(
                BigPayout {
                    reward_fifty_percents_up: spec_reward_fifty(lottery.entry_fee) as Balance,
                    reward_ten_percents_up: spec_reward_ten(lottery.entry_fee) as Balance,
                    cashback: spec_cashback(lottery.entry_fee) as Balance,
                    treasury_fees: split.treasury_fees,
                    investor_fees: split.investor_fees,
                    contract_fees: split.contract_fees,
                },
            ),
            Err(e) => Err(e),
        }
    }
}

/// Computes what a full tiered pool pays. What the tiers receive, what the
/// referrers have received already, the fees paid and what is retained add up
/// to the pool.
pub fn big_payout(lottery: &BigLottery, treasury_ratio: u32, investor_ratio: u32) -> (res: Result<
    BigPayout,
    LotteryError,
>)
    requires
        lottery.inv(),
        lottery.current_pool == lottery.required_pool,
        treasury_ratio <= MAX_RATIO,
        investor_ratio <= MAX_RATIO,
    ensures
        res == spec_big_payout(*lottery, treasury_ratio, investor_ratio),
        res matches Ok(payout) ==> payout.reward_fifty_percents_up
            * lottery.fifty_percent_winners_num + payout.reward_ten_percents_up
            * lottery.ten_percent_winners_num + payout.cashback * lottery.cashbacked_num
            + lottery.refferal_transfered + payout.treasury_fees + payout.investor_fees
            + payout.contract_fees == lottery.current_pool,
{
    proof {
        lottery.lemma_entries_bounded();
        let tenth = lottery.spec_num_participants() / 10;
        assert(lottery.spec_num_participants() == 10 * tenth);
        assert(lottery.fifty_percent_winners_num == 2 * tenth);
        assert(lottery.ten_percent_winners_num == 3 * tenth);
        assert(lottery.cashbacked_num == 5 * tenth);
        lemma_exact_reward_below_pool(lottery.entry_fee, tenth);
    }
    let reward_fifty_percents_up = lottery.entry_fee + lottery.entry_fee / 2;
    let reward_ten_percents_up = lottery.entry_fee + lottery.entry_fee / 10;
    let cashback = lottery.entry_fee / 2;
    let exact_reward = reward_fifty_percents_up * (lottery.fifty_percent_winners_num as u128)
        + reward_ten_percents_up * (lottery.ten_percent_winners_num as u128) + cashback * (
    lottery.cashbacked_num as u128);
    let contract_fees = lottery.current_pool - exact_reward;
    if lottery.refferal_transfered > 0 && contract_fees <= lottery.refferal_transfered {
        return Err(LotteryError::ReferralAboveFees);
    }
    if exact_reward <= contract_fees - lottery.refferal_transfered {
        return Err(LotteryError::RewardBelowFees);
    }
    match split_fees(contract_fees, lottery.refferal_transfered, treasury_ratio, investor_ratio) {
        Ok(split) => Ok(
            BigPayout {
                reward_fifty_percents_up,
                reward_ten_percents_up,
                cashback,
                treasury_fees: split.treasury_fees,
                investor_fees: split.investor_fees,
                contract_fees: split.contract_fees,
            },
        ),
        Err(e) => Err(e),
    }
}

/// Nothing is lost or made in the split of a contract fee: what the
/// treasury and the investor get, what is retained and what the referrers
/// have received add up to the fee.
pub proof fn lemma_split_fees_conserves(
    contract_fees: Balance,
    refferal_transfered: Balance,
    treasury_ratio: u32,
    investor_ratio: u32,
)
    requires
        spec_split_fees(contract_fees, refferal_transfered, treasury_ratio, investor_ratio) is Ok,
    ensures
        ({
            let split = spec_split_fees(
                contract_fees,
                refferal_transfered,
                treasury_ratio,
                investor_ratio,
            )->Ok_0;
            split.treasury_fees + split.investor_fees + split.contract_fees + refferal_transfered
                == contract_fees
        }),
{
    let fees = (contract_fees - refferal_transfered) as Balance;
    assert(0 <= spec_ratio(fees, treasury_ratio) && 0 <= spec_ratio(fees, investor_ratio))
        by (nonlinear_arith)
        requires
            0 <= fees,
            0 <= treasury_ratio,
            0 <= investor_ratio,
            spec_ratio(fees, treasury_ratio) == (fees as int * treasury_ratio as int) / 10000,
            spec_ratio(fees, investor_ratio) == (fees as int * investor_ratio as int) / 10000,
    ;
}

/// Nothing is lost or made in the payout of a single-winner pool: what the
/// winner and the referrer of the winning entry get, the fees paid and what
/// is retained add up to the pool.
pub proof fn lemma_simple_payout_conserves(
    pool: Balance,
    has_referrer: bool,
    contract_fee_ratio: u32,
    referrer_ratio: u32,
    treasury_ratio: u32,
    investor_ratio: u32,
)
    requires
        contract_fee_ratio <= MAX_RATIO,
        referrer_ratio <= MAX_RATIO,
        spec_simple_payout(
            pool,
            has_referrer,
            contract_fee_ratio,
            referrer_ratio,
            treasury_ratio,
            investor_ratio,
        ) is Ok,
    ensures
        ({
            let payout = spec_simple_payout(
                pool,
                has_referrer,
                contract_fee_ratio,
                referrer_ratio,
                treasury_ratio,
                investor_ratio,
            )->Ok_0;
            payout.winner_amount + payout.referrer_amount + payout.treasury_fees
                + payout.investor_fees + payout.contract_fees == pool
        }),
{
    lemma_ratio_bounded(pool, contract_fee_ratio);
    let contract_fees = spec_ratio(pool, contract_fee_ratio) as Balance;
    let reward = (pool - contract_fees) as Balance;
    lemma_ratio_bounded(reward, referrer_ratio);
    lemma_split_fees_conserves(contract_fees, 0, treasury_ratio, investor_ratio);
}

/// Nothing is lost or made in the payout of a full tiered pool: what the
/// accounts of the three tiers get, what the referrers of the entries have
/// received, the fees paid and what is retained add up to the pool.
pub proof fn lemma_big_payout_conserves(lottery: BigLottery, treasury_ratio: u32, investor_ratio: u32)
    requires
        lottery.inv(),
        lottery.current_pool == lottery.required_pool,
        spec_big_payout(lottery, treasury_ratio, investor_ratio) is Ok,
    ensures
        ({
            let payout = spec_big_payout(lottery, treasury_ratio, investor_ratio)->Ok_0;
            payout.reward_fifty_percents_up * lottery.fifty_percent_winners_num
                + payout.reward_ten_percents_up * lottery.ten_percent_winners_num + payout.cashback
                * lottery.cashbacked_num + lottery.refferal_transfered + payout.treasury_fees
                + payout.investor_fees + payout.contract_fees == lottery.current_pool
        }),
{
    lottery.lemma_entries_bounded();
    let tenth = lottery.spec_num_participants() / 10;
    assert(lottery.fifty_percent_winners_num == 2 * tenth);
    assert(lottery.ten_percent_winners_num == 3 * tenth);
    assert(lottery.cashbacked_num == 5 * tenth);
    lemma_exact_reward_below_pool(lottery.entry_fee, tenth);
    let exact_reward = spec_exact_reward(
        lottery.entry_fee,
        lottery.fifty_percent_winners_num as int,
        lottery.ten_percent_winners_num as int,
        lottery.cashbacked_num as int,
    );
    let contract_fees = (lottery.current_pool - exact_reward) as Balance;
    lemma_split_fees_conserves(
        contract_fees,
        lottery.refferal_transfered,
        treasury_ratio,
        investor_ratio,
    );
}

/// A transfer that the engine asks for: `amount` of the asset `token_id`
/// to the account `receiver_id`.
#[derive(Debug)]
pub struct Transfer {
    pub receiver_id: AccountId,
    pub token_id: AccountId,
    pub amount: Balance,
}

/// The sum of the amounts of the transfers.
pub open spec fn total_amount(transfers: Seq<Transfer>) -> int
    decreases transfers.len(),
{
    if transfers.len() == 0 {
        0
    } else {
        total_amount(transfers.drop_last()) + transfers.last().amount
    }
}

/// The transfer of `amount` to each of the accounts, in their order.
pub open spec fn tier_transfers(accounts: Seq<AccountId>, token_id: AccountId, amount: Balance)
    -> Seq<Transfer> {
    Seq::new(
        accounts.len(),
        |i: int| Transfer { receiver_id: accounts[i], token_id, amount },
    )
}

/// The transfer of `amount` to the account, unless the amount is zero.
pub open spec fn optional_transfer(receiver_id: AccountId, token_id: AccountId, amount: Balance)
    -> Seq<Transfer> {
    if amount > 0 {
        seq![Transfer { receiver_id, token_id, amount }]
    } else {
        Seq::empty()
    }
}

/// The sum over two lists is the sum of their sums.
pub proof fn lemma_total_amount_add(left: Seq<Transfer>, right: Seq<Transfer>)
    ensures
        total_amount(left + right) == total_amount(left) + total_amount(right),
    decreases right.len(),
{
    if right.len() == 0 {
        assert(left + right =~= left);
    } else {
        assert((left + right).drop_last() =~= left + right.drop_last());
        lemma_total_amount_add(left, right.drop_last());
    }
}

/// Equal transfers to `n` accounts sum to `n` times the amount.
pub proof fn lemma_total_amount_tier(accounts: Seq<AccountId>, token_id: AccountId, amount: Balance)
    ensures
        total_amount(tier_transfers(accounts, token_id, amount)) == amount * accounts.len(),
    decreases accounts.len(),
{
    let transfers = tier_transfers(accounts, token_id, amount);
    if accounts.len() == 0 {
        assert(amount * accounts.len() == 0) by (nonlinear_arith)
            requires
                accounts.len() == 0,
        ;
    } else {
        assert(transfers.drop_last() =~= tier_transfers(accounts.drop_last(), token_id, amount));
        lemma_total_amount_tier(accounts.drop_last(), token_id, amount);
        assert(amount * (accounts.len() - 1) + amount == amount * accounts.len())
            by (nonlinear_arith);
    }
}

/// A transfer that is left out when its amount is zero adds its amount.
pub proof fn lemma_total_amount_optional(
    receiver_id: AccountId,
    token_id: AccountId,
    amount: Balance,
)
    ensures
        total_amount(optional_transfer(receiver_id, token_id, amount)) == amount,
{
    let transfers = optional_transfer(receiver_id, token_id, amount);
    if amount > 0 {
        assert(transfers.drop_last() =~= Seq::<Transfer>::empty());
        assert(total_amount(transfers.drop_last()) == 0);
    }
}

/// Appends the transfer of `amount` to each of the accounts.
pub fn push_tier_transfers(
    transfers: &mut Vec<Transfer>,
    accounts: &[AccountId],
    token_id: &AccountId,
    amount: Balance,
)
    ensures
        final(transfers)@ == old(transfers)@ + tier_transfers(accounts@, *token_id, amount),
{
    let mut i: usize = 0;
    while i < accounts.len()
        invariant
            i <= accounts@.len(),
            transfers@ == old(transfers)@ + tier_transfers(accounts@, *token_id, amount).subrange(
                0,
                i as int,
            ),
        decreases accounts.len() - i,
    {
        transfers.push(
            Transfer { receiver_id: accounts[i].clone(), token_id: token_id.clone(), amount },
        );
        i = i + 1;
        assert(transfers@ =~= old(transfers)@ + tier_transfers(
            accounts@,
            *token_id,
            amount,
        ).subrange(0, i as int));
    }
    assert(tier_transfers(accounts@, *token_id, amount).subrange(0, i as int) =~= tier_transfers(
        accounts@,
        *token_id,
        amount,
    ));
}

/// Appends the transfer of `amount` to the account, unless the amount is zero.
pub fn push_optional_transfer(
    transfers: &mut Vec<Transfer>,
    receiver_id: &AccountId,
    token_id: &AccountId,
    amount: Balance,
)
    ensures
        final(transfers)@ == old(transfers)@ + optional_transfer(*receiver_id, *token_id, amount),
{
    if amount > 0 {
        transfers.push(
            Transfer { receiver_id: receiver_id.clone(), token_id: token_id.clone(), amount },
        );
        assert(transfers@ =~= old(transfers)@ + optional_transfer(*receiver_id, *token_id, amount));
    } else {
        assert(transfers@ =~= old(transfers)@ + optional_transfer(*receiver_id, *token_id, amount));
    }
}

/// The transfers that pay out a finished single-winner pool: to the winner,
/// to the referrer of the winning entry, to the treasury and to the
/// investor, each of the last three only where it receives something.
pub open spec fn spec_simple_transfers(lottery: SimpleLottery, config: Config, payout: SimplePayout)
    -> Seq<Transfer> {
    let winner = lottery.winner->Some_0;
    let token_id = lottery.lottery_token_id;
    seq![Transfer { receiver_id: winner.account_id, token_id, amount: payout.winner_amount }] + (
    match winner.referrer_id {
        Some(referrer) => optional_transfer(referrer, token_id, payout.referrer_amount),
        None => Seq::empty(),
    }) + optional_transfer(config.treasury, token_id, payout.treasury_fees) + optional_transfer(
        config.investor,
        token_id,
        payout.investor_fees,
    )
}

/// The amounts that the pool pays under the fee schedule.
pub open spec fn spec_simple_lottery_payout(
    lottery: SimpleLottery,
    config: Config,
    referrer_ratio: u32,
) -> Result<SimplePayout, LotteryError> {
    if lottery.current_pool != lottery.required_pool {
        Err(LotteryError::PoolNotFilled)
    } else if lottery.winner is None {
        Err(LotteryError::NoWinner)
    } else {
        spec_simple_payout(
            lottery.current_pool,
            lottery.winner->Some_0.referrer_id is Some,
            config.contract_fee_ratio,
            referrer_ratio,
            config.treasury_ratio,
            config.investor_ratio,
        )
    }
}

/// Computes the payout of a finished single-winner pool: the amounts, and
/// the transfers that pay them.
///
/// The transfers and what the engine retains add up to the pool.
pub fn distribute_simple(lottery: &SimpleLottery, config: &Config, referrer_ratio: u32) -> (res:
    Result<(SimplePayout, Vec<Transfer>), LotteryError>)
    requires
        config.valid(),
        referrer_ratio <= MAX_RATIO,
    ensures
        match res {
            Ok((payout, transfers)) => {
                &&& spec_simple_lottery_payout(*lottery, *config, referrer_ratio) == Ok::<
                    SimplePayout,
                    LotteryError,
                >(payout)
                &&& transfers@ == spec_simple_transfers(*lottery, *config, payout)
                &&& total_amount(transfers@) + payout.contract_fees == lottery.current_pool
            },
            Err(e) => spec_simple_lottery_payout(*lottery, *config, referrer_ratio) == Err::<
                SimplePayout,
                LotteryError,
            >(e),
        },
{
    match lottery.assert_is_finished() {
        Ok(()) => {},
        Err(e) => {
            return Err(e);
        },
    }
    let winner = lottery.winner.as_ref().unwrap();
    let payout = match simple_payout(
        lottery.current_pool,
        winner.referrer_id.is_some(),
        config.contract_fee_ratio,
        referrer_ratio,
        config.treasury_ratio,
        config.investor_ratio,
    ) {
        Ok(payout) => payout,
        Err(e) => {
            return Err(e);
        },
    };
    let token_id = &lottery.lottery_token_id;
    let mut transfers: Vec<Transfer> = Vec::new();
    transfers.push(
        Transfer {
            receiver_id: winner.account_id.clone(),
            token_id: token_id.clone(),
            amount: payout.winner_amount,
        },
    );
    let ghost first = transfers@;
    match &winner.referrer_id {
        Some(referrer) => {
            push_optional_transfer(&mut transfers, referrer, token_id, payout.referrer_amount);
        },
        None => {
            assert(transfers@ =~= first + Seq::<Transfer>::empty());
        },
    }
    let ghost second = transfers@;
    push_optional_transfer(&mut transfers, &config.treasury, token_id, payout.treasury_fees);
    let ghost third = transfers@;
    push_optional_transfer(&mut transfers, &config.investor, token_id, payout.investor_fees);
    proof {
        assert(first =~= seq![
            Transfer {
                receiver_id: winner.account_id,
                token_id: *token_id,
                amount: payout.winner_amount,
            },
        ]);
        assert(first.drop_last() =~= Seq::<Transfer>::empty());
        assert(total_amount(first.drop_last()) == 0);
        assert(total_amount(first) == payout.winner_amount);
        if winner.referrer_id is Some {
            let referrer = winner.referrer_id->Some_0;
            lemma_total_amount_optional(referrer, *token_id, payout.referrer_amount);
            lemma_total_amount_add(
                first,
                optional_transfer(referrer, *token_id, payout.referrer_amount),
            );
        } else {
            lemma_total_amount_add(first, Seq::<Transfer>::empty());
        }
        lemma_total_amount_optional(config.treasury, *token_id, payout.treasury_fees);
        lemma_total_amount_add(
            second,
            optional_transfer(config.treasury, *token_id, payout.treasury_fees),
        );
        lemma_total_amount_optional(config.investor, *token_id, payout.investor_fees);
        lemma_total_amount_add(
            third,
            optional_transfer(config.investor, *token_id, payout.investor_fees),
        );
    }
    Ok((payout, transfers))
}

/// The transfers that pay out a finished tiered pool: to each account of
/// the first and of the second tier, to the treasury and to the investor,
/// each of the last two only where it receives something. The cashback tier
/// is not among them.
pub open spec fn spec_big_transfers(lottery: BigLottery, config: Config, payout: BigPayout) -> Seq<
    Transfer,
> {
    let winners = lottery.winners->Some_0;
    let token_id = lottery.lottery_token_id;
    tier_transfers(winners.up_to_fifty_percent@, token_id, payout.reward_fifty_percents_up)
        + tier_transfers(winners.up_to_ten_percent@, token_id, payout.reward_ten_percents_up)
        + optional_transfer(config.treasury, token_id, payout.treasury_fees) + optional_transfer(
        config.investor,
        token_id,
        payout.investor_fees,
    )
}

/// The amounts that the pool pays under the fee schedule.
pub open spec fn spec_big_lottery_payout(lottery: BigLottery, config: Config) -> Result<
    BigPayout,
    LotteryError,
> {
    if lottery.current_pool != lottery.required_pool {
        Err(LotteryError::PoolNotFilled)
    } else if lottery.winners is None {
        Err(LotteryError::NoWinner)
    } else {
        spec_big_payout(lottery, config.treasury_ratio, config.investor_ratio)
    }
}

/// Computes the payout of a finished tiered pool: the amounts, the
/// transfers that pay the first two tiers and the fees, and the accounts of
/// the cashback tier, which are paid later.
///
/// The transfers, the cashback of each account of its tier, what the
/// referrers of the entries have received already and what the engine
/// retains add up to the pool.
pub fn distribute_big(lottery: &BigLottery, config: &Config) -> (res: Result<
    (BigPayout, Vec<Transfer>, StoredCashback),
    LotteryError,
>)
    requires
        lottery.wf(),
        config.valid(),
    ensures
        match res {
            Ok((payout, transfers, cashback)) => {
                &&& spec_big_lottery_payout(*lottery, *config) == Ok::<BigPayout, LotteryError>(
                    payout,
                )
                &&& transfers@ == spec_big_transfers(*lottery, *config, payout)
                &&& cashback.amount == payout.cashback
                &&& cashback.accounts@ == lottery.winners->Some_0.cashback@
                &&& total_amount(transfers@) + cashback.amount * cashback.accounts@.len()
                    + lottery.refferal_transfered + payout.contract_fees == lottery.current_pool
            },
            Err(e) => spec_big_lottery_payout(*lottery, *config) == Err::<BigPayout, LotteryError>(
                e,
            ),
        },
{
    match lottery.assert_is_finished() {
        Ok(()) => {},
        Err(e) => {
            return Err(e);
        },
    }
    let payout = match big_payout(lottery, config.treasury_ratio, config.investor_ratio) {
        Ok(payout) => payout,
        Err(e) => {
            return Err(e);
        },
    };
    proof {
        lottery.lemma_winners_partition_entries();
    }
    let token_id = &lottery.lottery_token_id;
    let up_to_fifty_winners = lottery.get_winners(WinnerType::UpToFiftyPercent);
    let up_to_ten_winners = lottery.get_winners(WinnerType::UpToTenPercent);
    let cashbacked_accounts = lottery.get_winners(WinnerType::Cashback);
    let mut transfers: Vec<Transfer> = Vec::new();
    push_tier_transfers(
        &mut transfers,
        up_to_fifty_winners,
        token_id,
        payout.reward_fifty_percents_up,
    );
    let ghost first = transfers@;
    push_tier_transfers(&mut transfers, up_to_ten_winners, token_id, payout.reward_ten_percents_up);
    let ghost second = transfers@;
    push_optional_transfer(&mut transfers, &config.treasury, token_id, payout.treasury_fees);
    let ghost third = transfers@;
    push_optional_transfer(&mut transfers, &config.investor, token_id, payout.investor_fees);
    let cashback = StoredCashback {
        amount: payout.cashback,
        accounts: copy_accounts(cashbacked_accounts),
    };
    proof {
        let fifty = tier_transfers(
            up_to_fifty_winners@,
            *token_id,
            payout.reward_fifty_percents_up,
        );
        let ten = tier_transfers(up_to_ten_winners@, *token_id, payout.reward_ten_percents_up);
        assert(first =~= fifty);
        lemma_total_amount_tier(up_to_fifty_winners@, *token_id, payout.reward_fifty_percents_up);
        lemma_total_amount_tier(up_to_ten_winners@, *token_id, payout.reward_ten_percents_up);
        lemma_total_amount_add(first, ten);
        lemma_total_amount_optional(config.treasury, *token_id, payout.treasury_fees);
        lemma_total_amount_add(
            second,
            optional_transfer(config.treasury, *token_id, payout.treasury_fees),
        );
        lemma_total_amount_optional(config.investor, *token_id, payout.investor_fees);
        lemma_total_amount_add(
            third,
            optional_transfer(config.investor, *token_id, payout.investor_fees),
        );
    }
    Ok((payout, transfers, cashback))
}

/// Copies a list of accounts.
pub fn copy_accounts(accounts: &[AccountId]) -> (res: Vec<AccountId>)
    ensures
        res@ == accounts@,
{
    let mut res: Vec<AccountId> = Vec::new();
    let mut i: usize = 0;
    while i < accounts.len()
        invariant
            i <= accounts@.len(),
            res@ == accounts@.subrange(0, i as int),
        decreases accounts.len() - i,
    {
        res.push(accounts[i].clone());
        i = i + 1;
        assert(res@ =~= accounts@.subrange(0, i as int));
    }
    assert(accounts@.subrange(0, i as int) =~= accounts@);
    res
}

} // verus!
