//! The registry of the open pools: finding the pool that an entry joins,
//! and opening one where there is none.
use crate::big_lottery::BigLottery;
use crate::distribution::{
    cashback_transfers, fee_balance, payout_transfers, queued_amount, queued_cashback,
    referrals_off_the_fee, reports, retained_fee,
};
use crate::errors::LotteryError;
use crate::lottery::{Entry, Lottery, LotteryStatus, ONE_PERCENT_RATIO};
use crate::lottery_config::{position_of_fee, position_of_num, LotteryType, StoredCashback};
use crate::payout::{total_amount, Transfer};
use crate::simple_lottery::SimpleLottery;
use crate::utils::{near, part_names, ratio, spec_ratio, spec_split_dots, split_dots, NEAR};
use crate::views::LotteryResult;
use crate::{AccountId, Balance, Contract, LotteryId, RandomSeed};
use vstd::prelude::*;

verus! {

/// Whether the pool is a newly opened one of the given kind and parameters.
pub open spec fn is_new_lottery(
    lottery: Lottery,
    id: LotteryId,
    token_id: AccountId,
    lottery_type: LotteryType,
    num_participants: u32,
    entry_fee: Balance,
) -> bool {
    &&& lottery.wf()
    &&& lottery.spec_id() == id
    &&& lottery.spec_lottery_token_id() == token_id
    &&& lottery.spec_status() == LotteryStatus::Active
    &&& lottery.spec_entries() == Seq::<Entry>::empty()
    &&& lottery.spec_entry_fee() == entry_fee
    &&& lottery.spec_current_pool() == 0
    &&& lottery.spec_required_pool() == entry_fee * num_participants
    &&& lottery.spec_num_participants() == num_participants
    &&& lottery.spec_refferal_transfered() == 0
    &&& match lottery_type {
        LotteryType::SimpleLottery => lottery is SimpleLottery,
        LotteryType::BigLottery => lottery is Lottery,
    }
}

impl Contract {
    /// The pool at `at` is the first that an entry with these parameters joins.
    pub open spec fn is_first_match(
        &self,
        token: Seq<char>,
        num_participants: u32,
        entry_fee: Balance,
        at: int,
    ) -> bool {
        &&& 0 <= at < self.lotteries@.len()
        &&& self.lotteries@[at].matches_parameters(token, num_participants, entry_fee)
        &&& forall|i: int|
            0 <= i < at ==> !(#[trigger] self.lotteries@[i]).matches_parameters(
                token,
                num_participants,
                entry_fee,
            )
    }

    /// No pool is one that an entry with these parameters joins.
    pub open spec fn has_no_match(&self, token: Seq<char>, num_participants: u32, entry_fee: Balance)
        -> bool {
        forall|i: int|
            0 <= i < self.lotteries@.len() ==> !(#[trigger] self.lotteries@[i]).matches_parameters(
                token,
                num_participants,
                entry_fee,
            )
    }

    /// The place of the first open pool of the asset with this entry fee and
    /// number of participants.
    pub fn lottery_position_by_parameters(
        &self,
        token_id: &AccountId,
        num_participants: u32,
        entry_fee: Balance,
    ) -> (res: Option<usize>)
        requires
            self.wf(),
        ensures
            match res {
                Some(at) => self.is_first_match(token_id@, num_participants, entry_fee, at as int),
                None => self.has_no_match(token_id@, num_participants, entry_fee),
            },
    {
        let mut i: usize = 0;
        while i < self.lotteries.len()
            invariant
                self.wf(),
                i <= self.lotteries@.len(),
                forall|k: int|
                    0 <= k < i ==> !(#[trigger] self.lotteries@[k]).matches_parameters(
                        token_id@,
                        num_participants,
                        entry_fee,
                    ),
            decreases self.lotteries.len() - i,
        {
            let lottery = &self.lotteries[i];
            assert(lottery.wf());
            if lottery.entry_fee() == entry_fee && lottery.num_participants() == num_participants
                && *lottery.lottery_token_id() == *token_id {
                return Some(i);
            }
            i = i + 1;
        }
        None
    }

    /// The first open pool of the asset with this entry fee and number of
    /// participants.
    pub fn internal_get_lottery_by_parameters(
        &self,
        token_id: &AccountId,
        num_participants: u32,
        entry_fee: Balance,
    ) -> (res: Option<&Lottery>)
        requires
            self.wf(),
        ensures
            match res {
                Some(lottery) => exists|at: int|
                    {
                        &&& #[trigger] self.is_first_match(
                            token_id@,
                            num_participants,
                            entry_fee,
                            at,
                        )
                        &&& *lottery == self.lotteries@[at]
                    },
                None => self.has_no_match(token_id@, num_participants, entry_fee),
            },
    {
        match self.lottery_position_by_parameters(token_id, num_participants, entry_fee) {
            Some(at) => {
                assert(self.is_first_match(token_id@, num_participants, entry_fee, at as int));
                Some(&self.lotteries[at])
            },
            None => None,
        }
    }

    /// The place of the open pool with the identifier.
    pub fn lottery_position(&self, lottery_id: LotteryId) -> (res: Option<usize>)
        ensures
            match res {
                Some(at) => {
                    &&& at < self.lotteries@.len()
                    &&& self.lotteries@[at as int].spec_id() == lottery_id
                    &&& forall|i: int|
                        0 <= i < at ==> (#[trigger] self.lotteries@[i]).spec_id() != lottery_id
                },
                None => forall|i: int|
                    0 <= i < self.lotteries@.len() ==> (#[trigger] self.lotteries@[i]).spec_id()
                        != lottery_id,
            },
    {
        let mut i: usize = 0;
        while i < self.lotteries.len()
            invariant
                i <= self.lotteries@.len(),
                forall|k: int| 0 <= k < i ==> (#[trigger] self.lotteries@[k]).spec_id() != lottery_id,
            decreases self.lotteries.len() - i,
        {
            if self.lotteries[i].get_id() == lottery_id {
                return Some(i);
            }
            i = i + 1;
        }
        None
    }

    /// The open pool with the identifier.
    pub fn internal_get_lottery(&self, lottery_id: LotteryId) -> (res: Option<&Lottery>)
        ensures
            match res {
                Some(lottery) => {
                    &&& lottery.spec_id() == lottery_id
                    &&& self.lotteries@.contains(*lottery)
                },
                None => forall|i: int|
                    0 <= i < self.lotteries@.len() ==> (#[trigger] self.lotteries@[i]).spec_id()
                        != lottery_id,
            },
    {
        match self.lottery_position(lottery_id) {
            Some(at) => {
                assert(self.lotteries@[at as int] == self.lotteries@[at as int]);
                Some(&self.lotteries[at])
            },
            None => None,
        }
    }

    /// The numbers of participants configured for the kind of lottery.
    pub open spec fn spec_required_num_participants(&self, lottery_type: LotteryType) -> Seq<u32> {
        match lottery_type {
            LotteryType::SimpleLottery => self.lotteries_config.num_participants@,
            LotteryType::BigLottery => self.lotteries_config.big_lottery_num_participants@,
        }
    }

    /// Tells whether pools of this kind may have `num` participants.
    pub fn assert_required_num_participants(&self, num: u32, lottery_type: LotteryType) -> (res:
        Result<(), LotteryError>)
        ensures
            res is Ok <==> self.spec_required_num_participants(lottery_type).contains(num),
            res is Err ==> res == Err::<(), LotteryError>(LotteryError::UnsupportedNumParticipants),
    {
        let found = match lottery_type {
            LotteryType::SimpleLottery => position_of_num(
                &self.lotteries_config.num_participants,
                num,
            ),
            LotteryType::BigLottery => position_of_num(
                &self.lotteries_config.big_lottery_num_participants,
                num,
            ),
        };
        match found {
            Some(at) => {
                assert(self.spec_required_num_participants(lottery_type)[at as int] == num);
                Ok(())
            },
            None => Err(LotteryError::UnsupportedNumParticipants),
        }
    }

    /// The reason for which no pool of the asset may have this entry fee, if
    /// there is one.
    pub open spec fn entry_fee_error(&self, token: Seq<char>, amount: Balance) -> Option<
        LotteryError,
    > {
        match self.lotteries_config.spec_entry_fees(token) {
            None => Some(LotteryError::NoEntryFeesForToken),
            Some(fees) => if fees.contains(amount) {
                None
            } else {
                Some(LotteryError::UnsupportedEntryFee)
            },
        }
    }

    /// Tells whether pools of the asset may have this entry fee.
    pub fn assert_required_entry_fees(
        &self,
        token_id: &AccountId,
        amount: Balance,
        lottery_type: LotteryType,
    ) -> (res: Result<(), LotteryError>)
        requires
            self.lotteries_config.wf(),
        ensures
            match res {
                Ok(()) => self.entry_fee_error(token_id@, amount) is None,
                Err(e) => self.entry_fee_error(token_id@, amount) == Some(e),
            },
    {
        let at = match crate::assoc::key_position(&self.lotteries_config.entry_fees, token_id) {
            Some(at) => at,
            None => {
                return Err(LotteryError::NoEntryFeesForToken);
            },
        };
        proof {
            crate::assoc::lemma_lookup_at(self.lotteries_config.entry_fees@, token_id@, at as int);
        }
        match position_of_fee(&self.lotteries_config.entry_fees[at].1, amount) {
            Some(found) => {
                assert(self.lotteries_config.entry_fees@[at as int].1@[found as int] == amount);
                Ok(())
            },
            None => Err(LotteryError::UnsupportedEntryFee),
        }
    }

    /// The reason for which no pool with these parameters can be opened, if
    /// there is one: the entry fee is looked at first, then the number of
    /// participants, then what the kind of pool asks of the two, and last
    /// whether an identifier is left.
    pub open spec fn new_lottery_error(
        &self,
        token: Seq<char>,
        lottery_type: LotteryType,
        num_participants: u32,
        entry_fee: Balance,
    ) -> Option<LotteryError> {
        if self.entry_fee_error(token, entry_fee) is Some {
            self.entry_fee_error(token, entry_fee)
        } else if !self.spec_required_num_participants(lottery_type).contains(num_participants) {
            Some(LotteryError::UnsupportedNumParticipants)
        } else if lottery_type == LotteryType::BigLottery && BigLottery::setup_error(
            num_participants,
            entry_fee,
        ) is Some {
            BigLottery::setup_error(num_participants, entry_fee)
        } else if lottery_type == LotteryType::SimpleLottery && entry_fee * num_participants
            > u128::MAX {
            Some(LotteryError::PoolOverflow)
        } else if lottery_type == LotteryType::SimpleLottery && entry_fee == 0 {
            Some(LotteryError::EntryFeeZero)
        } else if lottery_type == LotteryType::SimpleLottery && num_participants == 0 {
            Some(LotteryError::NumParticipantsZero)
        } else if self.next_lottery_id == u64::MAX {
            Some(LotteryError::TooManyLotteries)
        } else {
            None
        }
    }

    /// Makes the pool that `add_new_lottery` would open, and leaves the
    /// registry as it is.
    pub fn new_lottery(
        &self,
        lottery_token_id: AccountId,
        lottery_type: LotteryType,
        num_participants: u32,
        entry_fee: Balance,
    ) -> (res: Result<Lottery, LotteryError>)
        requires
            self.lotteries_config.wf(),
        ensures
            match res {
                Ok(lottery) => {
                    &&& self.new_lottery_error(
                        lottery_token_id@,
                        lottery_type,
                        num_participants,
                        entry_fee,
                    ) is None
                    &&& is_new_lottery(
                        lottery,
                        self.next_lottery_id,
                        lottery_token_id,
                        lottery_type,
                        num_participants,
                        entry_fee,
                    )
                },
                Err(e) => self.new_lottery_error(
                    lottery_token_id@,
                    lottery_type,
                    num_participants,
                    entry_fee,
                ) == Some(e),
            },
    {
        match self.assert_required_entry_fees(&lottery_token_id, entry_fee, lottery_type) {
            Ok(()) => {},
            Err(e) => {
                return Err(e);
            },
        }
        match self.assert_required_num_participants(num_participants, lottery_type) {
            Ok(()) => {},
            Err(e) => {
                return Err(e);
            },
        }
        let lottery_id = self.next_lottery_id;
        let lottery = match lottery_type {
            LotteryType::SimpleLottery => {
                match SimpleLottery::new(lottery_id, lottery_token_id, num_participants, entry_fee) {
                    Ok(lottery) => Lottery::SimpleLottery(lottery),
                    Err(e) => {
                        return Err(e);
                    },
                }
            },
            LotteryType::BigLottery => {
                match BigLottery::new(lottery_id, lottery_token_id, num_participants, entry_fee) {
                    Ok(lottery) => Lottery::Lottery(lottery),
                    Err(e) => {
                        return Err(e);
                    },
                }
            },
        };
        if self.next_lottery_id == u64::MAX {
            return Err(LotteryError::TooManyLotteries);
        }
        Ok(lottery)
    }

    /// Opens a pool with these parameters, if the configuration allows them,
    /// and gives it the next identifier. The pool is handed out, not kept.
    pub fn add_new_lottery(
        &mut self,
        lottery_token_id: AccountId,
        lottery_type: LotteryType,
        num_participants: u32,
        entry_fee: Balance,
    ) -> (res: Result<Lottery, LotteryError>)
        requires
            old(self).lotteries_config.wf(),
        ensures
            match res {
                Ok(lottery) => {
                    &&& old(self).new_lottery_error(
                        lottery_token_id@,
                        lottery_type,
                        num_participants,
                        entry_fee,
                    ) is None
                    &&& is_new_lottery(
                        lottery,
                        old(self).next_lottery_id,
                        lottery_token_id,
                        lottery_type,
                        num_participants,
                        entry_fee,
                    )
                    &&& *final(self) == (Contract {
                        next_lottery_id: (old(self).next_lottery_id + 1) as u64,
                        ..*old(self)
                    })
                },
                Err(e) => {
                    &&& old(self).new_lottery_error(
                        lottery_token_id@,
                        lottery_type,
                        num_participants,
                        entry_fee,
                    ) == Some(e)
                    &&& *final(self) == *old(self)
                },
            },
    {
        let lottery = match self.new_lottery(
            lottery_token_id,
            lottery_type,
            num_participants,
            entry_fee,
        ) {
            Ok(lottery) => lottery,
            Err(e) => {
                return Err(e);
            },
        };
        self.next_lottery_id = self.next_lottery_id + 1;
        Ok(lottery)
    }
}

/// What an entry has led to.
#[derive(Debug)]
pub struct EnterOutcome {
    /// The pool that the entry joined.
    pub lottery_id: LotteryId,
    /// Whether that pool still takes entries.
    pub lottery_status: LotteryStatus,
    /// The transfers that the engine asks for, in their order.
    pub transfers: Vec<Transfer>,
    /// The report of the pool, if the entry finished it.
    pub lottery_result: Option<LotteryResult>,
}

/// What the referrer of an entry receives on its admission. A tiered pool
/// rewards the referrer of each entry with one percent of the entry fee; a
/// single-winner pool pays nothing on admission, since the referrer of its
/// winning entry is paid once, out of the winner's payout.
pub open spec fn referrer_reward(
    rewarded: bool,
    referrer_id: Option<AccountId>,
    entry_fee: Balance,
) -> Balance {
    if rewarded && referrer_id is Some {
        spec_ratio(entry_fee, ONE_PERCENT_RATIO) as Balance
    } else {
        0
    }
}

/// The transfer that pays the referrer of an entry on its admission, where
/// the pool rewards referrers then.
pub open spec fn referrer_transfer(
    rewarded: bool,
    referrer_id: Option<AccountId>,
    token_id: AccountId,
    entry_fee: Balance,
) -> Seq<Transfer> {
    if rewarded && referrer_id is Some {
        seq![
            Transfer {
                receiver_id: referrer_id->Some_0,
                token_id,
                amount: referrer_reward(rewarded, referrer_id, entry_fee),
            },
        ]
    } else {
        Seq::empty()
    }
}

impl Lottery {
    /// Whether the pool rewards the referrer of an entry on its admission:
    /// a tiered pool does, a single-winner pool does not.
    pub open spec fn spec_rewards_referrers(&self) -> bool {
        self is Lottery
    }

    /// Whether the pool rewards the referrer of an entry on its admission.
    pub fn rewards_referrers(&self) -> (res: bool)
        ensures
            res == self.spec_rewards_referrers(),
    {
        match self {
            Lottery::SimpleLottery(_) => false,
            Lottery::Lottery(_) => true,
        }
    }

    /// The error with which an open pool turns the entry down, if it does:
    /// the pool does not admit it, or what its referrers have received
    /// would exceed the balance type. A finished pool has none.
    pub open spec fn enter_error(
        &self,
        name: Seq<char>,
        amount: Balance,
        referrer_id: Option<AccountId>,
    ) -> Option<LotteryError> {
        if self.spec_status() == LotteryStatus::Finished {
            None
        } else if self.admission_error(name, amount) is Some {
            self.admission_error(name, amount)
        } else if self.spec_refferal_transfered() + referrer_reward(
            self.spec_rewards_referrers(),
            referrer_id,
            amount,
        ) > u128::MAX {
            Some(LotteryError::BalanceOverflow)
        } else {
            None
        }
    }

    /// Admits the account to the pool and draws the winners if the entry
    /// filled the pool. A tiered pool pays the referrer of the entry one
    /// percent of the entry fee out of the asset `token_id`. Returns the
    /// status of the pool and the transfer to the referrer.
    ///
    /// A finished pool takes no entry and pays nothing: it stays as it was
    /// and answers that it is finished. Where an open pool turns the entry
    /// down, it stays as it was.
    pub fn enter_pool(
        &mut self,
        account_id: &AccountId,
        amount: Balance,
        referrer_id: Option<AccountId>,
        token_id: &AccountId,
        seed: &RandomSeed,
    ) -> (res: Result<(LotteryStatus, Vec<Transfer>), LotteryError>)
        requires
            old(self).wf(),
        ensures
            final(self).wf(),
            match res {
                Ok((status, transfers)) => {
                    &&& old(self).enter_error(account_id@, amount, referrer_id) is None
                    &&& status == final(self).spec_status()
                    &&& if old(self).spec_status() == LotteryStatus::Finished {
                        &&& *final(self) == *old(self)
                        &&& transfers@.len() == 0
                    } else {
                        &&& final(self).admitted_from(
                            old(self),
                            Entry { account_id: *account_id, referrer_id },
                            referrer_reward(
                                old(self).spec_rewards_referrers(),
                                referrer_id,
                                amount,
                            ),
                            seed@,
                        )
                        &&& transfers@ == referrer_transfer(
                            old(self).spec_rewards_referrers(),
                            referrer_id,
                            *token_id,
                            amount,
                        )
                    }
                },
                Err(e) => {
                    &&& old(self).enter_error(account_id@, amount, referrer_id) == Some(e)
                    &&& *final(self) == *old(self)
                },
            },
    {
        let mut transfers: Vec<Transfer> = Vec::new();
        if self.status() == LotteryStatus::Finished {
            return Ok((LotteryStatus::Finished, transfers));
        }
        match self.check_admission(account_id, amount) {
            Some(e) => {
                return Err(e);
            },
            None => {},
        }
        let rewarded = self.rewards_referrers();
        let mut reward: Balance = 0;
        match &referrer_id {
            Some(referrer) => {
                if rewarded {
                    reward = ratio(amount, ONE_PERCENT_RATIO);
                    if reward > u128::MAX - self.refferal_transfered() {
                        return Err(LotteryError::BalanceOverflow);
                    }
                    transfers.push(
                        Transfer {
                            receiver_id: referrer.clone(),
                            token_id: token_id.clone(),
                            amount: reward,
                        },
                    );
                }
            },
            None => {},
        }
        assert(transfers@ =~= referrer_transfer(rewarded, referrer_id, *token_id, amount));
        let ghost entry = Entry { account_id: *account_id, referrer_id };
        let status = self.draw_enter(account_id, amount, referrer_id, seed).unwrap();
        let ghost drawn = *self;
        let ghost entered = choose|entered: Lottery|
            {
                &&& #[trigger] entered.entered_from(old(self), entry)
                &&& drawn.updated_from(&entered, seed@)
            };
        self.add_refferal_transfered(reward);
        proof {
            self.lemma_admitted(old(self), &entered, &drawn, entry, reward, seed@);
        }
        Ok((status, transfers))
    }
}

impl Contract {
    /// `self` is the engine `before` after the pool at `at`, or a new pool
    /// where `at` is the number of the open pools, has become `after`: a
    /// pool that is still open is kept, with the queued cashback handed
    /// out, and a finished one is paid out and leaves the registry.
    pub open spec fn entered_from(
        &self,
        before: &Self,
        after: Lottery,
        at: int,
        outcome: EnterOutcome,
        referrer_paid: Seq<Transfer>,
    ) -> bool {
        &&& self.config == before.config
        &&& self.whitelisted_tokens == before.whitelisted_tokens
        &&& self.lotteries_config == before.lotteries_config
        &&& self.next_lottery_id == if at == before.lotteries@.len() {
            before.next_lottery_id + 1
        } else {
            before.next_lottery_id as int
        }
        &&& outcome.lottery_id == after.spec_id()
        &&& outcome.lottery_status == after.spec_status()
        &&& match after.spec_status() {
            LotteryStatus::Active => {
                &&& self.lotteries@ == if at == before.lotteries@.len() {
                    before.lotteries@.push(after)
                } else {
                    before.lotteries@.update(at, after)
                }
                &&& self.fees == before.fees
                &&& self.cashback_accounts@.len() == 0
                &&& outcome.transfers@ == referrer_paid + cashback_transfers(
                    before.cashback_accounts@,
                )
                &&& outcome.lottery_result is None
            },
            LotteryStatus::Finished => {
                &&& self.lotteries@ == if at == before.lotteries@.len() {
                    before.lotteries@
                } else {
                    before.lotteries@.remove(at)
                }
                &&& before.distribute_error(after) is None
                &&& forall|name: Seq<char>|
                    #[trigger] fee_balance(self.fees@, name) == if name
                        == after.spec_lottery_token_id()@ {
                        (fee_balance(before.fees@, name) + retained_fee(
                            after,
                            before.config,
                        )) as Balance
                    } else {
                        fee_balance(before.fees@, name)
                    }
                &&& exists|queued: Seq<(AccountId, StoredCashback)>|
                    {
                        &&& #[trigger] queued_cashback(after, before.config, queued)
                        &&& self.cashback_accounts@ == before.cashback_accounts@ + queued
                        &&& total_amount(payout_transfers(after, before.config)) + queued_amount(
                            queued,
                        ) + referrals_off_the_fee(after) + retained_fee(after, before.config)
                            == after.spec_current_pool()
                    }
                &&& outcome.transfers@ == referrer_paid + payout_transfers(after, before.config)
                &&& outcome.lottery_result matches Some(result) && reports(
                    result,
                    after,
                    before.config,
                )
            },
        }
    }

    /// Keeps the open pool under its identifier, in place of the pool that
    /// has it or as the last of the pools, and hands out the transfers of
    /// the queued cashback.
    pub fn internal_set_lottery(&mut self, lottery_id: &LotteryId, lottery: Lottery) -> (transfers:
        Vec<Transfer>)
        requires
            old(self).wf(),
            lottery.wf(),
            lottery.spec_status() == LotteryStatus::Active,
            lottery.spec_id() == *lottery_id,
            *lottery_id < old(self).next_lottery_id,
        ensures
            final(self).wf(),
            transfers@ == cashback_transfers(old(self).cashback_accounts@),
            final(self).cashback_accounts@.len() == 0,
            (forall|i: int|
                0 <= i < old(self).lotteries@.len() ==> (#[trigger] old(self).lotteries@[i]).spec_id()
                    != *lottery_id) ==> final(self).lotteries@ == old(self).lotteries@.push(lottery),
            forall|at: int|
                0 <= at < old(self).lotteries@.len() && (#[trigger] old(self).lotteries@[at]).spec_id()
                    == *lottery_id ==> final(self).lotteries@ == old(self).lotteries@.update(
                    at,
                    lottery,
                ),
            *final(self) == (Contract {
                lotteries: final(self).lotteries,
                cashback_accounts: final(self).cashback_accounts,
                ..*old(self)
            }),
    {
        let transfers = self.update_cashback_storage();
        match self.lottery_position(*lottery_id) {
            Some(at) => {
                self.lotteries.set(at, lottery);
                assert forall|other: int|
                    0 <= other < old(self).lotteries@.len() && (#[trigger] old(
                        self,
                    ).lotteries@[other]).spec_id() == *lottery_id implies final(self).lotteries@
                    == old(self).lotteries@.update(other, lottery) by {
                    if other < at {
                        assert(old(self).lotteries@[other].spec_id() != old(
                            self,
                        ).lotteries@[at as int].spec_id());
                    } else if at < other {
                        assert(old(self).lotteries@[at as int].spec_id() != old(
                            self,
                        ).lotteries@[other].spec_id());
                    }
                }
            },
            None => {
                self.lotteries.push(lottery);
            },
        }
        transfers
    }

    /// Takes the pool that an entry has been admitted to into the registry:
    /// a pool that is still open is kept, and the queued cashback is handed
    /// out; a finished pool is paid out and leaves the registry. `found` is
    /// the place of the pool before the entry, if it had one.
    fn settle(&mut self, lottery: Lottery, found: Option<usize>, transfers: Vec<Transfer>) -> (res:
        Result<EnterOutcome, LotteryError>)
        requires
            old(self).wf(),
            lottery.wf(),
            match found {
                Some(at) => at < old(self).lotteries@.len() && old(
                    self,
                ).lotteries@[at as int].spec_id() == lottery.spec_id(),
                None => lottery.spec_id() == old(self).next_lottery_id && old(self).next_lottery_id
                    < u64::MAX,
            },
        ensures
            match res {
                Ok(outcome) => {
                    &&& final(self).wf()
                    &&& final(self).entered_from(
                        old(self),
                        lottery,
                        match found {
                            Some(at) => at as int,
                            None => old(self).lotteries@.len() as int,
                        },
                        outcome,
                        transfers@,
                    )
                },
                Err(e) => {
                    &&& *final(self) == *old(self)
                    &&& lottery.spec_status() == LotteryStatus::Finished
                    &&& old(self).distribute_error(lottery) == Some(e)
                },
            },
    {
        let lottery_id = lottery.get_id();
        let status = lottery.status();
        let mut transfers = transfers;
        match status {
            LotteryStatus::Finished => {
                let (result, mut paid) = match self.distribute(lottery) {
                    Ok(paid) => paid,
                    Err(e) => {
                        return Err(e);
                    },
                };
                match found {
                    Some(at) => {
                        self.lotteries.remove(at);
                    },
                    None => {
                        self.next_lottery_id = self.next_lottery_id + 1;
                    },
                }
                transfers.append(&mut paid);
                Ok(
                    EnterOutcome {
                        lottery_id,
                        lottery_status: status,
                        transfers,
                        lottery_result: Some(result),
                    },
                )
            },
            LotteryStatus::Active => {
                let mut flushed = self.update_cashback_storage();
                match found {
                    Some(at) => {
                        self.lotteries.set(at, lottery);
                    },
                    None => {
                        self.lotteries.push(lottery);
                        self.next_lottery_id = self.next_lottery_id + 1;
                    },
                }
                transfers.append(&mut flushed);
                Ok(
                    EnterOutcome {
                        lottery_id,
                        lottery_status: status,
                        transfers,
                        lottery_result: None,
                    },
                )
            },
        }
    }
}

impl Contract {
    /// `before` is the pool that an entry with these parameters joins: the
    /// first open pool that matches them, found at `at`, or a new one where
    /// there is none; `at` is then the number of the open pools.
    pub open spec fn joins(
        &self,
        before: Lottery,
        at: int,
        token_id: AccountId,
        lottery_type: LotteryType,
        num_participants: u32,
        entry_fee: Balance,
    ) -> bool {
        if self.has_no_match(token_id@, num_participants, entry_fee) {
            &&& at == self.lotteries@.len()
            &&& self.new_lottery_error(token_id@, lottery_type, num_participants, entry_fee) is None
            &&& is_new_lottery(
                before,
                self.next_lottery_id,
                token_id,
                lottery_type,
                num_participants,
                entry_fee,
            )
        } else {
            &&& self.is_first_match(token_id@, num_participants, entry_fee, at)
            &&& before == self.lotteries@[at]
        }
    }

    /// A copy of the open pool that an entry with these parameters joins,
    /// with its place, or a new pool where there is none.
    fn pool_to_join(
        &self,
        lottery_token_id: &AccountId,
        lottery_type: LotteryType,
        num_participants: u32,
        entry_fee: Balance,
    ) -> (res: Result<(Lottery, Option<usize>), LotteryError>)
        requires
            self.wf(),
        ensures
            match res {
                Ok((lottery, found)) => {
                    &&& lottery.wf()
                    &&& lottery.spec_status() == LotteryStatus::Active
                    &&& match found {
                        Some(at) => {
                            &&& self.joins(
                                self.lotteries@[at as int],
                                at as int,
                                *lottery_token_id,
                                lottery_type,
                                num_participants,
                                entry_fee,
                            )
                            &&& at < self.lotteries@.len()
                            &&& lottery.same_as(&self.lotteries@[at as int])
                        },
                        None => {
                            &&& self.joins(
                                lottery,
                                self.lotteries@.len() as int,
                                *lottery_token_id,
                                lottery_type,
                                num_participants,
                                entry_fee,
                            )
                            &&& self.has_no_match(lottery_token_id@, num_participants, entry_fee)
                            &&& self.next_lottery_id < u64::MAX
                            &&& lottery.spec_id() == self.next_lottery_id
                        },
                    }
                },
                Err(e) => {
                    &&& self.has_no_match(lottery_token_id@, num_participants, entry_fee)
                    &&& self.new_lottery_error(
                        lottery_token_id@,
                        lottery_type,
                        num_participants,
                        entry_fee,
                    ) == Some(e)
                },
            },
    {
        match self.lottery_position_by_parameters(lottery_token_id, num_participants, entry_fee) {
            Some(at) => {
                let lottery = self.lotteries[at].clone();
                proof {
                    lottery.lemma_same_as_wf(&self.lotteries@[at as int]);
                    assert(self.lotteries@[at as int].matches_parameters(
                        lottery_token_id@,
                        num_participants,
                        entry_fee,
                    ));
                }
                Ok((lottery, Some(at)))
            },
            None => {
                match self.new_lottery(
                    lottery_token_id.clone(),
                    lottery_type,
                    num_participants,
                    entry_fee,
                ) {
                    Ok(lottery) => Ok((lottery, None)),
                    Err(e) => Err(e),
                }
            },
        }
    }

    /// What `draw_enter` makes of the engine `before_all` and returns: `self`
    /// is the engine after the call. An entry that is taken joins the first
    /// open pool with its parameters, or a new one; an entry that is turned
    /// down changes nothing, and the reasons are looked at in this order: no
    /// pool is open and none can be opened; the pool turns the entry down, or
    /// what its referrers have received exceeds the balance type; the pool
    /// is full and cannot be paid out.
    pub open spec fn enter_result(
        &self,
        before_all: &Self,
        res: Result<EnterOutcome, LotteryError>,
        entry_account_id: AccountId,
        lottery_token_id: AccountId,
        lottery_type: LotteryType,
        num_participants: u32,
        entry_fee: Balance,
        referrer_id: Option<AccountId>,
        seed: Seq<u8>,
    ) -> bool {
        match res {
            Ok(outcome) => {
                &&& self.wf()
                &&& exists|before: Lottery, after: Lottery, at: int|
                    {
                        &&& #[trigger] before_all.joins(
                            before,
                            at,
                            lottery_token_id,
                            lottery_type,
                            num_participants,
                            entry_fee,
                        )
                        &&& before.enter_error(entry_account_id@, entry_fee, referrer_id)
                            is None
                        &&& #[trigger] after.admitted_from(
                            &before,
                            Entry { account_id: entry_account_id, referrer_id },
                            referrer_reward(before.spec_rewards_referrers(), referrer_id, entry_fee),
                            seed,
                        )
                        &&& self.entered_from(
                            before_all,
                            after,
                            at,
                            outcome,
                            referrer_transfer(
                                    before.spec_rewards_referrers(),
                                    referrer_id,
                                    lottery_token_id,
                                    entry_fee,
                                ),
                        )
                    }
            },
            Err(e) => {
                &&& *self == *before_all
                &&& if before_all.has_no_match(lottery_token_id@, num_participants, entry_fee)
                    && before_all.new_lottery_error(
                    lottery_token_id@,
                    lottery_type,
                    num_participants,
                    entry_fee,
                ) is Some {
                    before_all.new_lottery_error(
                        lottery_token_id@,
                        lottery_type,
                        num_participants,
                        entry_fee,
                    ) == Some(e)
                } else {
                    exists|before: Lottery, at: int|
                        {
                            &&& #[trigger] before_all.joins(
                                before,
                                at,
                                lottery_token_id,
                                lottery_type,
                                num_participants,
                                entry_fee,
                            )
                            &&& if before.enter_error(
                                entry_account_id@,
                                entry_fee,
                                referrer_id,
                            ) is Some {
                                before.enter_error(entry_account_id@, entry_fee, referrer_id)
                                    == Some(e)
                            } else {
                                exists|after: Lottery|
                                    {
                                        &&& #[trigger] after.admitted_from(
                                            &before,
                                            Entry { account_id: entry_account_id, referrer_id },
                                            referrer_reward(before.spec_rewards_referrers(), referrer_id, entry_fee),
                                            seed,
                                        )
                                        &&& after.spec_status() == LotteryStatus::Finished
                                        &&& before_all.distribute_error(after) == Some(e)
                                    }
                            }
                        }
                }
            },
        }
    }

    /// Admits the account to the open pool of the asset with this entry fee
    /// and number of participants, or to a new pool where there is none. A
    /// tiered pool pays the referrer of the entry one percent of the entry
    /// fee. A pool that the entry fills draws its winners, is paid out and
    /// leaves the registry; a pool that stays open is kept, and the queued
    /// cashback is handed out.
    ///
    /// Where the entry is turned down, nothing changes. The reasons are
    /// looked at in this order: no pool is open and none can be opened; the
    /// pool turns the entry down; what its referrers have received exceeds
    /// the balance type; the pool is full and cannot be paid out.
    pub fn draw_enter(
        &mut self,
        entry_account_id: &AccountId,
        lottery_token_id: AccountId,
        lottery_type: LotteryType,
        num_participants: u32,
        entry_fee: Balance,
        referrer_id: Option<AccountId>,
        seed: &RandomSeed,
    ) -> (res: Result<EnterOutcome, LotteryError>)
        requires
            old(self).wf(),
        ensures
            final(self).enter_result(
                old(self),
                res,
                *entry_account_id,
                lottery_token_id,
                lottery_type,
                num_participants,
                entry_fee,
                referrer_id,
                seed@,
            ),
    {
        let (mut lottery, found) = match self.pool_to_join(
            &lottery_token_id,
            lottery_type,
            num_participants,
            entry_fee,
        ) {
            Ok(joined) => joined,
            Err(e) => {
                return Err(e);
            },
        };
        let ghost at: int = match found {
            Some(at) => at as int,
            None => self.lotteries@.len() as int,
        };
        let ghost before: Lottery = match found {
            Some(at) => self.lotteries@[at as int],
            None => lottery,
        };
        let ghost copied = lottery;
        let ghost entry = Entry { account_id: *entry_account_id, referrer_id };
        let ghost reward = referrer_reward(before.spec_rewards_referrers(), referrer_id, entry_fee);
        proof {
            copied.lemma_same_as_wf(&before);
            assert(old(self).joins(
                before,
                at,
                lottery_token_id,
                lottery_type,
                num_participants,
                entry_fee,
            ));
        }
        let transfers = match lottery.enter_pool(
            entry_account_id,
            entry_fee,
            referrer_id,
            &lottery_token_id,
            seed,
        ) {
            Ok((_, transfers)) => transfers,
            Err(e) => {
                proof {
                    assert(before.enter_error(entry_account_id@, entry_fee, referrer_id) == Some(e));
                }
                return Err(e);
            },
        };
        let ghost after = lottery;
        proof {
            assert(after.admitted_from(&before, entry, reward, seed@));
            assert(before.enter_error(entry_account_id@, entry_fee, referrer_id) is None);
        }
        self.settle(lottery, found, transfers)
    }
}

/// The reason for which the account may not enter under the accepted parent
/// account, if there is one. The account must have three parts, and its
/// last two must be the first two of the accepted parent.
pub open spec fn subaccount_error(accepted_subs: Seq<char>, account: Seq<char>) -> Option<
    LotteryError,
> {
    let accepted = spec_split_dots(accepted_subs);
    let parts = spec_split_dots(account);
    if parts.len() != 3 {
        Some(LotteryError::InvalidSubaccount)
    } else if accepted.len() < 2 {
        Some(LotteryError::InvalidAcceptedSubs)
    } else if accepted[0] == parts[1] && accepted[1] == parts[2] {
        None
    } else {
        Some(LotteryError::InvalidSubaccount)
    }
}

impl Contract {
    /// Tells whether the account is a subaccount of the accepted parent.
    pub fn check_accepted_subs(&self, account_id: &AccountId) -> (res: Result<(), LotteryError>)
        ensures
            match res {
                Ok(()) => subaccount_error(self.config.accepted_subs@, account_id@) is None,
                Err(e) => subaccount_error(self.config.accepted_subs@, account_id@) == Some(e),
            },
    {
        let accepted_sub = split_dots(self.config.accepted_subs.as_str());
        let splitted_acc = split_dots(account_id.as_str());
        proof {
            assert(part_names(accepted_sub@).len() == accepted_sub@.len());
            assert(part_names(splitted_acc@).len() == splitted_acc@.len());
        }
        if splitted_acc.len() != 3 {
            return Err(LotteryError::InvalidSubaccount);
        }
        if accepted_sub.len() < 2 {
            return Err(LotteryError::InvalidAcceptedSubs);
        }
        proof {
            assert(part_names(accepted_sub@)[0] == accepted_sub@[0]@);
            assert(part_names(accepted_sub@)[1] == accepted_sub@[1]@);
            assert(part_names(splitted_acc@)[1] == splitted_acc@[1]@);
            assert(part_names(splitted_acc@)[2] == splitted_acc@[2]@);
        }
        if accepted_sub[0] == splitted_acc[1] && accepted_sub[1] == splitted_acc[2] {
            Ok(())
        } else {
            Err(LotteryError::InvalidSubaccount)
        }
    }

    /// Sets the parent account whose subaccounts may enter, on the owner's
    /// call. The parent must be of the form `name.zone`.
    pub fn change_accepted_subs(
        &mut self,
        caller: &AccountId,
        attached_deposit: Balance,
        accepted_subs: String,
    ) -> (res: Result<bool, LotteryError>)
        requires
            old(self).wf(),
        ensures
            final(self).wf(),
            match res {
                Ok(done) => {
                    &&& done
                    &&& old(self).owner_error(caller@, attached_deposit) is None
                    &&& spec_split_dots(accepted_subs@).len() == 2
                    &&& final(self).config.accepted_subs == accepted_subs
                    &&& *final(self) == (Contract {
                        config: crate::config::Config { accepted_subs, ..old(self).config },
                        ..*old(self)
                    })
                },
                Err(e) => {
                    &&& *final(self) == *old(self)
                    &&& if old(self).owner_error(caller@, attached_deposit) is Some {
                        old(self).owner_error(caller@, attached_deposit) == Some(e)
                    } else {
                        &&& e == LotteryError::InvalidAcceptedSubs
                        &&& spec_split_dots(accepted_subs@).len() != 2
                    }
                },
            },
    {
        match self.assert_owner_call(caller, attached_deposit) {
            Ok(()) => {},
            Err(e) => {
                return Err(e);
            },
        }
        let parts = split_dots(accepted_subs.as_str());
        proof {
            assert(part_names(parts@).len() == parts@.len());
        }
        if parts.len() != 2 {
            return Err(LotteryError::InvalidAcceptedSubs);
        }
        self.config.accepted_subs = accepted_subs;
        Ok(true)
    }

    /// Admits the account that calls with the amount it has attached to a
    /// pool of the native asset, of the kind that the selector names.
    ///
    /// The account must be a subaccount of the accepted parent, and the
    /// selector must name a kind; then the entry is taken as by `draw_enter`.
    pub fn draw_near_enter(
        &mut self,
        account_id: &AccountId,
        attached_deposit: Balance,
        lottery_type: String,
        num_participants: u32,
        referrer_id: Option<AccountId>,
        seed: &RandomSeed,
    ) -> (res: Result<EnterOutcome, LotteryError>)
        requires
            old(self).wf(),
        ensures
            if subaccount_error(old(self).config.accepted_subs@, account_id@) is Some {
                &&& res == Err::<EnterOutcome, LotteryError>(
                    subaccount_error(old(self).config.accepted_subs@, account_id@)->Some_0,
                )
                &&& *final(self) == *old(self)
            } else if LotteryType::spec_from(lottery_type@) is None {
                &&& res == Err::<EnterOutcome, LotteryError>(LotteryError::UnknownLotteryType)
                &&& *final(self) == *old(self)
            } else {
                exists|token_id: AccountId|
                    {
                        &&& token_id@ == NEAR@
                        &&& #[trigger] final(self).enter_result(
                            old(self),
                            res,
                            *account_id,
                            token_id,
                            LotteryType::spec_from(lottery_type@)->Some_0,
                            num_participants,
                            attached_deposit,
                            referrer_id,
                            seed@,
                        )
                    }
            },
    {
        match self.check_accepted_subs(account_id) {
            Ok(()) => {},
            Err(e) => {
                return Err(e);
            },
        }
        let kind = match LotteryType::from(lottery_type) {
            Ok(kind) => kind,
            Err(e) => {
                return Err(e);
            },
        };
        let token_id = near();
        let ghost native = token_id;
        let res = self.draw_enter(
            account_id,
            token_id,
            kind,
            num_participants,
            attached_deposit,
            referrer_id,
            seed,
        );
        proof {
            assert(final(self).enter_result(
                old(self),
                res,
                *account_id,
                native,
                LotteryType::spec_from(lottery_type@)->Some_0,
                num_participants,
                attached_deposit,
                referrer_id,
                seed@,
            ));
        }
        res
    }
}

} // verus!
