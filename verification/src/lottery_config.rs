//! The entry fees and numbers of participants that a new pool may have.
use crate::assoc::{
    distinct_keys, key_position, lemma_lookup_at, lemma_lookup_none, lemma_lookup_push,
    lemma_lookup_update, lookup,
};
use crate::errors::LotteryError;
use crate::lottery::{BIG_LOTTERY, SIMPLE_LOTTERY};
use crate::utils::{near, NEAR};
use crate::{AccountId, Balance, Contract};
use vstd::prelude::*;

verus! {

/// The kind of a lottery.
#[derive(Clone, Copy, Debug, PartialEq, Eq, Structural)]
pub enum LotteryType {
    SimpleLottery,
    BigLottery,
}

impl LotteryType {
    /// The kind that a selector names, if it names one.
    pub open spec fn spec_from(s: Seq<char>) -> Option<LotteryType> {
        if s == SIMPLE_LOTTERY@ {
            Some(LotteryType::SimpleLottery)
        } else if s == BIG_LOTTERY@ {
            Some(LotteryType::BigLottery)
        } else {
            None
        }
    }

    /// Reads the kind of a lottery from its selector.
    pub fn from(s: String) -> (res: Result<LotteryType, LotteryError>)
        ensures
            match res {
                Ok(kind) => Self::spec_from(s@) == Some(kind),
                Err(e) => Self::spec_from(s@) is None && e == LotteryError::UnknownLotteryType,
            },
    {
        if s == SIMPLE_LOTTERY.to_owned() {
            Ok(LotteryType::SimpleLottery)
        } else if s == BIG_LOTTERY.to_owned() {
            Ok(LotteryType::BigLottery)
        } else {
            Err(LotteryError::UnknownLotteryType)
        }
    }
}

/// The accounts of one asset that await their cashback, and its amount.
#[derive(Debug)]
pub struct StoredCashback {
    pub amount: Balance,
    pub accounts: Vec<AccountId>,
}

/// The entry fees configured for the asset `name`: those of the last pair
/// that names it.
pub open spec fn fees_for(entry_fees: Seq<(AccountId, Vec<Balance>)>, name: Seq<char>) -> Option<
    Seq<Balance>,
> {
    match lookup(entry_fees, name) {
        Some(fees) => Some(fees@),
        None => None,
    }
}

/// `at` is the first place of `value` in `values`.
pub open spec fn is_first_position<T>(values: Seq<T>, value: T, at: int) -> bool {
    &&& 0 <= at < values.len()
    &&& values[at] == value
    &&& forall|i: int| 0 <= i < at ==> values[i] != value
}

/// The first place of a number of participants in a list.
pub fn position_of_num(values: &Vec<u32>, value: u32) -> (res: Option<usize>)
    ensures
        match res {
            Some(at) => is_first_position(values@, value, at as int),
            None => !values@.contains(value),
        },
{
    let mut i: usize = 0;
    while i < values.len()
        invariant
            i <= values@.len(),
            forall|k: int| 0 <= k < i ==> values@[k] != value,
        decreases values.len() - i,
    {
        if values[i] == value {
            return Some(i);
        }
        i = i + 1;
    }
    None
}

/// The first place of an entry fee in a list.
pub fn position_of_fee(values: &Vec<Balance>, value: Balance) -> (res: Option<usize>)
    ensures
        match res {
            Some(at) => is_first_position(values@, value, at as int),
            None => !values@.contains(value),
        },
{
    let mut i: usize = 0;
    while i < values.len()
        invariant
            i <= values@.len(),
            forall|k: int| 0 <= k < i ==> values@[k] != value,
        decreases values.len() - i,
    {
        if values[i] == value {
            return Some(i);
        }
        i = i + 1;
    }
    None
}

/// What a new pool may look like: the entry fees by asset, and the numbers
/// of participants by kind of lottery.
#[derive(Debug)]
pub struct LotteryConfig {
    /// The entry fees of each asset; no asset occurs twice.
    pub entry_fees: Vec<(AccountId, Vec<Balance>)>,
    pub num_participants: Vec<u32>,
    pub big_lottery_num_participants: Vec<u32>,
}

impl LotteryConfig {
    /// No asset has two lists of entry fees.
    pub open spec fn wf(&self) -> bool {
        distinct_keys(self.entry_fees@)
    }

    /// The entry fees configured for the asset, if any are.
    pub open spec fn spec_entry_fees(&self, name: Seq<char>) -> Option<Seq<Balance>> {
        fees_for(self.entry_fees@, name)
    }

    /// Each of the three tables holds something.
    pub open spec fn valid(&self) -> bool {
        &&& self.entry_fees@.len() > 0
        &&& self.num_participants@.len() > 0
        &&& self.big_lottery_num_participants@.len() > 0
    }

    /// The asset that `token_id` stands for: the native one where it names none.
    pub open spec fn token_name(token_id: Option<AccountId>) -> Seq<char> {
        match token_id {
            Some(token) => token@,
            None => NEAR@,
        }
    }

    /// Builds the configuration. Where the fees name an asset more than
    /// once, the last of its lists counts.
    pub fn new(
        entry_fees: Vec<(AccountId, Vec<Balance>)>,
        num_participants: Vec<u32>,
        big_lottery_num_participants: Vec<u32>,
    ) -> (res: Self)
        ensures
            res.wf(),
            forall|name: Seq<char>| res.spec_entry_fees(name) == fees_for(entry_fees@, name),
            res.entry_fees@.len() <= entry_fees@.len(),
            entry_fees@.len() > 0 ==> res.entry_fees@.len() > 0,
            res.num_participants == num_participants,
            res.big_lottery_num_participants == big_lottery_num_participants,
    {
        let mut remaining = entry_fees;
        let mut kept: Vec<(AccountId, Vec<Balance>)> = Vec::new();
        while remaining.len() > 0
            invariant
                distinct_keys(kept@),
                kept@.len() + remaining@.len() <= entry_fees@.len(),
                entry_fees@.len() > 0 ==> kept@.len() + remaining@.len() > 0,
                forall|name: Seq<char>|
                    fees_for(entry_fees@, name) == match #[trigger] fees_for(kept@, name) {
                        Some(fees) => Some(fees),
                        None => fees_for(remaining@, name),
                    },
            decreases remaining.len(),
        {
            let ghost before = remaining@;
            let ghost kept_before = kept@;
            let pair = remaining.pop().unwrap();
            assert(remaining@ =~= before.drop_last());
            let found = key_position(&kept, &pair.0);
            proof {
                lemma_lookup_none(kept_before, pair.0@);
            }
            if found.is_none() {
                kept.push(pair);
                assert(kept@.drop_last() =~= kept_before);
                assert(distinct_keys(kept@)) by {
                    assert forall|i: int, j: int| 0 <= i < j < kept@.len() implies (
                    #[trigger] kept@[i]).0@ != (#[trigger] kept@[j]).0@ by {
                        if j == kept@.len() - 1 {
                            assert(kept_before[i].0@ != pair.0@);
                        } else {
                            assert(kept_before[i].0@ != kept_before[j].0@);
                        }
                    }
                }
            }
            assert forall|name: Seq<char>|
                fees_for(entry_fees@, name) == match #[trigger] fees_for(kept@, name) {
                    Some(fees) => Some(fees),
                    None => fees_for(remaining@, name),
                } by {
                let goal = fees_for(entry_fees@, name);
                assert(goal == match fees_for(kept_before, name) {
                    Some(fees) => Some(fees),
                    None => fees_for(before, name),
                });
            }
        }
        LotteryConfig { entry_fees: kept, num_participants, big_lottery_num_participants }
    }

    /// Tells whether each of the three tables holds something.
    pub fn assert_valid(&self) -> (res: Result<(), LotteryError>)
        ensures
            res is Ok <==> self.valid(),
            res is Err ==> res == Err::<(), LotteryError>(LotteryError::EmptyLotteryConfig),
    {
        if self.entry_fees.len() == 0 || self.num_participants.len() == 0
            || self.big_lottery_num_participants.len() == 0 {
            Err(LotteryError::EmptyLotteryConfig)
        } else {
            Ok(())
        }
    }

    /// Allows single-winner pools of `num` participants.
    pub fn add_num_participants(&mut self, num: u32)
        ensures
            final(self).num_participants@ == old(self).num_participants@.push(num),
            final(self).entry_fees == old(self).entry_fees,
            final(self).big_lottery_num_participants == old(self).big_lottery_num_participants,
    {
        self.num_participants.push(num);
    }

    /// Allows single-winner pools of `num` participants no longer: takes the
    /// first `num` out of the list.
    pub fn remove_num_participants(&mut self, num: u32) -> (res: Result<(), LotteryError>)
        ensures
            final(self).entry_fees == old(self).entry_fees,
            final(self).big_lottery_num_participants == old(self).big_lottery_num_participants,
            res is Ok <==> old(self).num_participants@.contains(num),
            match res {
                Ok(()) => exists|at: int|
                    {
                        &&& #[trigger] is_first_position(old(self).num_participants@, num, at)
                        &&& final(self).num_participants@ == old(self).num_participants@.remove(at)
                    },
                Err(e) => {
                    &&& final(self).num_participants == old(self).num_participants
                    &&& e == if old(self).num_participants@.len() == 0 {
                        LotteryError::CannotRemoveLast
                    } else {
                        LotteryError::NothingToRemove
                    }
                },
            },
    {
        if self.num_participants.len() == 0 {
            return Err(LotteryError::CannotRemoveLast);
        }
        match position_of_num(&self.num_participants, num) {
            Some(index) => {
                self.num_participants.remove(index);
                assert(is_first_position(old(self).num_participants@, num, index as int));
                Ok(())
            },
            None => Err(LotteryError::NothingToRemove),
        }
    }

    /// Allows tiered pools of `num` participants.
    pub fn add_big_lottery_num_participants(&mut self, num: u32)
        ensures
            final(self).big_lottery_num_participants@ == old(
                self,
            ).big_lottery_num_participants@.push(num),
            final(self).entry_fees == old(self).entry_fees,
            final(self).num_participants == old(self).num_participants,
    {
        self.big_lottery_num_participants.push(num)
    }

    /// Allows tiered pools of `num` participants no longer: takes the first
    /// `num` out of the list, unless the list holds nothing else.
    pub fn remove_big_lottery_num_participants(&mut self, num: u32) -> (res: Result<
        (),
        LotteryError,
    >)
        ensures
            final(self).entry_fees == old(self).entry_fees,
            final(self).num_participants == old(self).num_participants,
            res is Ok <==> old(self).big_lottery_num_participants@.len() > 1 && old(
                self,
            ).big_lottery_num_participants@.contains(num),
            match res {
                Ok(()) => exists|at: int|
                    {
                        &&& #[trigger] is_first_position(
                            old(self).big_lottery_num_participants@,
                            num,
                            at,
                        )
                        &&& final(self).big_lottery_num_participants@ == old(
                            self,
                        ).big_lottery_num_participants@.remove(at)
                    },
                Err(e) => {
                    &&& final(self).big_lottery_num_participants == old(
                        self,
                    ).big_lottery_num_participants
                    &&& e == if old(self).big_lottery_num_participants@.len() <= 1 {
                        LotteryError::CannotRemoveLast
                    } else {
                        LotteryError::NothingToRemove
                    }
                },
            },
    {
        if self.big_lottery_num_participants.len() <= 1 {
            return Err(LotteryError::CannotRemoveLast);
        }
        match position_of_num(&self.big_lottery_num_participants, num) {
            Some(index) => {
                self.big_lottery_num_participants.remove(index);
                assert(is_first_position(old(self).big_lottery_num_participants@, num, index as int));
                Ok(())
            },
            None => Err(LotteryError::NothingToRemove),
        }
    }

    /// Allows the entry fee for the asset, or for the native one where none
    /// is named: appends it to the asset's fees.
    pub fn add_entry_fee(&mut self, token_id: Option<AccountId>, fee: Balance)
        requires
            old(self).wf(),
        ensures
            final(self).wf(),
            final(self).num_participants == old(self).num_participants,
            final(self).big_lottery_num_participants == old(self).big_lottery_num_participants,
            final(self).entry_fees@.len() >= old(self).entry_fees@.len(),
            forall|name: Seq<char>|
                #[trigger] final(self).spec_entry_fees(name) == if name == Self::token_name(
                    token_id,
                ) {
                    Some(
                        match old(self).spec_entry_fees(name) {
                            Some(fees) => fees.push(fee),
                            None => seq![fee],
                        },
                    )
                } else {
                    old(self).spec_entry_fees(name)
                },
    {
        let token = match token_id {
            Some(token) => token,
            None => near(),
        };
        match key_position(&self.entry_fees, &token) {
            Some(index) => {
                let (name, mut fees) = self.entry_fees.remove(index);
                fees.push(fee);
                let ghost pair = (name, fees);
                self.entry_fees.insert(index, (name, fees));
                proof {
                    assert(self.entry_fees@ =~= old(self).entry_fees@.update(index as int, pair));
                    lemma_lookup_at(old(self).entry_fees@, token@, index as int);
                    assert forall|name: Seq<char>|
                        #[trigger] final(self).spec_entry_fees(name) == if name == token@ {
                            Some(
                                match old(self).spec_entry_fees(name) {
                                    Some(fees) => fees.push(fee),
                                    None => seq![fee],
                                },
                            )
                        } else {
                            old(self).spec_entry_fees(name)
                        } by {
                        lemma_lookup_update(old(self).entry_fees@, index as int, pair, name);
                    }
                    lemma_lookup_update(old(self).entry_fees@, index as int, pair, token@);
                }
            },
            None => {
                let mut fees: Vec<Balance> = Vec::new();
                fees.push(fee);
                self.entry_fees.push((token, fees));
                proof {
                    assert(self.entry_fees@.drop_last() =~= old(self).entry_fees@);
                    lemma_lookup_none(old(self).entry_fees@, token@);
                    assert(fees@ =~= seq![fee]);
                    assert(distinct_keys(self.entry_fees@)) by {
                        assert forall|i: int, j: int|
                            0 <= i < j < self.entry_fees@.len() implies (
                        #[trigger] self.entry_fees@[i]).0@ != (#[trigger] self.entry_fees@[j]).0@ by {
                            if j == self.entry_fees@.len() - 1 {
                                assert(old(self).entry_fees@[i].0@ != token@);
                            } else {
                                assert(old(self).entry_fees@[i].0@ != old(self).entry_fees@[j].0@);
                            }
                        }
                    }
                }
            },
        }
    }

    /// Allows the entry fee for the asset no longer, or for the native one
    /// where none is named: takes its first occurrence out of the asset's fees.
    pub fn remove_entry_fee(&mut self, token_id: Option<AccountId>, fee: Balance) -> (res: Result<
        (),
        LotteryError,
    >)
        requires
            old(self).wf(),
        ensures
            final(self).wf(),
            final(self).num_participants == old(self).num_participants,
            final(self).big_lottery_num_participants == old(self).big_lottery_num_participants,
            final(self).entry_fees@.len() == old(self).entry_fees@.len(),
            res is Ok <==> (old(self).spec_entry_fees(Self::token_name(token_id)) matches Some(fees)
                && fees.contains(fee)),
            match res {
                Ok(()) => forall|name: Seq<char>|
                    #[trigger] final(self).spec_entry_fees(name) == if name == Self::token_name(
                        token_id,
                    ) {
                        let fees = old(self).spec_entry_fees(name)->Some_0;
                        Some(fees.remove(choose|at: int| is_first_position(fees, fee, at)))
                    } else {
                        old(self).spec_entry_fees(name)
                    },
                Err(e) => e == LotteryError::NothingToRemove && *final(self) == *old(self),
            },
    {
        let token = match token_id {
            Some(token) => token,
            None => near(),
        };
        proof {
            lemma_lookup_none(self.entry_fees@, token@);
        }
        let index = match key_position(&self.entry_fees, &token) {
            Some(index) => index,
            None => {
                return Err(LotteryError::NothingToRemove);
            },
        };
        proof {
            lemma_lookup_at(self.entry_fees@, token@, index as int);
        }
        let position = match position_of_fee(&self.entry_fees[index].1, fee) {
            Some(position) => position,
            None => {
                return Err(LotteryError::NothingToRemove);
            },
        };
        let (name, mut fees) = self.entry_fees.remove(index);
        let ghost fees_before = fees@;
        fees.remove(position);
        let ghost pair = (name, fees);
        self.entry_fees.insert(index, (name, fees));
        proof {
            assert(self.entry_fees@ =~= old(self).entry_fees@.update(index as int, pair));
            let chosen = choose|at: int| is_first_position(fees_before, fee, at);
            assert(is_first_position(fees_before, fee, position as int));
            assert(chosen == position) by {
                if chosen < position {
                    assert(fees_before[chosen] != fee);
                } else if position < chosen {
                    assert(fees_before[position as int] != fee);
                }
            }
            assert forall|name: Seq<char>|
                #[trigger] final(self).spec_entry_fees(name) == if name == token@ {
                    let fees = old(self).spec_entry_fees(name)->Some_0;
                    Some(fees.remove(choose|at: int| is_first_position(fees, fee, at)))
                } else {
                    old(self).spec_entry_fees(name)
                } by {
                lemma_lookup_update(old(self).entry_fees@, index as int, pair, name);
            }
            lemma_lookup_update(old(self).entry_fees@, index as int, pair, token@);
        }
        Ok(())
    }
}

impl Contract {
    /// The tables of what a new pool may look like.
    pub fn internal_lottery_config(&self) -> (res: &LotteryConfig)
        ensures
            *res == self.lotteries_config,
    {
        &self.lotteries_config
    }

    /// Allows pools of the kind that the selector names to have `num`
    /// participants, on the owner's call. A selector that names no kind is
    /// turned down.
    pub fn add_num_participants(
        &mut self,
        caller: &AccountId,
        attached_deposit: Balance,
        num: u32,
        lottery_type: String,
    ) -> (res: Result<(), LotteryError>)
        requires
            old(self).wf(),
        ensures
            final(self).wf(),
            match res {
                Ok(()) => {
                    &&& old(self).owner_error(caller@, attached_deposit) is None
                    &&& LotteryType::spec_from(lottery_type@) is Some
                    &&& final(self).lotteries_config.entry_fees == old(
                        self,
                    ).lotteries_config.entry_fees
                    &&& final(self).lotteries_config.num_participants@ == if LotteryType::spec_from(
                        lottery_type@,
                    ) == Some(LotteryType::SimpleLottery) {
                        old(self).lotteries_config.num_participants@.push(num)
                    } else {
                        old(self).lotteries_config.num_participants@
                    }
                    &&& final(self).lotteries_config.big_lottery_num_participants@
                        == if LotteryType::spec_from(lottery_type@) == Some(
                        LotteryType::BigLottery,
                    ) {
                        old(self).lotteries_config.big_lottery_num_participants@.push(num)
                    } else {
                        old(self).lotteries_config.big_lottery_num_participants@
                    }
                    &&& *final(self) == (Contract {
                        lotteries_config: final(self).lotteries_config,
                        ..*old(self)
                    })
                },
                Err(e) => {
                    &&& *final(self) == *old(self)
                    &&& if old(self).owner_error(caller@, attached_deposit) is Some {
                        old(self).owner_error(caller@, attached_deposit) == Some(e)
                    } else {
                        &&& LotteryType::spec_from(lottery_type@) is None
                        &&& e == LotteryError::UnknownLotteryType
                    }
                },
            },
    {
        match self.assert_owner_call(caller, attached_deposit) {
            Ok(()) => {},
            Err(e) => {
                return Err(e);
            },
        }
        match LotteryType::from(lottery_type) {
            Ok(LotteryType::SimpleLottery) => {
                self.lotteries_config.add_num_participants(num);
            },
            Ok(LotteryType::BigLottery) => {
                self.lotteries_config.add_big_lottery_num_participants(num);
            },
            Err(e) => {
                return Err(e);
            },
        }
        Ok(())
    }

    /// The reason for which the number cannot be taken out of the numbers
    /// of participants of the kind of lottery, if there is one.
    pub open spec fn remove_num_error(&self, num: u32, lottery_type: LotteryType) -> Option<
        LotteryError,
    > {
        match lottery_type {
            LotteryType::SimpleLottery => if !self.lotteries_config.num_participants@.contains(
                num,
            ) {
                Some(LotteryError::NothingToRemove)
            } else if self.lotteries_config.num_participants@.len() <= 1 {
                Some(LotteryError::EmptyLotteryConfig)
            } else {
                None
            },
            LotteryType::BigLottery => if self.lotteries_config.big_lottery_num_participants@.len()
                <= 1 {
                Some(LotteryError::CannotRemoveLast)
            } else if !self.lotteries_config.big_lottery_num_participants@.contains(num) {
                Some(LotteryError::NothingToRemove)
            } else {
                None
            },
        }
    }

    /// Allows pools of the kind that the selector names to have `num`
    /// participants no longer, on the owner's call. The last number of a
    /// kind stays.
    pub fn remove_num_participants(
        &mut self,
        caller: &AccountId,
        attached_deposit: Balance,
        num: u32,
        lottery_type: String,
    ) -> (res: Result<(), LotteryError>)
        requires
            old(self).wf(),
        ensures
            final(self).wf(),
            match res {
                Ok(()) => {
                    &&& old(self).owner_error(caller@, attached_deposit) is None
                    &&& LotteryType::spec_from(lottery_type@) matches Some(kind) && old(
                        self,
                    ).remove_num_error(num, kind) is None
                    &&& final(self).lotteries_config.entry_fees == old(
                        self,
                    ).lotteries_config.entry_fees
                    &&& exists|at: int|
                        {
                            &&& #[trigger] is_first_position(
                                old(self).spec_required_num_participants(
                                    LotteryType::spec_from(lottery_type@)->Some_0,
                                ),
                                num,
                                at,
                            )
                            &&& final(self).spec_required_num_participants(
                                LotteryType::spec_from(lottery_type@)->Some_0,
                            ) == old(self).spec_required_num_participants(
                                LotteryType::spec_from(lottery_type@)->Some_0,
                            ).remove(at)
                        }
                    &&& match LotteryType::spec_from(lottery_type@)->Some_0 {
                        LotteryType::SimpleLottery => final(self).lotteries_config.big_lottery_num_participants == old(
                            self,
                        ).lotteries_config.big_lottery_num_participants,
                        LotteryType::BigLottery => final(self).lotteries_config.num_participants
                            == old(self).lotteries_config.num_participants,
                    }
                    &&& *final(self) == (Contract {
                        lotteries_config: final(self).lotteries_config,
                        ..*old(self)
                    })
                },
                Err(e) => {
                    &&& *final(self) == *old(self)
                    &&& if old(self).owner_error(caller@, attached_deposit) is Some {
                        old(self).owner_error(caller@, attached_deposit) == Some(e)
                    } else {
                        match LotteryType::spec_from(lottery_type@) {
                            None => e == LotteryError::UnknownLotteryType,
                            Some(kind) => old(self).remove_num_error(num, kind) == Some(e),
                        }
                    }
                },
            },
    {
        match self.assert_owner_call(caller, attached_deposit) {
            Ok(()) => {},
            Err(e) => {
                return Err(e);
            },
        }
        let kind = match LotteryType::from(lottery_type) {
            Ok(kind) => kind,
            Err(e) => {
                return Err(e);
            },
        };
        match kind {
            LotteryType::SimpleLottery => {
                match position_of_num(&self.lotteries_config.num_participants, num) {
                    Some(at) => {
                        assert(self.lotteries_config.num_participants@[at as int] == num);
                    },
                    None => {
                        return Err(LotteryError::NothingToRemove);
                    },
                }
                if self.lotteries_config.num_participants.len() <= 1 {
                    return Err(LotteryError::EmptyLotteryConfig);
                }
                let res = self.lotteries_config.remove_num_participants(num);
                proof {
                    let before = old(self).lotteries_config.num_participants@;
                    let at = choose|at: int|
                        {
                            &&& #[trigger] is_first_position(before, num, at)
                            &&& self.lotteries_config.num_participants@ == before.remove(at)
                        };
                    assert(is_first_position(
                        old(self).spec_required_num_participants(kind),
                        num,
                        at,
                    ));
                }
                res
            },
            LotteryType::BigLottery => {
                let res = self.lotteries_config.remove_big_lottery_num_participants(num);
                proof {
                    if res is Ok {
                        let before = old(self).lotteries_config.big_lottery_num_participants@;
                        let at = choose|at: int|
                            {
                                &&& #[trigger] is_first_position(before, num, at)
                                &&& self.lotteries_config.big_lottery_num_participants@
                                    == before.remove(at)
                            };
                        assert(is_first_position(
                            old(self).spec_required_num_participants(kind),
                            num,
                            at,
                        ));
                    }
                }
                res
            },
        }
    }

    /// Allows pools of the asset, or of the native one where none is named,
    /// to have the entry fee, on the owner's call.
    pub fn add_entry_fee(
        &mut self,
        caller: &AccountId,
        attached_deposit: Balance,
        token_id: Option<AccountId>,
        entry_fee: Balance,
    ) -> (res: Result<(), LotteryError>)
        requires
            old(self).wf(),
        ensures
            final(self).wf(),
            match res {
                Ok(()) => {
                    &&& old(self).owner_error(caller@, attached_deposit) is None
                    &&& final(self).lotteries_config.num_participants == old(
                        self,
                    ).lotteries_config.num_participants
                    &&& final(self).lotteries_config.big_lottery_num_participants == old(
                        self,
                    ).lotteries_config.big_lottery_num_participants
                    &&& forall|name: Seq<char>|
                        #[trigger] final(self).lotteries_config.spec_entry_fees(name) == if name
                            == LotteryConfig::token_name(token_id) {
                            Some(
                                match old(self).lotteries_config.spec_entry_fees(name) {
                                    Some(fees) => fees.push(entry_fee),
                                    None => seq![entry_fee],
                                },
                            )
                        } else {
                            old(self).lotteries_config.spec_entry_fees(name)
                        }
                    &&& *final(self) == (Contract {
                        lotteries_config: final(self).lotteries_config,
                        ..*old(self)
                    })
                },
                Err(e) => {
                    &&& *final(self) == *old(self)
                    &&& old(self).owner_error(caller@, attached_deposit) == Some(e)
                },
            },
    {
        match self.assert_owner_call(caller, attached_deposit) {
            Ok(()) => {},
            Err(e) => {
                return Err(e);
            },
        }
        self.lotteries_config.add_entry_fee(token_id, entry_fee);
        Ok(())
    }

    /// Allows pools of the asset, or of the native one where none is named,
    /// to have the entry fee no longer, on the owner's call.
    pub fn remove_entry_fee(
        &mut self,
        caller: &AccountId,
        attached_deposit: Balance,
        token_id: Option<AccountId>,
        entry_fee: Balance,
    ) -> (res: Result<(), LotteryError>)
        requires
            old(self).wf(),
        ensures
            final(self).wf(),
            match res {
                Ok(()) => {
                    &&& old(self).owner_error(caller@, attached_deposit) is None
                    &&& old(self).lotteries_config.spec_entry_fees(
                        LotteryConfig::token_name(token_id),
                    ) matches Some(fees) && fees.contains(entry_fee)
                    &&& final(self).lotteries_config.num_participants == old(
                        self,
                    ).lotteries_config.num_participants
                    &&& final(self).lotteries_config.big_lottery_num_participants == old(
                        self,
                    ).lotteries_config.big_lottery_num_participants
                    &&& forall|name: Seq<char>|
                        #[trigger] final(self).lotteries_config.spec_entry_fees(name) == if name
                            == LotteryConfig::token_name(token_id) {
                            let fees = old(self).lotteries_config.spec_entry_fees(name)->Some_0;
                            Some(
                                fees.remove(choose|at: int| is_first_position(fees, entry_fee, at)),
                            )
                        } else {
                            old(self).lotteries_config.spec_entry_fees(name)
                        }
                    &&& *final(self) == (Contract {
                        lotteries_config: final(self).lotteries_config,
                        ..*old(self)
                    })
                },
                Err(e) => {
                    &&& *final(self) == *old(self)
                    &&& if old(self).owner_error(caller@, attached_deposit) is Some {
                        old(self).owner_error(caller@, attached_deposit) == Some(e)
                    } else {
                        &&& e == LotteryError::NothingToRemove
                        &&& !(old(self).lotteries_config.spec_entry_fees(
                            LotteryConfig::token_name(token_id),
                        ) matches Some(fees) && fees.contains(entry_fee))
                    }
                },
            },
    {
        match self.assert_owner_call(caller, attached_deposit) {
            Ok(()) => {},
            Err(e) => {
                return Err(e);
            },
        }
        self.lotteries_config.remove_entry_fee(token_id, entry_fee)
    }
}

} // verus!
