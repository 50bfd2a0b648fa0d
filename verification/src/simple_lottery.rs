//! The single-winner pool.
use crate::errors::LotteryError;
use crate::lottery::{
    clone_entries, contains_account, distinct_accounts, has_account, Entry, LotteryStatus,
};
use crate::utils::{get_range_random_number, spec_range_random_number};
use crate::{AccountId, Balance, LotteryId, RandomSeed};
use vstd::prelude::*;

verus! {

/// A pool that pays one winner.
#[derive(Debug)]
pub struct SimpleLottery {
    pub id: LotteryId,
    /// The asset that the pool is held in.
    pub lottery_token_id: AccountId,
    pub lottery_status: LotteryStatus,
    /// The entries, in the order of their admission.
    pub entries: Vec<Entry>,
    /// The amount that each participant pays.
    pub entry_fee: Balance,
    /// The amount paid in so far.
    pub current_pool: Balance,
    /// The amount at which the winner is drawn.
    pub required_pool: Balance,
    pub winner: Option<Entry>,
    /// What has been recorded as paid to referrers before the payout. The
    /// payout of a single-winner pool takes nothing of it off the fee: the
    /// referrer of the winning entry is paid out of the winner's payout.
    pub refferal_transfered: Balance,
}

/// `fee * count` pools, compared: fewer entries than required leave room
/// for one more fee.
pub proof fn lemma_room_for_entry(fee: int, entered: int, required: int)
    requires
        fee > 0,
        0 <= entered,
        fee * entered < fee * required,
    ensures
        entered < required,
        fee * entered + fee == fee * (entered + 1),
        fee * (entered + 1) <= fee * required,
{
    assert(entered < required) by (nonlinear_arith)
        requires
            fee > 0,
            fee * entered < fee * required,
    ;
    assert(fee * entered + fee == fee * (entered + 1)) by (nonlinear_arith);
    assert(fee * (entered + 1) <= fee * required) by (nonlinear_arith)
        requires
            fee > 0,
            entered + 1 <= required,
    ;
}

/// A product of a positive fee determines the other factor.
pub proof fn lemma_count_of_pool(fee: int, count: int)
    requires
        fee > 0,
        0 <= count,
    ensures
        (fee * count) / fee == count,
        fee * count >= count,
        (fee * count == 0) <==> count == 0,
{
    vstd::arithmetic::div_mod::lemma_div_multiples_vanish(count, fee);
    assert(fee * count == count * fee) by (nonlinear_arith);
    assert(fee * count >= count) by (nonlinear_arith)
        requires
            fee > 0,
            0 <= count,
    ;
    assert((fee * count == 0) <==> count == 0) by (nonlinear_arith)
        requires
            fee > 0,
            0 <= count,
    ;
}

impl SimpleLottery {
    /// The number of entries at which the winner is drawn.
    pub open spec fn spec_num_participants(&self) -> int {
        self.required_pool as int / self.entry_fee as int
    }

    /// The entry that the seed selects: the sum of the seed's bytes, reduced
    /// modulo the number of entries, is its position.
    pub open spec fn spec_winner(&self, seed: Seq<u8>) -> Entry {
        self.entries@[spec_range_random_number(seed, 0, self.entries@.len() as u32)]
    }

    /// What holds of a pool at every moment, also between the admission of
    /// the last entry and the draw.
    pub open spec fn inv(&self) -> bool {
        &&& self.entry_fee > 0
        &&& self.required_pool > 0
        &&& self.required_pool == self.entry_fee * self.spec_num_participants()
        &&& self.spec_num_participants() <= u32::MAX
        &&& self.current_pool == self.entry_fee * self.entries@.len()
        &&& self.current_pool <= self.required_pool
        &&& distinct_accounts(self.entries@)
        &&& self.lottery_status == LotteryStatus::Finished ==> {
            &&& self.current_pool == self.required_pool
            &&& self.winner is Some
            &&& exists|i: int|
                0 <= i < self.entries@.len() && self.entries@[i] == self.winner->Some_0
        }
        &&& self.lottery_status == LotteryStatus::Active ==> self.winner is None
    }

    /// What holds of a pool between two operations: it is finished exactly
    /// when it is full, and then it has its winner.
    pub open spec fn wf(&self) -> bool {
        &&& self.inv()
        &&& self.current_pool == self.required_pool ==> self.lottery_status
            == LotteryStatus::Finished
    }

    /// The two pools differ at most in their status and winner.
    pub open spec fn same_pool(&self, other: &Self) -> bool {
        &&& self.id == other.id
        &&& self.lottery_token_id == other.lottery_token_id
        &&& self.entries@ == other.entries@
        &&& self.entry_fee == other.entry_fee
        &&& self.current_pool == other.current_pool
        &&& self.required_pool == other.required_pool
        &&& self.refferal_transfered == other.refferal_transfered
    }

    /// `self` is what `update` makes of `before` with the seed: a full pool
    /// that is still active is finished and gets its winner, any other pool
    /// stays as it is.
    pub open spec fn updated_from(&self, before: &Self, seed: Seq<u8>) -> bool {
        &&& self.same_pool(before)
        &&& if before.lottery_status == LotteryStatus::Active && before.current_pool
            == before.required_pool {
            &&& self.lottery_status == LotteryStatus::Finished
            &&& self.winner == Some(before.spec_winner(seed))
        } else {
            &&& self.lottery_status == before.lottery_status
            &&& self.winner == before.winner
        }
    }

    /// The error with which the pool turns the entry down, if it does so
    /// with one. A finished pool turns every entry down without an error: it
    /// answers with its status.
    pub open spec fn admission_error(&self, name: Seq<char>, amount: Balance) -> Option<
        LotteryError,
    > {
        if self.lottery_status == LotteryStatus::Finished {
            None
        } else if amount != self.entry_fee {
            Some(LotteryError::WrongEntryFee)
        } else if has_account(self.entries@, name) {
            Some(LotteryError::AlreadyEntered)
        } else {
            None
        }
    }

    /// `self` is `before` with the entry appended and its fee paid in, before
    /// the pool is looked at for completion.
    pub open spec fn entered_from(&self, before: &Self, entry: Entry) -> bool {
        &&& self.id == before.id
        &&& self.lottery_token_id == before.lottery_token_id
        &&& self.lottery_status == before.lottery_status
        &&& self.entries@ == before.entries@.push(entry)
        &&& self.entry_fee == before.entry_fee
        &&& self.current_pool == before.current_pool + before.entry_fee
        &&& self.required_pool == before.required_pool
        &&& self.winner == before.winner
        &&& self.refferal_transfered == before.refferal_transfered
    }

    /// Opens a pool for `num_participants` entries of `entry_fee` each.
    pub fn new(
        id: LotteryId,
        lottery_token_id: AccountId,
        num_participants: u32,
        entry_fee: Balance,
    ) -> (res: Result<Self, LotteryError>)
        ensures
            res is Err <==> entry_fee == 0 || num_participants == 0 || entry_fee * num_participants
                > u128::MAX,
            res == Err::<Self, LotteryError>(LotteryError::PoolOverflow) <==> entry_fee
                * num_participants > u128::MAX,
            res == Err::<Self, LotteryError>(LotteryError::EntryFeeZero) <==> entry_fee == 0,
            res == Err::<Self, LotteryError>(LotteryError::NumParticipantsZero) <==> entry_fee > 0
                && num_participants == 0,
            res matches Ok(lottery) ==> {
                &&& lottery.wf()
                &&& lottery.id == id
                &&& lottery.lottery_token_id == lottery_token_id
                &&& lottery.lottery_status == LotteryStatus::Active
                &&& lottery.entries@ == Seq::<Entry>::empty()
                &&& lottery.entry_fee == entry_fee
                &&& lottery.current_pool == 0
                &&& lottery.required_pool == entry_fee * num_participants
                &&& lottery.spec_num_participants() == num_participants
                &&& lottery.winner is None
                &&& lottery.refferal_transfered == 0
            },
    {
        proof {
            if entry_fee > 0 {
                lemma_count_of_pool(entry_fee as int, num_participants as int);
            } else {
                assert(entry_fee * num_participants == 0) by (nonlinear_arith)
                    requires
                        entry_fee == 0,
                ;
            }
        }
        let required_pool: Balance = match entry_fee.checked_mul(num_participants as u128) {
            Some(amount) => amount,
            None => {
                return Err(LotteryError::PoolOverflow);
            },
        };
        let lottery = SimpleLottery {
            id,
            lottery_token_id,
            lottery_status: LotteryStatus::Active,
            entries: Vec::new(),
            entry_fee,
            current_pool: 0,
            required_pool,
            winner: None,
            refferal_transfered: 0,
        };
        match lottery.assert_valid() {
            Ok(()) => {
                assert(lottery.entry_fee * lottery.entries@.len() == 0) by (nonlinear_arith)
                    requires
                        lottery.entries@.len() == 0,
                ;
                Ok(lottery)
            },
            Err(e) => Err(e),
        }
    }

    /// Tells whether the fee and the required amount are positive.
    pub fn assert_valid(&self) -> (res: Result<(), LotteryError>)
        ensures
            res is Ok <==> self.entry_fee > 0 && self.required_pool > 0,
            res == Err::<(), LotteryError>(LotteryError::EntryFeeZero) <==> self.entry_fee == 0,
            res == Err::<(), LotteryError>(LotteryError::NumParticipantsZero) <==> self.entry_fee
                > 0 && self.required_pool == 0,
    {
        if self.entry_fee == 0 {
            return Err(LotteryError::EntryFeeZero);
        }
        if self.required_pool == 0 {
            return Err(LotteryError::NumParticipantsZero);
        }
        Ok(())
    }

    /// The number of entries.
    pub fn get_accounts_num(&self) -> (res: u32)
        requires
            self.inv(),
        ensures
            res == self.entries@.len(),
    {
        proof {
            self.lemma_entries_bounded();
        }
        self.entries.len() as u32
    }

    /// A pool holds at most as many entries as it requires.
    pub proof fn lemma_entries_bounded(&self)
        requires
            self.inv(),
        ensures
            self.entries@.len() <= self.spec_num_participants() <= u32::MAX,
            self.current_pool == self.required_pool <==> self.entries@.len()
                == self.spec_num_participants(),
            self.spec_num_participants() > 0,
    {
        let fee = self.entry_fee as int;
        let entered = self.entries@.len() as int;
        let required = self.spec_num_participants();
        assert(entered <= required && required > 0 && (fee * entered == fee * required
            <==> entered == required)) by (nonlinear_arith)
            requires
                fee > 0,
                0 <= entered,
                fee * entered <= fee * required,
                fee * required > 0,
        ;
    }

    /// Whether the account has an entry in the pool.
    pub fn contains_entry(&self, account_id: &AccountId) -> (res: bool)
        ensures
            res == has_account(self.entries@, account_id@),
    {
        contains_account(&self.entries, account_id)
    }

    /// Tells whether the pool holds the required amount.
    pub fn assert_equals_pool(&self) -> (res: Result<(), LotteryError>)
        ensures
            res is Ok <==> self.current_pool == self.required_pool,
            res is Err ==> res == Err::<(), LotteryError>(LotteryError::PoolNotFilled),
    {
        if self.current_pool == self.required_pool {
            Ok(())
        } else {
            Err(LotteryError::PoolNotFilled)
        }
    }

    /// Whether the pool holds the required amount.
    pub fn is_pools_equal(&self) -> (res: bool)
        ensures
            res == (self.current_pool == self.required_pool),
    {
        self.current_pool == self.required_pool
    }

    /// Whether the winner has been drawn from the full pool.
    pub fn is_finished(&self) -> (res: bool)
        ensures
            res == (self.lottery_status == LotteryStatus::Finished && self.current_pool
                == self.required_pool && self.winner is Some),
    {
        self.lottery_status == LotteryStatus::Finished && self.is_pools_equal()
            && self.winner.is_some()
    }

    /// Tells whether the pool is full and has its winner, as a payout needs it.
    pub fn assert_is_finished(&self) -> (res: Result<(), LotteryError>)
        ensures
            res is Ok <==> self.current_pool == self.required_pool && self.winner is Some,
            res == Err::<(), LotteryError>(LotteryError::PoolNotFilled) <==> self.current_pool
                != self.required_pool,
            res == Err::<(), LotteryError>(LotteryError::NoWinner) <==> self.current_pool
                == self.required_pool && self.winner is None,
    {
        match self.assert_equals_pool() {
            Ok(()) => {},
            Err(e) => {
                return Err(e);
            },
        }
        if self.winner.is_some() {
            Ok(())
        } else {
            Err(LotteryError::NoWinner)
        }
    }

    /// Finishes the pool if it is full and still active, and draws its
    /// winner, once. Returns the status after that.
    pub fn update(&mut self, seed: &RandomSeed) -> (res: LotteryStatus)
        requires
            old(self).inv(),
        ensures
            final(self).wf(),
            final(self).updated_from(old(self), seed@),
            res == final(self).lottery_status,
    {
        if self.is_pools_equal() && self.lottery_status == LotteryStatus::Active {
            proof {
                self.lemma_entries_bounded();
            }
            self.lottery_status = LotteryStatus::Finished;
            self.set_winner(seed);
        }
        self.lottery_status
    }

    /// Adds to what the referrers have been paid.
    pub fn add_refferal_transfered(&mut self, amount: Balance)
        requires
            old(self).refferal_transfered + amount <= u128::MAX,
        ensures
            final(self).refferal_transfered == old(self).refferal_transfered + amount,
            *final(self) == (SimpleLottery {
                refferal_transfered: final(self).refferal_transfered,
                ..*old(self)
            }),
            old(self).inv() ==> final(self).inv(),
            old(self).wf() ==> final(self).wf(),
    {
        self.refferal_transfered = self.refferal_transfered + amount;
        proof {
            if old(self).inv() && self.lottery_status == LotteryStatus::Finished {
                let i = choose|i: int|
                    0 <= i < old(self).entries@.len() && old(self).entries@[i] == old(
                        self,
                    ).winner->Some_0;
                assert(self.entries@[i] == self.winner->Some_0);
            }
        }
    }

    /// Admits the account to the pool for the amount it paid, then finishes
    /// the pool if this entry filled it, and returns the status of the pool.
    ///
    /// A finished pool takes no entry: it stays as it was and answers that
    /// it is finished, which is no error. An open pool turns down, with an
    /// error, an amount other than the entry fee and an account that has
    /// entered already, in this order, and stays as it was.
    pub fn draw_enter(
        &mut self,
        account_id: &AccountId,
        amount: Balance,
        referrer_id: Option<AccountId>,
        seed: &RandomSeed,
    ) -> (res: Result<LotteryStatus, LotteryError>)
        requires
            old(self).wf(),
        ensures
            final(self).wf(),
            old(self).lottery_status == LotteryStatus::Finished ==> res == Ok::<
                LotteryStatus,
                LotteryError,
            >(LotteryStatus::Finished) && *final(self) == *old(self),
            match res {
                Ok(status) => {
                    &&& old(self).admission_error(account_id@, amount) is None
                    &&& status == final(self).lottery_status
                    &&& old(self).lottery_status == LotteryStatus::Active ==> exists|
                        entered: SimpleLottery,
                    |
                        {
                            &&& #[trigger] entered.entered_from(
                                old(self),
                                Entry { account_id: *account_id, referrer_id },
                            )
                            &&& final(self).updated_from(&entered, seed@)
                        }
                },
                Err(e) => {
                    &&& old(self).admission_error(account_id@, amount) == Some(e)
                    &&& *final(self) == *old(self)
                },
            },
    {
        if self.lottery_status == LotteryStatus::Finished {
            return Ok(LotteryStatus::Finished);
        }
        if amount != self.entry_fee {
            return Err(LotteryError::WrongEntryFee);
        }
        if self.contains_entry(account_id) {
            return Err(LotteryError::AlreadyEntered);
        }
        proof {
            self.lemma_entries_bounded();
            lemma_room_for_entry(
                self.entry_fee as int,
                self.entries@.len() as int,
                self.spec_num_participants(),
            );
        }
        let entry = Entry { account_id: account_id.clone(), referrer_id };
        self.entries.push(entry);
        self.current_pool = self.current_pool + amount;
        let ghost entered = *self;
        assert(distinct_accounts(self.entries@)) by {
            assert forall|i: int, j: int| 0 <= i < j < self.entries@.len() implies (
            #[trigger] self.entries@[i]).account_id@ != (#[trigger] self.entries@[j]).account_id@ by {
                if j == self.entries@.len() - 1 {
                    assert(old(self).entries@[i].account_id@ != account_id@);
                }
            }
        }
        let status = self.update(seed);
        assert(entered.entered_from(old(self), Entry { account_id: *account_id, referrer_id }));
        Ok(status)
    }

    /// Draws the winner from the entries.
    fn set_winner(&mut self, seed: &RandomSeed)
        requires
            0 < old(self).entries@.len() <= u32::MAX,
        ensures
            final(self).winner == Some(old(self).spec_winner(seed@)),
            final(self).same_pool(old(self)),
            final(self).lottery_status == old(self).lottery_status,
    {
        let total_entries: u32 = self.entries.len() as u32;
        let index = get_range_random_number(seed, 0, total_entries);
        let winner = self.entries[index].clone();
        self.winner = Some(winner);
    }

    /// The account of the winner.
    pub fn get_winner_unwrap(&self) -> (res: AccountId)
        requires
            self.winner is Some,
        ensures
            res == self.winner->Some_0.account_id,
    {
        self.winner.as_ref().unwrap().account_id.clone()
    }
}

impl SimpleLottery {
    /// The two pools are equal but for the identity of their lists.
    pub open spec fn same_as(&self, other: &Self) -> bool {
        &&& self.same_pool(other)
        &&& self.lottery_status == other.lottery_status
        &&& self.winner == other.winner
    }
}

impl Clone for SimpleLottery {
    fn clone(&self) -> (res: Self)
        ensures
            res.same_as(self),
    {
        SimpleLottery {
            id: self.id,
            lottery_token_id: self.lottery_token_id.clone(),
            lottery_status: self.lottery_status,
            entries: clone_entries(&self.entries),
            entry_fee: self.entry_fee,
            current_pool: self.current_pool,
            required_pool: self.required_pool,
            winner: match &self.winner {
                Some(winner) => Some(winner.clone()),
                None => None,
            },
            refferal_transfered: self.refferal_transfered,
        }
    }
}

impl SimpleLottery {
    /// `self` is the open pool `before` after it has admitted the entry,
    /// paid `reward` to its referrer, and drawn its winner with the seed if
    /// the entry filled it.
    pub open spec fn admitted_from(
        &self,
        before: &Self,
        entry: Entry,
        reward: Balance,
        seed: Seq<u8>,
    ) -> bool {
        &&& self.id == before.id
        &&& self.lottery_token_id == before.lottery_token_id
        &&& self.entries@ == before.entries@.push(entry)
        &&& self.entry_fee == before.entry_fee
        &&& self.current_pool == before.current_pool + before.entry_fee
        &&& self.required_pool == before.required_pool
        &&& self.refferal_transfered == before.refferal_transfered + reward
        &&& if self.current_pool == self.required_pool {
            &&& self.lottery_status == LotteryStatus::Finished
            &&& self.winner == Some(self.spec_winner(seed))
        } else {
            &&& self.lottery_status == LotteryStatus::Active
            &&& self.winner is None
        }
    }
}

} // verus!
