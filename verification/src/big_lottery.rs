//! The tiered pool: a fifth of the participants win half as much again as
//! they paid, three tenths win a tenth more, and the other half get half of
//! their fee back.
use crate::errors::LotteryError;
use crate::lottery::{
    clone_accounts, clone_entries, contains_account, distinct_accounts, has_account, Entry,
    LotteryStatus,
};
use crate::simple_lottery::{lemma_count_of_pool, lemma_room_for_entry};
use crate::utils::{is_permutation, shuffled_order, shuffled_positions};
use crate::{AccountId, Balance, LotteryId, RandomSeed};
use vstd::prelude::*;

verus! {

/// The most participants that one seed can arrange.
pub const MAX_BIG_LOTTERY_PARTICIPANTS: u32 = 64;

/// The reward class of a participant of a tiered pool.
#[derive(Clone, Copy, Debug, PartialEq, Eq, Hash, Structural)]
pub enum WinnerType {
    UpToFiftyPercent,
    UpToTenPercent,
    Cashback,
}

/// The accounts of a finished tiered pool, by reward class.
#[derive(Debug)]
pub struct TierWinners {
    pub up_to_fifty_percent: Vec<AccountId>,
    pub up_to_ten_percent: Vec<AccountId>,
    pub cashback: Vec<AccountId>,
}

/// A pool that pays its participants by tier.
#[derive(Debug)]
pub struct BigLottery {
    pub id: LotteryId,
    /// The asset that the pool is held in.
    pub lottery_token_id: AccountId,
    pub lottery_status: LotteryStatus,
    /// The entries, in the order of their admission.
    pub entries: Vec<Entry>,
    /// The amount that each participant pays.
    pub entry_fee: Balance,
    /// The amount paid in so far.
    pub current_pool: Balance,
    /// The amount at which the winners are drawn.
    pub required_pool: Balance,
    /// The winners by tier, once they are drawn.
    pub winners: Option<TierWinners>,
    pub cashbacked_num: u32,
    pub ten_percent_winners_num: u32,
    pub fifty_percent_winners_num: u32,
    /// What the referrers of the entries have been paid already.
    pub refferal_transfered: Balance,
}

/// The accounts of the entries, arranged in the given order.
pub open spec fn arranged_accounts(entries: Seq<Entry>, order: Seq<usize>) -> Seq<AccountId> {
    Seq::new(order.len(), |i: int| entries[order[i] as int].account_id)
}

/// The tiers are the arranged accounts, cut in three: the first `fifty` of
/// them, the next `ten`, and the rest.
pub open spec fn tiers_of(
    winners: TierWinners,
    entries: Seq<Entry>,
    order: Seq<usize>,
    fifty: int,
    ten: int,
) -> bool {
    let arranged = arranged_accounts(entries, order);
    &&& winners.up_to_fifty_percent@ == arranged.subrange(0, fifty)
    &&& winners.up_to_ten_percent@ == arranged.subrange(fifty, fifty + ten)
    &&& winners.cashback@ == arranged.subrange(fifty + ten, arranged.len() as int)
}

/// Whether one of the accounts has the name.
pub open spec fn has_name(accounts: Seq<AccountId>, name: Seq<char>) -> bool {
    exists|i: int| 0 <= i < accounts.len() && (#[trigger] accounts[i])@ == name
}

/// No two of the accounts have the same name.
pub open spec fn distinct_names(accounts: Seq<AccountId>) -> bool {
    forall|i: int, j: int|
        0 <= i < j < accounts.len() ==> (#[trigger] accounts[i])@ != (#[trigger] accounts[j])@
}

/// No account of the one list is in the other.
pub open spec fn disjoint_names(left: Seq<AccountId>, right: Seq<AccountId>) -> bool {
    forall|i: int, j: int|
        0 <= i < left.len() && 0 <= j < right.len() ==> (#[trigger] left[i])@ != (
        #[trigger] right[j])@
}

/// Copies the accounts of `entries` at the positions `order[from..to]`.
fn collect_accounts(entries: &Vec<Entry>, order: &Vec<usize>, from: usize, to: usize) -> (res:
    Vec<AccountId>)
    requires
        from <= to <= order@.len(),
        is_permutation(order@, entries@.len()),
    ensures
        res@ == arranged_accounts(entries@, order@).subrange(from as int, to as int),
{
    let mut res: Vec<AccountId> = Vec::new();
    let mut i: usize = from;
    while i < to
        invariant
            from <= i <= to <= order@.len(),
            is_permutation(order@, entries@.len()),
            res@ == arranged_accounts(entries@, order@).subrange(from as int, i as int),
        decreases to - i,
    {
        res.push(entries[order[i]].account_id.clone());
        i = i + 1;
        assert(res@ =~= arranged_accounts(entries@, order@).subrange(from as int, i as int));
    }
    res
}

/// Cuts the entries, arranged in the given order, into the three tiers.
pub fn assign_tiers(entries: &Vec<Entry>, order: &Vec<usize>, fifty: usize, ten: usize) -> (res:
    TierWinners)
    requires
        is_permutation(order@, entries@.len()),
        fifty + ten <= entries@.len(),
    ensures
        tiers_of(res, entries@, order@, fifty as int, ten as int),
{
    let total = entries.len();
    let up_to_fifty_percent = collect_accounts(entries, order, 0, fifty);
    let up_to_ten_percent = collect_accounts(entries, order, fifty, fifty + ten);
    let cashback = collect_accounts(entries, order, fifty + ten, total);
    TierWinners { up_to_fifty_percent, up_to_ten_percent, cashback }
}

/// Whether no account occurs twice in the list.
pub fn check_account_duplicates(checked_vec: &Vec<AccountId>) -> (res: bool)
    ensures
        res == distinct_names(checked_vec@),
{
    let mut j: usize = 0;
    while j < checked_vec.len()
        invariant
            j <= checked_vec.len(),
            forall|a: int, b: int|
                0 <= a < b < j ==> (#[trigger] checked_vec@[a])@ != (#[trigger] checked_vec@[b])@,
        decreases checked_vec.len() - j,
    {
        let mut i: usize = 0;
        while i < j
            invariant
                i <= j < checked_vec.len(),
                forall|a: int| 0 <= a < i ==> (#[trigger] checked_vec@[a])@ != checked_vec@[j as int]@,
            decreases j - i,
        {
            if checked_vec[i] == checked_vec[j] {
                return false;
            }
            i = i + 1;
        }
        j = j + 1;
    }
    true
}

/// Tiers cut from distinct accounts arranged by a permutation hold every
/// account of the pool exactly once between them.
pub proof fn lemma_tiers_partition(
    winners: TierWinners,
    entries: Seq<Entry>,
    order: Seq<usize>,
    fifty: int,
    ten: int,
)
    requires
        entries.len() <= usize::MAX,
        distinct_accounts(entries),
        is_permutation(order, entries.len()),
        0 <= fifty,
        0 <= ten,
        fifty + ten <= entries.len(),
        tiers_of(winners, entries, order, fifty, ten),
    ensures
        winners.up_to_fifty_percent@.len() == fifty,
        winners.up_to_ten_percent@.len() == ten,
        winners.cashback@.len() == entries.len() - fifty - ten,
        distinct_names(winners.up_to_fifty_percent@),
        distinct_names(winners.up_to_ten_percent@),
        distinct_names(winners.cashback@),
        disjoint_names(winners.up_to_fifty_percent@, winners.up_to_ten_percent@),
        disjoint_names(winners.up_to_fifty_percent@, winners.cashback@),
        disjoint_names(winners.up_to_ten_percent@, winners.cashback@),
        forall|name: Seq<char>|
            has_account(entries, name) <==> (has_name(winners.up_to_fifty_percent@, name)
                || has_name(winners.up_to_ten_percent@, name) || has_name(winners.cashback@, name)),
{
    let n = entries.len() as int;
    let arranged = arranged_accounts(entries, order);
    let first = winners.up_to_fifty_percent@;
    let second = winners.up_to_ten_percent@;
    let third = winners.cashback@;
    // two places of the arrangement hold different accounts
    assert forall|a: int, b: int| 0 <= a < n && 0 <= b < n && a != b implies (
    #[trigger] arranged[a])@ != (#[trigger] arranged[b])@ by {
        let x = order[a] as int;
        let y = order[b] as int;
        assert(x != y);
        if x < y {
            assert(entries[x].account_id@ != entries[y].account_id@);
        } else {
            assert(entries[y].account_id@ != entries[x].account_id@);
        }
    }
    assert forall|i: int, j: int| 0 <= i < j < first.len() implies (#[trigger] first[i])@ != (
    #[trigger] first[j])@ by {
        assert(first[i] == arranged[i] && first[j] == arranged[j]);
    }
    assert forall|i: int, j: int| 0 <= i < j < second.len() implies (#[trigger] second[i])@ != (
    #[trigger] second[j])@ by {
        assert(second[i] == arranged[fifty + i] && second[j] == arranged[fifty + j]);
    }
    assert forall|i: int, j: int| 0 <= i < j < third.len() implies (#[trigger] third[i])@ != (
    #[trigger] third[j])@ by {
        assert(third[i] == arranged[fifty + ten + i] && third[j] == arranged[fifty + ten + j]);
    }
    assert forall|i: int, j: int| 0 <= i < first.len() && 0 <= j < second.len() implies (
    #[trigger] first[i])@ != (#[trigger] second[j])@ by {
        assert(first[i] == arranged[i] && second[j] == arranged[fifty + j]);
    }
    assert forall|i: int, j: int| 0 <= i < first.len() && 0 <= j < third.len() implies (
    #[trigger] first[i])@ != (#[trigger] third[j])@ by {
        assert(first[i] == arranged[i] && third[j] == arranged[fifty + ten + j]);
    }
    assert forall|i: int, j: int| 0 <= i < second.len() && 0 <= j < third.len() implies (
    #[trigger] second[i])@ != (#[trigger] third[j])@ by {
        assert(second[i] == arranged[fifty + i] && third[j] == arranged[fifty + ten + j]);
    }
    assert forall|name: Seq<char>|
        has_account(entries, name) <==> (has_name(first, name) || has_name(second, name)
            || has_name(third, name)) by {
        if has_account(entries, name) {
            let k = choose|k: int| 0 <= k < n && (#[trigger] entries[k]).account_id@ == name;
            lemma_position_is_reached(order, n as nat, k);
            let p = choose|p: int| 0 <= p < n && order[p] == k;
            assert(arranged[p]@ == name);
            if p < fifty {
                assert(first[p] == arranged[p]);
            } else if p < fifty + ten {
                assert(second[p - fifty] == arranged[p]);
            } else {
                assert(third[p - fifty - ten] == arranged[p]);
            }
        }
        if has_name(first, name) {
            let p = choose|p: int| 0 <= p < first.len() && (#[trigger] first[p])@ == name;
            assert(first[p] == arranged[p]);
            assert(entries[order[p] as int].account_id@ == name);
        }
        if has_name(second, name) {
            let p = choose|p: int| 0 <= p < second.len() && (#[trigger] second[p])@ == name;
            assert(second[p] == arranged[fifty + p]);
            assert(entries[order[fifty + p] as int].account_id@ == name);
        }
        if has_name(third, name) {
            let p = choose|p: int| 0 <= p < third.len() && (#[trigger] third[p])@ == name;
            assert(third[p] == arranged[fifty + ten + p]);
            assert(entries[order[fifty + ten + p] as int].account_id@ == name);
        }
    }
}

/// A permutation of the positions below `n` reaches each of them.
pub proof fn lemma_position_is_reached(order: Seq<usize>, n: nat, k: int)
    requires
        n <= usize::MAX,
        is_permutation(order, n),
        0 <= k < n,
    ensures
        exists|p: int| 0 <= p < n && order[p] == k,
{
    // the positions that the order holds are n different numbers below n
    let reached = order.to_set();
    let all = Set::new(|x: usize| x < n);
    order.unique_seq_to_set();
    assert(reached.len() == n);
    assert(reached.subset_of(all)) by {
        assert forall|x: usize| reached.contains(x) implies all.contains(x) by {
            let p = choose|p: int| 0 <= p < order.len() && order[p] == x;
            assert(order[p] < n);
        }
    }
    lemma_positions_below(n);
    vstd::set_lib::lemma_subset_equality(reached, all);
    assert(all.contains(k as usize));
    assert(order.contains(k as usize));
    let p = choose|p: int| 0 <= p < order.len() && order[p] == k as usize;
    assert(0 <= p < n && order[p] == k);
}

/// There are `n` positions below `n`.
pub proof fn lemma_positions_below(n: nat)
    requires
        n <= usize::MAX,
    ensures
        Set::new(|x: usize| x < n).finite(),
        Set::new(|x: usize| x < n).len() == n,
    decreases n,
{
    let all = Set::new(|x: usize| x < n);
    if n == 0 {
        assert(all =~= Set::<usize>::empty());
    } else {
        let fewer = Set::new(|x: usize| x < (n - 1) as nat);
        lemma_positions_below((n - 1) as nat);
        assert(all =~= fewer.insert((n - 1) as usize));
    }
}

impl BigLottery {
    /// The number of entries at which the winners are drawn.
    pub open spec fn spec_num_participants(&self) -> int {
        self.required_pool as int / self.entry_fee as int
    }

    /// What holds of a pool at every moment, also between the admission of
    /// the last entry and the draw.
    pub open spec fn inv(&self) -> bool {
        &&& self.entry_fee > 0
        &&& self.required_pool > 0
        &&& self.required_pool == self.entry_fee * self.spec_num_participants()
        &&& self.spec_num_participants() % 2 == 0
        &&& self.spec_num_participants() % 5 == 0
        &&& self.spec_num_participants() <= MAX_BIG_LOTTERY_PARTICIPANTS
        &&& self.cashbacked_num == self.spec_num_participants() / 2
        &&& self.ten_percent_winners_num == self.spec_num_participants() / 2
            - self.spec_num_participants() / 5
        &&& self.fifty_percent_winners_num == self.spec_num_participants() / 5
        &&& self.current_pool == self.entry_fee * self.entries@.len()
        &&& self.current_pool <= self.required_pool
        &&& distinct_accounts(self.entries@)
        &&& self.lottery_status == LotteryStatus::Finished ==> {
            &&& self.current_pool == self.required_pool
            &&& self.winners is Some
            &&& exists|order: Seq<usize>|
                {
                    &&& #[trigger] is_permutation(order, self.entries@.len())
                    &&& tiers_of(
                        self.winners->Some_0,
                        self.entries@,
                        order,
                        self.fifty_percent_winners_num as int,
                        self.ten_percent_winners_num as int,
                    )
                }
        }
        &&& self.lottery_status == LotteryStatus::Active ==> self.winners is None
    }

    /// What holds of a pool between two operations: it is finished exactly
    /// when it is full, and then it has its winners.
    pub open spec fn wf(&self) -> bool {
        &&& self.inv()
        &&& self.current_pool == self.required_pool ==> self.lottery_status
            == LotteryStatus::Finished
    }

    /// The two pools differ at most in their status and winners.
    pub open spec fn same_pool(&self, other: &Self) -> bool {
        &&& self.id == other.id
        &&& self.lottery_token_id == other.lottery_token_id
        &&& self.entries@ == other.entries@
        &&& self.entry_fee == other.entry_fee
        &&& self.current_pool == other.current_pool
        &&& self.required_pool == other.required_pool
        &&& self.cashbacked_num == other.cashbacked_num
        &&& self.ten_percent_winners_num == other.ten_percent_winners_num
        &&& self.fifty_percent_winners_num == other.fifty_percent_winners_num
        &&& self.refferal_transfered == other.refferal_transfered
    }

    /// The winners are the tiers cut from the entries in the order that the
    /// seed gives them.
    pub open spec fn drawn_with(&self, seed: Seq<u8>) -> bool {
        &&& self.winners is Some
        &&& tiers_of(
            self.winners->Some_0,
            self.entries@,
            shuffled_order(seed, self.entries@.len()),
            self.fifty_percent_winners_num as int,
            self.ten_percent_winners_num as int,
        )
    }

    /// `self` is what `update` makes of `before` with the seed: a full pool
    /// that is still active is finished and gets its winners, any other pool
    /// stays as it is.
    pub open spec fn updated_from(&self, before: &Self, seed: Seq<u8>) -> bool {
        &&& self.same_pool(before)
        &&& if before.lottery_status == LotteryStatus::Active && before.current_pool
            == before.required_pool {
            &&& self.lottery_status == LotteryStatus::Finished
            &&& self.drawn_with(seed)
        } else {
            &&& self.lottery_status == before.lottery_status
            &&& self.winners == before.winners
        }
    }

    /// The error with which the pool turns the entry down, if it does so
    /// with one. A finished pool turns every entry down without an error: it
    /// answers with its status.
    pub open spec fn admission_error(&self, name: Seq<char>, amount: Balance) -> Option<
        LotteryError,
    > {
        if self.lottery_status == LotteryStatus::Finished {
            None
        } else if amount != self.entry_fee {
            Some(LotteryError::WrongEntryFee)
        } else if has_account(self.entries@, name) {
            Some(LotteryError::AlreadyEntered)
        } else {
            None
        }
    }

    /// `self` is `before` with the entry appended and its fee paid in, before
    /// the pool is looked at for completion.
    pub open spec fn entered_from(&self, before: &Self, entry: Entry) -> bool {
        &&& self.id == before.id
        &&& self.lottery_token_id == before.lottery_token_id
        &&& self.lottery_status == before.lottery_status
        &&& self.entries@ == before.entries@.push(entry)
        &&& self.entry_fee == before.entry_fee
        &&& self.current_pool == before.current_pool + before.entry_fee
        &&& self.required_pool == before.required_pool
        &&& self.winners == before.winners
        &&& self.cashbacked_num == before.cashbacked_num
        &&& self.ten_percent_winners_num == before.ten_percent_winners_num
        &&& self.fifty_percent_winners_num == before.fifty_percent_winners_num
        &&& self.refferal_transfered == before.refferal_transfered
    }

    /// The reason for which no tiered pool can have these parameters, if
    /// there is one. The number of participants is looked at first.
    pub open spec fn setup_error(num_participants: u32, entry_fee: Balance) -> Option<
        LotteryError,
    > {
        if num_participants % 2 != 0 {
            Some(LotteryError::NotDivisibleByTwo)
        } else if num_participants % 5 != 0 {
            Some(LotteryError::NotDivisibleByFive)
        } else if num_participants > MAX_BIG_LOTTERY_PARTICIPANTS {
            Some(LotteryError::TooManyParticipants)
        } else if entry_fee * num_participants > u128::MAX {
            Some(LotteryError::PoolOverflow)
        } else if entry_fee == 0 {
            Some(LotteryError::EntryFeeZero)
        } else if num_participants == 0 {
            Some(LotteryError::NumParticipantsZero)
        } else {
            None
        }
    }

    /// Opens a pool for `num_participants` entries of `entry_fee` each.
    ///
    /// The number of participants must be a multiple of two and of five, and
    /// at most 64.
    pub fn new(
        id: LotteryId,
        lottery_token_id: AccountId,
        num_participants: u32,
        entry_fee: Balance,
    ) -> (res: Result<Self, LotteryError>)
        ensures
            match res {
                Ok(lottery) => {
                    &&& Self::setup_error(num_participants, entry_fee) is None
                    &&& lottery.wf()
                    &&& lottery.id == id
                    &&& lottery.lottery_token_id == lottery_token_id
                    &&& lottery.lottery_status == LotteryStatus::Active
                    &&& lottery.entries@ == Seq::<Entry>::empty()
                    &&& lottery.entry_fee == entry_fee
                    &&& lottery.current_pool == 0
                    &&& lottery.required_pool == entry_fee * num_participants
                    &&& lottery.spec_num_participants() == num_participants
                    &&& lottery.winners is None
                    &&& lottery.cashbacked_num == num_participants / 2
                    &&& lottery.ten_percent_winners_num == num_participants / 2 - num_participants
                        / 5
                    &&& lottery.fifty_percent_winners_num == num_participants / 5
                    &&& lottery.refferal_transfered == 0
                },
                Err(e) => Self::setup_error(num_participants, entry_fee) == Some(e),
            },
    {
        if num_participants % 2 != 0 {
            return Err(LotteryError::NotDivisibleByTwo);
        }
        if num_participants % 5 != 0 {
            return Err(LotteryError::NotDivisibleByFive);
        }
        if num_participants > MAX_BIG_LOTTERY_PARTICIPANTS {
            return Err(LotteryError::TooManyParticipants);
        }
        proof {
            if entry_fee > 0 {
                lemma_count_of_pool(entry_fee as int, num_participants as int);
            } else {
                assert(entry_fee * num_participants == 0) by (nonlinear_arith)
                    requires
                        entry_fee == 0,
                ;
            }
        }
        let required_pool: Balance = match entry_fee.checked_mul(num_participants as u128) {
            Some(amount) => amount,
            None => {
                return Err(LotteryError::PoolOverflow);
            },
        };
        let lottery = BigLottery {
            id,
            lottery_token_id,
            lottery_status: LotteryStatus::Active,
            entries: Vec::new(),
            entry_fee,
            current_pool: 0,
            required_pool,
            winners: None,
            cashbacked_num: num_participants / 2,
            ten_percent_winners_num: num_participants / 2 - num_participants / 5,
            fifty_percent_winners_num: num_participants / 5,
            refferal_transfered: 0,
        };
        match lottery.assert_valid() {
            Ok(()) => {
                assert(lottery.entry_fee * lottery.entries@.len() == 0) by (nonlinear_arith)
                    requires
                        lottery.entries@.len() == 0,
                ;
                Ok(lottery)
            },
            Err(e) => Err(e),
        }
    }

    /// Tells whether the fee and the required amount are positive.
    pub fn assert_valid(&self) -> (res: Result<(), LotteryError>)
        ensures
            res is Ok <==> self.entry_fee > 0 && self.required_pool > 0,
            res == Err::<(), LotteryError>(LotteryError::EntryFeeZero) <==> self.entry_fee == 0,
            res == Err::<(), LotteryError>(LotteryError::NumParticipantsZero) <==> self.entry_fee
                > 0 && self.required_pool == 0,
    {
        if self.entry_fee == 0 {
            return Err(LotteryError::EntryFeeZero);
        }
        if self.required_pool == 0 {
            return Err(LotteryError::NumParticipantsZero);
        }
        Ok(())
    }

    /// A pool holds at most as many entries as it requires, and the tiers
    /// take up all of them: half are rewarded, half get cashback.
    pub proof fn lemma_entries_bounded(&self)
        requires
            self.inv(),
        ensures
            self.entries@.len() <= self.spec_num_participants() <= MAX_BIG_LOTTERY_PARTICIPANTS,
            self.current_pool == self.required_pool <==> self.entries@.len()
                == self.spec_num_participants(),
            self.spec_num_participants() >= 10,
            self.fifty_percent_winners_num + self.ten_percent_winners_num
                == self.spec_num_participants() / 2,
            self.fifty_percent_winners_num + self.ten_percent_winners_num + self.cashbacked_num
                == self.spec_num_participants(),
    {
        let fee = self.entry_fee as int;
        let entered = self.entries@.len() as int;
        let required = self.spec_num_participants();
        assert(entered <= required && required > 0 && (fee * entered == fee * required
            <==> entered == required)) by (nonlinear_arith)
            requires
                fee > 0,
                0 <= entered,
                fee * entered <= fee * required,
                fee * required > 0,
        ;
    }

    /// Tells whether the pool holds the required amount.
    pub fn assert_equals_pool(&self) -> (res: Result<(), LotteryError>)
        ensures
            res is Ok <==> self.current_pool == self.required_pool,
            res is Err ==> res == Err::<(), LotteryError>(LotteryError::PoolNotFilled),
    {
        if self.current_pool == self.required_pool {
            Ok(())
        } else {
            Err(LotteryError::PoolNotFilled)
        }
    }

    /// Whether the pool holds the required amount.
    pub fn is_pools_equal(&self) -> (res: bool)
        ensures
            res == (self.current_pool == self.required_pool),
    {
        self.current_pool == self.required_pool
    }

    /// Whether the winners have been drawn from the full pool.
    pub fn is_finished(&self) -> (res: bool)
        ensures
            res == (self.lottery_status == LotteryStatus::Finished && self.current_pool
                == self.required_pool && self.winners is Some),
    {
        self.lottery_status == LotteryStatus::Finished && self.is_pools_equal()
            && self.winners.is_some()
    }

    /// Tells whether the pool is full and has its winners, as a payout needs it.
    pub fn assert_is_finished(&self) -> (res: Result<(), LotteryError>)
        ensures
            res is Ok <==> self.current_pool == self.required_pool && self.winners is Some,
            res == Err::<(), LotteryError>(LotteryError::PoolNotFilled) <==> self.current_pool
                != self.required_pool,
            res == Err::<(), LotteryError>(LotteryError::NoWinner) <==> self.current_pool
                == self.required_pool && self.winners is None,
    {
        match self.assert_equals_pool() {
            Ok(()) => {},
            Err(e) => {
                return Err(e);
            },
        }
        if self.winners.is_some() {
            Ok(())
        } else {
            Err(LotteryError::NoWinner)
        }
    }

    /// Adds to what the referrers have been paid.
    pub fn add_refferal_transfered(&mut self, amount: Balance)
        requires
            old(self).refferal_transfered + amount <= u128::MAX,
        ensures
            final(self).refferal_transfered == old(self).refferal_transfered + amount,
            *final(self) == (BigLottery {
                refferal_transfered: final(self).refferal_transfered,
                ..*old(self)
            }),
            old(self).inv() ==> final(self).inv(),
            old(self).wf() ==> final(self).wf(),
    {
        self.refferal_transfered = self.refferal_transfered + amount;
        proof {
            if old(self).inv() && self.lottery_status == LotteryStatus::Finished {
                let order = choose|order: Seq<usize>|
                    {
                        &&& #[trigger] is_permutation(order, old(self).entries@.len())
                        &&& tiers_of(
                            old(self).winners->Some_0,
                            old(self).entries@,
                            order,
                            old(self).fifty_percent_winners_num as int,
                            old(self).ten_percent_winners_num as int,
                        )
                    };
                assert(is_permutation(order, self.entries@.len()));
            }
        }
    }

    /// Finishes the pool if it is full and still active, and draws its
    /// winners, once. Returns the status after that.
    pub fn update(&mut self, seed: &RandomSeed) -> (res: LotteryStatus)
        requires
            old(self).inv(),
        ensures
            final(self).wf(),
            final(self).updated_from(old(self), seed@),
            res == final(self).lottery_status,
    {
        if self.is_pools_equal() && self.lottery_status == LotteryStatus::Active {
            proof {
                self.lemma_entries_bounded();
            }
            self.lottery_status = LotteryStatus::Finished;
            self.set_winner(seed);
        }
        self.lottery_status
    }

    /// Admits the account to the pool for the amount it paid, then finishes
    /// the pool if this entry filled it, and returns the status of the pool.
    ///
    /// A finished pool takes no entry: it stays as it was and answers that
    /// it is finished, which is no error. An open pool turns down, with an
    /// error, an amount other than the entry fee and an account that has
    /// entered already, in this order, and stays as it was.
    pub fn draw_enter(
        &mut self,
        account_id: &AccountId,
        amount: Balance,
        referrer_id: Option<AccountId>,
        seed: &RandomSeed,
    ) -> (res: Result<LotteryStatus, LotteryError>)
        requires
            old(self).wf(),
        ensures
            final(self).wf(),
            old(self).lottery_status == LotteryStatus::Finished ==> res == Ok::<
                LotteryStatus,
                LotteryError,
            >(LotteryStatus::Finished) && *final(self) == *old(self),
            match res {
                Ok(status) => {
                    &&& old(self).admission_error(account_id@, amount) is None
                    &&& status == final(self).lottery_status
                    &&& old(self).lottery_status == LotteryStatus::Active ==> exists|
                        entered: BigLottery,
                    |
                        {
                            &&& #[trigger] entered.entered_from(
                                old(self),
                                Entry { account_id: *account_id, referrer_id },
                            )
                            &&& final(self).updated_from(&entered, seed@)
                        }
                },
                Err(e) => {
                    &&& old(self).admission_error(account_id@, amount) == Some(e)
                    &&& *final(self) == *old(self)
                },
            },
    {
        if self.lottery_status == LotteryStatus::Finished {
            return Ok(LotteryStatus::Finished);
        }
        if amount != self.entry_fee {
            return Err(LotteryError::WrongEntryFee);
        }
        if contains_account(&self.entries, account_id) {
            return Err(LotteryError::AlreadyEntered);
        }
        proof {
            self.lemma_entries_bounded();
            lemma_room_for_entry(
                self.entry_fee as int,
                self.entries@.len() as int,
                self.spec_num_participants(),
            );
        }
        let entry = Entry { account_id: account_id.clone(), referrer_id };
        self.entries.push(entry);
        self.current_pool = self.current_pool + amount;
        let ghost entered = *self;
        assert(distinct_accounts(self.entries@)) by {
            assert forall|i: int, j: int| 0 <= i < j < self.entries@.len() implies (
            #[trigger] self.entries@[i]).account_id@ != (#[trigger] self.entries@[j]).account_id@ by {
                if j == self.entries@.len() - 1 {
                    assert(old(self).entries@[i].account_id@ != account_id@);
                }
            }
        }
        let status = self.update(seed);
        assert(entered.entered_from(old(self), Entry { account_id: *account_id, referrer_id }));
        Ok(status)
    }

    /// Draws the winners: arranges the entries by the seed and cuts the
    /// arrangement into the tiers.
    fn set_winner(&mut self, seed: &RandomSeed)
        requires
            old(self).fifty_percent_winners_num + old(self).ten_percent_winners_num <= old(
                self,
            ).entries@.len(),
        ensures
            final(self).drawn_with(seed@),
            is_permutation(shuffled_order(seed@, old(self).entries@.len()), old(self).entries@.len()),
            final(self).same_pool(old(self)),
            final(self).lottery_status == old(self).lottery_status,
    {
        let order = shuffled_positions(seed, self.entries.len());
        let winners = assign_tiers(
            &self.entries,
            &order,
            self.fifty_percent_winners_num as usize,
            self.ten_percent_winners_num as usize,
        );
        self.winners = Some(winners);
    }

    /// The accounts of one tier of a pool that has drawn its winners.
    pub fn get_winners(&self, winner_type: WinnerType) -> (res: &[AccountId])
        requires
            self.winners is Some,
        ensures
            res@ == match winner_type {
                WinnerType::UpToFiftyPercent => self.winners->Some_0.up_to_fifty_percent@,
                WinnerType::UpToTenPercent => self.winners->Some_0.up_to_ten_percent@,
                WinnerType::Cashback => self.winners->Some_0.cashback@,
            },
    {
        let winners = self.winners.as_ref().unwrap();
        match winner_type {
            WinnerType::UpToFiftyPercent => winners.up_to_fifty_percent.as_slice(),
            WinnerType::UpToTenPercent => winners.up_to_ten_percent.as_slice(),
            WinnerType::Cashback => winners.cashback.as_slice(),
        }
    }

    /// In a finished pool the three tiers have the sizes fixed at its
    /// opening, no account is in two of them or twice in one, and between
    /// them they hold exactly the accounts that entered.
    pub proof fn lemma_winners_partition_entries(&self)
        requires
            self.wf(),
            self.lottery_status == LotteryStatus::Finished,
        ensures
            self.winners is Some,
            self.winners->Some_0.up_to_fifty_percent@.len() == self.fifty_percent_winners_num,
            self.winners->Some_0.up_to_ten_percent@.len() == self.ten_percent_winners_num,
            self.winners->Some_0.cashback@.len() == self.cashbacked_num,
            distinct_names(self.winners->Some_0.up_to_fifty_percent@),
            distinct_names(self.winners->Some_0.up_to_ten_percent@),
            distinct_names(self.winners->Some_0.cashback@),
            disjoint_names(
                self.winners->Some_0.up_to_fifty_percent@,
                self.winners->Some_0.up_to_ten_percent@,
            ),
            disjoint_names(self.winners->Some_0.up_to_fifty_percent@, self.winners->Some_0.cashback@),
            disjoint_names(self.winners->Some_0.up_to_ten_percent@, self.winners->Some_0.cashback@),
            forall|name: Seq<char>|
                has_account(self.entries@, name) <==> (has_name(
                    self.winners->Some_0.up_to_fifty_percent@,
                    name,
                ) || has_name(self.winners->Some_0.up_to_ten_percent@, name) || has_name(
                    self.winners->Some_0.cashback@,
                    name,
                )),
    {
        self.lemma_entries_bounded();
        let order = choose|order: Seq<usize>|
            {
                &&& #[trigger] is_permutation(order, self.entries@.len())
                &&& tiers_of(
                    self.winners->Some_0,
                    self.entries@,
                    order,
                    self.fifty_percent_winners_num as int,
                    self.ten_percent_winners_num as int,
                )
            };
        lemma_tiers_partition(
            self.winners->Some_0,
            self.entries@,
            order,
            self.fifty_percent_winners_num as int,
            self.ten_percent_winners_num as int,
        );
    }
}

impl TierWinners {
    /// The two hold the same accounts in the same tiers.
    pub open spec fn same_as(&self, other: &Self) -> bool {
        &&& self.up_to_fifty_percent@ == other.up_to_fifty_percent@
        &&& self.up_to_ten_percent@ == other.up_to_ten_percent@
        &&& self.cashback@ == other.cashback@
    }
}

impl Clone for TierWinners {
    fn clone(&self) -> (res: Self)
        ensures
            res.same_as(self),
    {
        TierWinners {
            up_to_fifty_percent: clone_accounts(&self.up_to_fifty_percent),
            up_to_ten_percent: clone_accounts(&self.up_to_ten_percent),
            cashback: clone_accounts(&self.cashback),
        }
    }
}

impl BigLottery {
    /// The two pools are equal but for the identity of their lists.
    pub open spec fn same_as(&self, other: &Self) -> bool {
        &&& self.same_pool(other)
        &&& self.lottery_status == other.lottery_status
        &&& match (self.winners, other.winners) {
            (Some(winners), Some(others)) => winners.same_as(&others),
            (None, None) => true,
            _ => false,
        }
    }
}

impl Clone for BigLottery {
    fn clone(&self) -> (res: Self)
        ensures
            res.same_as(self),
    {
        BigLottery {
            id: self.id,
            lottery_token_id: self.lottery_token_id.clone(),
            lottery_status: self.lottery_status,
            entries: clone_entries(&self.entries),
            entry_fee: self.entry_fee,
            current_pool: self.current_pool,
            required_pool: self.required_pool,
            winners: match &self.winners {
                Some(winners) => Some(winners.clone()),
                None => None,
            },
            cashbacked_num: self.cashbacked_num,
            ten_percent_winners_num: self.ten_percent_winners_num,
            fifty_percent_winners_num: self.fifty_percent_winners_num,
            refferal_transfered: self.refferal_transfered,
        }
    }
}

impl BigLottery {
    /// `self` is the open pool `before` after it has admitted the entry,
    /// paid `reward` to its referrer, and drawn its winners with the seed if
    /// the entry filled it.
    pub open spec fn admitted_from(
        &self,
        before: &Self,
        entry: Entry,
        reward: Balance,
        seed: Seq<u8>,
    ) -> bool {
        &&& self.id == before.id
        &&& self.lottery_token_id == before.lottery_token_id
        &&& self.entries@ == before.entries@.push(entry)
        &&& self.entry_fee == before.entry_fee
        &&& self.current_pool == before.current_pool + before.entry_fee
        &&& self.required_pool == before.required_pool
        &&& self.cashbacked_num == before.cashbacked_num
        &&& self.ten_percent_winners_num == before.ten_percent_winners_num
        &&& self.fifty_percent_winners_num == before.fifty_percent_winners_num
        &&& self.refferal_transfered == before.refferal_transfered + reward
        &&& if self.current_pool == self.required_pool {
            &&& self.lottery_status == LotteryStatus::Finished
            &&& self.drawn_with(seed)
        } else {
            &&& self.lottery_status == LotteryStatus::Active
            &&& self.winners is None
        }
    }
}

impl BigLottery {
    /// No tiered pool can have a number of participants that is odd, that is
    /// no multiple of five or that exceeds 64: its opening is turned down,
    /// whatever the entry fee.
    pub proof fn lemma_bad_numbers_rejected(num_participants: u32, entry_fee: Balance)
        requires
            num_participants % 2 != 0 || num_participants % 5 != 0 || num_participants
                > MAX_BIG_LOTTERY_PARTICIPANTS,
        ensures
            Self::setup_error(num_participants, entry_fee) is Some,
            Self::setup_error(num_participants, entry_fee) == Some(
                if num_participants % 2 != 0 {
                    LotteryError::NotDivisibleByTwo
                } else if num_participants % 5 != 0 {
                    LotteryError::NotDivisibleByFive
                } else {
                    LotteryError::TooManyParticipants
                },
            ),
    {
    }
}

} // verus!
