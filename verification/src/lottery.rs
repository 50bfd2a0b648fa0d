//! What the two kinds of pool share, and the pool as a sum of the two.
use crate::big_lottery::{tiers_of, BigLottery};
use crate::errors::LotteryError;
use crate::simple_lottery::SimpleLottery;
use crate::utils::is_permutation;
use crate::{AccountId, Balance, LotteryId, RandomSeed};
use vstd::prelude::*;

verus! {

/// One percent, in basis points: the share of the entry fee that a referrer
/// receives when the entry is admitted.
pub const ONE_PERCENT_RATIO: u32 = 100;

/// The selector of the single-winner lottery.
pub const SIMPLE_LOTTERY: &'static str = "SIMPLE_LOTTERY";

/// The selector of the tiered lottery.
pub const BIG_LOTTERY: &'static str = "BIG_LOTTERY";

/// Whether a pool still takes entries.
#[derive(Clone, Copy, Debug, PartialEq, Eq, Structural)]
pub enum LotteryStatus {
    Active,
    Finished,
}

/// One participation in a pool: the account that entered, and the account
/// that referred it, if any.
#[derive(Debug)]
pub struct Entry {
    pub account_id: AccountId,
    pub referrer_id: Option<AccountId>,
}

impl Clone for Entry {
    fn clone(&self) -> (res: Self)
        ensures
            res == *self,
    {
        let referrer_id = match &self.referrer_id {
            Some(referrer) => Some(referrer.clone()),
            None => None,
        };
        Entry { account_id: self.account_id.clone(), referrer_id }
    }
}

/// Whether one of the entries belongs to the account `name`.
pub open spec fn has_account(entries: Seq<Entry>, name: Seq<char>) -> bool {
    exists|i: int| 0 <= i < entries.len() && (#[trigger] entries[i]).account_id@ == name
}

/// No two entries belong to the same account.
pub open spec fn distinct_accounts(entries: Seq<Entry>) -> bool {
    forall|i: int, j: int|
        0 <= i < j < entries.len() ==> (#[trigger] entries[i]).account_id@ != (
        #[trigger] entries[j]).account_id@
}

/// Whether one of the entries belongs to the account.
pub fn contains_account(entries: &Vec<Entry>, account_id: &AccountId) -> (res: bool)
    ensures
        res == has_account(entries@, account_id@),
{
    let mut i: usize = 0;
    while i < entries.len()
        invariant
            i <= entries.len(),
            forall|k: int| 0 <= k < i ==> (#[trigger] entries@[k]).account_id@ != account_id@,
        decreases entries.len() - i,
    {
        if entries[i].account_id == *account_id {
            return true;
        }
        i = i + 1;
    }
    false
}

/// Copies a list of entries.
pub fn clone_entries(entries: &Vec<Entry>) -> (res: Vec<Entry>)
    ensures
        res@ == entries@,
{
    let mut res: Vec<Entry> = Vec::new();
    let mut i: usize = 0;
    while i < entries.len()
        invariant
            i <= entries@.len(),
            res@ == entries@.subrange(0, i as int),
        decreases entries.len() - i,
    {
        res.push(entries[i].clone());
        i = i + 1;
        assert(res@ =~= entries@.subrange(0, i as int));
    }
    assert(entries@.subrange(0, i as int) =~= entries@);
    res
}

/// Copies a list of accounts.
pub fn clone_accounts(accounts: &Vec<AccountId>) -> (res: Vec<AccountId>)
    ensures
        res@ == accounts@,
{
    let mut res: Vec<AccountId> = Vec::new();
    let mut i: usize = 0;
    while i < accounts.len()
        invariant
            i <= accounts@.len(),
            res@ == accounts@.subrange(0, i as int),
        decreases accounts.len() - i,
    {
        res.push(accounts[i].clone());
        i = i + 1;
        assert(res@ =~= accounts@.subrange(0, i as int));
    }
    assert(accounts@.subrange(0, i as int) =~= accounts@);
    res
}

/// The accounts of the entries, in their order.
pub open spec fn account_ids(entries: Seq<Entry>) -> Seq<AccountId> {
    Seq::new(entries.len(), |i: int| entries[i].account_id)
}

/// The accounts of the entries, in their order.
pub fn entry_accounts(entries: &Vec<Entry>) -> (res: Vec<AccountId>)
    ensures
        res@ == account_ids(entries@),
{
    let mut res: Vec<AccountId> = Vec::new();
    let mut i: usize = 0;
    while i < entries.len()
        invariant
            i <= entries@.len(),
            res@ == account_ids(entries@).subrange(0, i as int),
        decreases entries.len() - i,
    {
        res.push(entries[i].account_id.clone());
        i = i + 1;
        assert(res@ =~= account_ids(entries@).subrange(0, i as int));
    }
    assert(account_ids(entries@).subrange(0, i as int) =~= account_ids(entries@));
    res
}

/// A pool of either kind.
#[derive(Debug)]
pub enum Lottery {
    SimpleLottery(SimpleLottery),
    Lottery(BigLottery),
}

impl Lottery {
    /// What holds of the pool at every moment.
    pub open spec fn inv(&self) -> bool {
        match self {
            Lottery::SimpleLottery(lottery) => lottery.inv(),
            Lottery::Lottery(lottery) => lottery.inv(),
        }
    }

    /// What holds of the pool between two operations.
    pub open spec fn wf(&self) -> bool {
        match self {
            Lottery::SimpleLottery(lottery) => lottery.wf(),
            Lottery::Lottery(lottery) => lottery.wf(),
        }
    }

    /// The identifier of the pool.
    pub open spec fn spec_id(&self) -> LotteryId {
        match self {
            Lottery::SimpleLottery(lottery) => lottery.id,
            Lottery::Lottery(lottery) => lottery.id,
        }
    }

    /// Whether the pool still takes entries.
    pub open spec fn spec_status(&self) -> LotteryStatus {
        match self {
            Lottery::SimpleLottery(lottery) => lottery.lottery_status,
            Lottery::Lottery(lottery) => lottery.lottery_status,
        }
    }

    /// The number of entries at which the pool is finished.
    pub open spec fn spec_num_participants(&self) -> int {
        match self {
            Lottery::SimpleLottery(lottery) => lottery.spec_num_participants(),
            Lottery::Lottery(lottery) => lottery.spec_num_participants(),
        }
    }

    /// The amount that each participant pays.
    pub open spec fn spec_entry_fee(&self) -> Balance {
        match self {
            Lottery::SimpleLottery(lottery) => lottery.entry_fee,
            Lottery::Lottery(lottery) => lottery.entry_fee,
        }
    }

    /// The asset that the pool is held in.
    pub open spec fn spec_lottery_token_id(&self) -> AccountId {
        match self {
            Lottery::SimpleLottery(lottery) => lottery.lottery_token_id,
            Lottery::Lottery(lottery) => lottery.lottery_token_id,
        }
    }

    /// The entries of the pool, in the order of their admission.
    pub open spec fn spec_entries(&self) -> Seq<Entry> {
        match self {
            Lottery::SimpleLottery(lottery) => lottery.entries@,
            Lottery::Lottery(lottery) => lottery.entries@,
        }
    }

    /// `self` is what `update` makes of `before` with the seed.
    pub open spec fn updated_from(&self, before: &Self, seed: Seq<u8>) -> bool {
        match (self, before) {
            (Lottery::SimpleLottery(after), Lottery::SimpleLottery(lottery)) => after.updated_from(
                lottery,
                seed,
            ),
            (Lottery::Lottery(after), Lottery::Lottery(lottery)) => after.updated_from(
                lottery,
                seed,
            ),
            _ => false,
        }
    }

    /// The selector of the pool's kind.
    pub fn kind(&self) -> (res: String)
        ensures
            res@ == match self {
                Lottery::SimpleLottery(_) => SIMPLE_LOTTERY@,
                Lottery::Lottery(_) => BIG_LOTTERY@,
            },
    {
        match self {
            Lottery::SimpleLottery(_) => SIMPLE_LOTTERY.to_owned(),
            Lottery::Lottery(_) => BIG_LOTTERY.to_owned(),
        }
    }

    /// The identifier of the pool.
    pub fn get_id(&self) -> (res: LotteryId)
        ensures
            res == self.spec_id(),
    {
        match self {
            Lottery::SimpleLottery(lottery) => lottery.id,
            Lottery::Lottery(lottery) => lottery.id,
        }
    }

    /// Whether the pool still takes entries.
    pub fn status(&self) -> (res: LotteryStatus)
        ensures
            res == self.spec_status(),
    {
        match self {
            Lottery::SimpleLottery(lottery) => lottery.lottery_status,
            Lottery::Lottery(lottery) => lottery.lottery_status,
        }
    }

    /// The number of entries at which the pool is finished.
    pub fn num_participants(&self) -> (res: u32)
        requires
            self.inv(),
        ensures
            res == self.spec_num_participants(),
            res > 0,
    {
        match self {
            Lottery::SimpleLottery(lottery) => {
                proof {
                    lottery.lemma_entries_bounded();
                }
                (lottery.required_pool / lottery.entry_fee) as u32
            },
            Lottery::Lottery(lottery) => {
                proof {
                    lottery.lemma_entries_bounded();
                }
                (lottery.required_pool / lottery.entry_fee) as u32
            },
        }
    }

    /// The amount that each participant pays.
    pub fn entry_fee(&self) -> (res: Balance)
        ensures
            res == self.spec_entry_fee(),
    {
        match self {
            Lottery::SimpleLottery(lottery) => lottery.entry_fee,
            Lottery::Lottery(lottery) => lottery.entry_fee,
        }
    }

    /// The asset that the pool is held in.
    pub fn lottery_token_id(&self) -> (res: &AccountId)
        ensures
            *res == self.spec_lottery_token_id(),
    {
        match self {
            Lottery::SimpleLottery(lottery) => &lottery.lottery_token_id,
            Lottery::Lottery(lottery) => &lottery.lottery_token_id,
        }
    }

    /// Finishes the pool if it is full and still active, and draws its
    /// winners, once. Returns the status after that.
    pub fn update(&mut self, seed: &RandomSeed) -> (res: LotteryStatus)
        requires
            old(self).inv(),
        ensures
            final(self).wf(),
            final(self).updated_from(old(self), seed@),
            res == final(self).spec_status(),
    {
        match self {
            Lottery::SimpleLottery(lottery) => lottery.update(seed),
            Lottery::Lottery(lottery) => lottery.update(seed),
        }
    }
}

impl Lottery {
    /// The two pools are of one kind and equal but for the identity of their lists.
    pub open spec fn same_as(&self, other: &Self) -> bool {
        match (self, other) {
            (Lottery::SimpleLottery(lottery), Lottery::SimpleLottery(like)) => lottery.same_as(
                like,
            ),
            (Lottery::Lottery(lottery), Lottery::Lottery(like)) => lottery.same_as(like),
            _ => false,
        }
    }

    /// What the referrers of the entries have been paid already.
    pub open spec fn spec_refferal_transfered(&self) -> Balance {
        match self {
            Lottery::SimpleLottery(lottery) => lottery.refferal_transfered,
            Lottery::Lottery(lottery) => lottery.refferal_transfered,
        }
    }

    /// The amount paid in so far.
    pub open spec fn spec_current_pool(&self) -> Balance {
        match self {
            Lottery::SimpleLottery(lottery) => lottery.current_pool,
            Lottery::Lottery(lottery) => lottery.current_pool,
        }
    }

    /// The amount at which the winners are drawn.
    pub open spec fn spec_required_pool(&self) -> Balance {
        match self {
            Lottery::SimpleLottery(lottery) => lottery.required_pool,
            Lottery::Lottery(lottery) => lottery.required_pool,
        }
    }

    /// Whether the pool is the one that an entry with these parameters joins.
    pub open spec fn matches_parameters(
        &self,
        token: Seq<char>,
        num_participants: u32,
        entry_fee: Balance,
    ) -> bool {
        &&& self.spec_entry_fee() == entry_fee
        &&& self.spec_num_participants() == num_participants
        &&& self.spec_lottery_token_id()@ == token
    }

    /// The error with which the pool turns the entry down, if it does so
    /// with one. A finished pool turns every entry down without an error: it
    /// answers with its status.
    pub open spec fn admission_error(&self, name: Seq<char>, amount: Balance) -> Option<
        LotteryError,
    > {
        match self {
            Lottery::SimpleLottery(lottery) => lottery.admission_error(name, amount),
            Lottery::Lottery(lottery) => lottery.admission_error(name, amount),
        }
    }

    /// `self` is `before` with the entry appended and its fee paid in, before
    /// the pool is looked at for completion.
    pub open spec fn entered_from(&self, before: &Self, entry: Entry) -> bool {
        match (self, before) {
            (Lottery::SimpleLottery(after), Lottery::SimpleLottery(lottery)) => after.entered_from(
                lottery,
                entry,
            ),
            (Lottery::Lottery(after), Lottery::Lottery(lottery)) => after.entered_from(
                lottery,
                entry,
            ),
            _ => false,
        }
    }

    /// `self` is `before` with `amount` more paid to the referrers.
    pub open spec fn referred_from(&self, before: &Self, amount: Balance) -> bool {
        match (self, before) {
            (Lottery::SimpleLottery(after), Lottery::SimpleLottery(lottery)) => {
                &&& after.same_as(
                    &(SimpleLottery { refferal_transfered: after.refferal_transfered, ..*lottery }),
                )
                &&& after.refferal_transfered == lottery.refferal_transfered + amount
            },
            (Lottery::Lottery(after), Lottery::Lottery(lottery)) => {
                &&& after.same_as(
                    &(BigLottery { refferal_transfered: after.refferal_transfered, ..*lottery }),
                )
                &&& after.refferal_transfered == lottery.refferal_transfered + amount
            },
            _ => false,
        }
    }

    /// A pool that equals a well-formed pool but for the identity of its
    /// lists is well-formed, and shows the same.
    pub proof fn lemma_same_as_wf(&self, other: &Self)
        requires
            self.same_as(other),
        ensures
            other.inv() ==> self.inv(),
            other.wf() ==> self.wf(),
            self.spec_id() == other.spec_id(),
            self.spec_status() == other.spec_status(),
            self.spec_entries() == other.spec_entries(),
            self.spec_entry_fee() == other.spec_entry_fee(),
            self.spec_num_participants() == other.spec_num_participants(),
            self.spec_lottery_token_id() == other.spec_lottery_token_id(),
            self.spec_refferal_transfered() == other.spec_refferal_transfered(),
            self.spec_current_pool() == other.spec_current_pool(),
            self.spec_required_pool() == other.spec_required_pool(),
    {
        match (self, other) {
            (Lottery::SimpleLottery(lottery), Lottery::SimpleLottery(like)) => {
                if like.inv() && like.lottery_status == LotteryStatus::Finished {
                    let i = choose|i: int|
                        0 <= i < like.entries@.len() && like.entries@[i] == like.winner->Some_0;
                    assert(lottery.entries@[i] == lottery.winner->Some_0);
                }
            },
            (Lottery::Lottery(lottery), Lottery::Lottery(like)) => {
                if like.inv() && like.lottery_status == LotteryStatus::Finished {
                    let order = choose|order: Seq<usize>|
                        {
                            &&& #[trigger] is_permutation(order, like.entries@.len())
                            &&& tiers_of(
                                like.winners->Some_0,
                                like.entries@,
                                order,
                                like.fifty_percent_winners_num as int,
                                like.ten_percent_winners_num as int,
                            )
                        };
                    assert(is_permutation(order, lottery.entries@.len()));
                    assert(tiers_of(
                        lottery.winners->Some_0,
                        lottery.entries@,
                        order,
                        lottery.fifty_percent_winners_num as int,
                        lottery.ten_percent_winners_num as int,
                    ));
                }
            },
            _ => {},
        }
    }

    /// Admits the account to the pool for the amount it paid, then finishes
    /// the pool if this entry filled it, and returns the status of the pool.
    ///
    /// A finished pool takes no entry: it stays as it was and answers that
    /// it is finished, which is no error. An open pool turns down, with an
    /// error, an amount other than the entry fee and an account that has
    /// entered already, in this order, and stays as it was.
    pub fn draw_enter(
        &mut self,
        account_id: &AccountId,
        amount: Balance,
        referrer_id: Option<AccountId>,
        seed: &RandomSeed,
    ) -> (res: Result<LotteryStatus, LotteryError>)
        requires
            old(self).wf(),
        ensures
            final(self).wf(),
            old(self).spec_status() == LotteryStatus::Finished ==> res == Ok::<
                LotteryStatus,
                LotteryError,
            >(LotteryStatus::Finished) && *final(self) == *old(self),
            match res {
                Ok(status) => {
                    &&& old(self).admission_error(account_id@, amount) is None
                    &&& status == final(self).spec_status()
                    &&& old(self).spec_status() == LotteryStatus::Active ==> exists|
                        entered: Lottery,
                    |
                        {
                            &&& #[trigger] entered.entered_from(
                                old(self),
                                Entry { account_id: *account_id, referrer_id },
                            )
                            &&& final(self).updated_from(&entered, seed@)
                        }
                },
                Err(e) => {
                    &&& old(self).admission_error(account_id@, amount) == Some(e)
                    &&& *final(self) == *old(self)
                },
            },
    {
        match self {
            Lottery::SimpleLottery(lottery) => {
                let ghost before = *lottery;
                let res = lottery.draw_enter(account_id, amount, referrer_id, seed);
                proof {
                    if res is Ok && before.lottery_status == LotteryStatus::Active {
                        let entered = choose|entered: SimpleLottery|
                            {
                                &&& #[trigger] entered.entered_from(
                                    &before,
                                    Entry { account_id: *account_id, referrer_id },
                                )
                                &&& lottery.updated_from(&entered, seed@)
                            };
                        assert(Lottery::SimpleLottery(entered).entered_from(
                            &Lottery::SimpleLottery(before),
                            Entry { account_id: *account_id, referrer_id },
                        ));
                    }
                }
                res
            },
            Lottery::Lottery(lottery) => {
                let ghost before = *lottery;
                let res = lottery.draw_enter(account_id, amount, referrer_id, seed);
                proof {
                    if res is Ok && before.lottery_status == LotteryStatus::Active {
                        let entered = choose|entered: BigLottery|
                            {
                                &&& #[trigger] entered.entered_from(
                                    &before,
                                    Entry { account_id: *account_id, referrer_id },
                                )
                                &&& lottery.updated_from(&entered, seed@)
                            };
                        assert(Lottery::Lottery(entered).entered_from(
                            &Lottery::Lottery(before),
                            Entry { account_id: *account_id, referrer_id },
                        ));
                    }
                }
                res
            },
        }
    }

    /// What the referrers of the entries have been paid already.
    pub fn refferal_transfered(&self) -> (res: Balance)
        ensures
            res == self.spec_refferal_transfered(),
    {
        match self {
            Lottery::SimpleLottery(lottery) => lottery.refferal_transfered,
            Lottery::Lottery(lottery) => lottery.refferal_transfered,
        }
    }

    /// Adds to what the referrers have been paid.
    pub fn add_refferal_transfered(&mut self, amount: Balance)
        requires
            old(self).spec_refferal_transfered() + amount <= u128::MAX,
        ensures
            final(self).referred_from(old(self), amount),
            old(self).inv() ==> final(self).inv(),
            old(self).wf() ==> final(self).wf(),
    {
        match self {
            Lottery::SimpleLottery(lottery) => lottery.add_refferal_transfered(amount),
            Lottery::Lottery(lottery) => lottery.add_refferal_transfered(amount),
        }
    }
}

impl Clone for Lottery {
    fn clone(&self) -> (res: Self)
        ensures
            res.same_as(self),
    {
        match self {
            Lottery::SimpleLottery(lottery) => Lottery::SimpleLottery(lottery.clone()),
            Lottery::Lottery(lottery) => Lottery::Lottery(lottery.clone()),
        }
    }
}

impl Lottery {
    /// `self` is the open pool `before` after it has admitted the entry,
    /// paid `reward` to its referrer, and drawn its winners with the seed if
    /// the entry filled it.
    pub open spec fn admitted_from(
        &self,
        before: &Self,
        entry: Entry,
        reward: Balance,
        seed: Seq<u8>,
    ) -> bool {
        match (self, before) {
            (Lottery::SimpleLottery(after), Lottery::SimpleLottery(lottery)) => after.admitted_from(
                lottery,
                entry,
                reward,
                seed,
            ),
            (Lottery::Lottery(after), Lottery::Lottery(lottery)) => after.admitted_from(
                lottery,
                entry,
                reward,
                seed,
            ),
            _ => false,
        }
    }

    /// What `draw_enter`, `update` and `add_refferal_transfered` make of an
    /// open pool, one after the other, is the pool that has admitted the entry.
    pub proof fn lemma_admitted(
        &self,
        before: &Self,
        entered: &Self,
        drawn: &Self,
        entry: Entry,
        reward: Balance,
        seed: Seq<u8>,
    )
        requires
            before.wf(),
            before.spec_status() == LotteryStatus::Active,
            entered.entered_from(before, entry),
            drawn.updated_from(entered, seed),
            self.referred_from(drawn, reward),
        ensures
            self.admitted_from(before, entry, reward, seed),
    {
    }
}

impl Lottery {
    /// The error with which the pool turns the entry down, if it does so
    /// with one; a finished pool has none.
    pub fn check_admission(&self, account_id: &AccountId, amount: Balance) -> (res: Option<
        LotteryError,
    >)
        ensures
            res == self.admission_error(account_id@, amount),
    {
        let (status, entry_fee, entries) = match self {
            Lottery::SimpleLottery(lottery) => (
                lottery.lottery_status,
                lottery.entry_fee,
                &lottery.entries,
            ),
            Lottery::Lottery(lottery) => (lottery.lottery_status, lottery.entry_fee, &lottery.entries),
        };
        if status == LotteryStatus::Finished {
            None
        } else if amount != entry_fee {
            Some(LotteryError::WrongEntryFee)
        } else if contains_account(entries, account_id) {
            Some(LotteryError::AlreadyEntered)
        } else {
            None
        }
    }
}

impl Lottery {
    /// An account that has an entry in an open pool is turned down by that
    /// pool with an error, whatever it pays: as having entered already
    /// where the amount is the entry fee.
    pub proof fn lemma_entered_account_rejected(&self, name: Seq<char>, amount: Balance)
        requires
            self.wf(),
            self.spec_status() == LotteryStatus::Active,
            has_account(self.spec_entries(), name),
        ensures
            self.admission_error(name, amount) is Some,
            amount == self.spec_entry_fee() ==> self.admission_error(name, amount) == Some(
                LotteryError::AlreadyEntered,
            ),
    {
    }

    /// The same account is not admitted twice into an open pool: after a
    /// pool has admitted an entry and is still open, it turns down every
    /// further entry of that account with an error, and where it is paid its
    /// entry fee, it does so because the account has entered already.
    pub proof fn lemma_second_entry_rejected(
        &self,
        before: &Self,
        entry: Entry,
        reward: Balance,
        seed: Seq<u8>,
        amount: Balance,
    )
        requires
            before.wf(),
            before.spec_status() == LotteryStatus::Active,
            self.wf(),
            self.spec_status() == LotteryStatus::Active,
            self.admitted_from(before, entry, reward, seed),
        ensures
            self.admission_error(entry.account_id@, amount) is Some,
            amount == self.spec_entry_fee() ==> self.admission_error(entry.account_id@, amount)
                == Some(LotteryError::AlreadyEntered),
    {
        let entries = self.spec_entries();
        assert(entries == before.spec_entries().push(entry));
        assert(entries[entries.len() - 1].account_id@ == entry.account_id@);
        self.lemma_entered_account_rejected(entry.account_id@, amount);
    }
}

/// Whether no two entries belong to the same account.
pub fn has_distinct_accounts(entries: &Vec<Entry>) -> (res: bool)
    ensures
        res == distinct_accounts(entries@),
{
    let mut j: usize = 0;
    while j < entries.len()
        invariant
            j <= entries@.len(),
            forall|a: int, b: int|
                0 <= a < b < j ==> (#[trigger] entries@[a]).account_id@ != (
                #[trigger] entries@[b]).account_id@,
        decreases entries.len() - j,
    {
        let mut i: usize = 0;
        while i < j
            invariant
                i <= j < entries@.len(),
                forall|a: int|
                    0 <= a < i ==> (#[trigger] entries@[a]).account_id@
                        != entries@[j as int].account_id@,
            decreases j - i,
        {
            if entries[i].account_id == entries[j].account_id {
                return false;
            }
            i = i + 1;
        }
        j = j + 1;
    }
    true
}

/// Whether the amounts are those of an open pool: a positive entry fee, a
/// required amount that is a positive multiple of it by a number of
/// participants that fits 32 bits, and, paid in, the fee of each of the
/// `entered` entries, which is less than what is required.
pub open spec fn open_pool_amounts(
    entry_fee: Balance,
    current_pool: Balance,
    required_pool: Balance,
    entered: nat,
) -> bool {
    &&& entry_fee > 0
    &&& required_pool > 0
    &&& required_pool == entry_fee * (required_pool as int / entry_fee as int)
    &&& required_pool as int / entry_fee as int <= u32::MAX
    &&& current_pool == entry_fee * entered
    &&& current_pool < required_pool
}

/// Whether the amounts are those of an open pool.
pub fn check_open_pool_amounts(
    entry_fee: Balance,
    current_pool: Balance,
    required_pool: Balance,
    entered: usize,
) -> (res: bool)
    ensures
        res == open_pool_amounts(entry_fee, current_pool, required_pool, entered as nat),
{
    if entry_fee == 0 || required_pool == 0 {
        return false;
    }
    proof {
        vstd::arithmetic::div_mod::lemma_fundamental_div_mod(
            required_pool as int,
            entry_fee as int,
        );
    }
    if required_pool % entry_fee != 0 {
        return false;
    }
    if required_pool / entry_fee > 0xffff_ffff {
        return false;
    }
    match entry_fee.checked_mul(entered as u128) {
        Some(paid) => paid == current_pool && current_pool < required_pool,
        None => false,
    }
}

impl Lottery {
    /// Whether the pool is well-formed and still takes entries.
    pub fn is_open_pool(&self) -> (res: bool)
        ensures
            res == (self.wf() && self.spec_status() == LotteryStatus::Active),
    {
        match self {
            Lottery::SimpleLottery(lottery) => {
                lottery.lottery_status == LotteryStatus::Active && lottery.winner.is_none()
                    && check_open_pool_amounts(
                    lottery.entry_fee,
                    lottery.current_pool,
                    lottery.required_pool,
                    lottery.entries.len(),
                ) && has_distinct_accounts(&lottery.entries)
            },
            Lottery::Lottery(lottery) => {
                if !(lottery.lottery_status == LotteryStatus::Active && lottery.winners.is_none()
                    && check_open_pool_amounts(
                    lottery.entry_fee,
                    lottery.current_pool,
                    lottery.required_pool,
                    lottery.entries.len(),
                ) && has_distinct_accounts(&lottery.entries)) {
                    return false;
                }
                let num_participants: u128 = lottery.required_pool / lottery.entry_fee;
                num_participants % 2 == 0 && num_participants % 5 == 0 && num_participants <= 64
                    && lottery.cashbacked_num as u128 == num_participants / 2
                    && lottery.ten_percent_winners_num as u128 == num_participants / 2
                    - num_participants / 5 && lottery.fifty_percent_winners_num as u128
                    == num_participants / 5
            },
        }
    }
}

} // verus!
