//! The fee schedule and the accounts that the fees go to.
use crate::big_lottery::{distinct_names, has_name};
use crate::errors::LotteryError;
use crate::utils::{ratio, spec_ratio};
use crate::{AccountId, Balance, Contract};
use vstd::prelude::*;

verus! {

/// The ratio that stands for 100%, in basis points.
pub const MAX_RATIO: u32 = 10000;

/// The fee schedule, in basis points, and the accounts that take part in it.
///
/// The contract fee is taken from the reward; the treasury's and the
/// investor's shares are taken from the contract fee, and what is left of it
/// stays with the engine.
#[derive(Debug)]
pub struct Config {
    /// The account that may change the configuration.
    pub owner_id: AccountId,
    /// The share of the reward that is taken as the contract fee.
    pub contract_fee_ratio: u32,
    /// The share of the contract fee that goes to the treasury.
    pub treasury_ratio: u32,
    /// The share of the contract fee that goes to the investor.
    pub investor_ratio: u32,
    pub treasury: AccountId,
    pub investor: AccountId,
    /// The parent account, as `name.zone`, whose subaccounts may enter.
    pub accepted_subs: String,
}

impl Config {
    /// No ratio exceeds 100%, and the treasury and the investor together
    /// take less than 90% of the contract fee.
    pub open spec fn valid(&self) -> bool {
        &&& self.contract_fee_ratio <= MAX_RATIO
        &&& self.treasury_ratio <= MAX_RATIO
        &&& self.investor_ratio + self.treasury_ratio < MAX_RATIO * 9 / 10
    }

    /// Tells whether the fee schedule is one that can be paid out.
    pub fn assert_valid(&self) -> (res: Result<(), LotteryError>)
        ensures
            res is Ok <==> self.valid(),
            res is Err ==> res == Err::<(), LotteryError>(LotteryError::InvalidFeeSchedule),
    {
        if self.contract_fee_ratio > MAX_RATIO || self.treasury_ratio > MAX_RATIO {
            return Err(LotteryError::InvalidFeeSchedule);
        }
        let limit: u32 = MAX_RATIO * 9 / 10;
        if self.investor_ratio >= limit || self.investor_ratio + self.treasury_ratio >= limit {
            return Err(LotteryError::InvalidFeeSchedule);
        }
        Ok(())
    }
}

/// The share of the contract fee that one of its takers gets.
pub fn compute_internal_fee_ratio(contract_fees: Balance, ratio_from_contract_fees: u32) -> (res:
    Balance)
    requires
        ratio_from_contract_fees <= MAX_RATIO,
    ensures
        res == spec_ratio(contract_fees, ratio_from_contract_fees),
        res <= contract_fees,
{
    ratio(contract_fees, ratio_from_contract_fees)
}

/// The amount that a call which changes the configuration comes with.
pub const ONE_YOCTO: Balance = 1;

/// The place of the account in the list.
pub fn account_position(accounts: &Vec<AccountId>, account_id: &AccountId) -> (res: Option<usize>)
    ensures
        match res {
            Some(at) => {
                &&& at < accounts@.len()
                &&& accounts@[at as int]@ == account_id@
                &&& forall|i: int| 0 <= i < at ==> (#[trigger] accounts@[i])@ != account_id@
            },
            None => !has_name(accounts@, account_id@),
        },
{
    let mut i: usize = 0;
    while i < accounts.len()
        invariant
            i <= accounts@.len(),
            forall|k: int| 0 <= k < i ==> (#[trigger] accounts@[k])@ != account_id@,
        decreases accounts.len() - i,
    {
        if accounts[i] == *account_id {
            return Some(i);
        }
        i = i + 1;
    }
    None
}

impl Contract {
    /// The reason for which the caller may not change the configuration, if
    /// there is one: the call must come with one unit of the native asset,
    /// and from the owner.
    pub open spec fn owner_error(&self, caller: Seq<char>, attached_deposit: Balance) -> Option<
        LotteryError,
    > {
        if attached_deposit != ONE_YOCTO {
            Some(LotteryError::RequiresOneYocto)
        } else if caller != self.config.owner_id@ {
            Some(LotteryError::NotOwner)
        } else {
            None
        }
    }

    /// Tells whether the caller is the owner.
    pub fn assert_owner(&self, caller: &AccountId) -> (res: Result<(), LotteryError>)
        ensures
            res is Ok <==> caller@ == self.config.owner_id@,
            res is Err ==> res == Err::<(), LotteryError>(LotteryError::NotOwner),
    {
        if *caller == self.config.owner_id {
            Ok(())
        } else {
            Err(LotteryError::NotOwner)
        }
    }

    /// Tells whether the call comes from the owner with one unit of the
    /// native asset.
    pub fn assert_owner_call(&self, caller: &AccountId, attached_deposit: Balance) -> (res: Result<
        (),
        LotteryError,
    >)
        ensures
            match res {
                Ok(()) => self.owner_error(caller@, attached_deposit) is None,
                Err(e) => self.owner_error(caller@, attached_deposit) == Some(e),
            },
    {
        if attached_deposit != ONE_YOCTO {
            return Err(LotteryError::RequiresOneYocto);
        }
        self.assert_owner(caller)
    }

    /// The fee schedule.
    pub fn internal_config(&self) -> (res: &Config)
        ensures
            *res == self.config,
    {
        &self.config
    }

    /// The parent account whose subaccounts may enter.
    pub fn accepted_subs(&self) -> (res: &String)
        ensures
            *res == self.config.accepted_subs,
    {
        &self.config.accepted_subs
    }

    /// The account of the treasury.
    pub fn treasury(&self) -> (res: &AccountId)
        ensures
            *res == self.config.treasury,
    {
        &self.config.treasury
    }

    /// The account of the investor.
    pub fn investor(&self) -> (res: &AccountId)
        ensures
            *res == self.config.investor,
    {
        &self.config.investor
    }

    /// The share of the reward that is taken as the contract fee.
    pub fn get_contract_fee_ratio(&self) -> (res: u32)
        ensures
            res == self.config.contract_fee_ratio,
    {
        self.config.contract_fee_ratio
    }

    /// The share of the contract fee that goes to the treasury.
    pub fn get_treasury_ratio_from_contract_fees(&self) -> (res: u32)
        ensures
            res == self.config.treasury_ratio,
    {
        self.config.treasury_ratio
    }

    /// The share of the contract fee that goes to the investor.
    pub fn get_investor_ratio_from_contract_fees(&self) -> (res: u32)
        ensures
            res == self.config.investor_ratio,
    {
        self.config.investor_ratio
    }

    /// What the treasury gets of a contract fee.
    pub fn get_treasury_taken_amount(&self, contract_fees: Balance) -> (res: Balance)
        requires
            self.config.valid(),
        ensures
            res == spec_ratio(contract_fees, self.config.treasury_ratio),
    {
        compute_internal_fee_ratio(contract_fees, self.get_treasury_ratio_from_contract_fees())
    }

    /// What the investor gets of a contract fee.
    pub fn get_investor_taken_amount(&self, contract_fees: Balance) -> (res: Balance)
        requires
            self.config.valid(),
        ensures
            res == spec_ratio(contract_fees, self.config.investor_ratio),
    {
        compute_internal_fee_ratio(contract_fees, self.get_investor_ratio_from_contract_fees())
    }

    /// Puts the token on the whitelist, on the owner's call.
    pub fn whitelist_token(
        &mut self,
        caller: &AccountId,
        attached_deposit: Balance,
        token_id: AccountId,
    ) -> (res: Result<(), LotteryError>)
        requires
            old(self).wf(),
        ensures
            final(self).wf(),
            match res {
                Ok(()) => {
                    &&& old(self).owner_error(caller@, attached_deposit) is None
                    &&& !has_name(old(self).whitelisted_tokens@, token_id@)
                    &&& final(self).whitelisted_tokens@ == old(self).whitelisted_tokens@.push(
                        token_id,
                    )
                    &&& *final(self) == (Contract {
                        whitelisted_tokens: final(self).whitelisted_tokens,
                        ..*old(self)
                    })
                },
                Err(e) => {
                    &&& *final(self) == *old(self)
                    &&& e == if old(self).owner_error(caller@, attached_deposit) is Some {
                        old(self).owner_error(caller@, attached_deposit)->Some_0
                    } else {
                        LotteryError::AlreadyWhitelisted
                    }
                    &&& old(self).owner_error(caller@, attached_deposit) is Some || has_name(
                        old(self).whitelisted_tokens@,
                        token_id@,
                    )
                },
            },
    {
        match self.assert_owner_call(caller, attached_deposit) {
            Ok(()) => {},
            Err(e) => {
                return Err(e);
            },
        }
        match account_position(&self.whitelisted_tokens, &token_id) {
            Some(at) => {
                assert(self.whitelisted_tokens@[at as int]@ == token_id@);
                Err(LotteryError::AlreadyWhitelisted)
            },
            None => {
                self.whitelisted_tokens.push(token_id);
                assert(distinct_names(self.whitelisted_tokens@)) by {
                    assert forall|i: int, j: int|
                        0 <= i < j < self.whitelisted_tokens@.len() implies (
                    #[trigger] self.whitelisted_tokens@[i])@ != (
                    #[trigger] self.whitelisted_tokens@[j])@ by {
                        if j == self.whitelisted_tokens@.len() - 1 {
                            assert(old(self).whitelisted_tokens@[i]@ != token_id@);
                        } else {
                            assert(old(self).whitelisted_tokens@[i]@ != old(
                                self,
                            ).whitelisted_tokens@[j]@);
                        }
                    }
                }
                Ok(())
            },
        }
    }

    /// Takes the token off the whitelist, on the owner's call.
    pub fn remove_whitelist_token(
        &mut self,
        caller: &AccountId,
        attached_deposit: Balance,
        token_id: AccountId,
    ) -> (res: Result<(), LotteryError>)
        requires
            old(self).wf(),
        ensures
            final(self).wf(),
            match res {
                Ok(()) => {
                    &&& old(self).owner_error(caller@, attached_deposit) is None
                    &&& has_name(old(self).whitelisted_tokens@, token_id@)
                    &&& !has_name(final(self).whitelisted_tokens@, token_id@)
                    &&& forall|at: int|
                        0 <= at < old(self).whitelisted_tokens@.len() && (#[trigger] old(
                            self,
                        ).whitelisted_tokens@[at])@ == token_id@ ==> final(self).whitelisted_tokens@
                            == old(self).whitelisted_tokens@.remove(at)
                    &&& *final(self) == (Contract {
                        whitelisted_tokens: final(self).whitelisted_tokens,
                        ..*old(self)
                    })
                },
                Err(e) => {
                    &&& *final(self) == *old(self)
                    &&& e == if old(self).owner_error(caller@, attached_deposit) is Some {
                        old(self).owner_error(caller@, attached_deposit)->Some_0
                    } else {
                        LotteryError::NotWhitelisted
                    }
                    &&& old(self).owner_error(caller@, attached_deposit) is Some || !has_name(
                        old(self).whitelisted_tokens@,
                        token_id@,
                    )
                },
            },
    {
        match self.assert_owner_call(caller, attached_deposit) {
            Ok(()) => {},
            Err(e) => {
                return Err(e);
            },
        }
        match account_position(&self.whitelisted_tokens, &token_id) {
            Some(at) => {
                self.whitelisted_tokens.remove(at);
                proof {
                    let before = old(self).whitelisted_tokens@;
                    let after = self.whitelisted_tokens@;
                    assert(before[at as int]@ == token_id@);
                    assert forall|i: int| 0 <= i < after.len() implies #[trigger] after[i]
                        == before[if i < at { i } else { i + 1 }] by {}
                    assert forall|i: int, j: int| 0 <= i < j < after.len() implies (
                    #[trigger] after[i])@ != (#[trigger] after[j])@ by {
                        let a = if i < at { i } else { i + 1 };
                        let b = if j < at { j } else { j + 1 };
                        assert(before[a]@ != before[b]@);
                    }
                    assert(!has_name(after, token_id@)) by {
                        if has_name(after, token_id@) {
                            let i = choose|i: int|
                                0 <= i < after.len() && (#[trigger] after[i])@ == token_id@;
                            let a = if i < at { i } else { i + 1 };
                            if a < at {
                                assert(before[a]@ != before[at as int]@);
                            } else {
                                assert(before[at as int]@ != before[a]@);
                            }
                        }
                    }
                    assert forall|other: int|
                        0 <= other < before.len() && (#[trigger] before[other])@
                            == token_id@ implies after == before.remove(other) by {
                        if other < at {
                            assert(before[other]@ != before[at as int]@);
                        } else if at < other {
                            assert(before[at as int]@ != before[other]@);
                        }
                    }
                }
                Ok(())
            },
            None => Err(LotteryError::NotWhitelisted),
        }
    }
}

} // verus!
