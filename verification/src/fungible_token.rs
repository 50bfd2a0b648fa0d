//! Entries that are paid for with a fungible token: the token's contract
//! hands the payment over together with a message.
use crate::big_lottery::has_name;
use crate::config::account_position;
use crate::errors::LotteryError;
use crate::lottery_config::LotteryType;
use crate::registry::EnterOutcome;
use crate::{AccountId, Balance, Contract, RandomSeed};
use vstd::prelude::*;

verus! {

/// The message that comes with a transfer of a fungible token.
#[derive(Debug)]
pub enum TokenReceiverMsg {
    /// Enter a pool of the kind that the selector names, with the given
    /// number of participants; the amount transferred is the entry fee.
    DrawEnter { num_participants: u32, lottery_type: String, referrer_id: Option<AccountId> },
}

impl Contract {
    /// Takes a transfer of the token `token_id` from `sender_id` together
    /// with its message, and admits the sender to a pool of that token with
    /// the amount as the entry fee.
    ///
    /// The token must be on the whitelist, and the selector of the message
    /// must name a kind; then the entry is taken as by `draw_enter`.
    pub fn ft_on_transfer(
        &mut self,
        token_id: AccountId,
        sender_id: AccountId,
        amount: Balance,
        msg: TokenReceiverMsg,
        seed: &RandomSeed,
    ) -> (res: Result<EnterOutcome, LotteryError>)
        requires
            old(self).wf(),
        ensures
            if !has_name(old(self).whitelisted_tokens@, token_id@) {
                &&& res == Err::<EnterOutcome, LotteryError>(LotteryError::NotWhitelisted)
                &&& *final(self) == *old(self)
            } else if LotteryType::spec_from(msg->lottery_type@) is None {
                &&& res == Err::<EnterOutcome, LotteryError>(LotteryError::UnknownLotteryType)
                &&& *final(self) == *old(self)
            } else {
                final(self).enter_result(
                    old(self),
                    res,
                    sender_id,
                    token_id,
                    LotteryType::spec_from(msg->lottery_type@)->Some_0,
                    msg->num_participants,
                    amount,
                    msg->referrer_id,
                    seed@,
                )
            },
    {
        match account_position(&self.whitelisted_tokens, &token_id) {
            Some(at) => {
                assert(self.whitelisted_tokens@[at as int]@ == token_id@);
            },
            None => {
                return Err(LotteryError::NotWhitelisted);
            },
        }
        match msg {
            TokenReceiverMsg::DrawEnter { num_participants, lottery_type, referrer_id } => {
                let kind = match LotteryType::from(lottery_type) {
                    Ok(kind) => kind,
                    Err(e) => {
                        return Err(e);
                    },
                };
                self.draw_enter(
                    &sender_id,
                    token_id,
                    kind,
                    num_participants,
                    amount,
                    referrer_id,
                    seed,
                )
            },
        }
    }
}

} // verus!
