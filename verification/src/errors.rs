//! The reasons for which the engine turns a request down.
use vstd::prelude::*;

verus! {

/// Why a request was turned down.
///
/// Configuration errors reject a request before any state changes, admission
/// errors reject one entry and leave the pool as it was, and the remaining
/// ones report a pool or a fee schedule that cannot be paid out.
#[derive(Clone, Copy, Debug, PartialEq, Eq, Structural)]
pub enum LotteryError {
    /// The entry fee of a pool is zero.
    EntryFeeZero,
    /// The number of participants of a pool is zero.
    NumParticipantsZero,
    /// The entry fee times the number of participants exceeds the balance type.
    PoolOverflow,
    /// The number of participants of a tiered pool is odd.
    NotDivisibleByTwo,
    /// The number of participants of a tiered pool is no multiple of five.
    NotDivisibleByFive,
    /// A tiered pool has more participants than the seed can arrange.
    TooManyParticipants,
    /// The selector names no kind of lottery.
    UnknownLotteryType,
    /// The fee schedule takes more than it may.
    InvalidFeeSchedule,
    /// The lottery configuration lacks entry fees or participant counts.
    EmptyLotteryConfig,
    /// No entry fees are configured for the asset.
    NoEntryFeesForToken,
    /// The entry fee is not among those configured for the asset.
    UnsupportedEntryFee,
    /// The number of participants is not among those configured.
    UnsupportedNumParticipants,
    /// The value to remove from the configuration is not in it.
    NothingToRemove,
    /// The last configured value cannot be removed.
    CannotRemoveLast,
    /// The caller is not the owner.
    NotOwner,
    /// The call does not come with exactly one unit of the native asset.
    RequiresOneYocto,
    /// The accepted parent account is not of the form `name.zone`.
    InvalidAcceptedSubs,
    /// The account is no subaccount of an accepted parent.
    InvalidSubaccount,
    /// The token is on the whitelist already.
    AlreadyWhitelisted,
    /// The token is not on the whitelist.
    NotWhitelisted,
    /// The amount paid differs from the entry fee.
    WrongEntryFee,
    /// The account has an entry in the pool already.
    AlreadyEntered,
    /// The pool does not hold the required amount.
    PoolNotFilled,
    /// The pool has no winner.
    NoWinner,
    /// The reward does not exceed the fee taken from it.
    RewardBelowFees,
    /// The referrers have received as much as the fee, or more.
    ReferralAboveFees,
    /// The fee does not cover the treasury's and the investor's cuts.
    FeesBelowCuts,
    /// An accumulated amount exceeds the balance type.
    BalanceOverflow,
    /// The registry has given out every identifier.
    TooManyLotteries,
}

impl LotteryError {
    /// The words in which the error is reported.
    pub open spec fn spec_message(&self) -> Seq<char> {
        match self {
            LotteryError::EntryFeeZero => "entry_fee cannot be zero"@,
            LotteryError::NumParticipantsZero => "num_participants cannot be zero"@,
            LotteryError::PoolOverflow => "Incorrect lottery setup, math overflow through `entry_fee * num_participants`"@,
            LotteryError::NotDivisibleByTwo => "Number of participants must be divisible by two"@,
            LotteryError::NotDivisibleByFive => "Number of participants must be divisible by five"@,
            LotteryError::TooManyParticipants => "Unexpected random result for more than 64 participants"@,
            LotteryError::UnknownLotteryType => "Unknown lottery type"@,
            LotteryError::InvalidFeeSchedule => "Incorrect ratio setup: no ratio may exceed 100%, and the investor and the treasury together must take less than 90% of the contract fee"@,
            LotteryError::EmptyLotteryConfig => "The lottery configuration needs entry fees and numbers of participants"@,
            LotteryError::NoEntryFeesForToken => "No required fees for token"@,
            LotteryError::UnsupportedEntryFee => "Lottery expected one of the configured entry fees"@,
            LotteryError::UnsupportedNumParticipants => "Lottery expected one of the configured numbers of participants"@,
            LotteryError::NothingToRemove => "invalid value to remove"@,
            LotteryError::CannotRemoveLast => "Cannot remove last lottery num_participants"@,
            LotteryError::NotOwner => "Not an owner"@,
            LotteryError::RequiresOneYocto => "Requires attached deposit of exactly 1 yoctoNEAR"@,
            LotteryError::InvalidAcceptedSubs => "Expected format is sub.near"@,
            LotteryError::InvalidSubaccount => "Incorrect subaccount"@,
            LotteryError::AlreadyWhitelisted => "Already whitelisted"@,
            LotteryError::NotWhitelisted => "Token is not whitelisted"@,
            LotteryError::WrongEntryFee => "Supplied amount differs from the amount required to participate"@,
            LotteryError::AlreadyEntered => "Already entered"@,
            LotteryError::PoolNotFilled => "Current pool must be equal to Required"@,
            LotteryError::NoWinner => "Lottery has no winner"@,
            LotteryError::RewardBelowFees => "Reward cannot be less than contract fees"@,
            LotteryError::ReferralAboveFees => "Refferal's reward cannot be greater than contract fees"@,
            LotteryError::FeesBelowCuts => "Contract fees cannot be less than treasury & investor fees"@,
            LotteryError::BalanceOverflow => "Balance overflow"@,
            LotteryError::TooManyLotteries => "No lottery identifier is left"@,
        }
    }

    /// The words in which the error is reported.
    pub fn message(&self) -> (res: String)
        ensures
            res@ == self.spec_message(),
    {
        let text = match self {
            LotteryError::EntryFeeZero => "entry_fee cannot be zero",
            LotteryError::NumParticipantsZero => "num_participants cannot be zero",
            LotteryError::PoolOverflow => "Incorrect lottery setup, math overflow through `entry_fee * num_participants`",
            LotteryError::NotDivisibleByTwo => "Number of participants must be divisible by two",
            LotteryError::NotDivisibleByFive => "Number of participants must be divisible by five",
            LotteryError::TooManyParticipants => "Unexpected random result for more than 64 participants",
            LotteryError::UnknownLotteryType => "Unknown lottery type",
            LotteryError::InvalidFeeSchedule => "Incorrect ratio setup: no ratio may exceed 100%, and the investor and the treasury together must take less than 90% of the contract fee",
            LotteryError::EmptyLotteryConfig => "The lottery configuration needs entry fees and numbers of participants",
            LotteryError::NoEntryFeesForToken => "No required fees for token",
            LotteryError::UnsupportedEntryFee => "Lottery expected one of the configured entry fees",
            LotteryError::UnsupportedNumParticipants => "Lottery expected one of the configured numbers of participants",
            LotteryError::NothingToRemove => "invalid value to remove",
            LotteryError::CannotRemoveLast => "Cannot remove last lottery num_participants",
            LotteryError::NotOwner => "Not an owner",
            LotteryError::RequiresOneYocto => "Requires attached deposit of exactly 1 yoctoNEAR",
            LotteryError::InvalidAcceptedSubs => "Expected format is sub.near",
            LotteryError::InvalidSubaccount => "Incorrect subaccount",
            LotteryError::AlreadyWhitelisted => "Already whitelisted",
            LotteryError::NotWhitelisted => "Token is not whitelisted",
            LotteryError::WrongEntryFee => "Supplied amount differs from the amount required to participate",
            LotteryError::AlreadyEntered => "Already entered",
            LotteryError::PoolNotFilled => "Current pool must be equal to Required",
            LotteryError::NoWinner => "Lottery has no winner",
            LotteryError::RewardBelowFees => "Reward cannot be less than contract fees",
            LotteryError::ReferralAboveFees => "Refferal's reward cannot be greater than contract fees",
            LotteryError::FeesBelowCuts => "Contract fees cannot be less than treasury & investor fees",
            LotteryError::BalanceOverflow => "Balance overflow",
            LotteryError::TooManyLotteries => "No lottery identifier is left",
        };
        text.to_owned()
    }
}

} // verus!
