use lottery_engine::big_lottery::{
    assign_tiers, check_account_duplicates, BigLottery, TierWinners, WinnerType,
};
use lottery_engine::config::Config;
use lottery_engine::errors::LotteryError;
use lottery_engine::lottery::{Entry, Lottery, LotteryStatus, BIG_LOTTERY};
use lottery_engine::payout::{big_payout, distribute_big, BigPayout};
use lottery_engine::utils::shuffled_positions;
use lottery_engine::AccountId;

const SEED: [u8; 32] = [8; 32];

fn account(index: u32) -> AccountId {
    format!("user{}.near", index)
}

fn config(treasury_ratio: u32, investor_ratio: u32) -> Config {
    Config {
        owner_id: "owner.near".to_string(),
        contract_fee_ratio: 1000,
        treasury_ratio,
        investor_ratio,
        treasury: "treasury.near".to_string(),
        investor: "investor.near".to_string(),
        accepted_subs: "sub.near".to_string(),
    }
}

fn filled(num_participants: u32, entry_fee: u128) -> BigLottery {
    let mut lottery = BigLottery::new(1, "near".to_string(), num_participants, entry_fee).unwrap();
    for index in 0..num_participants {
        let status = lottery.draw_enter(&account(index), entry_fee, None, &SEED).unwrap();
        let last = index + 1 == num_participants;
        assert_eq!(status, if last { LotteryStatus::Finished } else { LotteryStatus::Active });
        assert_eq!(lottery.is_finished(), last);
        assert_eq!(lottery.winners.is_some(), last);
    }
    lottery
}

#[test]
fn new_big_lottery_is_open_and_empty() {
    let lottery = BigLottery::new(2, "usdt.near".to_string(), 50, 3).unwrap();
    assert_eq!(lottery.id, 2);
    assert_eq!(lottery.lottery_token_id, "usdt.near");
    assert_eq!(lottery.lottery_status, LotteryStatus::Active);
    assert!(lottery.entries.is_empty());
    assert_eq!(lottery.entry_fee, 3);
    assert_eq!(lottery.current_pool, 0);
    assert_eq!(lottery.required_pool, 150);
    assert!(lottery.winners.is_none());
    assert_eq!(lottery.fifty_percent_winners_num, 10);
    assert_eq!(lottery.ten_percent_winners_num, 15);
    assert_eq!(lottery.cashbacked_num, 25);
    assert_eq!(lottery.refferal_transfered, 0);
    assert_eq!(lottery.assert_valid(), Ok(()));
    assert!(!lottery.is_pools_equal());
    assert_eq!(lottery.assert_equals_pool(), Err(LotteryError::PoolNotFilled));
    assert_eq!(lottery.assert_is_finished(), Err(LotteryError::PoolNotFilled));
}

#[test]
fn big_lottery_tier_sizes() {
    for (num, fifty, ten, cashback) in [(10, 2, 3, 5), (20, 4, 6, 10), (30, 6, 9, 15), (60, 12, 18, 30)] {
        let lottery = BigLottery::new(0, "near".to_string(), num, 1).unwrap();
        assert_eq!(lottery.fifty_percent_winners_num, fifty);
        assert_eq!(lottery.ten_percent_winners_num, ten);
        assert_eq!(lottery.cashbacked_num, cashback);
    }
}

#[test]
fn new_big_lottery_rejects_bad_numbers_of_participants() {
    for num in 0..=200u32 {
        let res = BigLottery::new(0, "near".to_string(), num, 3);
        if num % 2 != 0 {
            assert_eq!(res.unwrap_err(), LotteryError::NotDivisibleByTwo);
        } else if num % 5 != 0 {
            assert_eq!(res.unwrap_err(), LotteryError::NotDivisibleByFive);
        } else if num > 64 {
            assert_eq!(res.unwrap_err(), LotteryError::TooManyParticipants);
        } else if num == 0 {
            assert_eq!(res.unwrap_err(), LotteryError::NumParticipantsZero);
        } else {
            assert!(res.is_ok());
        }
    }
    assert_eq!(
        BigLottery::new(0, "near".to_string(), u32::MAX, 3).unwrap_err(),
        LotteryError::NotDivisibleByTwo
    );
    assert_eq!(
        BigLottery::new(0, "near".to_string(), 70, 3).unwrap_err(),
        LotteryError::TooManyParticipants
    );
    assert_eq!(
        BigLottery::new(0, "near".to_string(), 15, 3).unwrap_err(),
        LotteryError::NotDivisibleByTwo
    );
    assert_eq!(
        BigLottery::new(0, "near".to_string(), 12, 3).unwrap_err(),
        LotteryError::NotDivisibleByFive
    );
}

#[test]
fn new_big_lottery_rejects_bad_entry_fees() {
    assert_eq!(
        BigLottery::new(0, "near".to_string(), 10, 0).unwrap_err(),
        LotteryError::EntryFeeZero
    );
    assert_eq!(
        BigLottery::new(0, "near".to_string(), 10, u128::MAX / 10 + 1).unwrap_err(),
        LotteryError::PoolOverflow
    );
    assert!(BigLottery::new(0, "near".to_string(), 10, u128::MAX / 10).is_ok());
    // the number of participants is looked at first
    assert_eq!(
        BigLottery::new(0, "near".to_string(), 11, 0).unwrap_err(),
        LotteryError::NotDivisibleByTwo
    );
}

#[test]
fn big_lottery_end_to_end() {
    let lottery = filled(50, 3);
    assert_eq!(lottery.current_pool, 150);
    assert_eq!(lottery.assert_is_finished(), Ok(()));
    let fifty = lottery.get_winners(WinnerType::UpToFiftyPercent);
    let ten = lottery.get_winners(WinnerType::UpToTenPercent);
    let cashback = lottery.get_winners(WinnerType::Cashback);
    assert_eq!(fifty.len(), 10);
    assert_eq!(ten.len(), 15);
    assert_eq!(cashback.len(), 25);

    // no account is in two tiers or twice in one, and none is missing
    let mut all: Vec<AccountId> = Vec::new();
    all.extend_from_slice(fifty);
    all.extend_from_slice(ten);
    all.extend_from_slice(cashback);
    assert!(check_account_duplicates(&all));
    let mut sorted = all.clone();
    sorted.sort();
    let mut entered: Vec<AccountId> = lottery.entries.iter().map(|e| e.account_id.clone()).collect();
    entered.sort();
    assert_eq!(sorted, entered);

    // the tiers are the entries in the order that the seed gives them
    let order = shuffled_positions(&SEED, 50);
    let arranged: Vec<AccountId> = order.iter().map(|&at| account(at as u32)).collect();
    assert_eq!(all, arranged);
    assert_ne!(entered, arranged);

    // with whole units the tiers get 4, 3 and 1 of a fee of 3
    let payout = big_payout(&lottery, 0, 4000).unwrap();
    assert_eq!(
        payout,
        BigPayout {
            reward_fifty_percents_up: 4,
            reward_ten_percents_up: 3,
            cashback: 1,
            treasury_fees: 0,
            investor_fees: 16,
            contract_fees: 24,
        }
    );
    assert_eq!(4 * 10 + 3 * 15 + 1 * 25 + 16 + 24, 150);
}

#[test]
fn big_lottery_contract_fee_is_what_the_tiers_leave() {
    let unit: u128 = 1_000_000_000_000_000_000_000_000;
    let lottery = filled(50, 3 * unit);
    let (payout, transfers, cashback) = distribute_big(&lottery, &config(0, 0)).unwrap();
    assert_eq!(payout.reward_fifty_percents_up, 3 * unit + 3 * unit / 2);
    assert_eq!(payout.reward_ten_percents_up, 3 * unit + 3 * unit / 10);
    assert_eq!(payout.cashback, 3 * unit / 2);
    // 150 - (3 * 1.5 * 10 + 3 * 1.1 * 15 + 3 * 0.5 * 25) = 18
    assert_eq!(payout.contract_fees, 18 * unit);
    assert_eq!(transfers.len(), 25);
    assert_eq!(cashback.amount, 3 * unit / 2);
    assert_eq!(cashback.accounts, lottery.get_winners(WinnerType::Cashback));
    for (index, transfer) in transfers.iter().enumerate() {
        assert_eq!(transfer.token_id, "near");
        if index < 10 {
            assert_eq!(transfer.receiver_id, lottery.get_winners(WinnerType::UpToFiftyPercent)[index]);
            assert_eq!(transfer.amount, payout.reward_fifty_percents_up);
        } else {
            assert_eq!(transfer.receiver_id, lottery.get_winners(WinnerType::UpToTenPercent)[index - 10]);
            assert_eq!(transfer.amount, payout.reward_ten_percents_up);
        }
    }
    let paid: u128 = transfers.iter().map(|transfer| transfer.amount).sum();
    assert_eq!(paid + 25 * cashback.amount + payout.contract_fees, 150 * unit);
}

#[test]
fn big_lottery_payout_with_fees_and_referrers() {
    let mut lottery = filled(10, 1000);
    lottery.add_refferal_transfered(100);
    let (payout, transfers, cashback) = distribute_big(&lottery, &config(6000, 1000)).unwrap();
    // the tiers get 2 * 1500 + 3 * 1100 + 5 * 500 = 8800 of 10000; of the
    // 1200 left, 100 have gone to referrers
    assert_eq!(
        payout,
        BigPayout {
            reward_fifty_percents_up: 1500,
            reward_ten_percents_up: 1100,
            cashback: 500,
            treasury_fees: 660,
            investor_fees: 110,
            contract_fees: 330,
        }
    );
    assert_eq!(transfers.len(), 2 + 3 + 2);
    assert_eq!(transfers[5].receiver_id, "treasury.near");
    assert_eq!(transfers[5].amount, 660);
    assert_eq!(transfers[6].receiver_id, "investor.near");
    assert_eq!(transfers[6].amount, 110);
    assert_eq!(cashback.accounts.len(), 5);
    let paid: u128 = transfers.iter().map(|transfer| transfer.amount).sum();
    assert_eq!(paid + 5 * 500 + 100 + 330, 10000);
}

#[test]
fn big_lottery_payout_errors() {
    let mut lottery = filled(10, 1000);
    lottery.add_refferal_transfered(1200);
    assert_eq!(big_payout(&lottery, 0, 0).unwrap_err(), LotteryError::ReferralAboveFees);
    // a fee of 1 leaves the tiers 2 + 3 + 0 of 10, no more than the fee
    let small = filled(10, 1);
    assert_eq!(big_payout(&small, 0, 0).unwrap_err(), LotteryError::RewardBelowFees);
    let open = BigLottery::new(0, "near".to_string(), 10, 1000).unwrap();
    assert_eq!(distribute_big(&open, &config(0, 0)).unwrap_err(), LotteryError::PoolNotFilled);
}

#[test]
fn big_lottery_rejects_duplicates_and_wrong_fees_and_closes() {
    let mut lottery = BigLottery::new(0, "near".to_string(), 10, 5).unwrap();
    assert_eq!(lottery.draw_enter(&account(0), 6, None, &SEED).unwrap_err(), LotteryError::WrongEntryFee);
    assert_eq!(lottery.draw_enter(&account(0), 5, None, &SEED), Ok(LotteryStatus::Active));
    assert_eq!(lottery.draw_enter(&account(0), 5, None, &SEED).unwrap_err(), LotteryError::AlreadyEntered);
    assert_eq!(lottery.entries.len(), 1);
    assert_eq!(lottery.current_pool, 5);
    let mut full = filled(10, 5);
    let winners: Vec<AccountId> = full.get_winners(WinnerType::Cashback).to_vec();
    // a finished pool answers with its status and stays as it was
    assert_eq!(full.draw_enter(&account(11), 5, None, &[1; 32]), Ok(LotteryStatus::Finished));
    assert_eq!(full.draw_enter(&account(0), 6, None, &[1; 32]), Ok(LotteryStatus::Finished));
    assert_eq!(full.current_pool, 50);
    assert_eq!(full.update(&[1; 32]), LotteryStatus::Finished);
    assert_eq!(full.get_winners(WinnerType::Cashback), winners);
    assert_eq!(full.entries.len(), 10);
}

#[test]
fn assign_tiers_cuts_the_arranged_entries() {
    let entries: Vec<Entry> = (0..5).map(|i| Entry { account_id: account(i), referrer_id: None }).collect();
    let order = vec![3usize, 0, 4, 1, 2];
    let TierWinners { up_to_fifty_percent, up_to_ten_percent, cashback } = assign_tiers(&entries, &order, 1, 2);
    assert_eq!(up_to_fifty_percent, vec![account(3)]);
    assert_eq!(up_to_ten_percent, vec![account(0), account(4)]);
    assert_eq!(cashback, vec![account(1), account(2)]);
    let all = assign_tiers(&entries, &order, 0, 0);
    assert!(all.up_to_fifty_percent.is_empty());
    assert!(all.up_to_ten_percent.is_empty());
    assert_eq!(all.cashback.len(), 5);
    assert_eq!(all.clone().cashback, all.cashback);
}

#[test]
fn check_account_duplicates_finds_equal_accounts() {
    assert!(check_account_duplicates(&vec![]));
    assert!(check_account_duplicates(&vec![account(1)]));
    assert!(check_account_duplicates(&vec![account(1), account(2), account(3)]));
    assert!(!check_account_duplicates(&vec![account(1), account(1)]));
    assert!(!check_account_duplicates(&vec![account(1), account(2), account(1)]));
    assert!(!check_account_duplicates(&vec![account(3), account(2), account(1), account(2)]));
}

#[test]
fn lottery_of_the_big_kind() {
    let mut lottery = Lottery::Lottery(BigLottery::new(9, "near".to_string(), 10, 3).unwrap());
    assert_eq!(lottery.kind(), BIG_LOTTERY);
    assert_eq!(lottery.get_id(), 9);
    assert_eq!(lottery.status(), LotteryStatus::Active);
    assert_eq!(lottery.num_participants(), 10);
    assert_eq!(lottery.entry_fee(), 3);
    assert_eq!(lottery.lottery_token_id(), "near");
    for index in 0..10 {
        let status = lottery.draw_enter(&account(index), 3, None, &SEED).unwrap();
        assert_eq!(status == LotteryStatus::Finished, index == 9);
    }
    assert_eq!(lottery.status(), LotteryStatus::Finished);
    assert_eq!(lottery.check_admission(&account(20), 3), None);
    assert_eq!(lottery.draw_enter(&account(20), 3, None, &SEED), Ok(LotteryStatus::Finished));
    assert!(lottery.rewards_referrers());
    let (status, transfers) = lottery
        .enter_pool(&account(20), 3, Some(account(30)), &"near".to_string(), &SEED)
        .unwrap();
    assert_eq!(status, LotteryStatus::Finished);
    assert!(transfers.is_empty());
    assert_eq!(lottery.refferal_transfered(), 0);
    let mut open = Lottery::Lottery(BigLottery::new(9, "near".to_string(), 10, 1000).unwrap());
    let (status, transfers) = open
        .enter_pool(&account(1), 1000, Some(account(30)), &"near".to_string(), &SEED)
        .unwrap();
    assert_eq!(status, LotteryStatus::Active);
    // a tiered pool pays the referrer one percent of the fee on admission
    assert_eq!(transfers.len(), 1);
    assert_eq!(transfers[0].receiver_id, account(30));
    assert_eq!(transfers[0].token_id, "near");
    assert_eq!(transfers[0].amount, 10);
    assert_eq!(open.refferal_transfered(), 10);
    let copy = lottery.clone();
    match (&lottery, &copy) {
        (Lottery::Lottery(pool), Lottery::Lottery(like)) => {
            assert_eq!(pool.get_winners(WinnerType::UpToFiftyPercent), like.get_winners(WinnerType::UpToFiftyPercent));
            assert_eq!(pool.get_winners(WinnerType::UpToTenPercent), like.get_winners(WinnerType::UpToTenPercent));
            assert_eq!(pool.get_winners(WinnerType::Cashback), like.get_winners(WinnerType::Cashback));
        }
        _ => panic!("the pool changed its kind"),
    }
}
