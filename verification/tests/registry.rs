use lottery_engine::config::Config;
use lottery_engine::distribution::{cashback_transfers_of, fee_balance_of};
use lottery_engine::errors::LotteryError;
use lottery_engine::fungible_token::TokenReceiverMsg;
use lottery_engine::lottery::{Lottery, LotteryStatus, BIG_LOTTERY, SIMPLE_LOTTERY};
use lottery_engine::lottery_config::{LotteryType, StoredCashback};
use lottery_engine::simple_lottery::SimpleLottery;
use lottery_engine::utils::match_token_id;
use lottery_engine::views::LotteryResult;
use lottery_engine::{AccountId, Balance, Contract};

const SEED: [u8; 32] = [8; 32];

fn config(contract_fee_ratio: u32) -> Config {
    Config {
        owner_id: "owner.near".to_string(),
        contract_fee_ratio,
        treasury_ratio: 2000,
        investor_ratio: 3000,
        treasury: "treasury.near".to_string(),
        investor: "investor.near".to_string(),
        accepted_subs: "sub.near".to_string(),
    }
}

fn contract(contract_fee_ratio: u32) -> Contract {
    Contract::new(
        config(contract_fee_ratio),
        vec![("near".to_string(), vec![100, 1000]), ("usdt.near".to_string(), vec![100])],
        vec![1, 2, 3],
        vec![10, 12, 70],
    )
    .unwrap()
}

fn account(index: u32) -> AccountId {
    format!("user{}.sub.near", index)
}

fn near() -> AccountId {
    "near".to_string()
}

fn enter(contract: &mut Contract, index: u32, kind: LotteryType, num: u32, fee: Balance) -> Result<
    lottery_engine::registry::EnterOutcome,
    LotteryError,
> {
    contract.draw_enter(&account(index), near(), kind, num, fee, None, &SEED)
}

#[test]
fn entries_find_the_pool_with_their_parameters() {
    let mut contract = contract(1000);
    let first = enter(&mut contract, 1, LotteryType::SimpleLottery, 3, 100).unwrap();
    let second = enter(&mut contract, 1, LotteryType::SimpleLottery, 2, 100).unwrap();
    let third = enter(&mut contract, 1, LotteryType::SimpleLottery, 3, 1000).unwrap();
    let fourth = contract
        .draw_enter(&account(1), "usdt.near".to_string(), LotteryType::SimpleLottery, 3, 100, None, &SEED)
        .unwrap();
    assert_eq!(
        (first.lottery_id, second.lottery_id, third.lottery_id, fourth.lottery_id),
        (0, 1, 2, 3)
    );
    assert_eq!(contract.get_lotteries_num(), 4);
    assert_eq!(contract.next_lottery_id, 4);
    let joined = enter(&mut contract, 2, LotteryType::SimpleLottery, 3, 100).unwrap();
    assert_eq!(joined.lottery_id, 0);
    assert_eq!(contract.get_lotteries_num(), 4);
    assert_eq!(contract.next_lottery_id, 4);
    assert_eq!(contract.get_lottery(0).unwrap().entries, vec![account(1), account(2)]);
    assert_eq!(contract.get_lottery(1).unwrap().entries, vec![account(1)]);
    assert_eq!(contract.lottery_position_by_parameters(&near(), 2, 100), Some(1));
    assert_eq!(contract.lottery_position_by_parameters(&near(), 2, 1000), None);
    assert_eq!(contract.internal_get_lottery_by_parameters(&near(), 3, 1000).unwrap().get_id(), 2);
    assert!(contract.internal_get_lottery_by_parameters(&"dai.near".to_string(), 3, 100).is_none());
    assert_eq!(contract.lottery_position(3), Some(3));
    assert_eq!(contract.lottery_position(4), None);
    assert_eq!(contract.internal_get_lottery(1).unwrap().num_participants(), 2);
    assert!(contract.internal_get_lottery(9).is_none());
    assert!(contract.get_lottery(9).is_none());
    // an entry joins the open pool with its parameters, whatever its kind
    let other_kind = enter(&mut contract, 3, LotteryType::BigLottery, 2, 100).unwrap();
    assert_eq!(other_kind.lottery_id, 1);
    assert_eq!(other_kind.lottery_status, LotteryStatus::Finished);
}

#[test]
fn finished_pool_leaves_the_registry_and_the_fee_stays() {
    let mut contract = contract(1000);
    enter(&mut contract, 1, LotteryType::SimpleLottery, 2, 1000).unwrap();
    enter(&mut contract, 1, LotteryType::SimpleLottery, 3, 1000).unwrap();
    let outcome = enter(&mut contract, 2, LotteryType::SimpleLottery, 2, 1000).unwrap();
    assert_eq!(outcome.lottery_id, 0);
    assert_eq!(outcome.lottery_status, LotteryStatus::Finished);
    assert_eq!(contract.get_lotteries_num(), 1);
    assert!(contract.get_lottery(0).is_none());
    assert_eq!(contract.get_lottery(1).unwrap().entries.len(), 1);
    // 10% of 2000 is the fee; 20% and 30% of it go on, half of it stays
    let amounts: Vec<Balance> = outcome.transfers.iter().map(|transfer| transfer.amount).collect();
    assert_eq!(amounts, vec![1800, 40, 60]);
    assert_eq!(outcome.transfers[1].receiver_id, "treasury.near");
    assert_eq!(outcome.transfers[2].receiver_id, "investor.near");
    assert_eq!(contract.fees, vec![(near(), 100)]);
    assert_eq!(fee_balance_of(&contract.fees, &near()), 100);
    assert_eq!(fee_balance_of(&contract.fees, &"usdt.near".to_string()), 0);
    match outcome.lottery_result.unwrap() {
        LotteryResult::SimpleLotteryResult(result) => {
            // the seed's bytes add up to 256, an even number
            assert_eq!(result.winner, account(1));
            assert_eq!(result.participants, vec![account(1), account(2)]);
            assert_eq!(result.winning_amount, 1800);
            assert_eq!(result.contract_fee, 100);
            assert_eq!(result.lottery_token_id, "near");
        }
        LotteryResult::BigLotteryResult(_) => panic!("a single-winner pool was finished"),
    }
    // a later pool of the same parameters is a new one
    let next = enter(&mut contract, 1, LotteryType::SimpleLottery, 2, 1000).unwrap();
    assert_eq!(next.lottery_id, 2);
    enter(&mut contract, 2, LotteryType::SimpleLottery, 2, 1000).unwrap();
    assert_eq!(contract.fees, vec![(near(), 200)]);
}

#[test]
fn pool_of_one_is_paid_out_at_once() {
    let mut contract = contract(1000);
    let outcome = enter(&mut contract, 1, LotteryType::SimpleLottery, 1, 1000).unwrap();
    assert_eq!(outcome.lottery_status, LotteryStatus::Finished);
    assert_eq!(outcome.lottery_id, 0);
    assert_eq!(contract.next_lottery_id, 1);
    assert_eq!(contract.get_lotteries_num(), 0);
    assert_eq!(contract.fees, vec![(near(), 50)]);
}

#[test]
fn rejected_entries_change_nothing() {
    let mut contract = contract(5000);
    // half of the pool as the fee leaves a reward that does not exceed it
    enter(&mut contract, 1, LotteryType::SimpleLottery, 2, 1000).unwrap();
    let before = format!("{:?}", contract);
    assert_eq!(
        enter(&mut contract, 2, LotteryType::SimpleLottery, 2, 1000).unwrap_err(),
        LotteryError::RewardBelowFees
    );
    assert_eq!(format!("{:?}", contract), before);
    assert_eq!(
        enter(&mut contract, 1, LotteryType::SimpleLottery, 2, 1000).unwrap_err(),
        LotteryError::AlreadyEntered
    );
    assert_eq!(
        enter(&mut contract, 1, LotteryType::SimpleLottery, 1, 1000).unwrap_err(),
        LotteryError::RewardBelowFees
    );
    assert_eq!(
        enter(&mut contract, 1, LotteryType::SimpleLottery, 2, 7).unwrap_err(),
        LotteryError::UnsupportedEntryFee
    );
    assert_eq!(
        contract
            .draw_enter(&account(1), "dai.near".to_string(), LotteryType::SimpleLottery, 2, 100, None, &SEED)
            .unwrap_err(),
        LotteryError::NoEntryFeesForToken
    );
    assert_eq!(
        enter(&mut contract, 1, LotteryType::SimpleLottery, 10, 100).unwrap_err(),
        LotteryError::UnsupportedNumParticipants
    );
    assert_eq!(
        enter(&mut contract, 1, LotteryType::BigLottery, 3, 100).unwrap_err(),
        LotteryError::UnsupportedNumParticipants
    );
    assert_eq!(
        enter(&mut contract, 1, LotteryType::BigLottery, 12, 100).unwrap_err(),
        LotteryError::NotDivisibleByFive
    );
    assert_eq!(
        enter(&mut contract, 1, LotteryType::BigLottery, 70, 100).unwrap_err(),
        LotteryError::TooManyParticipants
    );
    assert_eq!(format!("{:?}", contract), before);
    contract.next_lottery_id = u64::MAX;
    assert_eq!(
        enter(&mut contract, 1, LotteryType::SimpleLottery, 3, 100).unwrap_err(),
        LotteryError::TooManyLotteries
    );
    // an open pool still takes entries
    assert_eq!(contract.get_lottery(0).unwrap().entries.len(), 1);
}

#[test]
fn retained_fee_that_overflows_is_rejected() {
    let mut contract = contract(1000);
    contract.fees.push((near(), u128::MAX - 49));
    assert_eq!(
        enter(&mut contract, 1, LotteryType::SimpleLottery, 1, 1000).unwrap_err(),
        LotteryError::BalanceOverflow
    );
    assert_eq!(contract.next_lottery_id, 0);
    assert_eq!(contract.deposit_fees(&near(), 50), Err(LotteryError::BalanceOverflow));
    assert_eq!(contract.deposit_fees(&near(), 49), Ok(()));
    assert_eq!(contract.deposit_fees(&"usdt.near".to_string(), 5), Ok(()));
    assert_eq!(contract.deposit_fees(&"usdt.near".to_string(), 6), Ok(()));
    assert_eq!(contract.fees, vec![(near(), u128::MAX), ("usdt.near".to_string(), 11)]);
}

#[test]
fn referrer_of_a_single_winner_pool_is_paid_from_the_payout() {
    let mut contract = contract(1000);
    let referrer = Some("friend.near".to_string());
    let first = contract
        .draw_enter(&account(1), near(), LotteryType::SimpleLottery, 2, 1000, referrer.clone(), &SEED)
        .unwrap();
    assert!(first.transfers.is_empty());
    match &contract.lotteries[0] {
        Lottery::SimpleLottery(pool) => {
            assert_eq!(pool.refferal_transfered, 0);
            assert_eq!(pool.entries[0].referrer_id, referrer);
        }
        Lottery::Lottery(_) => panic!("a single-winner pool was opened"),
    }
    let second = contract
        .draw_enter(&account(2), near(), LotteryType::SimpleLottery, 2, 1000, None, &SEED)
        .unwrap();
    // the winner's payout of 1800 is cut by one percent for the referrer of
    // its entry; the fee of 200 is split whole
    let amounts: Vec<Balance> = second.transfers.iter().map(|transfer| transfer.amount).collect();
    assert_eq!(amounts, vec![1782, 18, 40, 60]);
    assert_eq!(second.transfers[1].receiver_id, "friend.near");
    assert_eq!(contract.fees, vec![(near(), 100)]);
    assert_eq!(1782 + 18 + 40 + 60 + 100, 2000);
}

#[test]
fn referrers_of_a_tiered_pool_are_paid_on_each_entry() {
    let mut contract = contract(1000);
    let referrer = Some("friend.near".to_string());
    for index in 0..9 {
        let outcome = contract
            .draw_enter(&account(index), near(), LotteryType::BigLottery, 10, 1000, referrer.clone(), &SEED)
            .unwrap();
        assert_eq!(outcome.transfers.len(), 1);
        assert_eq!(outcome.transfers[0].receiver_id, "friend.near");
        assert_eq!(outcome.transfers[0].token_id, "near");
        assert_eq!(outcome.transfers[0].amount, 10);
    }
    match &contract.lotteries[0] {
        Lottery::Lottery(pool) => assert_eq!(pool.refferal_transfered, 90),
        Lottery::SimpleLottery(_) => panic!("a tiered pool was opened"),
    }
    let last = contract
        .draw_enter(&account(9), near(), LotteryType::BigLottery, 10, 1000, referrer, &SEED)
        .unwrap();
    // the tiers leave 1200 of 10000; the 100 of the referrers leave the fee
    // before 20% and 30% of it go on
    let amounts: Vec<Balance> = last.transfers.iter().map(|transfer| transfer.amount).collect();
    assert_eq!(amounts, vec![10, 1500, 1500, 1100, 1100, 1100, 220, 330]);
    assert_eq!(contract.fees, vec![(near(), 550)]);
    assert_eq!(100 + 2 * 1500 + 3 * 1100 + 5 * 500 + 220 + 330 + 550, 10000);
}

#[test]
fn tiered_pool_queues_its_cashback() {
    let mut contract = contract(1000);
    for index in 0..9 {
        let outcome = enter(&mut contract, index, LotteryType::BigLottery, 10, 1000).unwrap();
        assert_eq!(outcome.lottery_status, LotteryStatus::Active);
    }
    let outcome = enter(&mut contract, 9, LotteryType::BigLottery, 10, 1000).unwrap();
    assert_eq!(outcome.lottery_status, LotteryStatus::Finished);
    // the tiers get 8800 of 10000; of the 1200 left 20% and 30% go on
    let amounts: Vec<Balance> = outcome.transfers.iter().map(|transfer| transfer.amount).collect();
    assert_eq!(amounts, vec![1500, 1500, 1100, 1100, 1100, 240, 360]);
    assert_eq!(contract.fees, vec![(near(), 600)]);
    assert_eq!(contract.cashback_accounts.len(), 1);
    assert_eq!(contract.cashback_accounts[0].0, "near");
    assert_eq!(contract.cashback_accounts[0].1.amount, 500);
    assert_eq!(contract.cashback_accounts[0].1.accounts.len(), 5);
    assert_eq!(contract.get_contract_view().cashback_accounts_num, vec![(near(), 5)]);
    let queued = cashback_transfers_of(&contract.cashback_accounts);
    assert_eq!(queued.len(), 5);
    let paid: Balance = amounts.iter().sum();
    assert_eq!(paid + 5 * 500 + 600, 10000);

    // the next pool that stays open hands the cashback out
    let next = enter(&mut contract, 0, LotteryType::SimpleLottery, 2, 100).unwrap();
    assert_eq!(next.transfers.len(), 5);
    for (transfer, expected) in next.transfers.iter().zip(queued.iter()) {
        assert_eq!(transfer.receiver_id, expected.receiver_id);
        assert_eq!(transfer.token_id, "near");
        assert_eq!(transfer.amount, 500);
    }
    assert!(contract.cashback_accounts.is_empty());
    assert!(contract.update_cashback_storage().is_empty());
}

#[test]
fn cashback_queue_is_handed_out_in_order() {
    let mut contract = contract(1000);
    contract.cashback_accounts.push((
        near(),
        StoredCashback { amount: 5, accounts: vec![account(1), account(2)] },
    ));
    contract.cashback_accounts.push((
        "usdt.near".to_string(),
        StoredCashback { amount: 7, accounts: vec![account(3)] },
    ));
    let transfers = contract.update_cashback_storage();
    let seen: Vec<(AccountId, AccountId, Balance)> = transfers
        .into_iter()
        .map(|transfer| (transfer.receiver_id, transfer.token_id, transfer.amount))
        .collect();
    assert_eq!(
        seen,
        vec![
            (account(1), near(), 5),
            (account(2), near(), 5),
            (account(3), "usdt.near".to_string(), 7),
        ]
    );
    assert!(contract.cashback_accounts.is_empty());
}

#[test]
fn new_pools_take_the_next_identifier() {
    let mut contract = contract(1000);
    let made = contract.new_lottery(near(), LotteryType::SimpleLottery, 3, 100).unwrap();
    assert_eq!(made.get_id(), 0);
    assert_eq!(contract.next_lottery_id, 0);
    let first = contract.add_new_lottery(near(), LotteryType::SimpleLottery, 3, 100).unwrap();
    let second = contract.add_new_lottery(near(), LotteryType::BigLottery, 10, 1000).unwrap();
    assert_eq!((first.get_id(), second.get_id()), (0, 1));
    assert_eq!(first.kind(), SIMPLE_LOTTERY);
    assert_eq!(second.kind(), BIG_LOTTERY);
    assert_eq!(second.num_participants(), 10);
    assert_eq!(contract.next_lottery_id, 2);
    // the pools are handed out, not kept
    assert_eq!(contract.get_lotteries_num(), 0);
    assert_eq!(
        contract.add_new_lottery(near(), LotteryType::SimpleLottery, 3, 5).unwrap_err(),
        LotteryError::UnsupportedEntryFee
    );
    assert_eq!(contract.next_lottery_id, 2);
    assert_eq!(contract.assert_required_entry_fees(&near(), 100, LotteryType::SimpleLottery), Ok(()));
    assert_eq!(
        contract.assert_required_entry_fees(&near(), 5, LotteryType::BigLottery),
        Err(LotteryError::UnsupportedEntryFee)
    );
    assert_eq!(contract.assert_required_num_participants(3, LotteryType::SimpleLottery), Ok(()));
    assert_eq!(contract.assert_required_num_participants(10, LotteryType::BigLottery), Ok(()));
    assert_eq!(
        contract.assert_required_num_participants(10, LotteryType::SimpleLottery),
        Err(LotteryError::UnsupportedNumParticipants)
    );
    let transfers = contract.internal_set_lottery(&0, first);
    assert!(transfers.is_empty());
    assert_eq!(contract.get_lotteries_num(), 1);
    let mut replaced = SimpleLottery::new(0, near(), 3, 100).unwrap();
    replaced.draw_enter(&account(1), 100, None, &SEED).unwrap();
    contract.internal_set_lottery(&0, Lottery::SimpleLottery(replaced));
    assert_eq!(contract.get_lotteries_num(), 1);
    assert_eq!(contract.get_lottery(0).unwrap().entries, vec![account(1)]);
}

#[test]
fn native_entries_come_from_accepted_subaccounts() {
    let mut contract = contract(1000);
    let outcome = contract
        .draw_near_enter(&account(1), 100, SIMPLE_LOTTERY.to_string(), 2, None, &SEED)
        .unwrap();
    assert_eq!(outcome.lottery_id, 0);
    assert_eq!(contract.get_lottery(0).unwrap().lottery_token_id, "near");
    assert_eq!(
        contract
            .draw_near_enter(&"user.near".to_string(), 100, SIMPLE_LOTTERY.to_string(), 2, None, &SEED)
            .unwrap_err(),
        LotteryError::InvalidSubaccount
    );
    assert_eq!(
        contract
            .draw_near_enter(&account(2), 100, "LOTTERY".to_string(), 2, None, &SEED)
            .unwrap_err(),
        LotteryError::UnknownLotteryType
    );
    assert_eq!(
        contract
            .draw_near_enter(&account(1), 100, SIMPLE_LOTTERY.to_string(), 2, None, &SEED)
            .unwrap_err(),
        LotteryError::AlreadyEntered
    );
    assert_eq!(contract.get_lottery(0).unwrap().entries, vec![account(1)]);
}

#[test]
fn token_entries_need_a_whitelisted_token() {
    let mut contract = contract(1000);
    let msg = |kind: &str| TokenReceiverMsg::DrawEnter {
        num_participants: 2,
        lottery_type: kind.to_string(),
        referrer_id: None,
    };
    assert_eq!(
        contract
            .ft_on_transfer("usdt.near".to_string(), account(1), 100, msg(SIMPLE_LOTTERY), &SEED)
            .unwrap_err(),
        LotteryError::NotWhitelisted
    );
    contract.whitelist_token(&"owner.near".to_string(), 1, "usdt.near".to_string()).unwrap();
    assert_eq!(
        contract
            .ft_on_transfer("usdt.near".to_string(), account(1), 100, msg("OTHER"), &SEED)
            .unwrap_err(),
        LotteryError::UnknownLotteryType
    );
    assert_eq!(
        contract
            .ft_on_transfer("usdt.near".to_string(), account(1), 50, msg(SIMPLE_LOTTERY), &SEED)
            .unwrap_err(),
        LotteryError::UnsupportedEntryFee
    );
    let outcome = contract
        .ft_on_transfer("usdt.near".to_string(), account(1), 100, msg(SIMPLE_LOTTERY), &SEED)
        .unwrap();
    assert_eq!(outcome.lottery_status, LotteryStatus::Active);
    assert_eq!(contract.get_lottery(0).unwrap().lottery_token_id, "usdt.near");
}

#[test]
fn pools_are_shown_page_by_page() {
    let mut contract = contract(1000);
    enter(&mut contract, 1, LotteryType::SimpleLottery, 3, 100).unwrap();
    enter(&mut contract, 1, LotteryType::SimpleLottery, 2, 100).unwrap();
    enter(&mut contract, 1, LotteryType::BigLottery, 10, 1000).unwrap();
    let ids = |pools: Vec<Lottery>| pools.iter().map(|pool| pool.get_id()).collect::<Vec<u64>>();
    assert_eq!(ids(contract.get_lotteries_paged(None, None)), vec![0, 1, 2]);
    assert_eq!(ids(contract.get_lotteries_paged(Some(1), None)), vec![1, 2]);
    assert_eq!(ids(contract.get_lotteries_paged(None, Some(2))), vec![0, 1]);
    assert_eq!(ids(contract.get_lotteries_paged(Some(1), Some(1))), vec![1]);
    assert_eq!(ids(contract.get_lotteries_paged(Some(2), Some(5))), vec![2]);
    assert_eq!(ids(contract.get_lotteries_paged(Some(3), Some(5))), Vec::<u64>::new());
    assert_eq!(ids(contract.get_lotteries_paged(Some(7), None)), Vec::<u64>::new());
    assert_eq!(ids(contract.get_lotteries_paged(Some(1), Some(0))), Vec::<u64>::new());
    assert_eq!(ids(contract.get_lotteries_paged(Some(u64::MAX), Some(u64::MAX))), Vec::<u64>::new());
    assert_eq!(ids(contract.get_lotteries_paged(Some(1), Some(u64::MAX))), vec![1, 2]);
    let shown = contract.get_lottery(2).unwrap();
    let params = shown.big_lottery_params.unwrap();
    assert_eq!(
        (params.fifty_percent_winners_num, params.ten_percent_winners_num, params.cashbacked_num),
        (2, 3, 5)
    );
    assert_eq!(shown.required_pool, 10000);
    assert_eq!(shown.current_pool, 1000);
    assert_eq!(shown.lottery_status, LotteryStatus::Active);
    assert!(contract.get_lottery(0).unwrap().big_lottery_params.is_none());
}

#[test]
fn known_tokens_have_symbols() {
    for (account, symbol) in [
        ("usn", "USN"),
        ("near", "NEAR"),
        ("dac17f958d2ee523a2206206994597c13d831ec7.factory.bridge.near", "USDT"),
        ("6b175474e89094c44da98b954eedeac495271d0f.factory.bridge.near", "DAI"),
        ("a0b86991c6218b36c1d19d4a2e9eb0ce3606eb48.factory.bridge.near", "USDC"),
        ("wrap.near", "WNEAR"),
        ("c02aaa39b223fe8d0a0e5c4f27ead9083c756cc2.factory.bridge.near", "WETH"),
        ("usdn.testnet", "USN"),
        ("guacharo.testnet", "GUA"),
        ("usdt.fakes.testnet", "USDT"),
        ("dai.fakes.testnet", "DAI"),
        ("usdc.fakes.testnet", "USDC"),
        ("wrap.testnet", "WNEAR"),
        ("weth.fakes.testnet", "WETH"),
    ] {
        assert_eq!(match_token_id(&account.to_string()), Some(symbol.to_string()));
    }
    assert_eq!(match_token_id(&"usdt.near".to_string()), None);
    assert_eq!(match_token_id(&String::new()), None);
}

#[test]
fn errors_have_messages() {
    assert_eq!(LotteryError::AlreadyEntered.message(), "Already entered");
    assert_eq!(LotteryError::NotOwner.message(), "Not an owner");
    assert_eq!(LotteryError::UnknownLotteryType.message(), "Unknown lottery type");
    assert_eq!(
        LotteryError::NotDivisibleByTwo.message(),
        "Number of participants must be divisible by two"
    );
    assert_eq!(LotteryError::NoWinner.message(), "Lottery has no winner");
    assert!(!LotteryError::BalanceOverflow.message().is_empty());
}
