use lottery_engine::assoc::{has_distinct_keys, key_position};
use lottery_engine::big_lottery::BigLottery;
use lottery_engine::config::{account_position, Config};
use lottery_engine::lottery::{
    check_open_pool_amounts, clone_accounts, clone_entries, contains_account, entry_accounts,
    has_distinct_accounts, Entry, Lottery,
};
use lottery_engine::lottery_config::{position_of_fee, position_of_num, LotteryType};
use lottery_engine::payout::{
    copy_accounts, push_optional_transfer, push_tier_transfers, split_fees, FeeSplit, Transfer,
};
use lottery_engine::simple_lottery::SimpleLottery;
use lottery_engine::utils::is_named;
use lottery_engine::views::{clone_amounts, clone_nums};
use lottery_engine::{AccountId, Contract};

const SEED: [u8; 32] = [8; 32];

fn contract() -> Contract {
    Contract::new(
        Config {
            owner_id: "owner.near".to_string(),
            contract_fee_ratio: 1000,
            treasury_ratio: 2000,
            investor_ratio: 3000,
            treasury: "treasury.near".to_string(),
            investor: "investor.near".to_string(),
            accepted_subs: "sub.near".to_string(),
        },
        vec![("near".to_string(), vec![100])],
        vec![2, 3],
        vec![10],
    )
    .unwrap()
}

fn entry(name: &str) -> Entry {
    Entry { account_id: name.to_string(), referrer_id: None }
}

#[test]
fn engine_stays_valid() {
    let mut contract = contract();
    assert!(contract.is_valid());
    for index in 0..25u32 {
        let kind = if index % 2 == 0 { LotteryType::SimpleLottery } else { LotteryType::BigLottery };
        let num = if index % 2 == 0 { 3 } else { 10 };
        contract
            .draw_enter(&format!("user{}", index), "near".to_string(), kind, num, 100, None, &SEED)
            .unwrap();
        assert!(contract.is_valid());
    }
    contract.whitelist_token(&"owner.near".to_string(), 1, "usdt.near".to_string()).unwrap();
    contract.add_entry_fee(&"owner.near".to_string(), 1, None, 7).unwrap();
    assert!(contract.is_valid());
}

#[test]
fn states_that_the_engine_would_not_leave_are_found() {
    let open = |id: u64| Lottery::SimpleLottery(SimpleLottery::new(id, "near".to_string(), 2, 100).unwrap());
    let mut twice = contract();
    twice.next_lottery_id = 5;
    twice.lotteries.push(open(1));
    assert!(twice.is_valid());
    twice.lotteries.push(open(1));
    assert!(!twice.is_valid());

    let mut ahead = contract();
    ahead.lotteries.push(open(0));
    assert!(!ahead.is_valid());

    let mut finished = contract();
    finished.next_lottery_id = 1;
    let mut pool = SimpleLottery::new(0, "near".to_string(), 1, 100).unwrap();
    pool.draw_enter(&"user".to_string(), 100, None, &SEED).unwrap();
    finished.lotteries.push(Lottery::SimpleLottery(pool));
    assert!(!finished.is_valid());

    let mut schedule = contract();
    schedule.config.treasury_ratio = 9000;
    assert!(!schedule.is_valid());

    let mut tables = contract();
    tables.lotteries_config.num_participants.clear();
    assert!(!tables.is_valid());

    let mut fees = contract();
    fees.fees.push(("near".to_string(), 1));
    assert!(fees.is_valid());
    fees.fees.push(("near".to_string(), 2));
    assert!(!fees.is_valid());

    let mut tokens = contract();
    tokens.whitelisted_tokens = vec!["a".to_string(), "b".to_string(), "a".to_string()];
    assert!(!tokens.is_valid());

    let mut entry_fees = contract();
    entry_fees.lotteries_config.entry_fees.push(("near".to_string(), vec![]));
    assert!(!entry_fees.is_valid());
}

#[test]
fn open_pools_are_told_from_broken_ones() {
    let fresh = || SimpleLottery::new(0, "near".to_string(), 3, 100).unwrap();
    assert!(Lottery::SimpleLottery(fresh()).is_open_pool());
    let mut entered = fresh();
    entered.draw_enter(&"a".to_string(), 100, None, &SEED).unwrap();
    assert!(Lottery::SimpleLottery(entered.clone()).is_open_pool());

    let mut wrong_balance = entered.clone();
    wrong_balance.current_pool = 150;
    assert!(!Lottery::SimpleLottery(wrong_balance).is_open_pool());
    let mut doubled = entered.clone();
    doubled.entries.push(entry("a"));
    doubled.current_pool = 200;
    assert!(!Lottery::SimpleLottery(doubled).is_open_pool());
    let mut uneven = fresh();
    uneven.required_pool = 250;
    assert!(!Lottery::SimpleLottery(uneven).is_open_pool());
    let mut no_fee = fresh();
    no_fee.entry_fee = 0;
    assert!(!Lottery::SimpleLottery(no_fee).is_open_pool());
    let mut early_winner = entered.clone();
    early_winner.winner = Some(entry("a"));
    assert!(!Lottery::SimpleLottery(early_winner).is_open_pool());

    let big = || BigLottery::new(0, "near".to_string(), 10, 100).unwrap();
    assert!(Lottery::Lottery(big()).is_open_pool());
    let mut sizes = big();
    sizes.cashbacked_num = 4;
    assert!(!Lottery::Lottery(sizes).is_open_pool());
    let mut odd = big();
    odd.required_pool = 1100;
    assert!(!Lottery::Lottery(odd).is_open_pool());
    let mut full = big();
    for index in 0..10 {
        full.draw_enter(&format!("user{}", index), 100, None, &SEED).unwrap();
    }
    assert!(!Lottery::Lottery(full).is_open_pool());
}

#[test]
fn open_pool_amounts() {
    assert!(check_open_pool_amounts(100, 0, 300, 0));
    assert!(check_open_pool_amounts(100, 200, 300, 2));
    assert!(!check_open_pool_amounts(100, 300, 300, 3));
    assert!(!check_open_pool_amounts(100, 200, 300, 1));
    assert!(!check_open_pool_amounts(0, 0, 300, 0));
    assert!(!check_open_pool_amounts(100, 0, 0, 0));
    assert!(!check_open_pool_amounts(100, 0, 350, 0));
    assert!(!check_open_pool_amounts(1, 0, 1 << 32, 0));
    assert!(check_open_pool_amounts(1, 0, (1 << 32) - 1, 0));
    assert!(!check_open_pool_amounts(u128::MAX, 0, u128::MAX, 2));
}

#[test]
fn lists_of_accounts_and_pairs() {
    let entries = vec![entry("a"), entry("b"), entry("c")];
    assert!(has_distinct_accounts(&entries));
    assert!(has_distinct_accounts(&vec![]));
    assert!(!has_distinct_accounts(&vec![entry("a"), entry("b"), entry("a")]));
    assert!(contains_account(&entries, &"b".to_string()));
    assert!(!contains_account(&entries, &"d".to_string()));
    assert_eq!(entry_accounts(&entries), vec!["a", "b", "c"]);
    assert_eq!(clone_entries(&entries).len(), 3);
    assert_eq!(clone_entries(&entries)[2].account_id, "c");
    let names: Vec<AccountId> = vec!["x".to_string(), "y".to_string()];
    assert_eq!(clone_accounts(&names), names);
    assert_eq!(copy_accounts(&names), names);
    assert_eq!(account_position(&names, &"y".to_string()), Some(1));
    assert_eq!(account_position(&names, &"z".to_string()), None);
    assert_eq!(clone_nums(&vec![3, 1, 2]), vec![3, 1, 2]);
    assert_eq!(clone_amounts(&vec![u128::MAX, 0]), vec![u128::MAX, 0]);
    let pairs = vec![("a".to_string(), 1u8), ("b".to_string(), 2), ("a".to_string(), 3)];
    assert_eq!(key_position(&pairs, &"a".to_string()), Some(0));
    assert_eq!(key_position(&pairs, &"b".to_string()), Some(1));
    assert_eq!(key_position(&pairs, &"c".to_string()), None);
    assert!(!has_distinct_keys(&pairs));
    assert!(has_distinct_keys(&pairs[..2].to_vec()));
    assert_eq!(position_of_num(&vec![5, 6, 5], 5), Some(0));
    assert_eq!(position_of_num(&vec![5, 6, 5], 6), Some(1));
    assert_eq!(position_of_num(&vec![5, 6, 5], 7), None);
    assert_eq!(position_of_fee(&vec![5, 6, 5], 6), Some(1));
    assert_eq!(position_of_fee(&vec![], 6), None);
    assert!(is_named(&"near".to_string(), "near"));
    assert!(!is_named(&"near".to_string(), "NEAR"));
}

#[test]
fn transfers_are_appended() {
    let mut transfers: Vec<Transfer> = Vec::new();
    let token = "near".to_string();
    push_optional_transfer(&mut transfers, &"a".to_string(), &token, 0);
    assert!(transfers.is_empty());
    push_optional_transfer(&mut transfers, &"a".to_string(), &token, 5);
    push_tier_transfers(&mut transfers, &["b".to_string(), "c".to_string()], &token, 7);
    push_tier_transfers(&mut transfers, &[], &token, 9);
    let seen: Vec<(&str, u128)> =
        transfers.iter().map(|transfer| (transfer.receiver_id.as_str(), transfer.amount)).collect();
    assert_eq!(seen, vec![("a", 5), ("b", 7), ("c", 7)]);
}

#[test]
fn contract_fee_is_split() {
    assert_eq!(
        split_fees(1000, 0, 6000, 1000),
        Ok(FeeSplit { treasury_fees: 600, investor_fees: 100, contract_fees: 300 })
    );
    assert_eq!(
        split_fees(1000, 100, 6000, 1000),
        Ok(FeeSplit { treasury_fees: 540, investor_fees: 90, contract_fees: 270 })
    );
    assert_eq!(
        split_fees(0, 0, 6000, 1000),
        Ok(FeeSplit { treasury_fees: 0, investor_fees: 0, contract_fees: 0 })
    );
    assert_eq!(split_fees(1000, 1000, 0, 0).unwrap_err(), lottery_engine::errors::LotteryError::ReferralAboveFees);
    // the shares are rounded down before they are added up
    assert!(split_fees(1000, 0, 6000, 4001).is_ok());
    assert_eq!(split_fees(10000, 0, 6000, 4001).unwrap_err(), lottery_engine::errors::LotteryError::FeesBelowCuts);
    assert!(split_fees(10000, 0, 6000, 4000).is_ok());
}
