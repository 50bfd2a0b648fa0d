use lottery_engine::config::{compute_internal_fee_ratio, Config, MAX_RATIO};
use lottery_engine::errors::LotteryError;
use lottery_engine::lottery::{BIG_LOTTERY, SIMPLE_LOTTERY};
use lottery_engine::lottery_config::{LotteryConfig, LotteryType};
use lottery_engine::{AccountId, Contract};

fn config(contract_fee_ratio: u32, treasury_ratio: u32, investor_ratio: u32) -> Config {
    Config {
        owner_id: "owner.near".to_string(),
        contract_fee_ratio,
        treasury_ratio,
        investor_ratio,
        treasury: "treasury.near".to_string(),
        investor: "investor.near".to_string(),
        accepted_subs: "sub.near".to_string(),
    }
}

fn contract() -> Contract {
    Contract::new(
        config(1000, 0, 4000),
        vec![("near".to_string(), vec![1, 3, 5])],
        vec![5, 6],
        vec![50],
    )
    .unwrap()
}

fn owner() -> AccountId {
    "owner.near".to_string()
}

#[test]
fn fee_schedule_validity() {
    assert_eq!(MAX_RATIO, 10000);
    assert_eq!(config(1000, 0, 4000).assert_valid(), Ok(()));
    assert_eq!(config(10000, 0, 0).assert_valid(), Ok(()));
    assert_eq!(config(0, 4499, 4500).assert_valid(), Ok(()));
    assert_eq!(config(10001, 0, 0).assert_valid(), Err(LotteryError::InvalidFeeSchedule));
    assert_eq!(config(0, 10001, 0).assert_valid(), Err(LotteryError::InvalidFeeSchedule));
    assert_eq!(config(0, 4500, 4500).assert_valid(), Err(LotteryError::InvalidFeeSchedule));
    assert_eq!(config(0, 0, 9000).assert_valid(), Err(LotteryError::InvalidFeeSchedule));
    assert_eq!(config(0, 1, u32::MAX).assert_valid(), Err(LotteryError::InvalidFeeSchedule));
    assert_eq!(config(0, u32::MAX, u32::MAX).assert_valid(), Err(LotteryError::InvalidFeeSchedule));
}

#[test]
fn internal_fee_is_a_share_of_the_contract_fee() {
    assert_eq!(compute_internal_fee_ratio(500, 6000), 300);
    assert_eq!(compute_internal_fee_ratio(500, 1000), 50);
    assert_eq!(compute_internal_fee_ratio(999, 1), 0);
    let contract = contract();
    assert_eq!(contract.get_contract_fee_ratio(), 1000);
    assert_eq!(contract.get_treasury_ratio_from_contract_fees(), 0);
    assert_eq!(contract.get_investor_ratio_from_contract_fees(), 4000);
    assert_eq!(contract.get_treasury_taken_amount(1000), 0);
    assert_eq!(contract.get_investor_taken_amount(1000), 400);
    assert_eq!(contract.treasury(), "treasury.near");
    assert_eq!(contract.investor(), "investor.near");
    assert_eq!(contract.accepted_subs(), "sub.near");
    assert_eq!(contract.internal_config().owner_id, "owner.near");
    assert_eq!(contract.internal_lottery_config().num_participants, vec![5, 6]);
}

#[test]
fn engine_setup_rejects_bad_configurations() {
    let fees = vec![("near".to_string(), vec![1u128])];
    assert_eq!(
        Contract::new(config(10001, 0, 0), fees.clone(), vec![5], vec![50]).unwrap_err(),
        LotteryError::InvalidFeeSchedule
    );
    assert_eq!(
        Contract::new(config(1000, 0, 0), vec![], vec![5], vec![50]).unwrap_err(),
        LotteryError::EmptyLotteryConfig
    );
    assert_eq!(
        Contract::new(config(1000, 0, 0), fees.clone(), vec![], vec![50]).unwrap_err(),
        LotteryError::EmptyLotteryConfig
    );
    assert_eq!(
        Contract::new(config(1000, 0, 0), fees.clone(), vec![5], vec![]).unwrap_err(),
        LotteryError::EmptyLotteryConfig
    );
    assert_eq!(
        Contract::new(config(10001, 0, 0), vec![], vec![], vec![]).unwrap_err(),
        LotteryError::InvalidFeeSchedule
    );
    let contract = Contract::new(config(1000, 0, 0), fees, vec![5], vec![50]).unwrap();
    assert_eq!(contract.next_lottery_id, 0);
    assert!(contract.lotteries.is_empty());
    assert!(contract.fees.is_empty());
    assert!(contract.whitelisted_tokens.is_empty());
    assert!(contract.cashback_accounts.is_empty());
}

#[test]
fn lottery_type_from_its_selector() {
    assert_eq!(LotteryType::from(SIMPLE_LOTTERY.to_string()), Ok(LotteryType::SimpleLottery));
    assert_eq!(LotteryType::from(BIG_LOTTERY.to_string()), Ok(LotteryType::BigLottery));
    assert_eq!(LotteryType::from("simple_lottery".to_string()), Err(LotteryError::UnknownLotteryType));
    assert_eq!(LotteryType::from(String::new()), Err(LotteryError::UnknownLotteryType));
}

#[test]
fn lottery_config_keeps_the_last_fees_of_an_asset() {
    let config = LotteryConfig::new(
        vec![
            ("near".to_string(), vec![1, 2]),
            ("usdt.near".to_string(), vec![7]),
            ("near".to_string(), vec![3]),
        ],
        vec![5],
        vec![50],
    );
    assert_eq!(config.entry_fees.len(), 2);
    let near_fees: Vec<&Vec<u128>> =
        config.entry_fees.iter().filter(|(token, _)| token == "near").map(|(_, fees)| fees).collect();
    assert_eq!(near_fees, vec![&vec![3u128]]);
    let usdt_fees: Vec<&Vec<u128>> = config
        .entry_fees
        .iter()
        .filter(|(token, _)| token == "usdt.near")
        .map(|(_, fees)| fees)
        .collect();
    assert_eq!(usdt_fees, vec![&vec![7u128]]);
    assert_eq!(config.assert_valid(), Ok(()));
    assert_eq!(
        LotteryConfig::new(vec![], vec![5], vec![50]).assert_valid(),
        Err(LotteryError::EmptyLotteryConfig)
    );
}

#[test]
fn lottery_config_numbers_of_participants() {
    let mut config = LotteryConfig::new(vec![("near".to_string(), vec![1])], vec![5, 6, 5], vec![50]);
    config.add_num_participants(7);
    assert_eq!(config.num_participants, vec![5, 6, 5, 7]);
    assert_eq!(config.remove_num_participants(5), Ok(()));
    assert_eq!(config.num_participants, vec![6, 5, 7]);
    assert_eq!(config.remove_num_participants(9), Err(LotteryError::NothingToRemove));
    assert_eq!(config.num_participants, vec![6, 5, 7]);
    config.add_big_lottery_num_participants(20);
    assert_eq!(config.big_lottery_num_participants, vec![50, 20]);
    assert_eq!(config.remove_big_lottery_num_participants(30), Err(LotteryError::NothingToRemove));
    assert_eq!(config.remove_big_lottery_num_participants(50), Ok(()));
    assert_eq!(config.big_lottery_num_participants, vec![20]);
    assert_eq!(config.remove_big_lottery_num_participants(20), Err(LotteryError::CannotRemoveLast));
    assert_eq!(config.big_lottery_num_participants, vec![20]);
    let mut empty = LotteryConfig::new(vec![], vec![], vec![]);
    assert_eq!(empty.remove_num_participants(5), Err(LotteryError::CannotRemoveLast));
    assert_eq!(empty.remove_big_lottery_num_participants(5), Err(LotteryError::CannotRemoveLast));
}

#[test]
fn lottery_config_entry_fees() {
    let mut config = LotteryConfig::new(vec![("near".to_string(), vec![1, 2, 1])], vec![5], vec![50]);
    config.add_entry_fee(None, 9);
    config.add_entry_fee(Some("usdt.near".to_string()), 4);
    config.add_entry_fee(Some("near".to_string()), 8);
    assert_eq!(
        config.entry_fees,
        vec![("near".to_string(), vec![1, 2, 1, 9, 8]), ("usdt.near".to_string(), vec![4])]
    );
    assert_eq!(config.remove_entry_fee(None, 1), Ok(()));
    assert_eq!(config.entry_fees[0].1, vec![2, 1, 9, 8]);
    assert_eq!(config.remove_entry_fee(Some("usdt.near".to_string()), 5), Err(LotteryError::NothingToRemove));
    assert_eq!(config.remove_entry_fee(Some("dai.near".to_string()), 4), Err(LotteryError::NothingToRemove));
    assert_eq!(config.remove_entry_fee(Some("usdt.near".to_string()), 4), Ok(()));
    assert_eq!(
        config.entry_fees,
        vec![("near".to_string(), vec![2, 1, 9, 8]), ("usdt.near".to_string(), vec![])]
    );
}

#[test]
fn only_the_owner_changes_the_configuration() {
    let mut contract = contract();
    let stranger = "user.near".to_string();
    assert_eq!(contract.assert_owner(&owner()), Ok(()));
    assert_eq!(contract.assert_owner(&stranger), Err(LotteryError::NotOwner));
    assert_eq!(contract.assert_owner_call(&owner(), 1), Ok(()));
    assert_eq!(contract.assert_owner_call(&owner(), 0), Err(LotteryError::RequiresOneYocto));
    assert_eq!(contract.assert_owner_call(&stranger, 2), Err(LotteryError::RequiresOneYocto));
    assert_eq!(contract.assert_owner_call(&stranger, 1), Err(LotteryError::NotOwner));
    assert_eq!(contract.add_entry_fee(&stranger, 1, None, 7), Err(LotteryError::NotOwner));
    assert_eq!(contract.remove_entry_fee(&stranger, 1, None, 1), Err(LotteryError::NotOwner));
    assert_eq!(
        contract.add_num_participants(&owner(), 2, 7, SIMPLE_LOTTERY.to_string()),
        Err(LotteryError::RequiresOneYocto)
    );
    assert_eq!(
        contract.remove_num_participants(&stranger, 1, 5, SIMPLE_LOTTERY.to_string()),
        Err(LotteryError::NotOwner)
    );
    assert_eq!(
        contract.whitelist_token(&stranger, 1, "usdt.near".to_string()),
        Err(LotteryError::NotOwner)
    );
    assert_eq!(
        contract.change_accepted_subs(&stranger, 1, "other.near".to_string()),
        Err(LotteryError::NotOwner)
    );
    let params = contract.get_contract_params();
    assert_eq!(params.config.entry_fees_required, vec![("near".to_string(), vec![1, 3, 5])]);
    assert_eq!(
        params.config.num_participants_required,
        vec![(LotteryType::SimpleLottery, vec![5, 6]), (LotteryType::BigLottery, vec![50])]
    );
    assert!(params.whitelisted_tokens.is_empty());
    assert_eq!(contract.accepted_subs(), "sub.near");
}

#[test]
fn owner_changes_numbers_of_participants() {
    let mut contract = contract();
    assert_eq!(
        contract.add_num_participants(&owner(), 1, 9, "ANY".to_string()),
        Err(LotteryError::UnknownLotteryType)
    );
    assert_eq!(contract.lotteries_config.num_participants, vec![5, 6]);
    assert_eq!(contract.lotteries_config.big_lottery_num_participants, vec![50]);
    assert_eq!(
        contract.remove_num_participants(&owner(), 1, 5, "ANY".to_string()),
        Err(LotteryError::UnknownLotteryType)
    );
    assert_eq!(
        contract.remove_num_participants(&owner(), 1, 50, BIG_LOTTERY.to_string()),
        Err(LotteryError::CannotRemoveLast)
    );
    assert_eq!(
        contract.remove_num_participants(&owner(), 1, 7, SIMPLE_LOTTERY.to_string()),
        Err(LotteryError::NothingToRemove)
    );
    assert_eq!(contract.remove_num_participants(&owner(), 1, 5, SIMPLE_LOTTERY.to_string()), Ok(()));
    // the last number of a kind stays
    assert_eq!(
        contract.remove_num_participants(&owner(), 1, 6, SIMPLE_LOTTERY.to_string()),
        Err(LotteryError::EmptyLotteryConfig)
    );
    assert_eq!(contract.lotteries_config.num_participants, vec![6]);
    assert_eq!(
        contract.remove_entry_fee(&owner(), 1, Some("usdt.near".to_string()), 1),
        Err(LotteryError::NothingToRemove)
    );
}

#[test]
fn owner_keeps_the_whitelist() {
    let mut contract = contract();
    assert_eq!(contract.whitelist_token(&owner(), 1, "usdt.near".to_string()), Ok(()));
    assert_eq!(contract.whitelist_token(&owner(), 1, "dai.near".to_string()), Ok(()));
    assert_eq!(
        contract.whitelist_token(&owner(), 1, "usdt.near".to_string()),
        Err(LotteryError::AlreadyWhitelisted)
    );
    assert_eq!(contract.whitelisted_tokens, vec!["usdt.near", "dai.near"]);
    assert_eq!(
        contract.remove_whitelist_token(&owner(), 1, "usdc.near".to_string()),
        Err(LotteryError::NotWhitelisted)
    );
    assert_eq!(contract.remove_whitelist_token(&owner(), 1, "usdt.near".to_string()), Ok(()));
    assert_eq!(contract.whitelisted_tokens, vec!["dai.near"]);
    assert_eq!(
        contract.remove_whitelist_token(&owner(), 0, "dai.near".to_string()),
        Err(LotteryError::RequiresOneYocto)
    );
}

#[test]
fn owner_changes_the_accepted_parent() {
    let mut contract = contract();
    assert_eq!(contract.change_accepted_subs(&owner(), 1, "game.near".to_string()), Ok(true));
    assert_eq!(contract.accepted_subs(), "game.near");
    for bad in ["near", "a.b.near", "", ".."] {
        assert_eq!(
            contract.change_accepted_subs(&owner(), 1, bad.to_string()),
            Err(LotteryError::InvalidAcceptedSubs)
        );
    }
    assert_eq!(contract.accepted_subs(), "game.near");
    assert_eq!(contract.check_accepted_subs(&"user.game.near".to_string()), Ok(()));
    for bad in ["user.sub.near", "game.near", "a.user.game.near", "user.game.testnet", "near"] {
        assert_eq!(
            contract.check_accepted_subs(&bad.to_string()),
            Err(LotteryError::InvalidSubaccount)
        );
    }
    contract.config.accepted_subs = "near".to_string();
    assert_eq!(
        contract.check_accepted_subs(&"user.game.near".to_string()),
        Err(LotteryError::InvalidAcceptedSubs)
    );
    assert_eq!(contract.check_accepted_subs(&"near".to_string()), Err(LotteryError::InvalidSubaccount));
}
