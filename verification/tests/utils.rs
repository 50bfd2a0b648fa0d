use lottery_engine::utils::{
    get_range_random_number, near, shuffle, shuffled_positions, split_dots, NEAR,
};
use lottery_engine::AccountId;

#[test]
fn random_smoke_test() {
    let vec_to_shuffle: Vec<AccountId> = vec![
        "acc1.near".to_string(),
        "acc2.near".to_string(),
        "acc3.near".to_string(),
        "acc4.near".to_string(),
        "acc5.near".to_string(),
    ];
    let random_seed = [8; 32];
    let shuffled = shuffle(vec_to_shuffle.clone(), &random_seed);
    println!("shuffled: {:?}", shuffled);
    assert_eq!(shuffled.len(), 5);
    let mut sorted = shuffled.clone();
    sorted.sort();
    assert_eq!(sorted, vec_to_shuffle);
}

#[test]
fn shuffle_is_fixed_by_the_seed() {
    let accounts: Vec<AccountId> = (1..=5).map(|i| format!("acc{}.near", i)).collect();
    let shuffled = shuffle(accounts.clone(), &[8; 32]);
    assert_eq!(shuffled, vec!["acc3.near", "acc4.near", "acc5.near", "acc1.near", "acc2.near"]);
    assert_eq!(shuffle(accounts, &[8; 32]), shuffled);
}

#[test]
fn shuffle_moves_the_accounts() {
    let accounts: Vec<AccountId> = (0..10).map(|i| format!("user{}", i)).collect();
    assert_ne!(shuffle(accounts.clone(), &[8; 32]), accounts);
}

#[test]
fn shuffle_of_nothing_and_of_one() {
    assert!(shuffle(Vec::new(), &[8; 32]).is_empty());
    assert_eq!(shuffle(vec!["only.near".to_string()], &[1; 32]), vec!["only.near"]);
}

#[test]
fn shuffled_positions_are_a_permutation() {
    let order = shuffled_positions(&[8; 32], 10);
    assert_eq!(order, vec![4, 9, 2, 3, 0, 1, 8, 6, 5, 7]);
    let mut seed = [0u8; 32];
    for i in 0..32 {
        seed[i] = i as u8;
    }
    assert_eq!(shuffled_positions(&seed, 5), vec![0, 4, 3, 1, 2]);
    for n in 0..65usize {
        let mut order = shuffled_positions(&seed, n);
        order.sort();
        assert_eq!(order, (0..n).collect::<Vec<usize>>());
    }
}

#[test]
fn shuffled_accounts_follow_the_shuffled_positions() {
    let accounts: Vec<AccountId> = (0..10).map(|i| format!("user{}", i)).collect();
    let order = shuffled_positions(&[8; 32], 10);
    let expected: Vec<AccountId> = order.iter().map(|&at| accounts[at].clone()).collect();
    assert_eq!(shuffle(accounts, &[8; 32]), expected);
}

#[test]
fn range_random_number_is_the_sum_of_the_seed_reduced() {
    // 32 bytes of 8 add up to 256
    assert_eq!(get_range_random_number(&[8; 32], 0, 6), 256 % 6);
    assert_eq!(get_range_random_number(&[8; 32], 0, 1), 0);
    assert_eq!(get_range_random_number(&[0; 32], 0, 6), 0);
    let mut seed = [0u8; 32];
    for i in 0..32 {
        seed[i] = i as u8;
    }
    // 0 + 1 + .. + 31 = 496
    assert_eq!(get_range_random_number(&seed, 0, 7), 6);
    // 32 bytes of 255 add up to 8160
    assert_eq!(get_range_random_number(&[255; 32], 3, 10), 8);
    assert_eq!(get_range_random_number(&[255; 32], 0, u32::MAX), 8160);
    assert_eq!(get_range_random_number(&[255; 32], u32::MAX - 1, u32::MAX), u32::MAX as usize - 1);
}

#[test]
fn near_is_the_native_asset() {
    assert_eq!(near(), "near");
    assert_eq!(NEAR, "near");
}

#[test]
fn split_dots_cuts_at_each_dot() {
    assert_eq!(split_dots("user.sub.near"), vec!["user", "sub", "near"]);
    assert_eq!(split_dots("near"), vec!["near"]);
    assert_eq!(split_dots(""), vec![""]);
    assert_eq!(split_dots("."), vec!["", ""]);
    assert_eq!(split_dots("a..b."), vec!["a", "", "b", ""]);
    assert_eq!(split_dots("ü.é"), vec!["ü", "é"]);
}
