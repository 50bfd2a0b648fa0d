use lottery_engine::utils::{ratio, u128_ratio};

#[test]
fn ratio_of_two_and_a_half_percent() {
    assert_eq!(ratio(1_000_000, 250), 25_000);
}

#[test]
fn ratio_of_everything() {
    assert_eq!(ratio(7, 10000), 7);
}

#[test]
fn ratio_rounds_down() {
    assert_eq!(ratio(1, 1), 0);
}

#[test]
fn ratio_of_the_largest_balance() {
    assert_eq!(ratio(u128::MAX, 10000), u128::MAX);
    assert_eq!(ratio(u128::MAX, 5000), u128::MAX / 2);
    assert_eq!(ratio(u128::MAX, 0), 0);
}

#[test]
fn u128_ratio_with_wide_product() {
    assert_eq!(u128_ratio(u128::MAX, u128::MAX, u128::MAX), u128::MAX);
    assert_eq!(u128_ratio(1 << 100, 1 << 100, 1 << 101), 1 << 99);
    assert_eq!(u128_ratio(10, 3, 4), 7);
    assert_eq!(u128_ratio(0, 3, 4), 0);
    assert_eq!(u128_ratio(u128::MAX - 1, 7, 9), 264664063160729916027069139113597497797);
}
