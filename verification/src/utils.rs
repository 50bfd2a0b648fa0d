//! Exact ratio arithmetic and seeded selection.
use crate::config::MAX_RATIO;
use crate::{AccountId, Balance, RandomSeed};
use rand::rngs::StdRng;
use rand::seq::SliceRandom;
use rand::SeedableRng;
use vstd::arithmetic::div_mod::lemma_fundamental_div_mod_converse;
use vstd::prelude::*;

verus! {

/// `a * num / denom` over the integers, rounded down.
pub open spec fn spec_u128_ratio(a: u128, num: u128, denom: u128) -> int {
    (a as int * num as int) / (denom as int)
}

/// The share `r` of `balance`, with `r` in basis points, rounded down.
pub open spec fn spec_ratio(balance: u128, r: u32) -> int {
    (balance as int * r as int) / 10000
}

/// A share of at most 100% never exceeds the amount it is taken from.
pub proof fn lemma_ratio_bounded(balance: u128, r: u32)
    requires
        r <= MAX_RATIO,
    ensures
        0 <= spec_ratio(balance, r) <= balance,
{
    let b = balance as int;
    let p = b * (r as int);
    assert(0 <= p <= b * 10000) by (nonlinear_arith)
        requires
            0 <= b,
            0 <= r <= 10000,
            p == b * (r as int),
    ;
    assert(0 <= p / 10000 <= b) by (nonlinear_arith)
        requires
            0 <= p <= b * 10000,
    ;
}

/// Long multiplication and division, one binary digit of `a` at a time:
/// the quotient and remainder of `a * num` by `denom`, for `num < denom`.
fn mul_div_rem(a: u128, num: u128, denom: u128) -> (res: (u128, u128))
    requires
        num < denom,
    ensures
        a as int * num as int == res.0 as int * denom as int + res.1 as int,
        res.1 < denom,
        res.0 <= a,
    decreases a,
{
    if a == 0 {
        return (0, 0);
    }
    let half: u128 = a / 2;
    let bit: u128 = a % 2;
    let (q, rem) = mul_div_rem(half, num, denom);
    // twice the remainder, reduced
    let (r1, c1): (u128, u128) = if rem >= denom - rem {
        (rem - (denom - rem), 1)
    } else {
        (rem + rem, 0)
    };
    // plus `num` where the digit is set, reduced
    let (r2, c2): (u128, u128) = if bit == 1 {
        if r1 >= denom - num {
            (r1 - (denom - num), 1)
        } else {
            (r1 + num, 0)
        }
    } else {
        (r1, 0)
    };
    proof {
        let ai = a as int;
        let hi = half as int;
        let bi = bit as int;
        let ni = num as int;
        let di = denom as int;
        let qi = q as int;
        assert(ai == 2 * hi + bi);
        assert(ai * ni == 2 * (hi * ni) + bi * ni) by (nonlinear_arith)
            requires
                ai == 2 * hi + bi,
        ;
        assert(bi * ni == if bit == 1 { ni } else { 0 }) by (nonlinear_arith)
            requires
                bi == 0 || bi == 1,
                bi == bit as int,
        ;
        assert((2 * qi + c1 as int + c2 as int) * di == 2 * (qi * di) + c1 as int * di + c2 as int
            * di) by (nonlinear_arith);
        assert(c1 as int * di == if c1 == 1 { di } else { 0 }) by (nonlinear_arith)
            requires
                c1 == 0 || c1 == 1,
        ;
        assert(c2 as int * di == if c2 == 1 { di } else { 0 }) by (nonlinear_arith)
            requires
                c2 == 0 || c2 == 1,
        ;
        // the quotient of a product by a larger divisor stays below the factor
        assert(2 * qi + c1 as int + c2 as int <= ai) by (nonlinear_arith)
            requires
                ai * ni == (2 * qi + c1 as int + c2 as int) * di + r2 as int,
                0 <= r2 as int,
                0 <= ni < di,
                0 <= ai,
        ;
    }
    (2 * q + c1 + c2, r2)
}

/// `a * num / denom`, rounded down, computed without overflow in between.
pub fn u128_ratio(a: u128, num: u128, denom: u128) -> (res: u128)
    requires
        denom > 0,
        spec_u128_ratio(a, num, denom) <= u128::MAX,
    ensures
        res == spec_u128_ratio(a, num, denom),
{
    let whole: u128 = num / denom;
    let part: u128 = num % denom;
    let (q, rem) = mul_div_rem(a, part, denom);
    proof {
        let ai = a as int;
        let di = denom as int;
        let wi = whole as int;
        assert(num as int == wi * di + part as int) by {
            vstd::arithmetic::div_mod::lemma_fundamental_div_mod(num as int, di);
        }
        assert(ai * (num as int) == (ai * wi + q as int) * di + rem as int) by (nonlinear_arith)
            requires
                num as int == wi * di + part as int,
                ai * (part as int) == q as int * di + rem as int,
        ;
        lemma_fundamental_div_mod_converse(ai * (num as int), di, ai * wi + q as int, rem as int);
        assert(0 <= ai * wi) by (nonlinear_arith)
            requires
                0 <= ai,
                0 <= wi,
        ;
    }
    a * whole + q
}

/// The share `r` of `balance`, with `r` in basis points, rounded down.
pub fn ratio(balance: Balance, r: u32) -> (res: Balance)
    requires
        r <= MAX_RATIO,
    ensures
        res == spec_ratio(balance, r),
        res <= balance,
{
    proof {
        lemma_ratio_bounded(balance, r);
    }
    u128_ratio(balance, r as u128, MAX_RATIO as u128)
}

/// The sum of the bytes of a seed.
pub open spec fn seed_sum(seed: Seq<u8>) -> nat
    decreases seed.len(),
{
    if seed.len() == 0 {
        0
    } else {
        seed_sum(seed.drop_last()) + seed.last() as nat
    }
}

/// The number that a seed selects in `range_start..range_end`: the sum of
/// the seed's bytes, reduced to the width of the range.
pub open spec fn spec_range_random_number(seed: Seq<u8>, range_start: u32, range_end: u32) -> int {
    range_start + (seed_sum(seed) as int) % (range_end - range_start)
}

/// Selects a number in `range_start..range_end` from the seed.
pub fn get_range_random_number(seed: &RandomSeed, range_start: u32, range_end: u32) -> (res: usize)
    requires
        range_start < range_end,
    ensures
        res == spec_range_random_number(seed@, range_start, range_end),
        range_start <= res < range_end,
{
    let mut sum: u32 = 0;
    let mut i: usize = 0;
    while i < 32
        invariant
            i <= 32,
            seed@.len() == 32,
            sum == seed_sum(seed@.subrange(0, i as int)),
            sum <= 255 * i,
        decreases 32 - i,
    {
        proof {
            assert(seed@.subrange(0, i + 1).drop_last() =~= seed@.subrange(0, i as int));
        }
        sum = sum + seed[i] as u32;
        i = i + 1;
    }
    proof {
        assert(seed@.subrange(0, 32) =~= seed@);
    }
    let width: u32 = range_end - range_start;
    let offset: u32 = sum % width;
    (range_start + offset) as usize
}

/// The order in which the shuffle seeded with `seed` leaves `items`, in the
/// build of `rand` that the library is linked with.
pub uninterp spec fn seeded_shuffle(seed: Seq<u8>, items: Seq<usize>) -> Seq<usize>;

/// Shuffles `items` in place with `rand`'s standard generator, seeded by
/// `StdRng::from_seed`, through `SliceRandom::shuffle`.
///
/// Believed of the outside code, not proved: the order that comes out depends
/// on the seed and on the items alone, and the shuffle only swaps items, so
/// what comes out holds each item as often as what went in. Which order a
/// seed gives is stated nowhere: `rand` keeps its generator fixed within a
/// version, where it is ChaCha with 20 rounds on every target but
/// emscripten, and promises no more.
#[verifier::external_body]
fn shuffle_indices(seed: &RandomSeed, items: &mut Vec<usize>)
    ensures
        final(items)@ == seeded_shuffle(seed@, old(items)@),
        final(items)@.to_multiset() == old(items)@.to_multiset(),
{
    let mut rng = StdRng::from_seed(*seed);
    items.shuffle(&mut rng);
}

/// The positions `0, 1, .., n - 1` in rising order.
pub open spec fn positions(n: nat) -> Seq<usize> {
    Seq::new(n, |i: int| i as usize)
}

/// `order` holds each position below `n` exactly once.
pub open spec fn is_permutation(order: Seq<usize>, n: nat) -> bool {
    &&& order.len() == n
    &&& forall|i: int| 0 <= i < n ==> (#[trigger] order[i]) < n
    &&& order.no_duplicates()
}

/// The order in which the seed arranges `n` positions.
pub open spec fn shuffled_order(seed: Seq<u8>, n: nat) -> Seq<usize> {
    seeded_shuffle(seed, positions(n))
}

/// What holds each item of `positions(n)` as often as `positions(n)` does is
/// a permutation of the positions below `n`.
pub proof fn lemma_rearranged_positions(order: Seq<usize>, n: nat)
    requires
        n <= usize::MAX,
        order.to_multiset() == positions(n).to_multiset(),
    ensures
        is_permutation(order, n),
{
    broadcast use vstd::seq_lib::group_to_multiset_ensures;

    let base = positions(n);
    assert(base.no_duplicates());
    base.lemma_multiset_has_no_duplicates();
    order.lemma_multiset_has_no_duplicates_conv();
    assert(order.len() == order.to_multiset().len());
    assert(base.len() == base.to_multiset().len());
    assert forall|i: int| 0 <= i < n implies (#[trigger] order[i]) < n by {
        assert(order.contains(order[i]));
        assert(base.to_multiset().count(order[i]) > 0);
        assert(base.contains(order[i]));
        let k = choose|k: int| 0 <= k < base.len() && base[k] == order[i];
        assert(base[k] == k as usize);
    }
}

/// The order in which the seed arranges `n` positions.
pub fn shuffled_positions(seed: &RandomSeed, n: usize) -> (order: Vec<usize>)
    ensures
        order@ == shuffled_order(seed@, n as nat),
        is_permutation(order@, n as nat),
{
    let mut order: Vec<usize> = Vec::new();
    let mut i: usize = 0;
    while i < n
        invariant
            i <= n,
            order@ =~= positions(i as nat),
        decreases n - i,
    {
        order.push(i);
        i = i + 1;
    }
    shuffle_indices(seed, &mut order);
    proof {
        lemma_rearranged_positions(order@, n as nat);
    }
    order
}

/// `list` in the order that the seed gives it.
pub open spec fn spec_shuffle(list: Seq<AccountId>, seed: Seq<u8>) -> Seq<AccountId> {
    Seq::new(list.len(), |i: int| list[shuffled_order(seed, list.len())[i] as int])
}

/// Arranges the accounts in the order that the seed gives them.
pub fn shuffle(list: Vec<AccountId>, seed: &RandomSeed) -> (res: Vec<AccountId>)
    ensures
        res@ == spec_shuffle(list@, seed@),
        is_permutation(shuffled_order(seed@, list@.len()), list@.len()),
{
    let order = shuffled_positions(seed, list.len());
    let mut res: Vec<AccountId> = Vec::new();
    let mut i: usize = 0;
    while i < order.len()
        invariant
            i <= order.len(),
            order@.len() == list@.len(),
            is_permutation(order@, list@.len()),
            res@.len() == i,
            forall|k: int| 0 <= k < i ==> res@[k] == list@[order@[k] as int],
        decreases order.len() - i,
    {
        res.push(list[order[i]].clone());
        i = i + 1;
    }
    assert(res@ =~= spec_shuffle(list@, seed@));
    res
}

/// The name of the native asset.
pub const NEAR: &'static str = "near";

/// The native asset.
pub fn near() -> (res: AccountId)
    ensures
        res@ == NEAR@,
{
    NEAR.to_owned()
}

/// The parts of a name that its dots separate: a name without a dot is its
/// only part, and each dot ends one part and begins the next.
pub open spec fn spec_split_dots(name: Seq<char>) -> Seq<Seq<char>>
    decreases name.len(),
{
    if name.len() == 0 {
        seq![Seq::<char>::empty()]
    } else {
        let parts = spec_split_dots(name.drop_last());
        if name.last() == '.' {
            parts.push(Seq::<char>::empty())
        } else {
            parts.update(parts.len() - 1, parts.last().push(name.last()))
        }
    }
}

/// The names of the parts, as plain sequences.
pub open spec fn part_names(parts: Seq<String>) -> Seq<Seq<char>> {
    Seq::new(parts.len(), |i: int| parts[i]@)
}

/// Splits a name at its dots.
pub fn split_dots(name: &str) -> (res: Vec<String>)
    ensures
        part_names(res@) == spec_split_dots(name@),
        res@.len() >= 1,
{
    let total = name.unicode_len();
    let mut parts: Vec<String> = Vec::new();
    let mut start: usize = 0;
    let mut i: usize = 0;
    proof {
        assert(name@.subrange(0, 0) =~= Seq::<char>::empty());
        assert(part_names(parts@).push(name@.subrange(0, 0)) =~~= seq![Seq::<char>::empty()]);
    }
    while i < total
        invariant
            start <= i <= total == name@.len(),
            spec_split_dots(name@.subrange(0, i as int)) == part_names(parts@).push(
                name@.subrange(start as int, i as int),
            ),
        decreases total - i,
    {
        let c = name.get_char(i);
        proof {
            let longer = name@.subrange(0, i + 1);
            assert(longer.drop_last() =~= name@.subrange(0, i as int));
            assert(longer.last() == c);
        }
        if c == '.' {
            let part = name.substring_char(start, i).to_owned();
            let ghost before = part_names(parts@);
            parts.push(part);
            assert(part_names(parts@) =~= before.push(name@.subrange(start as int, i as int)));
            start = i + 1;
            assert(name@.subrange(start as int, i + 1) =~= Seq::<char>::empty());
        } else {
            let ghost done = part_names(parts@);
            let ghost piece = name@.subrange(start as int, i as int);
            assert(piece.push(c) =~= name@.subrange(start as int, i + 1));
            assert(done.push(piece).update(done.len() as int, piece.push(c)) =~~= done.push(
                name@.subrange(start as int, i + 1),
            ));
        }
        i = i + 1;
    }
    let part = name.substring_char(start, total).to_owned();
    let ghost before = part_names(parts@);
    parts.push(part);
    proof {
        assert(part_names(parts@) =~= before.push(name@.subrange(start as int, total as int)));
        assert(name@.subrange(0, total as int) =~= name@);
    }
    parts
}

/// Whether the account has the name.
pub fn is_named(account_id: &AccountId, name: &str) -> (res: bool)
    ensures
        res == (account_id@ == name@),
{
    *account_id == name.to_owned()
}

/// The symbol of the asset that the account stands for, if it is a known one.
pub open spec fn spec_match_token_id(name: Seq<char>) -> Option<Seq<char>> {
    if name == "usn"@ {
        Some("USN"@)
    } else if name == "near"@ {
        Some("NEAR"@)
    } else if name == "dac17f958d2ee523a2206206994597c13d831ec7.factory.bridge.near"@ {
        Some("USDT"@)
    } else if name == "6b175474e89094c44da98b954eedeac495271d0f.factory.bridge.near"@ {
        Some("DAI"@)
    } else if name == "a0b86991c6218b36c1d19d4a2e9eb0ce3606eb48.factory.bridge.near"@ {
        Some("USDC"@)
    } else if name == "wrap.near"@ {
        Some("WNEAR"@)
    } else if name == "c02aaa39b223fe8d0a0e5c4f27ead9083c756cc2.factory.bridge.near"@ {
        Some("WETH"@)
    } else if name == "usdn.testnet"@ {
        Some("USN"@)
    } else if name == "guacharo.testnet"@ {
        Some("GUA"@)
    } else if name == "usdt.fakes.testnet"@ {
        Some("USDT"@)
    } else if name == "dai.fakes.testnet"@ {
        Some("DAI"@)
    } else if name == "usdc.fakes.testnet"@ {
        Some("USDC"@)
    } else if name == "wrap.testnet"@ {
        Some("WNEAR"@)
    } else if name == "weth.fakes.testnet"@ {
        Some("WETH"@)
    } else {
        None
    }
}

/// The symbol of the asset that the account stands for, if it is a known one.
pub fn match_token_id(account_id: &AccountId) -> (res: Option<String>)
    ensures
        match res {
            Some(symbol) => spec_match_token_id(account_id@) == Some(symbol@),
            None => spec_match_token_id(account_id@) is None,
        },
{
    if is_named(account_id, "usn") {
        Some("USN".to_owned())
    } else if is_named(account_id, "near") {
        Some("NEAR".to_owned())
    } else if is_named(account_id, "dac17f958d2ee523a2206206994597c13d831ec7.factory.bridge.near") {
        Some("USDT".to_owned())
    } else if is_named(account_id, "6b175474e89094c44da98b954eedeac495271d0f.factory.bridge.near") {
        Some("DAI".to_owned())
    } else if is_named(account_id, "a0b86991c6218b36c1d19d4a2e9eb0ce3606eb48.factory.bridge.near") {
        Some("USDC".to_owned())
    } else if is_named(account_id, "wrap.near") {
        Some("WNEAR".to_owned())
    } else if is_named(account_id, "c02aaa39b223fe8d0a0e5c4f27ead9083c756cc2.factory.bridge.near") {
        Some("WETH".to_owned())
    } else if is_named(account_id, "usdn.testnet") {
        Some("USN".to_owned())
    } else if is_named(account_id, "guacharo.testnet") {
        Some("GUA".to_owned())
    } else if is_named(account_id, "usdt.fakes.testnet") {
        Some("USDT".to_owned())
    } else if is_named(account_id, "dai.fakes.testnet") {
        Some("DAI".to_owned())
    } else if is_named(account_id, "usdc.fakes.testnet") {
        Some("USDC".to_owned())
    } else if is_named(account_id, "wrap.testnet") {
        Some("WNEAR".to_owned())
    } else if is_named(account_id, "weth.fakes.testnet") {
        Some("WETH".to_owned())
    } else {
        None
    }
}

} // verus!
