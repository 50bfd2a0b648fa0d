//! Lists of pairs that are keyed by an account, as the registry and the
//! configuration keep them.
use crate::AccountId;
use vstd::prelude::*;

verus! {

/// The value that the pairs give to the account `name`: that of the last
/// pair that names it.
pub open spec fn lookup<V>(pairs: Seq<(AccountId, V)>, name: Seq<char>) -> Option<V>
    decreases pairs.len(),
{
    if pairs.len() == 0 {
        None
    } else if pairs.last().0@ == name {
        Some(pairs.last().1)
    } else {
        lookup(pairs.drop_last(), name)
    }
}

/// No account is named by two pairs.
pub open spec fn distinct_keys<V>(pairs: Seq<(AccountId, V)>) -> bool {
    forall|i: int, j: int|
        0 <= i < j < pairs.len() ==> (#[trigger] pairs[i]).0@ != (#[trigger] pairs[j]).0@
}

/// An account has no value exactly when no pair names it.
pub proof fn lemma_lookup_none<V>(pairs: Seq<(AccountId, V)>, name: Seq<char>)
    ensures
        lookup(pairs, name) is None <==> forall|i: int|
            0 <= i < pairs.len() ==> (#[trigger] pairs[i]).0@ != name,
    decreases pairs.len(),
{
    if pairs.len() > 0 {
        let rest = pairs.drop_last();
        lemma_lookup_none(rest, name);
        if pairs.last().0@ != name {
            if lookup(rest, name) is None {
                assert forall|i: int| 0 <= i < pairs.len() implies (#[trigger] pairs[i]).0@
                    != name by {
                    if i < rest.len() {
                        assert(rest[i].0@ != name);
                    }
                }
            } else {
                let i = choose|i: int| 0 <= i < rest.len() && (#[trigger] rest[i]).0@ == name;
                assert(pairs[i].0@ == name);
            }
        }
    }
}

/// Without the last of them, pairs with distinct keys still have distinct keys.
pub proof fn lemma_distinct_keys_drop_last<V>(pairs: Seq<(AccountId, V)>)
    requires
        distinct_keys(pairs),
        pairs.len() > 0,
    ensures
        distinct_keys(pairs.drop_last()),
{
    let rest = pairs.drop_last();
    assert forall|i: int, j: int| 0 <= i < j < rest.len() implies (#[trigger] rest[i]).0@ != (
    #[trigger] rest[j]).0@ by {
        assert(pairs[i].0@ != pairs[j].0@);
    }
}

/// Where no account is named twice, the value of an account is that of the
/// pair that names it.
pub proof fn lemma_lookup_at<V>(pairs: Seq<(AccountId, V)>, name: Seq<char>, at: int)
    requires
        distinct_keys(pairs),
        0 <= at < pairs.len(),
        pairs[at].0@ == name,
    ensures
        lookup(pairs, name) == Some(pairs[at].1),
    decreases pairs.len(),
{
    if at < pairs.len() - 1 {
        assert(pairs[at].0@ != pairs[pairs.len() - 1].0@);
        lemma_distinct_keys_drop_last(pairs);
        lemma_lookup_at(pairs.drop_last(), name, at);
    }
}

/// Replacing one pair by another of the same account changes the value of
/// that account and of no other.
pub proof fn lemma_lookup_update<V>(
    pairs: Seq<(AccountId, V)>,
    at: int,
    pair: (AccountId, V),
    name: Seq<char>,
)
    requires
        distinct_keys(pairs),
        0 <= at < pairs.len(),
        pairs[at].0@ == pair.0@,
    ensures
        distinct_keys(pairs.update(at, pair)),
        lookup(pairs.update(at, pair), name) == if name == pair.0@ {
            Some(pair.1)
        } else {
            lookup(pairs, name)
        },
    decreases pairs.len(),
{
    let changed = pairs.update(at, pair);
    assert(distinct_keys(changed)) by {
        assert forall|i: int, j: int| 0 <= i < j < changed.len() implies (
        #[trigger] changed[i]).0@ != (#[trigger] changed[j]).0@ by {
            assert(pairs[i].0@ != pairs[j].0@);
        }
    }
    if name == pair.0@ {
        lemma_lookup_at(changed, name, at);
    } else {
        let rest = pairs.drop_last();
        if at == pairs.len() - 1 {
            assert(changed.drop_last() =~= rest);
        } else {
            lemma_distinct_keys_drop_last(pairs);
            lemma_lookup_update(rest, at, pair, name);
            assert(changed.drop_last() =~= rest.update(at, pair));
            assert(changed.last() == pairs.last());
        }
    }
}

/// Appending a pair of an account that no pair names gives that account its
/// value and changes no other.
pub proof fn lemma_lookup_push<V>(pairs: Seq<(AccountId, V)>, pair: (AccountId, V), name: Seq<char>)
    requires
        distinct_keys(pairs),
        lookup(pairs, pair.0@) is None,
    ensures
        distinct_keys(pairs.push(pair)),
        lookup(pairs.push(pair), name) == if name == pair.0@ {
            Some(pair.1)
        } else {
            lookup(pairs, name)
        },
{
    let more = pairs.push(pair);
    lemma_lookup_none(pairs, pair.0@);
    assert(more.drop_last() =~= pairs);
    assert forall|i: int, j: int| 0 <= i < j < more.len() implies (#[trigger] more[i]).0@ != (
    #[trigger] more[j]).0@ by {
        if j == more.len() - 1 {
            assert(pairs[i].0@ != pair.0@);
        } else {
            assert(pairs[i].0@ != pairs[j].0@);
        }
    }
}

/// The place of the first pair that names the account.
pub fn key_position<V>(pairs: &Vec<(AccountId, V)>, key: &AccountId) -> (res: Option<usize>)
    ensures
        match res {
            Some(at) => {
                &&& at < pairs@.len()
                &&& pairs@[at as int].0@ == key@
                &&& forall|i: int| 0 <= i < at ==> (#[trigger] pairs@[i]).0@ != key@
            },
            None => forall|i: int| 0 <= i < pairs@.len() ==> (#[trigger] pairs@[i]).0@ != key@,
        },
        res is None <==> lookup(pairs@, key@) is None,
{
    let mut i: usize = 0;
    while i < pairs.len()
        invariant
            i <= pairs@.len(),
            forall|k: int| 0 <= k < i ==> (#[trigger] pairs@[k]).0@ != key@,
        decreases pairs.len() - i,
    {
        if pairs[i].0 == *key {
            proof {
                lemma_lookup_none(pairs@, key@);
                assert(pairs@[i as int].0@ == key@);
            }
            return Some(i);
        }
        i = i + 1;
    }
    proof {
        lemma_lookup_none(pairs@, key@);
    }
    None
}

/// Whether no account is named by two pairs.
pub fn has_distinct_keys<V>(pairs: &Vec<(AccountId, V)>) -> (res: bool)
    ensures
        res == distinct_keys(pairs@),
{
    let mut j: usize = 0;
    while j < pairs.len()
        invariant
            j <= pairs@.len(),
            forall|a: int, b: int|
                0 <= a < b < j ==> (#[trigger] pairs@[a]).0@ != (#[trigger] pairs@[b]).0@,
        decreases pairs.len() - j,
    {
        let mut i: usize = 0;
        while i < j
            invariant
                i <= j < pairs@.len(),
                forall|a: int| 0 <= a < i ==> (#[trigger] pairs@[a]).0@ != pairs@[j as int].0@,
            decreases j - i,
        {
            if pairs[i].0 == pairs[j].0 {
                return false;
            }
            i = i + 1;
        }
        j = j + 1;
    }
    true
}

} // verus!
