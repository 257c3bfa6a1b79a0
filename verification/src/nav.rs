use vstd::prelude::*;

verus! {

/// The item after `i` in a list of `n` items, wrapping from the last to the first.
pub open spec fn next_index(i: int, n: int) -> int {
    (i + 1) % n
}

/// The item before `i` in a list of `n` items, wrapping from the first to the last.
pub open spec fn prev_index(i: int, n: int) -> int {
    if i == 0 {
        n - 1
    } else {
        i - 1
    }
}

/// The item `page` rows below `i`, stopping at the last of `n` items.
pub open spec fn page_down_index(i: int, page: int, n: int) -> int {
    if i + page <= n - 1 {
        i + page
    } else {
        n - 1
    }
}

/// The item `page` rows above `i`, stopping at the first item.
pub open spec fn page_up_index(i: int, page: int) -> int {
    if i >= page {
        i - page
    } else {
        0
    }
}

/// Where `k` moves down from `i` lead in a list of `n` items.
pub open spec fn next_steps(i: int, n: int, k: nat) -> int
    decreases k,
{
    if k == 0 {
        i
    } else {
        next_index(next_steps(i, n, (k - 1) as nat), n)
    }
}

/// Moving down and then up returns to the item one started from.
pub proof fn lemma_next_then_prev(i: int, n: int)
    requires
        0 <= i < n,
    ensures
        prev_index(next_index(i, n), n) == i,
{
    lemma_next_index_cases(i, n);
}

/// Moving up and then down returns to the item one started from.
pub proof fn lemma_prev_then_next(i: int, n: int)
    requires
        0 <= i < n,
    ensures
        next_index(prev_index(i, n), n) == i,
{
    lemma_next_index_cases(prev_index(i, n), n);
}

/// Moving down and moving up never leave the list.
pub proof fn lemma_moves_stay_in_list(i: int, n: int)
    requires
        0 <= i < n,
    ensures
        0 <= next_index(i, n) < n,
        0 <= prev_index(i, n) < n,
{
    lemma_next_index_cases(i, n);
}

/// Paging stays inside the list: down stops at the last item, up at the first.
pub proof fn lemma_pages_stay_in_list(i: int, page: int, n: int)
    requires
        0 <= i < n,
        0 <= page,
    ensures
        0 <= page_down_index(i, page, n) < n,
        i <= page_down_index(i, page, n),
        0 <= page_up_index(i, page) <= i,
{
}

/// The item after `i` is `i + 1`, or the first item after the last one.
pub proof fn lemma_next_index_cases(i: int, n: int)
    requires
        0 <= i < n,
    ensures
        next_index(i, n) == if i + 1 < n { i + 1 } else { 0 },
{
    if i + 1 < n {
        vstd::arithmetic::div_mod::lemma_small_mod((i + 1) as nat, n as nat);
    } else {
        vstd::arithmetic::div_mod::lemma_mod_self_0(n);
    }
}

/// `k` moves down from `i` reach the item `(i + k) mod n`; in particular `n` moves
/// down from any item come back to it.
pub proof fn lemma_next_steps(i: int, n: int, k: nat)
    requires
        0 <= i < n,
    ensures
        next_steps(i, n, k) == (i + k) % n,
        next_steps(i, n, n as nat) == i,
    decreases k,
{
    lemma_next_steps_mod(i, n, k);
    lemma_next_steps_mod(i, n, n as nat);
    vstd::arithmetic::div_mod::lemma_mod_add_multiples_vanish(i, n);
    vstd::arithmetic::div_mod::lemma_small_mod(i as nat, n as nat);
}

proof fn lemma_next_steps_mod(i: int, n: int, k: nat)
    requires
        0 <= i < n,
    ensures
        next_steps(i, n, k) == (i + k) % n,
    decreases k,
{
    if k > 0 {
        lemma_next_steps_mod(i, n, (k - 1) as nat);
        vstd::arithmetic::div_mod::lemma_add_mod_noop_right(1, i + k - 1, n);
        assert(next_steps(i, n, k) == (1 + (i + k - 1) % n) % n);
    } else {
        vstd::arithmetic::div_mod::lemma_small_mod(i as nat, n as nat);
    }
}

} // verus!
