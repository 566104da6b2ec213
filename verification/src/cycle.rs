//! Properties of round-robin selection, stated over the policy model of
//! `policy`: a cursor that starts at `start` and steps by one modulo the
//! number of targets on every call. `cursor_at` gives the index selected by
//! each call, `times_selected` counts how often a window of calls selects an
//! index, and the lemmas prove the cycling guarantees: the first cycle visits
//! the list in order, a one-target list always resolves to index 0, and any
//! whole number of cycles selects every index equally often.

use vstd::arithmetic::div_mod::{
    lemma_add_mod_noop_right, lemma_mod_add_multiples_vanish, lemma_mod_bound, lemma_small_mod,
};
use vstd::prelude::*;

verus! {

/// The index selected by call number `n` (counted from 0) of a round-robin
/// policy over `len` targets whose cursor started at `start`; equally, the
/// cursor after `n` calls.
pub open spec fn cursor_at(start: int, n: int, len: int) -> int {
    (start + n) % len
}

/// How many of the first `m` calls select index `j`, starting from cursor
/// `start` over `len` targets.
pub open spec fn times_selected(start: int, m: nat, len: int, j: int) -> nat
    decreases m,
{
    if m == 0 {
        0
    } else {
        times_selected(start, (m - 1) as nat, len, j) + if cursor_at(start, m - 1, len) == j {
            1nat
        } else {
            0nat
        }
    }
}

/// The closed form agrees with the policy contract's single step: the cursor
/// after `n + 1` calls is one wrapping step past the cursor after `n` calls.
pub proof fn lemma_cursor_at_step(start: int, n: int, len: int)
    requires
        len >= 1,
    ensures
        cursor_at(start, n + 1, len) == (cursor_at(start, n, len) + 1) % len,
{
    lemma_add_mod_noop_right(1, start + n, len);
}

/// The selected index is always a valid position in the target list.
pub proof fn lemma_cursor_at_in_range(start: int, n: int, len: int)
    requires
        len >= 1,
    ensures
        0 <= cursor_at(start, n, len) < len,
{
    lemma_mod_bound(start + n, len);
}

/// For a non-empty target list of length `len`, the first `len` calls from
/// cursor 0 select indices 0, 1, ..., len - 1: every target exactly once, in
/// original list order, before any repeat.
pub proof fn lemma_first_cycle_in_order(len: int)
    requires
        len >= 1,
    ensures
        forall|n: int| 0 <= n < len ==> cursor_at(0, n, len) == n,
{
    assert forall|n: int| 0 <= n < len implies cursor_at(0, n, len) == n by {
        lemma_small_mod(n as nat, len as nat);
    }
}

/// With a single target, every call selects index 0, for any call count and
/// wherever the cursor nominally started.
pub proof fn lemma_single_target_constant(start: int, n: int)
    ensures
        cursor_at(start, n, 1) == 0,
{
    lemma_mod_bound(start + n, 1);
}

/// Counting a window in two parts: `m1 + m2` calls select `j` as often as the
/// first `m1` calls plus the `m2` calls whose start lies `m1` further along.
proof fn lemma_times_selected_split(start: int, m1: nat, m2: nat, len: int, j: int)
    ensures
        times_selected(start, m1 + m2, len, j) == times_selected(start, m1, len, j)
            + times_selected(start + m1, m2, len, j),
    decreases m2,
{
    if m2 > 0 {
        lemma_times_selected_split(start, m1, (m2 - 1) as nat, len, j);
        assert(start + (m1 + m2 - 1) == (start + m1) + (m2 - 1));
    }
}

/// Rotating the start of a full cycle by one does not change how often any
/// index is selected.
proof fn lemma_cycle_rotation(start: int, len: int, j: int)
    requires
        len >= 1,
    ensures
        times_selected(start, len as nat, len, j) == times_selected(start + 1, len as nat, len, j),
{
    lemma_times_selected_split(start, 1, (len - 1) as nat, len, j);
    lemma_mod_add_multiples_vanish(start, len);
    assert(times_selected(start, 0, len, j) == 0);
    assert(times_selected(start, 1, len, j) == if cursor_at(start, 0, len) == j {
        1nat
    } else {
        0nat
    });
    assert(cursor_at(start + 1, len - 1, len) == cursor_at(start, 0, len));
}

/// From cursor 0, the first `r` calls of a cycle select `j` once if `j` was
/// already passed and not at all otherwise.
proof fn lemma_cycle_from_zero(r: nat, len: int, j: int)
    requires
        len >= 1,
        0 <= j < len,
        r <= len,
    ensures
        times_selected(0, r, len, j) == if j < r {
            1nat
        } else {
            0nat
        },
    decreases r,
{
    if r > 0 {
        lemma_cycle_from_zero((r - 1) as nat, len, j);
        lemma_small_mod((r - 1) as nat, len as nat);
    }
}

/// The window guarantee of one cycle: over any `len` consecutive calls,
/// wherever the cursor stands, every index is selected exactly once.
pub proof fn lemma_one_cycle(start: int, len: int, j: int)
    requires
        len >= 1,
        0 <= j < len,
        start >= 0,
    ensures
        times_selected(start, len as nat, len, j) == 1,
    decreases start,
{
    if start == 0 {
        lemma_cycle_from_zero(len as nat, len, j);
    } else {
        lemma_one_cycle(start - 1, len, j);
        lemma_cycle_rotation(start - 1, len, j);
    }
}

/// Over `k` whole cycles — `k * len` consecutive calls against `len` targets
/// — every index is selected exactly `k` times: no duplication, no loss,
/// wherever the cursor started.
pub proof fn lemma_balanced_cycles(start: int, k: nat, len: int, j: int)
    requires
        len >= 1,
        0 <= j < len,
        start >= 0,
    ensures
        times_selected(start, (k * len) as nat, len, j) == k,
    decreases k,
{
    if k == 0 {
        assert(k * len == 0);
    } else {
        assert(k * len == len + (k - 1) * len) by (nonlinear_arith)
            requires
                k >= 1,
        ;
        lemma_one_cycle(start, len, j);
        lemma_balanced_cycles(start + len, (k - 1) as nat, len, j);
        lemma_times_selected_split(start, len as nat, ((k - 1) * len) as nat, len, j);
    }
}

} // verus!
