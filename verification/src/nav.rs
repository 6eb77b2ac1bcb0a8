//! Cursor movement within lists: wrap-around stepping for selectable lists
//! and clamped scrolling for read-only ones.

use vstd::prelude::*;

verus! {

/// The next row of a `len`-row list, wrapping to the top (0 for an empty
/// list).
pub open spec fn wrap_next_spec(i: nat, len: nat) -> nat {
    if len == 0 { 0 } else { (i + 1) % len }
}

/// The previous row of a `len`-row list, wrapping to the bottom (0 for an
/// empty list).
pub open spec fn wrap_prev_spec(i: nat, len: nat) -> nat {
    if len == 0 { 0 } else if i == 0 { (len - 1) as nat } else { (i - 1) as nat }
}

/// The row below `i` of a `len`-row list, staying on the last row.
pub open spec fn scroll_down_spec(i: nat, len: nat) -> nat {
    if len > 0 && i < len - 1 { i + 1 } else { i }
}

pub fn wrap_next(i: usize, len: usize) -> (r: usize)
    ensures
        r == wrap_next_spec(i as nat, len as nat),
        len > 0 ==> r < len,
{
    if len == 0 {
        0
    } else {
        let r = (i % len + 1) % len;
        assert(r == (i + 1) % (len as int)) by (nonlinear_arith)
            requires
                len > 0,
                r == (i % len + 1) % (len as int),
        {
            vstd::arithmetic::div_mod::lemma_add_mod_noop_right(1, i as int, len as int);
            assert(i % len + 1 == 1 + (i as int) % (len as int));
        }
        r
    }
}

pub fn wrap_prev(i: usize, len: usize) -> (r: usize)
    ensures
        r == wrap_prev_spec(i as nat, len as nat),
{
    if len == 0 {
        0
    } else if i == 0 {
        len - 1
    } else {
        i - 1
    }
}

pub fn scroll_down(i: usize, len: usize) -> (r: usize)
    ensures
        r == scroll_down_spec(i as nat, len as nat),
{
    if len > 0 && i < len - 1 {
        i + 1
    } else {
        i
    }
}

pub fn scroll_up(i: usize) -> (r: usize)
    ensures
        r == (if i > 0 { i - 1 } else { 0 }),
{
    if i > 0 {
        i - 1
    } else {
        0
    }
}

/// Stepping forward then back (or back then forward) returns to the same row
/// of a non-empty list, and both steps stay inside the list.
pub proof fn lemma_wrap_round_trip(i: nat, len: nat)
    requires
        i < len,
    ensures
        wrap_prev_spec(wrap_next_spec(i, len), len) == i,
        wrap_next_spec(wrap_prev_spec(i, len), len) == i,
        wrap_next_spec(i, len) < len,
        wrap_prev_spec(i, len) < len,
{
    if i + 1 == len {
        assert((i + 1) % len == 0) by {
            vstd::arithmetic::div_mod::lemma_mod_self_0(len as int);
        }
    } else {
        assert((i + 1) % len == i + 1) by {
            vstd::arithmetic::div_mod::lemma_small_mod((i + 1) as nat, len);
        }
    }
    if i == 0 {
        assert((((len - 1) as nat) + 1) % len == 0) by {
            vstd::arithmetic::div_mod::lemma_mod_self_0(len as int);
        }
    } else {
        assert((((i - 1) as nat) + 1) % len == i) by {
            vstd::arithmetic::div_mod::lemma_small_mod(i, len);
        }
    }
}

/// Stepping forward `len` times around a non-empty list visits every row
/// once and comes back: the `k`-th step from row 0 is row `k mod len`.
pub proof fn lemma_wrap_cycle(len: nat, k: nat)
    requires
        len > 0,
    ensures
        iterate_next(0, len, k) == k % len,
    decreases k,
{
    if k > 0 {
        lemma_wrap_cycle(len, (k - 1) as nat);
        let prev = ((k - 1) as nat) % len;
        assert(0 <= prev < len) by {
            vstd::arithmetic::div_mod::lemma_mod_bound((k - 1) as int, len as int);
        }
        vstd::arithmetic::div_mod::lemma_add_mod_noop_right(1, (k - 1) as int, len as int);
        assert(iterate_next(0, len, k) == wrap_next_spec(prev, len));
        assert(wrap_next_spec(prev, len) == (prev + 1) % len);
        assert((1 + ((k - 1) as int) % (len as int)) % (len as int) == (k as int) % (len as int));
    } else {
        vstd::arithmetic::div_mod::lemma_small_mod(0, len);
    }
}

/// Row after `k` forward steps from row `i`.
pub open spec fn iterate_next(i: nat, len: nat, k: nat) -> nat
    decreases k,
{
    if k == 0 { i } else { wrap_next_spec(iterate_next(i, len, (k - 1) as nat), len) }
}

/// The generation after `g`: the next integer, wrapping at the top.
pub open spec fn next_gen(g: u64) -> u64 {
    if g == u64::MAX { 0 } else { (g + 1) as u64 }
}

/// The generation `k` bumps after `g`.
pub open spec fn gen_after(g: u64, k: nat) -> u64
    decreases k,
{
    if k == 0 { g } else { next_gen(gen_after(g, (k - 1) as nat)) }
}

proof fn lemma_gen_after_value(g: u64, k: nat)
    requires
        k < 0x1_0000_0000_0000_0000,
    ensures
        gen_after(g, k) == (if g + k < 0x1_0000_0000_0000_0000 { g + k } else { g + k - 0x1_0000_0000_0000_0000 }),
    decreases k,
{
    if k > 0 {
        lemma_gen_after_value(g, (k - 1) as nat);
    }
}

/// A generation tag does not come back before a full wrap: after any
/// number of bumps from 1 to 2^64 - 1, the current tag differs from `g`, so
/// work tagged with `g` is still recognised as stale.
pub proof fn lemma_gen_not_reused(g: u64, k: nat)
    requires
        0 < k < 0x1_0000_0000_0000_0000,
    ensures
        gen_after(g, k) != g,
{
    lemma_gen_after_value(g, k);
}

/// Advances a generation tag, so that work tagged with the old one is
/// recognised as stale.
pub fn bump_gen(g: u64) -> (r: u64)
    ensures
        r == next_gen(g),
        r != g,
{
    if g == u64::MAX { 0 } else { g + 1 }
}

/// One step down a clamped list of `len` rows: to the first row when the
/// list is empty, else down one row unless already at the last.
pub open spec fn step_down_spec(i: nat, len: nat) -> nat {
    if len == 0 { 0 } else if i + 1 < len { i + 1 } else { i }
}

pub fn step_down(i: usize, len: usize) -> (r: usize)
    ensures
        r == step_down_spec(i as nat, len as nat),
{
    if len == 0 {
        0
    } else if i < len - 1 {
        i + 1
    } else {
        i
    }
}

} // verus!
