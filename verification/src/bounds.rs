//! Wrap-around arithmetic over a fixed-size coordinate domain.

use vstd::prelude::*;
use vstd::arithmetic::div_mod::lemma_add_mod_noop;
use vstd::arithmetic::div_mod::lemma_add_mod_noop_right;
use vstd::arithmetic::div_mod::lemma_mod_bound;
use vstd::arithmetic::div_mod::lemma_mod_sub_multiples_vanish;
use vstd::arithmetic::div_mod::lemma_small_mod;

verus! {

/// The sum of `a` and `b` folded back into `[0, limit)`.
pub open spec fn wrap_add(a: int, b: int, limit: int) -> int {
    (a + b) % limit
}

/// `num::Integer::mod_floor` on `usize`. For an unsigned integer the floored
/// remainder is the plain remainder; the call panics on a zero modulus, which
/// the precondition excludes.
#[verifier::external_body]
fn mod_floor(value: usize, modulus: usize) -> (r: usize)
    requires
        modulus != 0,
    ensures
        r == value % modulus,
{
    num::Integer::mod_floor(&value, &modulus)
}

/// The sum of two residues wraps at most once.
proof fn lemma_residue_sum(x: int, y: int, limit: int)
    requires
        0 <= x < limit,
        0 <= y < limit,
    ensures
        (x + y) % limit == if x + y >= limit {
            x + y - limit
        } else {
            x + y
        },
{
    if x + y >= limit {
        lemma_mod_sub_multiples_vanish(x + y, limit);
        lemma_small_mod((x + y - limit) as nat, limit as nat);
    } else {
        lemma_small_mod((x + y) as nat, limit as nat);
    }
}

/// Adds `a` and `b` modulo `LIMIT`.
pub fn safe_add<const LIMIT: usize>(a: usize, b: usize) -> (r: usize)
    requires
        LIMIT > 0,
    ensures
        r == wrap_add(a as int, b as int, LIMIT as int),
        r < LIMIT,
{
    let x = mod_floor(a, LIMIT);
    let y = mod_floor(b, LIMIT);
    proof {
        lemma_add_mod_noop(a as int, b as int, LIMIT as int);
        lemma_mod_bound(a as int + b as int, LIMIT as int);
        lemma_residue_sum(x as int, y as int, LIMIT as int);
    }
    if x >= LIMIT - y {
        x - (LIMIT - y)
    } else {
        x + y
    }
}

/// Steps `value` forward by two cells, wrapping at `LIMIT`.
pub fn add2<const LIMIT: usize>(value: usize) -> (r: usize)
    requires
        LIMIT > 0,
    ensures
        r == wrap_add(value as int, 2, LIMIT as int),
        r < LIMIT,
{
    safe_add::<LIMIT>(value, 2)
}

/// Steps `value` backward by two cells, wrapping at `LIMIT`.
pub fn sub2<const LIMIT: usize>(value: usize) -> (r: usize)
    requires
        LIMIT > 0,
    ensures
        r == wrap_add(value as int, LIMIT - 2, LIMIT as int),
        r < LIMIT,
{
    if LIMIT >= 2 {
        safe_add::<LIMIT>(value, LIMIT - 2)
    } else {
        proof {
            lemma_mod_bound(value as int + LIMIT - 2, LIMIT as int);
        }
        0
    }
}

/// Wrap-around addition never leaves the coordinate domain `[0, limit)`.
pub proof fn lemma_wrap_add_closed(a: int, b: int, limit: int)
    requires
        limit > 0,
    ensures
        0 <= wrap_add(a, b, limit) < limit,
{
    lemma_mod_bound(a + b, limit);
}

/// A step backward undoes a step forward: two cells ahead and then two cells
/// back, both wrapping at `limit`, is where one started.
pub proof fn lemma_step_inverse(v: int, limit: int)
    requires
        limit > 0,
        0 <= v < limit,
    ensures
        wrap_add(wrap_add(v, 2, limit), limit - 2, limit) == v,
{
    lemma_add_mod_noop_right(limit - 2, v + 2, limit);
    lemma_mod_sub_multiples_vanish(v + limit, limit);
    lemma_small_mod(v as nat, limit as nat);
}

/// A step forward undoes a step backward.
pub proof fn lemma_step_inverse_backward(v: int, limit: int)
    requires
        limit > 0,
        0 <= v < limit,
    ensures
        wrap_add(wrap_add(v, limit - 2, limit), 2, limit) == v,
{
    lemma_add_mod_noop_right(2, v + limit - 2, limit);
    lemma_mod_sub_multiples_vanish(v + limit, limit);
    lemma_small_mod(v as nat, limit as nat);
}

} // verus!
