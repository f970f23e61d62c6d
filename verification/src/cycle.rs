use vstd::prelude::*;
use vstd::arithmetic::div_mod::lemma_fundamental_div_mod;
use vstd::arithmetic::div_mod::lemma_fundamental_div_mod_converse;
use vstd::arithmetic::div_mod::lemma_mod_bound;

verus! {

/// Number of samples in one full rise-and-fall cycle of a ping-pong ramp
/// built from `n` forward samples: the forward ramp `0..n` followed by its
/// time-reverse `n-2..=1`, with neither endpoint repeated.
pub open spec fn ping_pong_cycle(n: int) -> int {
    2 * n - 2
}

/// Ramp position at offset `r` into one ping-pong cycle
/// (`0 <= r < 2n-2`): rises `0, 1, ..., n-1`, then falls back `n-2, ..., 1`.
pub open spec fn ping_pong_pos(n: int, r: int) -> int {
    if r < n {
        r
    } else {
        2 * n - 2 - r
    }
}

/// law: the ping-pong ramp is symmetric within a cycle. The position at
/// offset `x` equals the position at offset `cycle - x`, so any brightness
/// mapping applied sample-wise to the ramp yields a symmetric envelope;
/// the cycle's start sits at ramp position 0, the darkest sample.
pub proof fn lemma_ping_pong_symmetric(n: int, x: int)
    requires
        n >= 2,
        1 <= x < ping_pong_cycle(n),
    ensures
        ping_pong_pos(n, ping_pong_cycle(n) - x) == ping_pong_pos(n, x),
        ping_pong_pos(n, 0) == 0,
{
}

/// Advancing a cyclic counter by one step: the remainder climbs by one
/// and wraps to zero when it reaches the modulus.
pub proof fn lemma_mod_succ(a: int, m: int)
    requires
        a >= 0,
        m >= 1,
    ensures
        (a + 1) % m == if a % m + 1 == m {
            0int
        } else {
            a % m + 1
        },
{
    lemma_fundamental_div_mod(a, m);
    lemma_mod_bound(a, m);
    let q = a / m;
    let r = a % m;
    if r + 1 == m {
        assert(a + 1 == (q + 1) * m + 0) by (nonlinear_arith)
            requires
                a == m * q + r,
                r + 1 == m,
        ;
        lemma_fundamental_div_mod_converse(a + 1, m, q + 1, 0);
    } else {
        assert(a + 1 == q * m + (r + 1)) by (nonlinear_arith)
            requires
                a == m * q + r,
        ;
        lemma_fundamental_div_mod_converse(a + 1, m, q, r + 1);
    }
}

/// A counter below the modulus is its own remainder.
pub proof fn lemma_mod_small(a: int, m: int)
    requires
        0 <= a < m,
    ensures
        a % m == a,
{
    lemma_fundamental_div_mod_converse(a, m, 0, a);
}

} // verus!
