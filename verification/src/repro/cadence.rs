//! Things that come up once in every so many.
use vstd::prelude::*;

verus! {

/// `q` times `n`.
pub open spec fn times(q: int, n: int) -> int {
    q * n
}

/// Whether `m` is some number times `n`.
pub open spec fn is_multiple(m: int, n: int) -> bool {
    exists|q: int| #[trigger] times(q, n) == m
}

/// The multiples of `n` are what `n` leaves no remainder of.
pub proof fn lemma_multiples_leave_no_remainder(m: int, n: int)
    requires
        n > 0,
    ensures
        is_multiple(m, n) <==> m % n == 0,
{
    if is_multiple(m, n) {
        let q = choose|q: int| #[trigger] times(q, n) == m;
        assert(m == q * n + 0);
        vstd::arithmetic::div_mod::lemma_fundamental_div_mod_converse(m, n, q, 0);
    }
    if m % n == 0 {
        vstd::arithmetic::div_mod::lemma_fundamental_div_mod(m, n);
        let q: int = m / n;
        assert(q * n == m) by (nonlinear_arith)
            requires
                m == n * q + 0,
        ;
        assert(times(q, n) == m);
    }
}

}
