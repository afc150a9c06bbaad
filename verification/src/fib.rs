//! Reference Fibonacci computation, with 32-bit wrapping arithmetic, used by
//! the execution path's consistency check and by the output codec's tests.

use vstd::prelude::*;

verus! {

/// The pair of consecutive Fibonacci numbers `(F(n), F(n + 1))`, each reduced
/// modulo 2^32, with `F(0) == 0` and `F(1) == 1`.
pub open spec fn fib_pair(n: nat) -> (u32, u32)
    decreases n,
{
    if n == 0 {
        (0u32, 1u32)
    } else {
        let p = fib_pair((n - 1) as nat);
        (p.1, vstd::wrapping::u32_specs::wrapping_add(p.0, p.1))
    }
}

/// Computes `fib_pair(n)`: the `n`-th and `(n + 1)`-th Fibonacci numbers with
/// wrapping 32-bit arithmetic.
pub fn fibonacci(n: u32) -> (r: (u32, u32))
    ensures
        r == fib_pair(n as nat),
{
    let mut a: u32 = 0;
    let mut b: u32 = 1;
    let mut i: u32 = 0;
    while i < n
        invariant
            i <= n,
            (a, b) == fib_pair(i as nat),
        decreases n - i,
    {
        let c = a.wrapping_add(b);
        a = b;
        b = c;
        i = i + 1;
    }
    (a, b)
}

} // verus!
