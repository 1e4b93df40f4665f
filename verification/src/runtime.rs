//! The pure computational built-ins of the runtime, under the symbol
//! names generated code and the host bindings use. Allocation,
//! collector initialization and printing are I/O and foreign calls and
//! live with the host shim; what is verified here is the arithmetic.
//!
//! All integer arithmetic wraps at 64 bits, matching what compiled code
//! computes; division by zero is defined to yield 0.

use vstd::prelude::*;

use crate::interp::{eval_div, sp_div};

verus! {

/// Wrapping 64-bit addition.
pub fn rython_add(a: i64, b: i64) -> (r: i64)
    ensures
        r == a.wrapping_add(b),
{
    a.wrapping_add(b)
}

/// Wrapping 64-bit subtraction.
pub fn rython_minus(a: i64, b: i64) -> (r: i64)
    ensures
        r == a.wrapping_sub(b),
{
    a.wrapping_sub(b)
}

/// Wrapping 64-bit multiplication.
pub fn rython_multiply(a: i64, b: i64) -> (r: i64)
    ensures
        r == a.wrapping_mul(b),
{
    a.wrapping_mul(b)
}

/// Division with a defined result everywhere: division by zero yields 0,
/// and the one overflowing quotient wraps.
pub fn rython_divide(a: i64, b: i64) -> (r: i64)
    ensures
        r == sp_div(a, b),
{
    eval_div(a, b)
}

/// The Fibonacci numbers, with wrapping addition past the 92nd; an
/// argument of one or less is returned unchanged.
pub open spec fn sp_fib(n: i64) -> i64
    decreases n,
{
    if n <= 1 {
        n
    } else {
        sp_fib((n - 1) as i64).wrapping_add(sp_fib((n - 2) as i64))
    }
}

/// Computes `sp_fib` iteratively.
pub fn rython_fibonacci(n: i64) -> (r: i64)
    ensures
        r == sp_fib(n),
{
    if n <= 1 {
        return n;
    }
    let mut a: i64 = 0;
    let mut b: i64 = 1;
    let mut k: i64 = 1;
    while k < n
        invariant
            1 <= k <= n,
            a == sp_fib((k - 1) as i64),
            b == sp_fib(k),
        decreases n - k,
    {
        let temp = a.wrapping_add(b);
        proof {
            assert(sp_fib((k + 1) as i64) == sp_fib(k).wrapping_add(sp_fib((k - 1) as i64)));
            assert(sp_fib((k - 1) as i64).wrapping_add(sp_fib(k)) == sp_fib(k).wrapping_add(
                sp_fib((k - 1) as i64),
            ));
        }
        a = b;
        b = temp;
        k = k + 1;
    }
    b
}

} // verus!
