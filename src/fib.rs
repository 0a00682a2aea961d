//! The example job: Fibonacci numbers, counted from `fib(0) == fib(1) == 1`.
use vstd::prelude::*;

verus! {

pub open spec fn fib_spec(n: nat) -> nat
    decreases n,
{
    if n < 2 {
        1
    } else {
        fib_spec((n - 1) as nat) + fib_spec((n - 2) as nat)
    }
}

/// The sequence never decreases.
pub proof fn lemma_fib_monotone(m: nat, n: nat)
    requires
        m <= n,
    ensures
        fib_spec(m) <= fib_spec(n),
    decreases n,
{
    if m < n {
        lemma_fib_monotone(m, (n - 1) as nat);
        if n >= 2 {
            assert(fib_spec(n) == fib_spec((n - 1) as nat) + fib_spec((n - 2) as nat));
        }
    }
}

/// The `n`th number, by the defining recursion.
pub fn fib(n: u64) -> (r: u64)
    requires
        fib_spec(n as nat) <= u64::MAX,
    ensures
        r == fib_spec(n as nat),
    decreases n,
{
    if n < 2 {
        1
    } else {
        proof {
            lemma_fib_monotone((n - 1) as nat, n as nat);
            lemma_fib_monotone((n - 2) as nat, n as nat);
        }
        fib(n - 1) + fib(n - 2)
    }
}

/// The `n`th number, or `None` where it does not fit in a `u64`.
pub fn checked_fib(n: u64) -> (r: Option<u64>)
    ensures
        fib_spec(n as nat) <= u64::MAX ==> r == Some(fib_spec(n as nat) as u64),
        fib_spec(n as nat) > u64::MAX ==> r is None,
{
    if n < 2 {
        return Some(1);
    }
    let mut a: u64 = 1;
    let mut b: u64 = 1;
    let mut i: u64 = 1;
    while i < n
        invariant
            1 <= i <= n,
            a == fib_spec((i - 1) as nat),
            b == fib_spec(i as nat),
        decreases n - i,
    {
        match a.checked_add(b) {
            Some(c) => {
                a = b;
                b = c;
                i = i + 1;
            },
            None => {
                proof {
                    lemma_fib_monotone((i + 1) as nat, n as nat);
                }
                return None;
            },
        }
    }
    Some(b)
}

} // verus!
