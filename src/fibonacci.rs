use vstd::prelude::*;

verus! {

/// The Fibonacci sequence: 0, 1, 1, 2, 3, 5, 8, ...
pub open spec fn fib(n: nat) -> nat
    decreases n,
{
    if n == 0 {
        0
    } else if n == 1 {
        1
    } else {
        fib((n - 2) as nat) + fib((n - 1) as nat)
    }
}

/// The `nth` Fibonacci number, where a position below one counts as zero.
pub open spec fn nth_fibonacci(nth: int) -> int {
    if nth <= 0 {
        0
    } else {
        fib(nth as nat) as int
    }
}

/// The largest position whose Fibonacci number fits in an `i32`.
pub const MAX_FIBONACCI_POSITION: i32 = 46;

/// The sequence never decreases.
pub proof fn lemma_fib_monotonic(i: nat, j: nat)
    requires
        i <= j,
    ensures
        fib(i) <= fib(j),
    decreases j,
{
    if i < j {
        lemma_fib_monotonic(i, (j - 1) as nat);
        if j >= 2 {
            assert(fib(j) == fib((j - 2) as nat) + fib((j - 1) as nat));
        }
    }
}

/// The Fibonacci number `k` places after a pair `a`, `b` of consecutive ones,
/// computed by stepping the pair forward.
spec fn fib_after(a: nat, b: nat, k: nat) -> nat
    decreases k,
{
    if k == 0 {
        a
    } else {
        fib_after(b, a + b, (k - 1) as nat)
    }
}

proof fn lemma_fib_after(n: nat, k: nat)
    ensures
        fib(n + k) == fib_after(fib(n), fib(n + 1), k),
    decreases k,
{
    if k > 0 {
        lemma_fib_after(n + 1, (k - 1) as nat);
        assert(fib(n + 2) == fib(n) + fib(n + 1));
        assert(n + 1 + (k - 1) == n + k);
    }
}

proof fn lemma_fib_46()
    ensures
        fib(46) == 1836311903,
{
    lemma_fib_after(0, 46);
    reveal_with_fuel(fib_after, 47);
}

proof fn lemma_fib_fits_i32(n: nat)
    requires
        n <= MAX_FIBONACCI_POSITION,
    ensures
        fib(n) <= i32::MAX,
{
    lemma_fib_46();
    lemma_fib_monotonic(n, 46);
}

/// Returns the `nth` number of the Fibonacci sequence, counting
/// `fib(1) == 1`, `fib(2) == 1`, `fib(3) == 2`; zero for `nth <= 0`.
pub fn generate_nth_fibonacci_number(nth: i32) -> (r: i32)
    requires
        nth <= MAX_FIBONACCI_POSITION,
    ensures
        r == nth_fibonacci(nth as int),
{
    if nth <= 0 {
        return 0;
    }
    let mut x: i32 = 0;
    let mut y: i32 = 1;
    for k in 1..nth
        invariant
            1 <= k <= nth <= MAX_FIBONACCI_POSITION,
            x == fib((k - 1) as nat),
            y == fib(k as nat),
    {
        proof {
            lemma_fib_fits_i32((k + 1) as nat);
        }
        let next = x + y;
        x = y;
        y = next;
    }
    y
}

} // verus!
