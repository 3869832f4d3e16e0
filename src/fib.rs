//! The Fibonacci numbers 1, 1, 2, 3, 5, ... produced one at a time in `u64`,
//! ending where the sum that the next step needs no longer fits.
use vstd::prelude::*;

verus! {

/// The Fibonacci numbers, from `fib(0) == 0` and `fib(1) == 1`.
pub open spec fn fib(n: nat) -> nat
    decreases n,
{
    if n < 2 {
        n
    } else {
        fib((n - 1) as nat) + fib((n - 2) as nat)
    }
}

/// A generator whose `n`-th value, counting from zero, is `fib(n + 1)`.
pub struct Fibonacci {
    curr: u64,
    next: u64,
    produced: Ghost<nat>,
}

impl View for Fibonacci {
    /// How many values have been produced so far.
    type V = nat;

    closed spec fn view(&self) -> nat {
        self.produced@
    }
}

impl Fibonacci {
    #[verifier::type_invariant]
    spec fn holds_next_pair(self) -> bool {
        &&& self.curr == fib(self.produced@ + 1)
        &&& self.next == fib(self.produced@ + 2)
    }

    /// Yields the next Fibonacci number, while the one after the following
    /// still fits in `u64`; once it does not, yields nothing and stays put.
    pub fn next(&mut self) -> (r: Option<u64>)
        ensures
            fib(old(self)@ + 3) <= u64::MAX ==> r == Some(fib(old(self)@ + 1) as u64)
                && final(self)@ == old(self)@ + 1,
            fib(old(self)@ + 3) > u64::MAX ==> r is None && final(self)@ == old(self)@,
    {
        proof {
            use_type_invariant(&*self);
        }
        let n = Ghost(self.produced@);
        match self.curr.checked_add(self.next) {
            Some(sum) => {
                let value = self.curr;
                *self = Fibonacci { curr: self.next, next: sum, produced: Ghost(n@ + 1) };
                Some(value)
            },
            None => None,
        }
    }
}

/// A generator of the Fibonacci numbers, starting 1, 1, 2, 3, 5, ...
pub fn fibonacci() -> (r: Fibonacci)
    ensures
        r@ == 0,
{
    proof {
        reveal_with_fuel(fib, 3);
    }
    Fibonacci { curr: 1, next: 1, produced: Ghost(0) }
}

} // verus!
