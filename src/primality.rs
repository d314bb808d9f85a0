use vstd::prelude::*;

verus! {

/// `n` is prime: at least two, and no number strictly between one and `n` divides it.
pub open spec fn is_prime(n: nat) -> bool {
    n >= 2 && forall|d: nat| 2 <= d < n ==> #[trigger] (n % d) != 0
}

/// Numbers at or below this bound are never worth a reply, prime or not.
pub const THRESHOLD: u64 = 10;

/// A number worth a reply: above the threshold, and prime.
pub open spec fn nice_number(n: u64) -> bool {
    n > THRESHOLD && is_prime(n as nat)
}

/// Relies on `num_prime::nt_funcs::is_prime`: on a `u64` it answers
/// `Primality::Yes` or `Primality::No` by a deterministic Miller-Rabin test
/// (`is_prime64`), and `Primality::probably` is false only on `No`.
#[verifier::external_body]
fn probably_prime(n: u64) -> (r: bool)
    ensures
        r == is_prime(n as nat),
{
    num_prime::nt_funcs::is_prime(&n, None).probably()
}

/// Whether `n` is a number worth a reply.
pub fn is_nice_prime(n: u64) -> (r: bool)
    ensures
        r == nice_number(n),
{
    n > THRESHOLD && probably_prime(n)
}

} // verus!
