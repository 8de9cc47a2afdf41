use vstd::prelude::*;

verus! {

#[verifier::external_type_specification]
#[verifier::external_body]
pub struct ExThreadRng(rand::rngs::ThreadRng);

#[verifier::external_type_specification]
#[verifier::external_body]
pub struct ExSmallRng(rand::rngs::SmallRng);

#[verifier::external_type_specification]
#[verifier::external_body]
pub struct ExStdRng(rand::rngs::StdRng);

/// Relies on rand's `thread_rng`: a handle on this thread's lazily seeded
/// generator. Nothing is known of the values it will give. It panics where
/// seeding from the operating system's entropy source fails.
pub assume_specification[ rand::thread_rng ]() -> rand::rngs::ThreadRng;

/// A stateful source of uniformly distributed indices.
///
/// Each draw may change the source's state, so two draws with the same bound
/// may give different indices.
pub trait RandomSource {
    /// Draws an index in `[0, n)`.
    fn gen_index(&mut self, n: usize) -> (r: usize)
        requires
            n > 0,
        ensures
            r < n,
    ;
}

/// Relies on rand's `Rng::gen_range` for `ThreadRng`: on a non-empty range
/// `0..n` it returns a value in that range. It panics on an empty range, which
/// `n > 0` rules out, and where reseeding from the operating system's entropy
/// source fails.
#[verifier::external_body]
fn thread_gen_range(rng: &mut rand::rngs::ThreadRng, n: usize) -> (r: usize)
    requires
        n > 0,
    ensures
        r < n,
{
    rand::Rng::gen_range(rng, 0..n)
}

/// Relies on rand's `Rng::gen_range` for `SmallRng`: on a non-empty range
/// `0..n` it returns a value in that range. It panics on an empty range, which
/// `n > 0` rules out.
#[verifier::external_body]
fn small_gen_range(rng: &mut rand::rngs::SmallRng, n: usize) -> (r: usize)
    requires
        n > 0,
    ensures
        r < n,
{
    rand::Rng::gen_range(rng, 0..n)
}

/// Relies on rand's `Rng::gen_range` for `StdRng`: on a non-empty range
/// `0..n` it returns a value in that range. It panics on an empty range, which
/// `n > 0` rules out.
#[verifier::external_body]
fn std_gen_range(rng: &mut rand::rngs::StdRng, n: usize) -> (r: usize)
    requires
        n > 0,
    ensures
        r < n,
{
    rand::Rng::gen_range(rng, 0..n)
}

impl RandomSource for rand::rngs::ThreadRng {
    fn gen_index(&mut self, n: usize) -> (r: usize) {
        thread_gen_range(self, n)
    }
}

impl RandomSource for rand::rngs::SmallRng {
    fn gen_index(&mut self, n: usize) -> (r: usize) {
        small_gen_range(self, n)
    }
}

impl RandomSource for rand::rngs::StdRng {
    fn gen_index(&mut self, n: usize) -> (r: usize) {
        std_gen_range(self, n)
    }
}

} // verus!
