//! The worker pool driver's decisions: the order in which the rules are
//! handed to the workers, and whether a worker starts a rule.
use vstd::prelude::*;

verus! {

/// The thread-local random generator of the rand crate, carried opaquely.
#[verifier::external_type_specification]
#[verifier::external_body]
pub struct ExThreadRng(rand::rngs::ThreadRng);

/// Relies on `rand::thread_rng`: a handle on the thread-local generator.
#[verifier::external_body]
fn thread_rng() -> (r: rand::rngs::ThreadRng) {
    rand::thread_rng()
}

/// Relies on `rand::seq::SliceRandom::shuffle`: the elements are permuted,
/// in an order nothing can predict.
#[verifier::external_body]
fn shuffle(v: &mut Vec<usize>, rng: &mut rand::rngs::ThreadRng)
    ensures
        final(v)@.to_multiset() == old(v)@.to_multiset(),
        final(v)@.len() == old(v)@.len(),
{
    rand::seq::SliceRandom::shuffle(v.as_mut_slice(), rng);
}

/// The positions of `n` rules in dispatch order: in the configured order, or
/// shuffled when `randomize` is set. Either way each rule comes exactly once.
pub fn dispatch_order(n: usize, randomize: bool) -> (r: Vec<usize>)
    ensures
        r@.len() == n,
        r@.to_multiset() == Seq::new(n as nat, |i: int| i as usize).to_multiset(),
        !randomize ==> r@ == Seq::new(n as nat, |i: int| i as usize),
{
    let mut v: Vec<usize> = Vec::new();
    let mut i: usize = 0;
    while i < n
        invariant
            i <= n,
            v@ == Seq::new(i as nat, |k: int| k as usize),
        decreases n - i,
    {
        v.push(i);
        i = i + 1;
        assert(v@ =~= Seq::new(i as nat, |k: int| k as usize));
    }
    assert(v@ =~= Seq::new(n as nat, |k: int| k as usize));
    if randomize {
        let mut rng = thread_rng();
        shuffle(&mut v, &mut rng);
    }
    v
}

/// Whether a worker starts its rule: not once shutdown has been requested.
pub fn should_start_rule(shutdown: &crate::shutdown::ShutdownState) -> (r: bool)
    ensures
        r == !shutdown.requested,
{
    !crate::shutdown::is_shutdown_requested(shutdown)
}

} // verus!
