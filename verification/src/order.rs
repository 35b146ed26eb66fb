use vstd::prelude::*;
use rand::seq::SliceRandom;
use rand::SeedableRng;

verus! {

#[verifier::external_type_specification]
#[verifier::external_body]
pub struct ExStdRng(rand::rngs::StdRng);

/// The block indices `0, 1, .., n - 1` in increasing order.
pub open spec fn index_range(n: usize) -> Seq<usize> {
    Seq::new(n as nat, |i: int| i as usize)
}

/// Whether `order` holds each of `0 .. n` exactly once, in some order.
pub open spec fn is_order_of(order: Seq<usize>, n: usize) -> bool {
    order.to_multiset() == index_range(n).to_multiset()
}

/// `SeedableRng::try_from_os_rng` for rand's `StdRng`: a generator seeded
/// from the operating system, or `None` when the system gives no seed. The
/// generator never reseeds, so drawing from it cannot fail. Nothing is
/// stated of its state.
#[verifier::external_body]
fn seeded_rng() -> Option<rand::rngs::StdRng> {
    rand::rngs::StdRng::try_from_os_rng().ok()
}

/// `SliceRandom::shuffle` of rand on the elements of `v`. Its source
/// (a Fisher-Yates shuffle made of `swap`s) keeps the elements and only
/// reorders them; which order comes out rests on the generator and is not
/// stated.
#[verifier::external_body]
fn shuffle(v: &mut Vec<usize>, rng: &mut rand::rngs::StdRng)
    ensures
        final(v)@.to_multiset() == old(v)@.to_multiset(),
{
    v.as_mut_slice().shuffle(rng)
}

/// The indices `0 .. n` in a random order, drawn from a generator seeded
/// by the operating system; `None` when the system gives no seed.
pub fn random_order(n: usize) -> (r: Option<Vec<usize>>)
    ensures
        r matches Some(o) ==> o@.len() == n && is_order_of(o@, n),
{
    let mut v: Vec<usize> = Vec::new();
    let mut i: usize = 0;
    while i < n
        invariant
            i <= n,
            v@ == index_range(i),
        decreases n - i,
    {
        v.push(i);
        i = i + 1;
        assert(v@ =~= index_range(i));
    }
    match seeded_rng() {
        Some(mut rng) => {
            shuffle(&mut v, &mut rng);
            proof {
                broadcast use vstd::seq_lib::group_to_multiset_ensures;
                assert(v@.to_multiset().len() == index_range(n).to_multiset().len());
            }
            Some(v)
        },
        None => None,
    }
}

} // verus!
