//! Random selection over vectors, built on the rand crate behind a few small
//! trusted wrappers.
use vstd::prelude::*;

use rand::seq::SliceRandom;
use rand::Rng;
use rand::SeedableRng;

verus! {

broadcast use vstd::seq_lib::group_to_multiset_ensures, vstd::multiset::group_multiset_axioms;

/// rand's standard generator, declared so that a session can own the random
/// source its choices are drawn from.
#[verifier::external_type_specification]
#[verifier::external_body]
pub struct ExStdRng(rand::rngs::StdRng);

/// Relies on rand's `SeedableRng::seed_from_u64`: a generator whose stream
/// depends on the seed alone, for sessions that replay deterministically.
#[verifier::external_body]
pub(crate) fn seeded_rng(seed: u64) -> rand::rngs::StdRng {
    rand::rngs::StdRng::seed_from_u64(seed)
}

/// Relies on rand's `SeedableRng::from_entropy`: a generator freshly seeded
/// from the operating system.
#[verifier::external_body]
pub(crate) fn entropy_rng() -> rand::rngs::StdRng {
    rand::rngs::StdRng::from_entropy()
}

/// Relies on rand's `Rng::gen_range` over `0..n`: the sample lies in the
/// half-open range, and the call panics only on an empty range, which the
/// precondition rules out.
#[verifier::external_body]
pub(crate) fn rand_below(rng: &mut rand::rngs::StdRng, n: usize) -> (r: usize)
    requires
        n > 0,
    ensures
        r < n,
{
    rng.gen_range(0..n)
}

/// Relies on rand's `SliceRandom::shuffle`: a Fisher-Yates shuffle that
/// permutes the elements in place by swaps, so the new contents carry the
/// same multiset of values (and in particular the same length).
#[verifier::external_body]
fn shuffle_in_place(rng: &mut rand::rngs::StdRng, v: &mut Vec<usize>)
    ensures
        final(v)@.to_multiset() == old(v)@.to_multiset(),
        final(v)@.len() == old(v)@.len(),
{
    v.shuffle(rng);
}

/// The indices `0 .. len` in a uniformly random order: each index below
/// `len` appears exactly once.
pub(crate) fn index_permutation(rng: &mut rand::rngs::StdRng, len: usize) -> (r: Vec<usize>)
    ensures
        r@.len() == len,
        forall|j: int| 0 <= j < r@.len() ==> #[trigger] r@[j] < len,
        r@.no_duplicates(),
{
    let mut v: Vec<usize> = Vec::new();
    let mut i: usize = 0;
    while i < len
        invariant
            i <= len,
            v@.len() == i,
            forall|j: int| 0 <= j < i ==> #[trigger] v@[j] == j,
        decreases len - i,
    {
        v.push(i);
        i += 1;
    }
    let ghost base = v@;
    proof {
        assert(base.no_duplicates());
        base.lemma_multiset_has_no_duplicates();
    }
    shuffle_in_place(rng, &mut v);
    proof {
        assert forall|j: int| 0 <= j < v@.len() implies #[trigger] v@[j] < len by {
            assert(v@.contains(v@[j]));
            assert(v@.to_multiset().count(v@[j]) > 0);
            assert(base.to_multiset().count(v@[j]) > 0);
            assert(base.contains(v@[j]));
            let w = choose|w: int| 0 <= w < base.len() && base[w] == v@[j];
            assert(base[w] == w);
        }
        assert forall|x: usize| v@.to_multiset().contains(x) implies v@.to_multiset().count(x)
            == 1 by {
            assert(base.to_multiset().contains(x));
        }
        v@.lemma_multiset_has_no_duplicates_conv();
    }
    v
}

/// Whether `item` is a clone of one of the rows of `rows`.
pub open spec fn spec_clone_of_row<T: Clone>(rows: Seq<T>, item: T) -> bool {
    exists|i: int| 0 <= i < rows.len() && vstd::pervasive::cloned(#[trigger] rows[i], item)
}

/// Up to `n` of the rows of `v`, chosen uniformly at random without
/// repetition: exactly `min(n, v.len())` rows, each a row of `v`, no row
/// index used twice.
pub fn choose_random_n<T: Clone>(vec: &Vec<T>, n: usize) -> (r: Vec<T>)
    ensures
        r@.len() == if n <= vec@.len() {
            n as int
        } else {
            vec@.len() as int
        },
        forall|j: int| 0 <= j < r@.len() ==> spec_clone_of_row(vec@, #[trigger] r@[j]),
{
    let mut rng = entropy_rng();
    let mut indices = index_permutation(&mut rng, vec.len());
    let count = if n <= vec.len() {
        n
    } else {
        vec.len()
    };
    indices.truncate(count);
    let mut r: Vec<T> = Vec::new();
    let mut j: usize = 0;
    while j < indices.len()
        invariant
            j <= indices@.len(),
            indices@.len() == count,
            count <= vec@.len(),
            forall|t: int| 0 <= t < indices@.len() ==> #[trigger] indices@[t] < vec@.len(),
            r@.len() == j,
            forall|t: int| 0 <= t < j ==> spec_clone_of_row(vec@, #[trigger] r@[t]),
        decreases indices@.len() - j,
    {
        let idx = indices[j];
        let item = vec[idx].clone();
        proof {
            assert(vstd::pervasive::cloned(vec@[idx as int], item));
            assert(spec_clone_of_row(vec@, item));
        }
        r.push(item);
        j += 1;
    }
    r
}

/// One row of `vec` chosen uniformly at random, or nothing when `vec` is
/// empty.
pub fn choose_random<T: Clone>(vec: &[T]) -> (r: Option<T>)
    ensures
        r is Some <==> vec@.len() > 0,
        r matches Some(item) ==> spec_clone_of_row(vec@, item),
{
    if vec.is_empty() {
        return None;
    }
    let mut rng = entropy_rng();
    let index = rand_below(&mut rng, vec.len());
    let item = vec[index].clone();
    proof {
        assert(vstd::pervasive::cloned(vec@[index as int], item));
        assert(spec_clone_of_row(vec@, item));
    }
    Some(item)
}

/// Random selection over a collection's rows.
pub trait RandomChooser<T> {
    /// One row chosen uniformly at random, or nothing when there is none.
    fn choose_random(&self) -> Option<T>;

    /// Up to `n` rows chosen uniformly at random without repetition.
    fn choose_random_n(&self, n: usize) -> Vec<T>;
}

impl<T: Clone> RandomChooser<T> for Vec<T> {
    fn choose_random(&self) -> Option<T> {
        choose_random(self.as_slice())
    }

    fn choose_random_n(&self, n: usize) -> Vec<T> {
        choose_random_n(self, n)
    }
}

} // verus!
