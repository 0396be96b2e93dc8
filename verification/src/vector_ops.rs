//! Operations on coordinate slices of any length.

use vstd::prelude::*;

use crate::exact::{narrow, product, representable};
use crate::vector::Vec3;

verus! {

/// The number of coordinate pairs that two slices form: the length of the
/// shorter one.
pub open spec fn paired_len(a: Seq<i64>, b: Seq<i64>) -> nat {
    if a.len() <= b.len() {
        a.len()
    } else {
        b.len()
    }
}

/// The sum of the products of the first `n` coordinate pairs.
pub open spec fn dot_prefix(a: Seq<i64>, b: Seq<i64>, n: nat) -> int
    recommends
        n <= paired_len(a, b),
    decreases n,
{
    if n == 0 {
        0
    } else {
        dot_prefix(a, b, (n - 1) as nat) + a[n - 1] * b[n - 1]
    }
}

/// Whether the sum of the products of the first `n` coordinate pairs fits in
/// an `i64`, for every `n` up to the number of pairs.
pub open spec fn partial_sums_representable(a: Seq<i64>, b: Seq<i64>) -> bool {
    forall|n: nat| n <= paired_len(a, b) ==> representable(#[trigger] dot_prefix(a, b, n))
}

/// The dot product of two coordinate slices: the sum of the products of
/// their coordinates pair by pair, as far as the shorter slice goes. The sum
/// is taken in order, and each partial sum has to fit in an `i64`.
pub fn vector_dot(vec_a: &[i64], vec_b: &[i64]) -> (d: i64)
    requires
        partial_sums_representable(vec_a@, vec_b@),
    ensures
        d == dot_prefix(vec_a@, vec_b@, paired_len(vec_a@, vec_b@)),
{
    let len: usize = if vec_a.len() <= vec_b.len() {
        vec_a.len()
    } else {
        vec_b.len()
    };
    let mut sum: i64 = 0;
    let mut i: usize = 0;
    while i < len
        invariant
            len == paired_len(vec_a@, vec_b@),
            i <= len,
            sum == dot_prefix(vec_a@, vec_b@, i as nat),
            partial_sums_representable(vec_a@, vec_b@),
        decreases len - i,
    {
        assert(representable(dot_prefix(vec_a@, vec_b@, (i + 1) as nat)));
        sum = narrow(sum as i128 + product(vec_a[i], vec_b[i]));
        i += 1;
    }
    sum
}

/// On three coordinates the slice dot product is the dot product of the
/// vectors.
pub proof fn dot_of_three(a: Seq<i64>, b: Seq<i64>)
    requires
        a.len() == 3,
        b.len() == 3,
    ensures
        dot_prefix(a, b, 3) == (Vec3 { x: a[0] as int, y: a[1] as int, z: a[2] as int }).dot(
            Vec3 { x: b[0] as int, y: b[1] as int, z: b[2] as int },
        ),
{
    reveal_with_fuel(dot_prefix, 4);
}

} // verus!
