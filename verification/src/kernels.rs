//! The two addition kernels: one value at a time, and one lane at a time.
//!
//! The addition itself is the caller's: a kernel is handed a function on bit
//! patterns and applies it to every pair of corresponding items. What a
//! kernel returns is stated through what that function ensures.
use vstd::prelude::*;
use crate::buffer::KernelType;
use crate::error::BenchError;
use crate::lanes::{pack, unpack};

verus! {

/// `add1` may be called on every pair of corresponding values of `a` and `b`.
pub open spec fn scalar_callable<F: Fn(u32, u32) -> u32>(
    add1: F,
    a: Seq<u32>,
    b: Seq<u32>,
) -> bool {
    forall|i: int| 0 <= i < a.len() && i < b.len() ==> add1.requires((#[trigger] a[i], b[i]))
}

/// `add4` may be called on every pair of corresponding lanes of `a` and `b`.
pub open spec fn lane_callable<G: Fn([u32; 4], [u32; 4]) -> [u32; 4]>(
    add4: G,
    a: Seq<[u32; 4]>,
    b: Seq<[u32; 4]>,
) -> bool {
    forall|j: int| 0 <= j < a.len() && j < b.len() ==> add4.requires((#[trigger] a[j], b[j]))
}

/// `c` is a result of combining `a` and `b` value by value with `add1`.
pub open spec fn scalar_sum<F: Fn(u32, u32) -> u32>(
    add1: F,
    a: Seq<u32>,
    b: Seq<u32>,
    c: Seq<u32>,
) -> bool {
    &&& c.len() == a.len()
    &&& forall|i: int| 0 <= i < a.len() ==> add1.ensures((a[i], b[i]), #[trigger] c[i])
}

/// `c` is a result of combining `a` and `b` lane by lane with `add4`.
pub open spec fn lane_sum<G: Fn([u32; 4], [u32; 4]) -> [u32; 4]>(
    add4: G,
    a: Seq<[u32; 4]>,
    b: Seq<[u32; 4]>,
    c: Seq<[u32; 4]>,
) -> bool {
    &&& c.len() == a.len()
    &&& forall|j: int| 0 <= j < a.len() ==> add4.ensures((a[j], b[j]), #[trigger] c[j])
}

/// `add1` has one result for each pair of arguments.
pub open spec fn single_valued<F: Fn(u32, u32) -> u32>(add1: F) -> bool {
    forall|x: u32, y: u32, r1: u32, r2: u32|
        #[trigger] add1.ensures((x, y), r1) && #[trigger] add1.ensures((x, y), r2) ==> r1 == r2
}

/// `add4` has one result for each pair of arguments.
pub open spec fn single_valued4<G: Fn([u32; 4], [u32; 4]) -> [u32; 4]>(add4: G) -> bool {
    forall|x: [u32; 4], y: [u32; 4], r1: [u32; 4], r2: [u32; 4]|
        #[trigger] add4.ensures((x, y), r1) && #[trigger] add4.ensures((x, y), r2) ==> r1 == r2
}

/// `add4` does within a lane what `add1` does to single values: each of the
/// four positions of its result is a result of `add1` on that position of its
/// arguments.
pub open spec fn lanewise<F: Fn(u32, u32) -> u32, G: Fn([u32; 4], [u32; 4]) -> [u32; 4]>(
    add4: G,
    add1: F,
) -> bool {
    forall|x: [u32; 4], y: [u32; 4], r: [u32; 4]| #[trigger]
        add4.ensures((x, y), r) ==> {
            &&& add1.ensures((x[0], y[0]), r[0])
            &&& add1.ensures((x[1], y[1]), r[1])
            &&& add1.ensures((x[2], y[2]), r[2])
            &&& add1.ensures((x[3], y[3]), r[3])
        }
}

/// The scalar kernel. Both operands must be in scalar form, or the call is
/// answered with `TypeMismatch`. The result is a new buffer in scalar form
/// whose value at each index is `add1` of the operands' values at that index.
pub fn sum_serial<F: Fn(u32, u32) -> u32>(
    a: &KernelType,
    b: &KernelType,
    dim: usize,
    add1: F,
) -> (r: Result<KernelType, BenchError>)
    requires
        a is F32Vec && b is F32Vec ==> {
            &&& a.scalars().len() == dim * dim
            &&& b.scalars().len() == dim * dim
            &&& scalar_callable(add1, a.scalars(), b.scalars())
        },
    ensures
        a is F32Vec && b is F32Vec ==> r is Ok && r->Ok_0 is F32Vec && scalar_sum(
            add1,
            a.scalars(),
            b.scalars(),
            r->Ok_0.scalars(),
        ),
        !(a is F32Vec && b is F32Vec) ==> r is Err && r->Err_0 == BenchError::TypeMismatch,
{
    match (a, b) {
        (KernelType::F32Vec(inner_a), KernelType::F32Vec(inner_b)) => {
            // The product is the length of a vector, so it fits.
            assert(dim * dim == inner_a.len());
            let n: usize = dim * dim;
            let mut c: Vec<u32> = Vec::with_capacity(n);
            let mut i: usize = 0;
            while i < n
                invariant
                    i <= n,
                    n == inner_a.len(),
                    n == inner_b.len(),
                    c.len() == i,
                    scalar_callable(add1, inner_a@, inner_b@),
                    forall|k: int|
                        0 <= k < i ==> add1.ensures((inner_a@[k], inner_b@[k]), #[trigger] c@[k]),
                decreases n - i,
            {
                let s: u32 = add1(inner_a[i], inner_b[i]);
                c.push(s);
                i += 1;
            }
            Ok(KernelType::F32Vec(c))
        },
        _ => Err(BenchError::TypeMismatch),
    }
}

/// The vectorized kernel. Both operands must be in lane form, or the call is
/// answered with `TypeMismatch`. The result is a new buffer in lane form with
/// one lane for each lane of `a`: `add4` of that lane and the lane of `b` at
/// the same index. The dimension plays no part.
pub fn sum_f32x4<G: Fn([u32; 4], [u32; 4]) -> [u32; 4]>(
    a: &KernelType,
    b: &KernelType,
    dim: usize,
    add4: G,
) -> (r: Result<KernelType, BenchError>)
    requires
        a is F32x4Vec && b is F32x4Vec ==> {
            &&& a.lanes().len() <= b.lanes().len()
            &&& lane_callable(add4, a.lanes(), b.lanes())
        },
    ensures
        a is F32x4Vec && b is F32x4Vec ==> r is Ok && r->Ok_0 is F32x4Vec && lane_sum(
            add4,
            a.lanes(),
            b.lanes(),
            r->Ok_0.lanes(),
        ),
        !(a is F32x4Vec && b is F32x4Vec) ==> r is Err && r->Err_0 == BenchError::TypeMismatch,
{
    match (a, b) {
        (KernelType::F32x4Vec(inner_a), KernelType::F32x4Vec(inner_b)) => {
            let n: usize = inner_a.len();
            let mut c: Vec<[u32; 4]> = Vec::with_capacity(n);
            let mut i: usize = 0;
            while i < n
                invariant
                    i <= n,
                    n == inner_a.len(),
                    n <= inner_b.len(),
                    c.len() == i,
                    lane_callable(add4, inner_a@, inner_b@),
                    forall|j: int|
                        0 <= j < i ==> add4.ensures((inner_a@[j], inner_b@[j]), #[trigger] c@[j]),
                decreases n - i,
            {
                let s: [u32; 4] = add4(inner_a[i], inner_b[i]);
                c.push(s);
                i += 1;
            }
            Ok(KernelType::F32x4Vec(c))
        },
        _ => Err(BenchError::TypeMismatch),
    }
}

/// Both kernels compute the same values. Let `a` and `b` be scalar sequences
/// of one length, a multiple of four; let `s` be a result of the scalar
/// kernel on them, and `v` a result of the vectorized kernel on their
/// packings. If `add4` works lane-wise as `add1` does on single values, and
/// `add1` has one result for each pair, then `v` unpacked is `s`.
pub proof fn lemma_kernels_agree<F: Fn(u32, u32) -> u32, G: Fn([u32; 4], [u32; 4]) -> [u32; 4]>(
    add1: F,
    add4: G,
    a: Seq<u32>,
    b: Seq<u32>,
    s: Seq<u32>,
    v: Seq<[u32; 4]>,
)
    requires
        a.len() == b.len(),
        a.len() % 4 == 0,
        scalar_sum(add1, a, b, s),
        lane_sum(add4, pack(a), pack(b), v),
        lanewise(add4, add1),
        single_valued(add1),
    ensures
        unpack(v) == s,
{
}

/// The scalar kernel is a function of its operands: two results on the same
/// operands are the same sequence, whenever `add1` has one result for each pair.
pub proof fn lemma_scalar_sum_unique<F: Fn(u32, u32) -> u32>(
    add1: F,
    a: Seq<u32>,
    b: Seq<u32>,
    c1: Seq<u32>,
    c2: Seq<u32>,
)
    requires
        scalar_sum(add1, a, b, c1),
        scalar_sum(add1, a, b, c2),
        single_valued(add1),
    ensures
        c1 == c2,
{
}

/// The vectorized kernel is a function of its operands: two results on the
/// same operands are the same sequence, whenever `add4` has one result for
/// each pair.
pub proof fn lemma_lane_sum_unique<G: Fn([u32; 4], [u32; 4]) -> [u32; 4]>(
    add4: G,
    a: Seq<[u32; 4]>,
    b: Seq<[u32; 4]>,
    c1: Seq<[u32; 4]>,
    c2: Seq<[u32; 4]>,
)
    requires
        lane_sum(add4, a, b, c1),
        lane_sum(add4, a, b, c2),
        single_valued4(add4),
    ensures
        c1 == c2,
{
}

} // verus!
