//! Conversion between the scalar form and the lane form of a buffer.
use vstd::prelude::*;
use crate::error::BenchError;

verus! {

/// The number of values in one lane.
pub const LANE_WIDTH: usize = 4;

/// The lanes of a scalar sequence: lane `j` holds the values at `4j .. 4j + 4`,
/// in their order. Values behind the last full group of four belong to no lane.
pub open spec fn pack(flat: Seq<u32>) -> Seq<[u32; 4]> {
    Seq::new(
        flat.len() / 4,
        |j: int| [flat[4 * j], flat[4 * j + 1], flat[4 * j + 2], flat[4 * j + 3]],
    )
}

/// The scalar sequence of a sequence of lanes: lane after lane, each in its order.
pub open spec fn unpack(lanes: Seq<[u32; 4]>) -> Seq<u32> {
    Seq::new(lanes.len() * 4, |i: int| lanes[i / 4][i % 4])
}

/// Groups the values of `v` into lanes of four. A length that is no multiple
/// of four is refused, and nothing is produced.
pub fn vec_to_f32x4(v: &Vec<u32>) -> (r: Result<Vec<[u32; 4]>, BenchError>)
    ensures
        v.len() % 4 == 0 ==> r is Ok && r->Ok_0@ == pack(v@),
        v.len() % 4 != 0 ==> r is Err && r->Err_0 == BenchError::ShapeError,
{
    if v.len() % LANE_WIDTH != 0 {
        return Err(BenchError::ShapeError);
    }
    let count: usize = v.len() / LANE_WIDTH;
    let mut v_out: Vec<[u32; 4]> = Vec::with_capacity(count);
    let mut i: usize = 0;
    while i < count
        invariant
            count == v.len() / 4,
            i <= count,
            v_out.len() == i,
            forall|j: int| 0 <= j < i ==> v_out@[j] == #[trigger] pack(v@)[j],
        decreases count - i,
    {
        let tmp: [u32; 4] = [v[i * 4], v[i * 4 + 1], v[i * 4 + 2], v[i * 4 + 3]];
        v_out.push(tmp);
        i += 1;
    }
    Ok(v_out)
}

/// Spreads the lanes of `v` out into their values. Always succeeds.
pub fn f32x4_to_vec(v: &Vec<[u32; 4]>) -> (r: Vec<u32>)
    ensures
        r@ == unpack(v@),
{
    let mut v_out: Vec<u32> = Vec::new();
    let mut j: usize = 0;
    while j < v.len()
        invariant
            j <= v.len(),
            v_out.len() == 4 * j,
            forall|i: int| 0 <= i < 4 * j ==> v_out@[i] == #[trigger] unpack(v@)[i],
        decreases v.len() - j,
    {
        let e: [u32; 4] = v[j];
        v_out.push(e[0]);
        v_out.push(e[1]);
        v_out.push(e[2]);
        v_out.push(e[3]);
        j += 1;
    }
    v_out
}

/// Packing and then unpacking gives the sequence back, whenever its length
/// is a multiple of four.
pub proof fn lemma_unpack_pack(x: Seq<u32>)
    requires
        x.len() % 4 == 0,
    ensures
        unpack(pack(x)) == x,
{
}

/// Unpacking and then packing gives the lanes back.
pub proof fn lemma_pack_unpack(lanes: Seq<[u32; 4]>)
    ensures
        pack(unpack(lanes)) == lanes,
{
    assert forall|j: int| 0 <= j < lanes.len() implies pack(unpack(lanes))[j] == lanes[j] by {
        // Arrays that agree at every position are equal.
        assert(pack(unpack(lanes))[j] =~= lanes[j]);
    }
}

} // verus!
