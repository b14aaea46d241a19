use vstd::prelude::*;

verus! {

/// Triangle-list indices that fan a convex outline of `vertex_count`
/// vertices around its first vertex: triangle `t` is `(0, t + 1, t + 2)`.
pub fn fan_triangle_indices(vertex_count: usize) -> (indices: Vec<u32>)
    requires
        2 <= vertex_count,
        vertex_count - 1 <= u32::MAX,
        3 * (vertex_count - 2) <= usize::MAX,
    ensures
        indices.len() == 3 * (vertex_count - 2),
        forall|t: int|
            0 <= t < vertex_count - 2 ==> {
                &&& #[trigger] indices@[3 * t] == 0
                &&& indices@[3 * t + 1] == t + 1
                &&& indices@[3 * t + 2] == t + 2
            },
        forall|k: int| 0 <= k < indices.len() ==> (#[trigger] indices@[k] as int) < vertex_count,
{
    let mut indices: Vec<u32> = Vec::with_capacity((vertex_count - 2) * 3);
    let mut i: usize = 1;
    while i < vertex_count - 1
        invariant
            2 <= vertex_count,
            vertex_count - 1 <= u32::MAX,
            1 <= i <= vertex_count - 1,
            indices.len() == 3 * (i - 1),
            forall|t: int|
                0 <= t < i - 1 ==> {
                    &&& #[trigger] indices@[3 * t] == 0
                    &&& indices@[3 * t + 1] == t + 1
                    &&& indices@[3 * t + 2] == t + 2
                },
            forall|k: int| 0 <= k < indices.len() ==> (#[trigger] indices@[k] as int) < vertex_count,
        decreases vertex_count - 1 - i,
    {
        let ghost before = indices@;
        indices.push(0);
        indices.push(i as u32);
        indices.push((i + 1) as u32);
        assert(indices@ == before + seq![0u32, i as u32, (i + 1) as u32]);
        assert forall|t: int| 0 <= t < i implies {
            &&& #[trigger] indices@[3 * t] == 0
            &&& indices@[3 * t + 1] == t + 1
            &&& indices@[3 * t + 2] == t + 2
        } by {
            if t < i - 1 {
                assert(indices@[3 * t] == before[3 * t]);
                assert(indices@[3 * t + 1] == before[3 * t + 1]);
                assert(indices@[3 * t + 2] == before[3 * t + 2]);
            }
        }
        i = i + 1;
    }
    indices
}

} // verus!
