use vstd::prelude::*;

verus! {

/// One corner of a textured triangle.
///
/// Both coordinates are whole numbers. `position` counts pixels, sixteen to
/// a tile, from the grid's origin. `texture_position` counts sixteenths of
/// the atlas's side from its lower left corner, so it runs from 0 to 16 on
/// each axis.
#[derive(Copy, Clone, Debug, PartialEq, Eq)]
pub struct Vertex {
    pub position: [u32; 2],
    pub texture_position: [u8; 2],
}

/// Appends the six corners of a tile's two triangles to `out`.
pub fn extend_tris(out: &mut Vec<Vertex>, tris: &[Vertex; 6])
    ensures
        final(out)@ == old(out)@ + tris@,
{
    let mut i: usize = 0;
    while i < 6
        invariant
            i <= 6,
            out@ == old(out)@ + tris@.subrange(0, i as int),
        decreases 6 - i,
    {
        out.push(tris[i]);
        i += 1;
    }
    assert(tris@.subrange(0, 6) =~= tris@);
}

} // verus!
