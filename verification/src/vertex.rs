//! Vertex buffers and the attribute layout math that tells a shader how an
//! interleaved vertex array is split into components.

use vstd::prelude::*;

verus! {

/// One vertex attribute: where a shader finds one group of components
/// inside an interleaved vertex array. The counts are in floats, the unit
/// the graphics driver's attribute pointers are set up in.
#[derive(Clone, Copy, Debug, PartialEq, Eq, Structural)]
pub struct VertexAttrib {
    /// The layout index of the attribute: its position in the shader.
    pub layout: u32,

    /// How many floats this attribute is made of.
    pub component_count: i32,

    /// How many floats one whole vertex is made of.
    pub stride: i32,

    /// How many floats come before this attribute inside one vertex.
    pub offset: usize,
}

/// The sum of the first `n` component counts.
pub open spec fn counts_sum(counts: Seq<i32>, n: int) -> int
    decreases n,
{
    if n <= 0 {
        0
    } else {
        counts_sum(counts, n - 1) + counts[n - 1]
    }
}

/// With no negative counts, the partial sums of `counts_sum` grow with `n`.
proof fn lemma_counts_sum_monotonic(counts: Seq<i32>, i: int, j: int)
    requires
        0 <= i <= j <= counts.len(),
        forall|n: int| 0 <= n < counts.len() ==> 0 <= counts[n],
    ensures
        counts_sum(counts, i) <= counts_sum(counts, j),
    decreases j - i,
{
    if i < j {
        lemma_counts_sum_monotonic(counts, i, j - 1);
    }
}

/// Every attribute lies inside one vertex: with no negative counts, an
/// attribute's offset plus its own component count stays within the
/// stride, and no offset is negative.
pub proof fn lemma_attrib_within_stride(counts: Seq<i32>, i: int)
    requires
        0 <= i < counts.len(),
        forall|n: int| 0 <= n < counts.len() ==> 0 <= counts[n],
    ensures
        0 <= counts_sum(counts, i),
        counts_sum(counts, i) + counts[i] <= counts_sum(counts, counts.len() as int),
{
    lemma_counts_sum_monotonic(counts, 0, i);
    lemma_counts_sum_monotonic(counts, i + 1, counts.len() as int);
}

/// A `VertexBuffer` is the bookkeeping half of a vertex array: the ids the
/// graphics driver handed out for the vertex array object, the vertex
/// buffer object and the element buffer object, and how many elements the
/// buffer draws.
pub struct VertexBuffer {
    /// The driver's id for the vertex array object.
    pub vao_id: u32,

    /// The driver's id for the vertex buffer object.
    pub vbo_id: u32,

    /// The driver's id for the element buffer object.
    pub ebo_id: u32,

    /// The number of elements the buffer draws.
    pub element_count: i32,
}

impl VertexBuffer {
    /// Record the ids that the graphics driver handed out for a vertex
    /// array, together with the number of elements it draws.
    pub fn from_gl_ids(vao_id: u32, vbo_id: u32, ebo_id: u32, element_count: i32)
        -> (vb: VertexBuffer)
        ensures
            vb.vao_id == vao_id,
            vb.vbo_id == vbo_id,
            vb.ebo_id == ebo_id,
            vb.element_count == element_count,
    {
        VertexBuffer { vao_id, vbo_id, ebo_id, element_count }
    }
    /// Work out the attribute layout of an interleaved vertex array from
    /// the component counts alone.
    ///
    /// A component count is the number of floats one attribute is made up
    /// of. For example, with a position of 3 floats and a color of 4
    /// floats, the counts are `[3, 4]`: every vertex is 7 floats, the
    /// position starts at float 0 and the color at float 3. Attribute `i`
    /// of the result has layout index `i`, the `i`-th component count, the
    /// total count as its stride, and the sum of the counts before it as
    /// its offset.
    pub fn set_layout(&self, component_counts: &[i32]) -> (attribs: Vec<VertexAttrib>)
        requires
            forall|i: int| 0 <= i < component_counts@.len() ==> 0 <= component_counts@[i],
            counts_sum(component_counts@, component_counts@.len() as int) <= i32::MAX as int,
            component_counts@.len() <= u32::MAX as int,
        ensures
            attribs@.len() == component_counts@.len(),
            forall|i: int| 0 <= i < attribs@.len() ==> attribs@[i] == (VertexAttrib {
                layout: i as u32,
                component_count: component_counts@[i],
                stride: counts_sum(component_counts@, component_counts@.len() as int) as i32,
                offset: counts_sum(component_counts@, i) as usize,
            }),
    {
        let n: usize = component_counts.len();
        let mut stride: i32 = 0;
        let mut idx: usize = 0;
        while idx < n
            invariant
                idx <= n,
                n == component_counts@.len(),
                forall|i: int| 0 <= i < component_counts@.len() ==> 0 <= component_counts@[i],
                counts_sum(component_counts@, n as int) <= i32::MAX as int,
                stride == counts_sum(component_counts@, idx as int),
            decreases n - idx,
        {
            proof {
                lemma_counts_sum_monotonic(component_counts@, 0, idx as int);
                lemma_counts_sum_monotonic(component_counts@, idx as int + 1, n as int);
            }
            stride = stride + component_counts[idx];
            idx = idx + 1;
        }

        let mut attribs: Vec<VertexAttrib> = Vec::new();
        let mut offset: usize = 0;
        idx = 0;
        while idx < n
            invariant
                idx <= n,
                n == component_counts@.len(),
                n <= u32::MAX as int,
                forall|i: int| 0 <= i < component_counts@.len() ==> 0 <= component_counts@[i],
                counts_sum(component_counts@, n as int) <= i32::MAX as int,
                stride == counts_sum(component_counts@, n as int),
                offset == counts_sum(component_counts@, idx as int),
                attribs@.len() == idx,
                forall|i: int| 0 <= i < attribs@.len() ==> attribs@[i] == (VertexAttrib {
                    layout: i as u32,
                    component_count: component_counts@[i],
                    stride: counts_sum(component_counts@, n as int) as i32,
                    offset: counts_sum(component_counts@, i) as usize,
                }),
            decreases n - idx,
        {
            proof {
                lemma_counts_sum_monotonic(component_counts@, 0, idx as int);
                lemma_counts_sum_monotonic(component_counts@, idx as int + 1, n as int);
            }
            let component_count: i32 = component_counts[idx];
            attribs.push(VertexAttrib {
                layout: idx as u32,
                component_count,
                stride,
                offset,
            });
            offset = offset + (component_count as usize);
            idx = idx + 1;
        }
        attribs
    }
}

} // verus!
