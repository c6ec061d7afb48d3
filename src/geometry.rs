//! Vertex layouts, the static meshes of the world, and the bindable
//! vertex-array and texture resources they are uploaded into.
use vstd::prelude::*;
use crate::commands::{BindTarget, GlBindable};

verus! {

/// Attribute slot of a vertex position (three components).
pub const A_POSITION: u32 = 0;

/// Attribute slot of a texture coordinate (two components).
pub const A_TEX_COORD: u32 = 1;

/// Sum of the component counts of `attributes`.
pub open spec fn stride_of(attributes: Seq<(u32, usize)>) -> int
    decreases attributes.len(),
{
    if attributes.len() == 0 {
        0
    } else {
        stride_of(attributes.drop_last()) + attributes.last().1
    }
}

/// Where one attribute sits inside an interleaved vertex record, counted in
/// components.
#[derive(Clone, Copy, Debug, PartialEq, Eq, Structural)]
pub struct AttribPointer {
    pub slot: u32,
    pub size: usize,
    pub offset: usize,
}

/// The pointer of attribute `j`: its offset is the number of components
/// declared before it.
pub open spec fn pointer_at(attributes: Seq<(u32, usize)>, j: int) -> AttribPointer {
    AttribPointer {
        slot: attributes[j].0,
        size: attributes[j].1,
        offset: stride_of(attributes.take(j)) as usize,
    }
}

/// `data_len` components hold a whole, non-zero-stride number of records.
pub open spec fn valid_layout(data_len: usize, attributes: Seq<(u32, usize)>) -> bool {
    stride_of(attributes) > 0 && data_len as int % stride_of(attributes) == 0
}

#[derive(Clone, Copy, Debug, PartialEq, Eq, Structural)]
pub enum LayoutError {
    /// The attributes declare no components at all.
    EmptyStride,
    /// The vertex data does not hold a whole number of records.
    Misaligned { len: usize, stride: usize },
}

/// An interleaved vertex layout: the record stride and each attribute's
/// pointer, in declaration order.
#[derive(Debug)]
pub struct VertexLayout {
    pub stride: usize,
    pub pointers: Vec<AttribPointer>,
}

proof fn lemma_stride_prefix(attributes: Seq<(u32, usize)>, i: int)
    requires
        0 <= i <= attributes.len(),
    ensures
        stride_of(attributes.take(i)) <= stride_of(attributes),
    decreases attributes.len(),
{
    if i < attributes.len() {
        assert(attributes.drop_last().take(i) =~= attributes.take(i));
        lemma_stride_prefix(attributes.drop_last(), i);
    } else {
        assert(attributes.take(i) =~= attributes);
    }
}

impl VertexLayout {
    /// The stride of `attributes`: the sum of their component counts.
    pub fn stride(attributes: &[(u32, usize)]) -> (r: usize)
        requires
            stride_of(attributes@) <= usize::MAX,
        ensures
            r == stride_of(attributes@),
    {
        let mut stride: usize = 0;
        let mut i: usize = 0;
        while i < attributes.len()
            invariant
                0 <= i <= attributes@.len(),
                stride == stride_of(attributes@.take(i as int)),
                stride_of(attributes@) <= usize::MAX,
            decreases attributes@.len() - i,
        {
            proof {
                assert(attributes@.take(i + 1).drop_last() =~= attributes@.take(i as int));
                lemma_stride_prefix(attributes@, i + 1);
            }
            stride = stride + attributes[i].1;
            i = i + 1;
        }
        assert(attributes@.take(i as int) =~= attributes@);
        stride
    }

    /// Checks that `data_len` interleaved components hold a whole number of
    /// records of `attributes`, and returns the stride. A zero stride or a
    /// stride that does not divide the length is a data error, to be caught
    /// before anything is uploaded.
    pub fn check(data_len: usize, attributes: &[(u32, usize)]) -> (r: Result<usize, LayoutError>)
        requires
            stride_of(attributes@) <= usize::MAX,
        ensures
            r is Ok <==> valid_layout(data_len, attributes@),
            r is Ok ==> r->Ok_0 == stride_of(attributes@),
            stride_of(attributes@) == 0 ==> r == Err::<usize, LayoutError>(
                LayoutError::EmptyStride,
            ),
            stride_of(attributes@) > 0 && data_len as int % stride_of(attributes@) != 0 ==> r
                == Err::<usize, LayoutError>(
                LayoutError::Misaligned { len: data_len, stride: stride_of(attributes@) as usize },
            ),
    {
        let stride = VertexLayout::stride(attributes);
        if stride == 0 {
            return Err(LayoutError::EmptyStride);
        }
        if data_len % stride != 0 {
            return Err(LayoutError::Misaligned { len: data_len, stride });
        }
        Ok(stride)
    }

    /// The layout of `data_len` interleaved components described by
    /// `attributes`, which must hold a whole number of records.
    pub fn from_attributes(data_len: usize, attributes: &[(u32, usize)]) -> (r: VertexLayout)
        requires
            stride_of(attributes@) <= usize::MAX,
            valid_layout(data_len, attributes@),
        ensures
            r.stride == stride_of(attributes@),
            r.pointers@.len() == attributes@.len(),
            forall|j: int|
                0 <= j < attributes@.len() ==> #[trigger] r.pointers@[j] == pointer_at(
                    attributes@,
                    j,
                ),
    {
        let stride = VertexLayout::stride(attributes);
        let mut pointers: Vec<AttribPointer> = Vec::new();
        let mut offset: usize = 0;
        let mut k: usize = 0;
        while k < attributes.len()
            invariant
                0 <= k <= attributes@.len(),
                offset == stride_of(attributes@.take(k as int)),
                stride_of(attributes@) <= usize::MAX,
                pointers@.len() == k,
                forall|j: int| 0 <= j < k ==> #[trigger] pointers@[j] == pointer_at(attributes@, j),
            decreases attributes@.len() - k,
        {
            proof {
                assert(attributes@.take(k + 1).drop_last() =~= attributes@.take(k as int));
                lemma_stride_prefix(attributes@, k + 1);
            }
            let (slot, size) = attributes[k];
            pointers.push(AttribPointer { slot, size, offset });
            offset = offset + size;
            k = k + 1;
        }
        VertexLayout { stride, pointers }
    }
}

/// Static geometry: interleaved vertex components (whole numbers, converted
/// to floats when uploaded), triangle indices, and the attribute layout.
#[derive(Debug)]
pub struct Mesh {
    pub vertices: Vec<u32>,
    pub indices: Vec<u32>,
    pub attributes: Vec<(u32, usize)>,
}

impl Mesh {
    /// Every index names one of the mesh's vertices.
    pub open spec fn indices_in_range(&self, vertex_count: int) -> bool {
        forall|i: int| 0 <= i < self.indices@.len() ==> #[trigger] self.indices@[i] < vertex_count
    }
}

/// The position-then-texture-coordinate layout of the world meshes.
pub open spec fn world_attributes() -> Seq<(u32, usize)> {
    seq![(A_POSITION, 3usize), (A_TEX_COORD, 2usize)]
}

/// Index count of the floor quad.
pub const FLOOR_INDEX_COUNT: u32 = 6;

/// Index count of the wall prism.
pub const WALL_INDEX_COUNT: u32 = 24;

pub open spec fn floor_vertices() -> Seq<u32> {
    seq![
        0, 0, 0, 0, 0,
        2, 0, 0, 1, 0,
        2, 2, 0, 1, 1,
        0, 2, 0, 0, 1,
    ]
}

pub open spec fn floor_indices() -> Seq<u32> {
    seq![0, 1, 2, 0, 2, 3]
}

pub open spec fn wall_vertices() -> Seq<u32> {
    seq![
        0, 0, 0, 0, 0,
        2, 0, 0, 1, 0,
        2, 0, 2, 1, 1,
        0, 0, 2, 0, 1,
        2, 2, 0, 2, 0,
        2, 2, 2, 2, 1,
        0, 2, 0, 3, 0,
        0, 2, 2, 3, 1,
        0, 0, 0, 4, 0,
        0, 0, 2, 4, 1,
    ]
}

pub open spec fn wall_indices() -> Seq<u32> {
    seq![0, 1, 2, 0, 2, 3, 1, 4, 5, 1, 5, 2, 4, 6, 7, 4, 7, 5, 6, 8, 9, 6, 9, 7]
}

/// A two-by-two floor quad lying in the z = 0 plane: four vertices, two
/// triangles.
pub fn floor_mesh() -> (r: Mesh)
    ensures
        r.attributes@ == world_attributes(),
        r.vertices@ == floor_vertices(),
        r.indices@ == floor_indices(),
        r.vertices@.len() == 4 * 5,
        r.indices@.len() == FLOOR_INDEX_COUNT,
        r.indices_in_range(4),
{
    let vertices: Vec<u32> = vec![
        0, 0, 0, 0, 0,
        2, 0, 0, 1, 0,
        2, 2, 0, 1, 1,
        0, 2, 0, 0, 1,
    ];
    let indices: Vec<u32> = vec![0, 1, 2, 0, 2, 3];
    let attributes: Vec<(u32, usize)> = vec![(A_POSITION, 3), (A_TEX_COORD, 2)];
    assert(attributes@ =~= world_attributes());
    assert(vertices@ =~= floor_vertices());
    assert(indices@ =~= floor_indices());
    Mesh { vertices, indices, attributes }
}

/// The four side faces of a two-unit cube standing on the z = 0 plane:
/// ten vertices (the seam repeated for texturing), eight triangles.
pub fn wall_mesh() -> (r: Mesh)
    ensures
        r.attributes@ == world_attributes(),
        r.vertices@ == wall_vertices(),
        r.indices@ == wall_indices(),
        r.vertices@.len() == 10 * 5,
        r.indices@.len() == WALL_INDEX_COUNT,
        r.indices_in_range(10),
{
    let vertices: Vec<u32> = vec![
        0, 0, 0, 0, 0,
        2, 0, 0, 1, 0,
        2, 0, 2, 1, 1,
        0, 0, 2, 0, 1,
        2, 2, 0, 2, 0,
        2, 2, 2, 2, 1,
        0, 2, 0, 3, 0,
        0, 2, 2, 3, 1,
        0, 0, 0, 4, 0,
        0, 0, 2, 4, 1,
    ];
    let indices: Vec<u32> = vec![
        0, 1, 2,
        0, 2, 3,
        1, 4, 5,
        1, 5, 2,
        4, 6, 7,
        4, 7, 5,
        6, 8, 9,
        6, 9, 7,
    ];
    let attributes: Vec<(u32, usize)> = vec![(A_POSITION, 3), (A_TEX_COORD, 2)];
    assert(attributes@ =~= world_attributes());
    assert(vertices@ =~= wall_vertices());
    assert(indices@ =~= wall_indices());
    Mesh { vertices, indices, attributes }
}

/// An owned vertex array object with its vertex and index buffers. A handle
/// of zero means the resources have been released.
#[derive(Debug)]
pub struct GlVertexArray {
    handle: u32,
    vertex_buffer_handle: u32,
    element_buffer_handle: u32,
    index_count: u32,
}

impl GlVertexArray {
    pub closed spec fn spec_handle(&self) -> u32 {
        self.handle
    }

    pub closed spec fn spec_vertex_buffer_handle(&self) -> u32 {
        self.vertex_buffer_handle
    }

    pub closed spec fn spec_element_buffer_handle(&self) -> u32 {
        self.element_buffer_handle
    }

    pub closed spec fn spec_index_count(&self) -> u32 {
        self.index_count
    }

    /// Takes ownership of freshly created native objects holding
    /// `index_count` indices.
    pub fn from_handles(
        handle: u32,
        vertex_buffer_handle: u32,
        element_buffer_handle: u32,
        index_count: u32,
    ) -> (r: GlVertexArray)
        ensures
            r.spec_handle() == handle,
            r.spec_vertex_buffer_handle() == vertex_buffer_handle,
            r.spec_element_buffer_handle() == element_buffer_handle,
            r.spec_index_count() == index_count,
    {
        GlVertexArray { handle, vertex_buffer_handle, element_buffer_handle, index_count }
    }

    pub fn handle(&self) -> (r: u32)
        ensures
            r == self.spec_handle(),
    {
        self.handle
    }

    pub fn index_count(&self) -> (r: u32)
        ensures
            r == self.spec_index_count(),
    {
        self.index_count
    }

    /// Gives up ownership: returns the vertex array, vertex buffer and index
    /// buffer handles for deletion, or `None` once already released.
    pub fn detach(&mut self) -> (r: Option<(u32, u32, u32)>)
        ensures
            old(self).spec_handle() != 0 ==> r == Some(
                (
                    old(self).spec_handle(),
                    old(self).spec_vertex_buffer_handle(),
                    old(self).spec_element_buffer_handle(),
                ),
            ),
            old(self).spec_handle() == 0 ==> r is None,
            final(self).spec_handle() == 0,
            final(self).spec_vertex_buffer_handle() == 0,
            final(self).spec_element_buffer_handle() == 0,
            final(self).spec_index_count() == old(self).spec_index_count(),
    {
        if self.handle == 0 {
            self.vertex_buffer_handle = 0;
            self.element_buffer_handle = 0;
            return None;
        }
        let r = (self.handle, self.vertex_buffer_handle, self.element_buffer_handle);
        self.handle = 0;
        self.vertex_buffer_handle = 0;
        self.element_buffer_handle = 0;
        Some(r)
    }
}

impl GlBindable for GlVertexArray {
    open spec fn target(&self) -> BindTarget {
        BindTarget::VertexArray(self.spec_handle())
    }

    fn bind_target(&self) -> (r: BindTarget) {
        BindTarget::VertexArray(self.handle)
    }
}

/// A texture loaded once at start-up, with repeat wrapping and nearest
/// filtering, known by the identifier the executor assigned it.
#[derive(Clone, Copy, Debug, PartialEq, Eq, Structural)]
pub struct GlTexture {
    pub id: u32,
}

impl GlBindable for GlTexture {
    open spec fn target(&self) -> BindTarget {
        BindTarget::Texture(self.id)
    }

    fn bind_target(&self) -> (r: BindTarget) {
        BindTarget::Texture(self.id)
    }
}

} // verus!
