use vstd::prelude::*;

use crate::vertex::Vertex;

verus! {

broadcast use vstd::array::group_array_axioms;

/// Upper bound on the quad capacity a buffer may be created with. It keeps
/// every derived count inside `u32`: a full buffer holds `4 * capacity`
/// vertices and `6 * capacity` indices, and every index value is at most
/// `4 * capacity - 1`.
pub const MAX_QUAD_CAPACITY: u32 = 0x0FFFFFFF;

/// The six indices that triangulate the quad in `slot`: two triangles over
/// the four vertices `4*slot .. 4*slot + 4`.
pub open spec fn quad_index_block(slot: int) -> Seq<u32> {
    seq![
        (4 * slot) as u32,
        (4 * slot + 1) as u32,
        (4 * slot + 2) as u32,
        (4 * slot + 2) as u32,
        (4 * slot + 3) as u32,
        (4 * slot) as u32,
    ]
}

/// The whole index list of a buffer holding `n` quads: the index blocks of
/// slots `0 .. n`, in slot order.
pub open spec fn index_data_for(n: int) -> Seq<u32>
    decreases n,
{
    if n <= 0 {
        Seq::empty()
    } else {
        index_data_for(n - 1) + quad_index_block(n - 1)
    }
}

/// The vertex list `s` with the quad in `slot` overwritten by the four
/// vertices `q`.
pub open spec fn with_quad(s: Seq<Vertex>, slot: int, q: Seq<Vertex>) -> Seq<Vertex> {
    s.subrange(0, 4 * slot) + q + s.subrange(4 * slot + 4, s.len() as int)
}

/// A mutable list of quads mirrored into two host-coherent GPU buffers.
///
/// The `local_*` lists are the CPU-side state that `add_quad`, `modify_quad`
/// and `get_quad` operate on. The `device_*` lists model the contents of the
/// mapped vertex and index allocations: `remap_data` copies the local lists
/// into them wholesale, and nothing else writes them, so between remaps the
/// device side lags the local side exactly as the mapped memory does.
pub struct CoherentQuads {
    pub local_vertex_buffer_data: Vec<Vertex>,
    pub local_index_buffer_data: Vec<u32>,
    pub device_vertex_buffer_data: Vec<Vertex>,
    pub device_index_buffer_data: Vec<u32>,
    pub current_max_quad_quantity: u32,
}

impl CoherentQuads {
    pub open spec fn vertices(self) -> Seq<Vertex> {
        self.local_vertex_buffer_data@
    }

    pub open spec fn indices(self) -> Seq<u32> {
        self.local_index_buffer_data@
    }

    pub open spec fn device_vertices(self) -> Seq<Vertex> {
        self.device_vertex_buffer_data@
    }

    pub open spec fn device_indices(self) -> Seq<u32> {
        self.device_index_buffer_data@
    }

    pub open spec fn quad_count(self) -> int {
        self.vertices().len() as int / 4
    }

    pub open spec fn wf(self) -> bool {
        &&& self.current_max_quad_quantity <= MAX_QUAD_CAPACITY
        &&& self.vertices().len() % 4 == 0
        &&& self.vertices().len() <= 4 * self.current_max_quad_quantity
        &&& self.indices() == index_data_for(self.quad_count())
    }

    pub fn new(max_quad_quantity: u32) -> (r: Self)
        requires
            max_quad_quantity <= MAX_QUAD_CAPACITY,
        ensures
            r.wf(),
            r.quad_count() == 0,
            r.vertices() == Seq::<Vertex>::empty(),
            r.indices() == Seq::<u32>::empty(),
            r.device_vertices() == Seq::<Vertex>::empty(),
            r.device_indices() == Seq::<u32>::empty(),
            r.current_max_quad_quantity == max_quad_quantity,
    {
        Self {
            local_vertex_buffer_data: Vec::new(),
            local_index_buffer_data: Vec::new(),
            device_vertex_buffer_data: Vec::new(),
            device_index_buffer_data: Vec::new(),
            current_max_quad_quantity: max_quad_quantity,
        }
    }

    /// Appends the four vertices of one quad and synthesizes the six indices
    /// that triangulate the new slot. The index data of earlier slots is
    /// never touched.
    pub fn add_quad(&mut self, vertices: [Vertex; 4])
        requires
            old(self).wf(),
            old(self).quad_count() < old(self).current_max_quad_quantity,
        ensures
            final(self).wf(),
            final(self).vertices() == old(self).vertices() + vertices@,
            final(self).indices() == old(self).indices() + quad_index_block(
                old(self).quad_count(),
            ),
            final(self).quad_count() == old(self).quad_count() + 1,
            final(self).device_vertices() == old(self).device_vertices(),
            final(self).device_indices() == old(self).device_indices(),
            final(self).current_max_quad_quantity == old(self).current_max_quad_quantity,
    {
        proof {
            assert(old(self).vertices().len() == 4 * old(self).quad_count());
        }
        let ghost old_quad_count = self.quad_count();
        self.local_vertex_buffer_data.push(vertices[0]);
        self.local_vertex_buffer_data.push(vertices[1]);
        self.local_vertex_buffer_data.push(vertices[2]);
        self.local_vertex_buffer_data.push(vertices[3]);
        let index_offset: u32 = (self.local_vertex_buffer_data.len() - 4) as u32;
        self.local_index_buffer_data.push(index_offset);
        self.local_index_buffer_data.push(index_offset + 1);
        self.local_index_buffer_data.push(index_offset + 2);
        self.local_index_buffer_data.push(index_offset + 2);
        self.local_index_buffer_data.push(index_offset + 3);
        self.local_index_buffer_data.push(index_offset);
        proof {
            assert(self.local_vertex_buffer_data@ =~= old(self).vertices() + vertices@);
            assert(self.local_index_buffer_data@ =~= old(self).indices() + quad_index_block(
                old_quad_count,
            ));
            assert(index_data_for(old_quad_count + 1) == index_data_for(old_quad_count)
                + quad_index_block(old_quad_count));
        }
    }

    /// Overwrites the four vertices of an existing slot in place. Indices and
    /// capacity are untouched, as is everything flushed to the device.
    pub fn modify_quad(&mut self, index: usize, vertices: [Vertex; 4])
        requires
            old(self).wf(),
            index < old(self).quad_count(),
        ensures
            final(self).wf(),
            final(self).vertices() == with_quad(old(self).vertices(), index as int, vertices@),
            final(self).indices() == old(self).indices(),
            final(self).quad_count() == old(self).quad_count(),
            final(self).device_vertices() == old(self).device_vertices(),
            final(self).device_indices() == old(self).device_indices(),
            final(self).current_max_quad_quantity == old(self).current_max_quad_quantity,
    {
        proof {
            assert(old(self).vertices().len() == 4 * old(self).quad_count());
        }
        let index_offset: usize = index * 4;
        self.local_vertex_buffer_data[index_offset] = vertices[0];
        self.local_vertex_buffer_data[index_offset + 1] = vertices[1];
        self.local_vertex_buffer_data[index_offset + 2] = vertices[2];
        self.local_vertex_buffer_data[index_offset + 3] = vertices[3];
        proof {
            assert(self.local_vertex_buffer_data@ =~= with_quad(
                old(self).vertices(),
                index as int,
                vertices@,
            ));
        }
    }

    /// Read-only copy of the four vertices in `index`.
    pub fn get_quad(&self, index: usize) -> (r: [Vertex; 4])
        requires
            self.wf(),
            index < self.quad_count(),
        ensures
            r@ == self.vertices().subrange(4 * index as int, 4 * index as int + 4),
    {
        proof {
            assert(self.vertices().len() == 4 * self.quad_count());
        }
        let index_offset: usize = index * 4;
        let r = [
            self.local_vertex_buffer_data[index_offset],
            self.local_vertex_buffer_data[index_offset + 1],
            self.local_vertex_buffer_data[index_offset + 2],
            self.local_vertex_buffer_data[index_offset + 3],
        ];
        proof {
            assert(r@ =~= self.vertices().subrange(4 * index as int, 4 * index as int + 4));
        }
        r
    }

    pub fn index_quantity(&self) -> (r: usize)
        ensures
            r == self.indices().len(),
    {
        self.local_index_buffer_data.len()
    }

    pub fn quad_quantity(&self) -> (r: usize)
        ensures
            r == self.quad_count(),
    {
        self.local_vertex_buffer_data.len() / self.vertex_buffer_instance_node_quantity()
    }

    /// Indices per quad.
    pub fn index_buffer_instance_node_quantity(&self) -> (r: usize)
        ensures
            r == 6,
    {
        6
    }

    /// Vertices per quad.
    pub fn vertex_buffer_instance_node_quantity(&self) -> (r: usize)
        ensures
            r == 4,
    {
        4
    }

    /// Flushes the local lists into the mapped device allocations. This is
    /// the single point of CPU-to-GPU geometry transfer: afterwards the
    /// device-visible data equals the local data, with nothing partial.
    pub fn remap_data(&mut self)
        ensures
            final(self).vertices() == old(self).vertices(),
            final(self).indices() == old(self).indices(),
            final(self).device_vertices() == old(self).vertices(),
            final(self).device_indices() == old(self).indices(),
            final(self).current_max_quad_quantity == old(self).current_max_quad_quantity,
            old(self).wf() ==> final(self).wf(),
    {
        let mut device_vertices: Vec<Vertex> = Vec::new();
        let mut i: usize = 0;
        while i < self.local_vertex_buffer_data.len()
            invariant
                i <= self.local_vertex_buffer_data.len(),
                device_vertices@ == self.local_vertex_buffer_data@.subrange(0, i as int),
            decreases self.local_vertex_buffer_data.len() - i,
        {
            device_vertices.push(self.local_vertex_buffer_data[i]);
            i += 1;
        }
        proof {
            assert(device_vertices@ =~= self.local_vertex_buffer_data@);
        }
        self.device_vertex_buffer_data = device_vertices;

        let mut device_indices: Vec<u32> = Vec::new();
        let mut j: usize = 0;
        while j < self.local_index_buffer_data.len()
            invariant
                j <= self.local_index_buffer_data.len(),
                device_indices@ == self.local_index_buffer_data@.subrange(0, j as int),
            decreases self.local_index_buffer_data.len() - j,
        {
            device_indices.push(self.local_index_buffer_data[j]);
            j += 1;
        }
        proof {
            assert(device_indices@ =~= self.local_index_buffer_data@);
        }
        self.device_index_buffer_data = device_indices;
    }
}

pub proof fn lemma_index_data_for_len(n: int)
    requires
        n >= 0,
    ensures
        index_data_for(n).len() == 6 * n,
    decreases n,
{
    if n > 0 {
        lemma_index_data_for_len(n - 1);
    }
}

/// Law: in a well-formed buffer the quad count is the vertex count divided by
/// four, and the index count is six times the quad count.
pub proof fn lemma_quad_counts(q: CoherentQuads)
    requires
        q.wf(),
    ensures
        q.quad_count() == q.vertices().len() as int / 4,
        q.vertices().len() == 4 * q.quad_count(),
        q.indices().len() == 6 * q.quad_count(),
{
    lemma_index_data_for_len(q.quad_count());
}

proof fn lemma_index_data_for_block(n: int, slot: int)
    requires
        0 <= slot < n,
    ensures
        index_data_for(n).subrange(6 * slot, 6 * slot + 6) == quad_index_block(slot),
    decreases n,
{
    lemma_index_data_for_len(n - 1);
    if slot == n - 1 {
        assert(index_data_for(n).subrange(6 * slot, 6 * slot + 6) =~= quad_index_block(slot));
    } else {
        lemma_index_data_for_block(n - 1, slot);
        assert(index_data_for(n).subrange(6 * slot, 6 * slot + 6) =~= index_data_for(
            n - 1,
        ).subrange(6 * slot, 6 * slot + 6));
    }
}

/// Law: for every populated slot, the six indices at `6*slot .. 6*slot + 6`
/// are exactly `[4*slot, 4*slot + 1, 4*slot + 2, 4*slot + 2, 4*slot + 3,
/// 4*slot]`.
pub proof fn lemma_slot_indices(q: CoherentQuads, slot: int)
    requires
        q.wf(),
        0 <= slot < q.quad_count(),
    ensures
        q.indices().subrange(6 * slot, 6 * slot + 6) == quad_index_block(slot),
{
    lemma_index_data_for_block(q.quad_count(), slot);
}

/// Law: overwriting a slot and then reading it yields exactly the vertices
/// written (the round trip behind `modify_quad` followed by `get_quad`).
pub proof fn lemma_modify_then_get(s: Seq<Vertex>, slot: int, q: Seq<Vertex>)
    requires
        0 <= slot,
        4 * slot + 4 <= s.len(),
        q.len() == 4,
    ensures
        with_quad(s, slot, q).subrange(4 * slot, 4 * slot + 4) == q,
{
    assert(with_quad(s, slot, q).subrange(4 * slot, 4 * slot + 4) =~= q);
}

} // verus!
