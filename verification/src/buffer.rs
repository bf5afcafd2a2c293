//! GPU buffer objects, modelled as owned arrays of plain values.

use vstd::prelude::*;

use crate::cpu_mesh::Indices;
use crate::cpu_mesh::index_at;
use crate::cpu_mesh::indices_len;
use crate::error::CoreError;

verus! {

/// Largest element count a single buffer allocation accepts; longer uploads
/// report `ResourceCreation`.
pub const MAX_BUFFER_LEN: usize = 1073741824;

/// Copies a vector of copyable elements.
fn copy_elems<T: Copy>(v: &Vec<T>) -> (r: Vec<T>)
    ensures
        r@ == v@,
{
    let mut r: Vec<T> = Vec::new();
    let n = v.len();
    let mut i: usize = 0;
    while i < n
        invariant
            i <= n,
            n == v@.len(),
            r@ == v@.subrange(0, i as int),
        decreases n - i,
    {
        r.push(v[i]);
        proof {
            assert(r@ =~= v@.subrange(0, i + 1));
        }
        i += 1;
    }
    proof {
        assert(r@ =~= v@);
    }
    r
}

/// A static vertex attribute buffer of scalar coordinates.
#[derive(Debug)]
pub struct VertexBuffer {
    data: Vec<i64>,
}

impl VertexBuffer {
    /// The scalars held by the buffer.
    pub closed spec fn spec_data(&self) -> Seq<i64> {
        self.data@
    }

    /// Uploads the given scalars as a static buffer; an upload longer than
    /// [`MAX_BUFFER_LEN`] fails with `ResourceCreation`.
    pub fn new_with_static(data: &Vec<i64>) -> (r: Result<VertexBuffer, CoreError>)
        ensures
            match r {
                Ok(b) => data@.len() <= MAX_BUFFER_LEN && b.spec_data() == data@,
                Err(e) => data@.len() > MAX_BUFFER_LEN && e == CoreError::ResourceCreation,
            },
    {
        if data.len() > MAX_BUFFER_LEN {
            return Err(CoreError::ResourceCreation);
        }
        Ok(VertexBuffer { data: copy_elems(data) })
    }

    /// Number of scalars in the buffer.
    pub fn count(&self) -> (r: usize)
        ensures
            r == self.spec_data().len(),
    {
        self.data.len()
    }
}

/// A static element (index) buffer, widened to `u32` indices.
#[derive(Debug)]
pub struct ElementBuffer {
    data: Vec<u32>,
}

impl ElementBuffer {
    /// The indices held by the buffer.
    pub closed spec fn spec_data(&self) -> Seq<u32> {
        self.data@
    }

    /// Uploads an index array of any of the three supported widths; an
    /// upload longer than [`MAX_BUFFER_LEN`] fails with `ResourceCreation`.
    #[verifier::loop_isolation(false)]
    pub fn new_with(indices: &Indices) -> (r: Result<ElementBuffer, CoreError>)
        ensures
            match r {
                Ok(b) => indices_len(*indices) <= MAX_BUFFER_LEN && {
                    &&& b.spec_data().len() == indices_len(*indices)
                    &&& forall|j: int| 0 <= j < indices_len(*indices)
                        ==> (#[trigger] b.spec_data()[j]) as int == index_at(*indices, j)
                },
                Err(e) => indices_len(*indices) > MAX_BUFFER_LEN
                    && e == CoreError::ResourceCreation,
            },
    {
        let mut data: Vec<u32> = Vec::new();
        match indices {
            Indices::U8(v) => {
                if v.len() > MAX_BUFFER_LEN {
                    return Err(CoreError::ResourceCreation);
                }
                let n = v.len();
                let mut i: usize = 0;
                while i < n
                    invariant
                        i <= n,
                        data@.len() == i,
                        forall|j: int| 0 <= j < i
                            ==> (#[trigger] data@[j]) as int == index_at(*indices, j),
                    decreases n - i,
                {
                    data.push(v[i] as u32);
                    i += 1;
                }
            },
            Indices::U16(v) => {
                if v.len() > MAX_BUFFER_LEN {
                    return Err(CoreError::ResourceCreation);
                }
                let n = v.len();
                let mut i: usize = 0;
                while i < n
                    invariant
                        i <= n,
                        data@.len() == i,
                        forall|j: int| 0 <= j < i
                            ==> (#[trigger] data@[j]) as int == index_at(*indices, j),
                    decreases n - i,
                {
                    data.push(v[i] as u32);
                    i += 1;
                }
            },
            Indices::U32(v) => {
                if v.len() > MAX_BUFFER_LEN {
                    return Err(CoreError::ResourceCreation);
                }
                let n = v.len();
                let mut i: usize = 0;
                while i < n
                    invariant
                        i <= n,
                        data@.len() == i,
                        forall|j: int| 0 <= j < i
                            ==> (#[trigger] data@[j]) as int == index_at(*indices, j),
                    decreases n - i,
                {
                    data.push(v[i]);
                    i += 1;
                }
            },
        }
        Ok(ElementBuffer { data })
    }

    /// Number of indices in the buffer.
    pub fn count(&self) -> (r: usize)
        ensures
            r == self.spec_data().len(),
    {
        self.data.len()
    }
}

/// A per-instance attribute buffer, refilled on demand.
#[derive(Debug)]
pub struct InstanceBuffer {
    data: Vec<i64>,
}

impl InstanceBuffer {
    /// The scalars held by the buffer.
    pub closed spec fn spec_data(&self) -> Seq<i64> {
        self.data@
    }

    /// Creates an empty instance buffer.
    pub fn new() -> (r: Result<InstanceBuffer, CoreError>)
        ensures
            match r {
                Ok(b) => b.spec_data() == Seq::<i64>::empty(),
                Err(_) => false,
            },
    {
        Ok(InstanceBuffer { data: Vec::new() })
    }

    /// Replaces the whole contents of the buffer.
    pub fn fill_with_dynamic(&mut self, data: Vec<i64>)
        ensures
            final(self).spec_data() == data@,
    {
        self.data = data;
    }

    /// Number of scalars in the buffer.
    pub fn count(&self) -> (r: usize)
        ensures
            r == self.spec_data().len(),
    {
        self.data.len()
    }
}

/// A uniform block buffer of scalar values.
#[derive(Debug)]
pub struct UniformBuffer {
    data: Vec<i64>,
}

impl UniformBuffer {
    /// The scalars held by the buffer.
    pub closed spec fn spec_data(&self) -> Seq<i64> {
        self.data@
    }

    /// Builds a uniform buffer holding the given scalars.
    pub fn new_with(data: Vec<i64>) -> (r: UniformBuffer)
        ensures
            r.spec_data() == data@,
    {
        UniformBuffer { data }
    }

    /// Number of scalars in the buffer.
    pub fn count(&self) -> (r: usize)
        ensures
            r == self.spec_data().len(),
    {
        self.data.len()
    }
}

} // verus!
