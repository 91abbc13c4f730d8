//! Mesh data: the union of a mesh's vertex buffers and its vertex
//! count, addressed by the attribute name of each buffer.

use vstd::prelude::*;

verus! {

use vstd::string::StringSliceAdditionalSpecFns;
use vstd::utf8::encode_utf8;

/// One vertex buffer, identified by the shader attribute it feeds.
pub struct Buffer {
    attribute_name: String,
}

impl View for Buffer {
    type V = Seq<u8>;

    /// A buffer is identified by the bytes of its attribute name.
    closed spec fn view(&self) -> Seq<u8> {
        encode_utf8(self.attribute_name@)
    }
}

impl Buffer {
    /// Builds a buffer for the given attribute.
    pub fn new(attribute_name: String) -> (b: Buffer)
        ensures
            b@ == encode_utf8(attribute_name@),
    {
        Buffer { attribute_name }
    }

    /// Returns the name of the attribute this buffer feeds.
    pub fn get_attribute_name(&self) -> (r: &str)
        ensures
            r.spec_bytes() == self@,
    {
        self.attribute_name.as_str()
    }
}

/// Compares two byte slices for equality.
fn bytes_eq(a: &[u8], b: &[u8]) -> (r: bool)
    ensures
        r <==> a@ == b@,
{
    if a.len() != b.len() {
        return false;
    }
    let mut i: usize = 0;
    while i < a.len()
        invariant
            a@.len() == b@.len(),
            i <= a@.len(),
            forall|j: int| 0 <= j < i ==> a@[j] == b@[j],
        decreases a@.len() - i,
    {
        if a[i] != b[i] {
            return false;
        }
        i += 1;
    }
    proof {
        assert(a@ =~= b@);
    }
    true
}

/// Mesh data as the union of its buffers and the number of vertices in
/// the mesh (counted with duplication, as laid out in the buffers).
pub struct MeshData {
    id: String,
    buffers: Vec<Buffer>,
    vertex_count: i32,
}

impl MeshData {
    /// The bytes of this mesh data's identifier.
    pub closed spec fn id_spec(&self) -> Seq<u8> {
        encode_utf8(self.id@)
    }

    /// The attribute names of the buffers, in insertion order.
    pub closed spec fn buffer_names(&self) -> Seq<Seq<u8>> {
        self.buffers@.map(|_i: int, b: Buffer| b@)
    }

    /// The vertex count the mesh data was built with.
    pub closed spec fn vertex_count_spec(&self) -> i32 {
        self.vertex_count
    }

    /// Builds mesh data with no buffers yet.
    pub fn new(id: String, vertex_count: i32) -> (d: MeshData)
        ensures
            d.id_spec() == encode_utf8(id@),
            d.buffer_names() == Seq::<Seq<u8>>::empty(),
            d.vertex_count_spec() == vertex_count,
    {
        let d = MeshData { id, buffers: Vec::new(), vertex_count };
        proof {
            assert(d.buffer_names() =~= Seq::<Seq<u8>>::empty());
        }
        d
    }

    /// Adds a buffer to this mesh data.
    pub fn push_buffer(&mut self, buffer: Buffer)
        requires
            true,
        ensures
            final(self).buffer_names() == old(self).buffer_names().push(buffer@),
            final(self).id_spec() == old(self).id_spec(),
            final(self).vertex_count_spec() == old(self).vertex_count_spec(),
    {
        self.buffers.push(buffer);
        proof {
            assert(self.buffer_names() =~= old(self).buffer_names().push(buffer@));
        }
    }

    /// Returns the available buffers, in insertion order.
    pub fn get_buffers(&self) -> (r: &[Buffer])
        ensures
            r@.map(|_i: int, b: Buffer| b@) == self.buffer_names(),
    {
        self.buffers.as_slice()
    }

    /// Returns the first buffer whose attribute name is `name`, if any.
    pub fn get_buffer(&self, name: &str) -> (r: Option<&Buffer>)
        ensures
            match r {
                Some(b) => {
                    &&& b@ == name.spec_bytes()
                    &&& exists|i: int| 0 <= i < self.buffer_names().len() && self.buffer_names()[i]
                        == name.spec_bytes()
                },
                None => forall|i: int|
                    0 <= i < self.buffer_names().len() ==> #[trigger] self.buffer_names()[i]
                        != name.spec_bytes(),
            },
    {
        let mut i: usize = 0;
        while i < self.buffers.len()
            invariant
                i <= self.buffers@.len(),
                forall|j: int|
                    0 <= j < i ==> #[trigger] self.buffers@[j]@ != name.spec_bytes(),
            decreases self.buffers@.len() - i,
        {
            let buffer = &self.buffers[i];
            if bytes_eq(buffer.get_attribute_name().as_bytes(), name.as_bytes()) {
                proof {
                    assert(self.buffer_names()[i as int] == name.spec_bytes());
                }
                return Some(buffer);
            }
            i += 1;
        }
        proof {
            assert(forall|j: int|
                0 <= j < self.buffer_names().len() ==> #[trigger] self.buffer_names()[j]
                    != name.spec_bytes());
        }
        None
    }

    /// Returns the number of vertices of this mesh data's buffers.
    pub fn get_vertex_count(&self) -> (r: i32)
        ensures
            r == self.vertex_count_spec(),
    {
        self.vertex_count
    }

    /// Returns this mesh data's identifier.
    pub fn get_id(&self) -> (r: &str)
        ensures
            r.spec_bytes() == self.id_spec(),
    {
        self.id.as_str()
    }
}

} // verus!
