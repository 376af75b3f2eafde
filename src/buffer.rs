//! Vertex layouts and the shared quad index pattern.
use vstd::prelude::*;

verus! {

#[derive(Clone, Copy, Debug, PartialEq, Eq, Structural)]
pub enum ShaderDataType {
    Float,
    Float2,
    Float3,
    Float4,
    Mat3,
    Mat4,
    Int,
    Int2,
    Int3,
    Int4,
    Bool,
}

/// The scalar kind that the graphics device reads a component as.
#[derive(Clone, Copy, Debug, PartialEq, Eq, Structural)]
pub enum BaseType {
    Float,
    Int,
    Bool,
}

/// Bytes that one value of the type takes.
pub open spec fn type_size(t: ShaderDataType) -> u32 {
    match t {
        ShaderDataType::Float => 4,
        ShaderDataType::Float2 => 8,
        ShaderDataType::Float3 => 12,
        ShaderDataType::Float4 => 16,
        ShaderDataType::Mat3 => 36,
        ShaderDataType::Mat4 => 64,
        ShaderDataType::Int => 4,
        ShaderDataType::Int2 => 8,
        ShaderDataType::Int3 => 12,
        ShaderDataType::Int4 => 16,
        ShaderDataType::Bool => 1,
    }
}

/// Components per attribute; a matrix counts one column.
pub open spec fn component_count(t: ShaderDataType) -> u32 {
    match t {
        ShaderDataType::Float => 1,
        ShaderDataType::Float2 => 2,
        ShaderDataType::Float3 => 3,
        ShaderDataType::Float4 => 4,
        ShaderDataType::Mat3 => 3,
        ShaderDataType::Mat4 => 4,
        ShaderDataType::Int => 1,
        ShaderDataType::Int2 => 2,
        ShaderDataType::Int3 => 3,
        ShaderDataType::Int4 => 4,
        ShaderDataType::Bool => 1,
    }
}

pub open spec fn base_type_of(t: ShaderDataType) -> BaseType {
    match t {
        ShaderDataType::Int | ShaderDataType::Int2 | ShaderDataType::Int3 | ShaderDataType::Int4 => BaseType::Int,
        ShaderDataType::Bool => BaseType::Bool,
        _ => BaseType::Float,
    }
}

pub fn shader_data_type_size(data_type: &ShaderDataType) -> (r: u32)
    ensures
        r == type_size(*data_type),
{
    match data_type {
        ShaderDataType::Float => 4,
        ShaderDataType::Float2 => 4 * 2,
        ShaderDataType::Float3 => 4 * 3,
        ShaderDataType::Float4 => 4 * 4,
        ShaderDataType::Mat3 => 4 * 3 * 3,
        ShaderDataType::Mat4 => 4 * 4 * 4,
        ShaderDataType::Int => 4,
        ShaderDataType::Int2 => 4 * 2,
        ShaderDataType::Int3 => 4 * 3,
        ShaderDataType::Int4 => 4 * 4,
        ShaderDataType::Bool => 1,
    }
}

pub fn shader_data_type_to_base_type(data_type: &ShaderDataType) -> (r: BaseType)
    ensures
        r == base_type_of(*data_type),
{
    match data_type {
        ShaderDataType::Float => BaseType::Float,
        ShaderDataType::Float2 => BaseType::Float,
        ShaderDataType::Float3 => BaseType::Float,
        ShaderDataType::Float4 => BaseType::Float,
        ShaderDataType::Mat3 => BaseType::Float,
        ShaderDataType::Mat4 => BaseType::Float,
        ShaderDataType::Int => BaseType::Int,
        ShaderDataType::Int2 => BaseType::Int,
        ShaderDataType::Int3 => BaseType::Int,
        ShaderDataType::Int4 => BaseType::Int,
        ShaderDataType::Bool => BaseType::Bool,
    }
}

/// One named attribute of a vertex.
#[derive(Clone, Debug)]
pub struct BufferElement {
    pub name: String,
    pub data_type: ShaderDataType,
    pub size: u32,
    /// Bytes from the start of the vertex; set by the layout.
    pub offset: u32,
    pub normalized: bool,
}

impl BufferElement {
    pub fn new(name: String, data_type: ShaderDataType, normalized: Option<bool>) -> (r: BufferElement)
        ensures
            r.name@ == name@,
            r.data_type == data_type,
            r.size == type_size(data_type),
            r.offset == 0,
            r.normalized == match normalized {
                Some(n) => n,
                None => false,
            },
    {
        let size = shader_data_type_size(&data_type);
        let normalized = match normalized {
            Some(n) => n,
            None => false,
        };
        BufferElement { name, data_type, size, offset: 0, normalized }
    }

    pub fn get_component_count(&self) -> (r: u32)
        ensures
            r == component_count(self.data_type),
    {
        match self.data_type {
            ShaderDataType::Float => 1,
            ShaderDataType::Float2 => 2,
            ShaderDataType::Float3 => 3,
            ShaderDataType::Float4 => 4,
            ShaderDataType::Mat3 => 3,
            ShaderDataType::Mat4 => 4,
            ShaderDataType::Int => 1,
            ShaderDataType::Int2 => 2,
            ShaderDataType::Int3 => 3,
            ShaderDataType::Int4 => 4,
            ShaderDataType::Bool => 1,
        }
    }
}

/// The bytes taken by the first `n` elements.
pub open spec fn size_sum(elements: Seq<BufferElement>, n: int) -> int
    decreases n,
{
    if n <= 0 {
        0
    } else {
        size_sum(elements, n - 1) + elements[n - 1].size
    }
}

proof fn lemma_size_sum_monotone(elements: Seq<BufferElement>, a: int, b: int)
    requires
        0 <= a <= b,
    ensures
        size_sum(elements, a) <= size_sum(elements, b),
    decreases b - a,
{
    if a < b {
        lemma_size_sum_monotone(elements, a, b - 1);
    }
}

/// The elements of a vertex, packed one after the other.
#[derive(Clone, Debug)]
pub struct BufferLayout {
    elements: Vec<BufferElement>,
    stride: u32,
}

impl BufferLayout {
    pub closed spec fn spec_elements(&self) -> Seq<BufferElement> {
        self.elements@
    }

    pub closed spec fn spec_stride(&self) -> u32 {
        self.stride
    }

    /// Each element's offset is the sum of the sizes before it, and the stride
    /// the sum of them all.
    pub fn new(elements: Vec<BufferElement>) -> (r: BufferLayout)
        requires
            size_sum(elements@, elements@.len() as int) <= u32::MAX,
        ensures
            r.spec_elements().len() == elements@.len(),
            forall|i: int|
                0 <= i < elements@.len() ==> {
                    let e = #[trigger] r.spec_elements()[i];
                    &&& e.name@ == elements@[i].name@
                    &&& e.data_type == elements@[i].data_type
                    &&& e.size == elements@[i].size
                    &&& e.normalized == elements@[i].normalized
                    &&& e.offset == size_sum(elements@, i)
                },
            r.spec_stride() == size_sum(elements@, elements@.len() as int),
    {
        let ghost input = elements@;
        let mut elements = elements;
        let n = elements.len();
        let mut offset: u32 = 0;
        let mut i: usize = 0;
        while i < n
            invariant
                n == input.len(),
                elements@.len() == n,
                i <= n,
                size_sum(input, n as int) <= u32::MAX,
                offset == size_sum(input, i as int),
                forall|j: int|
                    0 <= j < n ==> {
                        let e = #[trigger] elements@[j];
                        &&& e.name@ == input[j].name@
                        &&& e.data_type == input[j].data_type
                        &&& e.size == input[j].size
                        &&& e.normalized == input[j].normalized
                        &&& j < i ==> e.offset == size_sum(input, j)
                    },
            decreases n - i,
        {
            proof {
                lemma_size_sum_monotone(input, i as int + 1, n as int);
            }
            elements[i].offset = offset;
            offset = offset + elements[i].size;
            i = i + 1;
        }
        BufferLayout { elements, stride: offset }
    }

    pub fn get_elements(&self) -> (r: &Vec<BufferElement>)
        ensures
            r@ == self.spec_elements(),
    {
        &self.elements
    }

    pub fn get_stride(&self) -> (r: u32)
        ensures
            r == self.spec_stride(),
    {
        self.stride
    }
}

/// The `i`-th index of the pattern that draws quad `q` as the triangles
/// (0, 1, 2) and (2, 3, 0) of its corners `4q` to `4q + 3`.
pub open spec fn quad_index(i: int) -> int {
    let k = i % 6;
    let corner: int = if k == 0 || k == 5 {
        0
    } else if k == 1 {
        1
    } else if k == 2 || k == 3 {
        2
    } else {
        3
    };
    4 * (i / 6) + corner
}

/// The index buffer contents for `quad_count` quads.
pub fn quad_indices(quad_count: u32) -> (r: Vec<u32>)
    requires
        quad_count <= 0x1000_0000,
    ensures
        r@.len() == 6 * quad_count,
        forall|i: int| 0 <= i < r@.len() ==> r@[i] == quad_index(i),
{
    let mut indices: Vec<u32> = Vec::new();
    let mut offset: u32 = 0;
    let mut q: u32 = 0;
    while q < quad_count
        invariant
            q <= quad_count <= 0x1000_0000,
            offset == 4 * q,
            indices@.len() == 6 * q,
            forall|i: int| 0 <= i < indices@.len() ==> indices@[i] == quad_index(i),
        decreases quad_count - q,
    {
        let ghost base = indices@.len() as int;
        indices.push(offset + 0);
        indices.push(offset + 1);
        indices.push(offset + 2);
        indices.push(offset + 2);
        indices.push(offset + 3);
        indices.push(offset + 0);
        proof {
            assert forall|i: int| 0 <= i < indices@.len() implies indices@[i] == quad_index(i) by {
                if i >= base {
                    vstd::arithmetic::div_mod::lemma_fundamental_div_mod_converse(i, 6, q as int, i - base);
                }
            }
        }
        offset = offset + 4;
        q = q + 1;
    }
    indices
}

} // verus!
