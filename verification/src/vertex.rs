//! Vertex attribute formats and how attributes are laid out in a vertex.

use vstd::prelude::*;
use crate::gfx::GlowValue;
use crate::gl;

verus! {

/// Vertex data types
#[derive(Debug, Clone, Copy, Eq, PartialEq, Structural)]
pub enum VertexFormat {
    Float1,
    Float2,
    Float3,
    Float4,
}

/// Number of components of a vertex format.
pub open spec fn format_size(format: VertexFormat) -> i32 {
    match format {
        VertexFormat::Float1 => 1,
        VertexFormat::Float2 => 2,
        VertexFormat::Float3 => 3,
        VertexFormat::Float4 => 4,
    }
}

impl VertexFormat {
    /// Number of components.
    pub fn size(&self) -> (r: i32)
        ensures
            r == format_size(*self),
    {
        match self {
            VertexFormat::Float1 => 1,
            VertexFormat::Float2 => 2,
            VertexFormat::Float3 => 3,
            VertexFormat::Float4 => 4,
        }
    }

    /// Size in bytes: four per component.
    pub fn bytes(&self) -> (r: i32)
        ensures
            r == format_size(*self) * 4,
    {
        self.size() * 4
    }

    /// Whether the components are normalized: never, they are floats.
    pub fn normalized(&self) -> (r: bool)
        ensures
            !r,
    {
        false
    }
}

impl GlowValue for VertexFormat {
    type VALUE = u32;

    /// Every format is made of `GL_FLOAT` components.
    fn glow_value(&self) -> (r: u32)
        ensures
            r == gl::FLOAT,
    {
        gl::FLOAT
    }
}

/// A named shader attribute.
#[derive(Clone)]
pub struct Attr {
    name: String,
    vertex_data: VertexFormat,
}

impl Attr {
    /// The attribute's name.
    pub closed spec fn name_view(&self) -> Seq<char> {
        self.name@
    }

    /// The attribute's format.
    pub closed spec fn format_view(&self) -> VertexFormat {
        self.vertex_data
    }

    /// An attribute named `name` with components of `data_type`.
    pub fn new(name: &str, data_type: VertexFormat) -> (r: Self)
        ensures
            r.name_view() == name@,
            r.format_view() == data_type,
    {
        Self { name: String::from_str(name), vertex_data: data_type }
    }
}

/// A vertex attribute bound to a shader location.
#[derive(Debug, Clone, Copy, Eq, PartialEq, Structural)]
pub struct VertexAttr {
    pub location: u32,
    pub format: VertexFormat,
}

impl VertexAttr {
    /// An attribute at shader `location` with components of `vertex_data`.
    pub fn new(location: u32, vertex_data: VertexFormat) -> (r: Self)
        ensures
            r == (VertexAttr { location, format: vertex_data }),
    {
        Self { location: location, format: vertex_data }
    }
}

/// An attribute as handed to `vertex_attrib_pointer`.
#[derive(Debug, Clone, Copy, Eq, PartialEq, Structural)]
pub struct GlowVertexAttr {
    pub location: u32,
    pub size: i32,
    pub data_type: u32,
    pub normalized: bool,
    pub offset: i32,
}

/// Total size in bytes of a sequence of attributes.
pub open spec fn attributes_bytes(attributes: Seq<VertexAttr>) -> int
    decreases attributes.len(),
{
    if attributes.len() == 0 {
        0
    } else {
        attributes_bytes(attributes.drop_last()) + format_size(attributes.last().format) * 4
    }
}

/// Where attribute `i` of a vertex sits and how GL reads it: right after the
/// attributes before it.
pub open spec fn attribute_layout(attributes: Seq<VertexAttr>, i: int) -> GlowVertexAttr {
    GlowVertexAttr {
        location: attributes[i].location,
        size: format_size(attributes[i].format),
        data_type: gl::FLOAT,
        normalized: false,
        offset: attributes_bytes(attributes.take(i)) as i32,
    }
}

proof fn lemma_attributes_bytes_bounds(attributes: Seq<VertexAttr>)
    ensures
        0 <= attributes_bytes(attributes) <= 16 * attributes.len(),
    decreases attributes.len(),
{
    if attributes.len() > 0 {
        lemma_attributes_bytes_bounds(attributes.drop_last());
    }
}

proof fn lemma_attributes_bytes_monotonic(attributes: Seq<VertexAttr>, i: int)
    requires
        0 <= i <= attributes.len(),
    ensures
        attributes_bytes(attributes.take(i)) <= attributes_bytes(attributes),
    decreases attributes.len() - i,
{
    if i < attributes.len() {
        lemma_attributes_bytes_monotonic(attributes, i + 1);
        assert(attributes.take(i + 1).drop_last() =~= attributes.take(i));
    } else {
        assert(attributes.take(i) =~= attributes);
    }
}

/// The stride of a vertex made of `attributes` and the GL description of each
/// attribute, in order.  The stride must fit in an `i32`, as the sum is kept in
/// one.
pub fn vertex_layout(attributes: &[VertexAttr]) -> (r: (i32, Vec<GlowVertexAttr>))
    requires
        attributes_bytes(attributes@) <= i32::MAX,
    ensures
        r.0 == attributes_bytes(attributes@),
        r.1@.len() == attributes@.len(),
        forall|i: int| 0 <= i < attributes@.len() ==> #[trigger] r.1@[i] == attribute_layout(attributes@, i),
{
    let mut layout: Vec<GlowVertexAttr> = Vec::new();
    let mut offset: i32 = 0;
    let mut i: usize = 0;
    while i < attributes.len()
        invariant
            i <= attributes@.len(),
            attributes_bytes(attributes@) <= i32::MAX,
            offset == attributes_bytes(attributes@.take(i as int)),
            layout@.len() == i,
            forall|j: int| 0 <= j < i ==> #[trigger] layout@[j] == attribute_layout(attributes@, j),
        decreases attributes@.len() - i,
    {
        let attr = attributes[i];
        proof {
            lemma_attributes_bytes_monotonic(attributes@, i + 1);
            lemma_attributes_bytes_bounds(attributes@.take(i as int));
            assert(attributes@.take(i + 1).drop_last() =~= attributes@.take(i as int));
            assert(attributes@.take(i + 1).last() == attr);
        }
        layout.push(
            GlowVertexAttr {
                location: attr.location,
                size: attr.format.size(),
                data_type: attr.format.glow_value(),
                normalized: attr.format.normalized(),
                offset: offset,
            },
        );
        offset = offset + attr.format.bytes();
        i = i + 1;
    }
    assert(attributes@.take(attributes@.len() as int) =~= attributes@);
    (offset, layout)
}

/// How a vertex is laid out: each attribute keeps the shader location it was
/// given and is read as its format's number of unnormalized floats; the
/// first starts at byte 0, each next one right where the one before it ends
/// (its offset plus four bytes per component), and the last ends at the
/// stride.
pub proof fn law_vertex_layout_packs_attributes(attributes: Seq<VertexAttr>, i: int)
    requires
        attributes_bytes(attributes) <= i32::MAX,
        0 <= i < attributes.len(),
    ensures
        attribute_layout(attributes, i).location == attributes[i].location,
        attribute_layout(attributes, i).size == format_size(attributes[i].format),
        1 <= attribute_layout(attributes, i).size <= 4,
        attribute_layout(attributes, i).data_type == gl::FLOAT,
        !attribute_layout(attributes, i).normalized,
        attribute_layout(attributes, 0).offset == 0,
        i + 1 < attributes.len() ==> attribute_layout(attributes, i + 1).offset == attribute_layout(
            attributes,
            i,
        ).offset + 4 * attribute_layout(attributes, i).size,
        i + 1 == attributes.len() ==> attribute_layout(attributes, i).offset + 4 * attribute_layout(
            attributes,
            i,
        ).size == attributes_bytes(attributes),
{
    assert(attributes.take(0) =~= Seq::<VertexAttr>::empty());
    lemma_attributes_bytes_monotonic(attributes, i);
    lemma_attributes_bytes_monotonic(attributes, i + 1);
    lemma_attributes_bytes_bounds(attributes.take(i));
    assert(attributes.take(i + 1).drop_last() =~= attributes.take(i));
    assert(attributes.take(i + 1).last() == attributes[i]);
    if i + 1 == attributes.len() {
        assert(attributes.take(i + 1) =~= attributes);
    }
    if i + 1 < attributes.len() {
        lemma_attributes_bytes_bounds(attributes.take(i + 1));
    }
}

} // verus!
