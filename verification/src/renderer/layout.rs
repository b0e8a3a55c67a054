//! Vertex buffer layouts: which attributes a vertex stream carries, and where.

use vstd::prelude::*;

verus! {

/// Component type and count of one vertex attribute.
#[derive(Clone, Copy, Debug, PartialEq, Eq, Structural)]
pub enum VertexFormat {
    /// Two 32-bit components.
    Float32x2,
    /// Three 32-bit components.
    Float32x3,
    /// Four 32-bit components.
    Float32x4,
}

impl VertexFormat {
    /// Bytes that one attribute of this format occupies.
    pub open spec fn spec_size(self) -> nat {
        match self {
            VertexFormat::Float32x2 => 8,
            VertexFormat::Float32x3 => 12,
            VertexFormat::Float32x4 => 16,
        }
    }

    /// Bytes that one attribute of this format occupies.
    pub fn size(&self) -> (bytes: u64)
        ensures
            bytes == self.spec_size(),
    {
        match self {
            VertexFormat::Float32x2 => 8,
            VertexFormat::Float32x3 => 12,
            VertexFormat::Float32x4 => 16,
        }
    }
}

/// Whether a vertex stream advances per vertex or per instance.
#[derive(Clone, Copy, Debug, PartialEq, Eq, Structural)]
pub enum VertexStepMode {
    Vertex,
    Instance,
}

/// One attribute of a vertex stream.
#[derive(Clone, Copy, Debug, PartialEq, Eq, Structural)]
pub struct VertexAttribute {
    pub format: VertexFormat,
    /// Byte offset of the attribute from the start of its element.
    pub offset: u64,
    /// Input slot of the vertex shader that reads the attribute.
    pub shader_location: u32,
}

impl VertexAttribute {
    /// First byte past the attribute.
    pub open spec fn end(self) -> nat {
        self.offset as nat + self.format.spec_size()
    }
}

/// Layout of one vertex stream.
#[derive(Debug, PartialEq, Eq)]
pub struct VertexBufferLayout {
    /// Bytes from one element of the stream to the next.
    pub array_stride: u64,
    pub step_mode: VertexStepMode,
    pub attributes: Vec<VertexAttribute>,
}

/// Byte offset of the `i`-th attribute when the attributes follow each other
/// without gaps, in the order given.
pub open spec fn packed_offset(entries: Seq<(u32, VertexFormat)>, i: int) -> nat
    decreases i,
{
    if i <= 0 {
        0
    } else {
        packed_offset(entries, i - 1) + entries[i - 1].1.spec_size()
    }
}

/// The attributes that a list of `(shader location, format)` pairs describes
/// when packed without gaps.
pub open spec fn packed_attributes(entries: Seq<(u32, VertexFormat)>) -> Seq<VertexAttribute> {
    Seq::new(
        entries.len(),
        |i: int|
            VertexAttribute {
                format: entries[i].1,
                offset: packed_offset(entries, i) as u64,
                shader_location: entries[i].0,
            },
    )
}

/// The packed size grows with the index, by at most 16 bytes per attribute.
pub proof fn lemma_packed_offset_bounds(entries: Seq<(u32, VertexFormat)>, i: int, j: int)
    requires
        0 <= i <= j,
    ensures
        packed_offset(entries, i) <= packed_offset(entries, j),
        packed_offset(entries, j) <= 16 * j,
    decreases j,
{
    if j > 0 {
        if i < j {
            lemma_packed_offset_bounds(entries, i, j - 1);
        } else {
            lemma_packed_offset_bounds(entries, j - 1, j - 1);
        }
    }
}

impl VertexBufferLayout {
    /// The layout is the packed layout of `entries`, stepped as `step_mode`
    /// says, with the size of one packed element as its stride.
    pub open spec fn is_packed(
        &self,
        step_mode: VertexStepMode,
        entries: Seq<(u32, VertexFormat)>,
    ) -> bool {
        &&& self.step_mode == step_mode
        &&& self.array_stride == packed_offset(entries, entries.len() as int)
        &&& self.attributes@ =~= packed_attributes(entries)
    }

    /// The attributes lie inside one element, do not overlap, and no two of
    /// them feed the same shader input.
    pub open spec fn well_formed(&self) -> bool {
        &&& forall|i: int|
            0 <= i < self.attributes@.len() ==> (#[trigger] self.attributes@[i]).end()
                <= self.array_stride
        &&& forall|i: int, j: int|
            0 <= i < j < self.attributes@.len() ==> {
                let a = #[trigger] self.attributes@[i];
                let b = #[trigger] self.attributes@[j];
                &&& a.shader_location != b.shader_location
                &&& (a.end() <= b.offset || b.end() <= a.offset)
            }
    }

    /// Whether some attribute of the layout feeds shader input `location`.
    pub open spec fn uses_location(&self, location: u32) -> bool {
        exists|i: int|
            0 <= i < self.attributes@.len() && (#[trigger] self.attributes@[i]).shader_location
                == location
    }

    /// Lays out the given `(shader location, format)` pairs one after another
    /// and makes the stride the size of one packed element.
    pub fn packed(step_mode: VertexStepMode, entries: &[(u32, VertexFormat)]) -> (layout: Self)
        requires
            16 * entries@.len() <= u64::MAX,
        ensures
            layout.is_packed(step_mode, entries@),
    {
        let mut attributes: Vec<VertexAttribute> = Vec::new();
        let mut offset: u64 = 0;
        let mut i: usize = 0;
        while i < entries.len()
            invariant
                0 <= i <= entries@.len(),
                16 * entries@.len() <= u64::MAX,
                offset == packed_offset(entries@, i as int),
                attributes@ =~= packed_attributes(entries@).take(i as int),
            decreases entries@.len() - i,
        {
            let (shader_location, format) = entries[i];
            proof {
                lemma_packed_offset_bounds(entries@, i as int + 1, entries@.len() as int);
            }
            attributes.push(VertexAttribute { format, offset, shader_location });
            offset = offset + format.size();
            i = i + 1;
            assert(attributes@ =~= packed_attributes(entries@).take(i as int));
        }
        assert(attributes@ =~= packed_attributes(entries@));
        VertexBufferLayout { array_stride: offset, step_mode, attributes }
    }
}

/// A packed layout is well formed as soon as its shader locations differ.
pub proof fn lemma_packed_well_formed(layout: VertexBufferLayout, entries: Seq<(u32, VertexFormat)>)
    requires
        16 * entries.len() <= u64::MAX,
        layout.is_packed(layout.step_mode, entries),
        forall|i: int, j: int| 0 <= i < j < entries.len() ==> entries[i].0 != entries[j].0,
    ensures
        layout.well_formed(),
        forall|location: u32|
            layout.uses_location(location) <==> exists|i: int|
                0 <= i < entries.len() && (#[trigger] entries[i]).0 == location,
{
    assert forall|location: u32| layout.uses_location(location) <==> exists|i: int|
        0 <= i < entries.len() && (#[trigger] entries[i]).0 == location by {
        if layout.uses_location(location) {
            let i = choose|i: int|
                0 <= i < layout.attributes@.len() && (#[trigger] layout.attributes@[i]).shader_location
                    == location;
            assert(entries[i].0 == location);
        }
        if exists|i: int| 0 <= i < entries.len() && (#[trigger] entries[i]).0 == location {
            let i = choose|i: int| 0 <= i < entries.len() && (#[trigger] entries[i]).0 == location;
            assert(layout.attributes@[i].shader_location == location);
        }
    }
    assert forall|i: int| 0 <= i < layout.attributes@.len() implies (
    #[trigger] layout.attributes@[i]).end() <= layout.array_stride by {
        lemma_packed_offset_bounds(entries, i + 1, entries.len() as int);
        lemma_packed_offset_bounds(entries, i, entries.len() as int);
    }
    assert forall|i: int, j: int| 0 <= i < j < layout.attributes@.len() implies {
        let a = #[trigger] layout.attributes@[i];
        let b = #[trigger] layout.attributes@[j];
        &&& a.shader_location != b.shader_location
        &&& (a.end() <= b.offset || b.end() <= a.offset)
    } by {
        lemma_packed_offset_bounds(entries, i + 1, j);
        lemma_packed_offset_bounds(entries, i, entries.len() as int);
        lemma_packed_offset_bounds(entries, j, entries.len() as int);
    }
}

} // verus!
