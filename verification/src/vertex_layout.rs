//! How the attributes of a vertex are laid out in a vertex buffer.

use vstd::prelude::*;

verus! {

/// Format of one vertex attribute.
#[derive(Clone, Copy, Debug, PartialEq, Eq, Structural)]
pub enum VertexFormat {
    /// Two 32-bit components.
    Float32x2,
    /// Three 32-bit components.
    Float32x3,
}

impl VertexFormat {
    /// Size of an attribute of this format in bytes.
    pub open spec fn bytes(self) -> int {
        match self {
            VertexFormat::Float32x2 => 8,
            VertexFormat::Float32x3 => 12,
        }
    }

    /// Size of an attribute of this format in bytes.
    pub fn size(&self) -> (size: u64)
        ensures
            size == self.bytes(),
    {
        match *self {
            VertexFormat::Float32x2 => 8,
            VertexFormat::Float32x3 => 12,
        }
    }
}

/// One attribute of a vertex: where it starts, which shader input it feeds
/// and how it is encoded.
#[derive(Clone, Copy, Debug, PartialEq, Eq, Structural)]
pub struct VertexAttribute {
    pub offset: u64,
    pub shader_location: u32,
    pub format: VertexFormat,
}

/// The layout of a vertex buffer that is stepped once per vertex.
#[derive(Debug)]
pub struct VertexBufferLayout {
    pub array_stride: u64,
    pub attributes: Vec<VertexAttribute>,
}

/// Bytes taken by the first `n` of `formats` when packed without gaps.
pub open spec fn packed_bytes(formats: Seq<VertexFormat>, n: int) -> int
    decreases n,
{
    if n <= 0 {
        0
    } else {
        packed_bytes(formats, n - 1) + formats[n - 1].bytes()
    }
}

/// Attribute `i` of a packed layout: it starts where attribute `i - 1` ends
/// and feeds shader input `i`.
pub open spec fn packed_attribute(formats: Seq<VertexFormat>, i: int) -> VertexAttribute {
    VertexAttribute {
        offset: packed_bytes(formats, i) as u64,
        shader_location: i as u32,
        format: formats[i],
    }
}

/// The attributes of `formats` packed without gaps, in order.
pub open spec fn packed_attributes(formats: Seq<VertexFormat>) -> Seq<VertexAttribute> {
    Seq::new(formats.len(), |i: int| packed_attribute(formats, i))
}

/// Packed bytes grow with the number of attributes, by at most twelve each.
pub proof fn lemma_packed_bytes_bounds(formats: Seq<VertexFormat>, n: int)
    requires
        0 <= n <= formats.len(),
    ensures
        0 <= packed_bytes(formats, n) <= 12 * n,
        n > 0 ==> packed_bytes(formats, n - 1) < packed_bytes(formats, n),
    decreases n,
{
    if n > 0 {
        lemma_packed_bytes_bounds(formats, n - 1);
    }
}

/// In a packed layout no two attributes overlap: each one ends where the
/// next begins or before.
pub proof fn lemma_packed_attributes_disjoint(formats: Seq<VertexFormat>, i: int, j: int)
    requires
        0 <= i < j < formats.len(),
    ensures
        packed_bytes(formats, i) + formats[i].bytes() <= packed_bytes(formats, j),
    decreases j - i,
{
    if i + 1 < j {
        lemma_packed_attributes_disjoint(formats, i, j - 1);
        lemma_packed_bytes_bounds(formats, j);
    }
}

impl VertexBufferLayout {
    /// Every attribute ends within one stride.
    pub open spec fn fits(self) -> bool {
        forall|i: int|
            0 <= i < self.attributes@.len() ==> (#[trigger] self.attributes@[i]).offset
                + self.attributes@[i].format.bytes() <= self.array_stride
    }

    /// Lays `formats` out without gaps in a vertex of `array_stride` bytes,
    /// feeding shader inputs 0, 1, 2 and so on.
    ///
    /// `None` exactly when there are more attributes than shader inputs can
    /// be numbered.
    pub fn packed(formats: &[VertexFormat], array_stride: u64) -> (layout: Option<
        VertexBufferLayout,
    >)
        ensures
            layout.is_some() == (formats@.len() <= u32::MAX),
            layout matches Some(l) ==> l.array_stride == array_stride && l.attributes@
                == packed_attributes(formats@),
    {
        if formats.len() > u32::MAX as usize {
            return None;
        }
        let mut attributes: Vec<VertexAttribute> = Vec::new();
        let mut offset: u64 = 0;
        let mut i: usize = 0;
        while i < formats.len()
            invariant
                i <= formats@.len() <= u32::MAX,
                offset == packed_bytes(formats@, i as int),
                offset <= 12 * i,
                attributes@ == Seq::new(i as nat, |k: int| packed_attribute(formats@, k)),
            decreases formats@.len() - i,
        {
            attributes.push(
                VertexAttribute { offset, shader_location: i as u32, format: formats[i] },
            );
            offset = offset + formats[i].size();
            i += 1;
            assert(attributes@ =~= Seq::new(i as nat, |k: int| packed_attribute(formats@, k)));
        }
        Some(VertexBufferLayout { array_stride, attributes })
    }

    /// Whether every attribute ends within one stride.
    pub fn check_fits(&self) -> (ok: bool)
        ensures
            ok == self.fits(),
    {
        let mut i: usize = 0;
        while i < self.attributes.len()
            invariant
                i <= self.attributes@.len(),
                forall|k: int|
                    0 <= k < i ==> (#[trigger] self.attributes@[k]).offset
                        + self.attributes@[k].format.bytes() <= self.array_stride,
            decreases self.attributes@.len() - i,
        {
            let a = self.attributes[i];
            let size = a.format.size();
            if a.offset > u64::MAX - size || a.offset + size > self.array_stride {
                return false;
            }
            i += 1;
        }
        true
    }
}

/// A packed layout fits its stride exactly when all its attributes together
/// are no longer than the stride.
pub proof fn lemma_packed_fits(layout: VertexBufferLayout, formats: Seq<VertexFormat>)
    requires
        formats.len() <= u32::MAX,
        layout.attributes@ == packed_attributes(formats),
    ensures
        layout.fits() <==> packed_bytes(formats, formats.len() as int) <= layout.array_stride,
{
    let n = formats.len() as int;
    assert forall|i: int| 0 <= i < n implies (#[trigger] layout.attributes@[i]).offset
        + layout.attributes@[i].format.bytes() == packed_bytes(formats, i + 1) by {
        lemma_packed_bytes_bounds(formats, i);
    }
    if packed_bytes(formats, n) <= layout.array_stride {
        assert forall|i: int| 0 <= i < n implies (#[trigger] layout.attributes@[i]).offset
            + layout.attributes@[i].format.bytes() <= layout.array_stride by {
            lemma_packed_bytes_monotonic(formats, i + 1, n);
        }
    } else if n > 0 {
        assert(layout.attributes@[n - 1].offset + layout.attributes@[n - 1].format.bytes()
            == packed_bytes(formats, n));
    }
}

/// More attributes take at least as many bytes.
pub proof fn lemma_packed_bytes_monotonic(formats: Seq<VertexFormat>, a: int, b: int)
    requires
        0 <= a <= b <= formats.len(),
    ensures
        packed_bytes(formats, a) <= packed_bytes(formats, b),
    decreases b - a,
{
    if a < b {
        lemma_packed_bytes_monotonic(formats, a, b - 1);
        lemma_packed_bytes_bounds(formats, b);
    }
}

} // verus!
