//! Vertex layouts. A pass asks the vertex format which attributes it carries
//! and at which byte offsets, and hands that layout to the backend when the
//! effect is built. Well-formedness says the attributes are packed back to
//! back and that the stride is their total size.

use vstd::prelude::*;

verus! {

/// One attribute a vertex format can carry.
#[derive(Clone, Copy, Debug, PartialEq, Eq, Structural)]
pub enum AttributeKind {
    Position,
    Normal,
    TexCoord,
}

/// One attribute as laid out in an interleaved vertex buffer: its kind, its
/// byte offset from the start of a vertex, and its size in bytes.
#[derive(Clone, Copy, Debug, PartialEq, Eq, Structural)]
pub struct Attribute {
    pub kind: AttributeKind,
    pub offset: u16,
    pub size: u16,
}

/// An interleaved vertex format: the attributes of one vertex in buffer
/// order, and the stride from one vertex to the next.
#[derive(Clone, Debug)]
pub struct VertexFormat {
    pub attributes: Vec<Attribute>,
    pub stride: u16,
}

/// The total size in bytes of the first `i` attributes.
pub open spec fn size_of_prefix(attrs: Seq<Attribute>, i: int) -> int
    decreases i,
{
    if i <= 0 {
        0
    } else {
        size_of_prefix(attrs, i - 1) + attrs[i - 1].size
    }
}

impl VertexFormat {
    /// The attributes are packed without gaps and the stride is their total
    /// size.
    pub open spec fn wf(self) -> bool {
        &&& forall|i: int|
            0 <= i < self.attributes@.len() ==> (#[trigger] self.attributes@[i]).offset
                == size_of_prefix(self.attributes@, i)
        &&& self.stride == size_of_prefix(self.attributes@, self.attributes@.len() as int)
    }

    /// The kinds this format carries, in buffer order.
    pub open spec fn kinds(self) -> Seq<AttributeKind> {
        self.attributes@.map_values(|a: Attribute| a.kind)
    }

    /// The format answers a query for position, normal and texture
    /// coordinates: it carries exactly those three attributes, in that order.
    pub open spec fn queries_pos_norm_tex(self) -> bool {
        self.kinds() == seq![
            AttributeKind::Position,
            AttributeKind::Normal,
            AttributeKind::TexCoord,
        ]
    }

    /// The standard interleaved format with a three-component position, a
    /// three-component normal and a two-component texture coordinate, four
    /// bytes per component.
    pub fn pos_norm_tex() -> (v: VertexFormat)
        ensures
            v.wf(),
            v.queries_pos_norm_tex(),
            v.stride == 32,
            v.attributes@ == seq![
                (Attribute { kind: AttributeKind::Position, offset: 0, size: 12 }),
                (Attribute { kind: AttributeKind::Normal, offset: 12, size: 12 }),
                (Attribute { kind: AttributeKind::TexCoord, offset: 24, size: 8 }),
            ],
    {
        let mut attributes: Vec<Attribute> = Vec::new();
        attributes.push(Attribute { kind: AttributeKind::Position, offset: 0, size: 12 });
        attributes.push(Attribute { kind: AttributeKind::Normal, offset: 12, size: 12 });
        attributes.push(Attribute { kind: AttributeKind::TexCoord, offset: 24, size: 8 });
        let v = VertexFormat { attributes, stride: 32 };
        proof {
            assert(v.attributes@ =~= seq![
                (Attribute { kind: AttributeKind::Position, offset: 0, size: 12 }),
                (Attribute { kind: AttributeKind::Normal, offset: 12, size: 12 }),
                (Attribute { kind: AttributeKind::TexCoord, offset: 24, size: 8 }),
            ]);
            assert(size_of_prefix(v.attributes@, 0) == 0);
            assert(size_of_prefix(v.attributes@, 1) == 12);
            assert(size_of_prefix(v.attributes@, 2) == 24);
            assert(size_of_prefix(v.attributes@, 3) == 32);
            assert(v.kinds() =~= seq![
                AttributeKind::Position,
                AttributeKind::Normal,
                AttributeKind::TexCoord,
            ]);
        }
        v
    }
}

} // verus!
