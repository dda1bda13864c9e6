//! The record kinds of an archive, the layout of each, and its size on disk.
use vstd::prelude::*;

verus! {

/// The kinds of fixed-layout record that an archive holds.
#[derive(Clone, Copy, Debug, PartialEq, Eq, Structural)]
pub enum RecordKind {
    Info,
    Lump,
    Thing,
    Vertex,
    Linedef,
    Sidedef,
    Sector,
    Subsector,
    Seg,
    Node,
    TextureHeader,
    TexturePatchRef,
}

/// How the bytes of one field are read. Integers are little-endian.
#[derive(Clone, Copy, Debug, PartialEq, Eq, Structural)]
pub enum FieldType {
    U16,
    I16,
    U32,
    I32,
    /// An eight-byte name.
    Name,
    /// Four raw bytes that identify the kind of archive.
    Identifier,
}

pub open spec fn field_width(t: FieldType) -> nat {
    match t {
        FieldType::U16 | FieldType::I16 => 2,
        FieldType::U32 | FieldType::I32 | FieldType::Identifier => 4,
        FieldType::Name => 8,
    }
}

/// Bytes taken by the first `n` of `fields`, laid out one after the other
/// without padding: the offset at which field `n` starts.
pub open spec fn field_offset(fields: Seq<FieldType>, n: int) -> nat
    decreases n,
{
    if n <= 0 {
        0
    } else {
        field_offset(fields, n - 1) + field_width(fields[n - 1])
    }
}

/// Bytes taken by all of `fields`, laid out without padding.
pub open spec fn layout_width(fields: Seq<FieldType>) -> nat {
    field_offset(fields, fields.len() as int)
}

/// The fields of each record kind, in the order in which they are stored.
pub open spec fn record_fields(kind: RecordKind) -> Seq<FieldType> {
    match kind {
        RecordKind::Info => seq![FieldType::Identifier, FieldType::I32, FieldType::I32],
        RecordKind::Lump => seq![FieldType::I32, FieldType::I32, FieldType::Name],
        RecordKind::Thing => seq![
            FieldType::I16,
            FieldType::I16,
            FieldType::I16,
            FieldType::U16,
            FieldType::U16,
        ],
        RecordKind::Vertex => seq![FieldType::I16, FieldType::I16],
        RecordKind::Linedef => seq![
            FieldType::U16,
            FieldType::U16,
            FieldType::U16,
            FieldType::U16,
            FieldType::U16,
            FieldType::I16,
            FieldType::I16,
        ],
        RecordKind::Sidedef => seq![
            FieldType::I16,
            FieldType::I16,
            FieldType::Name,
            FieldType::Name,
            FieldType::Name,
            FieldType::U16,
        ],
        RecordKind::Sector => seq![
            FieldType::I16,
            FieldType::I16,
            FieldType::Name,
            FieldType::Name,
            FieldType::I16,
            FieldType::U16,
            FieldType::U16,
        ],
        RecordKind::Subsector => seq![FieldType::U16, FieldType::U16],
        RecordKind::Seg => seq![
            FieldType::U16,
            FieldType::U16,
            FieldType::U16,
            FieldType::U16,
            FieldType::U16,
            FieldType::U16,
        ],
        RecordKind::Node => seq![
            FieldType::I16,
            FieldType::I16,
            FieldType::I16,
            FieldType::I16,
            FieldType::I16,
            FieldType::I16,
            FieldType::I16,
            FieldType::I16,
            FieldType::I16,
            FieldType::I16,
            FieldType::I16,
            FieldType::I16,
            FieldType::U16,
            FieldType::U16,
        ],
        RecordKind::TextureHeader => seq![
            FieldType::Name,
            FieldType::U32,
            FieldType::U16,
            FieldType::U16,
            FieldType::U32,
            FieldType::U16,
        ],
        RecordKind::TexturePatchRef => seq![
            FieldType::I16,
            FieldType::I16,
            FieldType::U16,
            FieldType::U16,
            FieldType::U16,
        ],
    }
}

/// The size on disk of each record kind, fixed by the format.
pub open spec fn record_size(kind: RecordKind) -> nat {
    match kind {
        RecordKind::Info => 12,
        RecordKind::Lump => 16,
        RecordKind::Thing => 10,
        RecordKind::Vertex => 4,
        RecordKind::Linedef => 14,
        RecordKind::Sidedef => 30,
        RecordKind::Sector => 26,
        RecordKind::Subsector => 4,
        RecordKind::Seg => 12,
        RecordKind::Node => 28,
        RecordKind::TextureHeader => 22,
        RecordKind::TexturePatchRef => 10,
    }
}

/// The twelve record kinds.
pub open spec fn all_kinds() -> Seq<RecordKind> {
    seq![
        RecordKind::Info,
        RecordKind::Lump,
        RecordKind::Thing,
        RecordKind::Vertex,
        RecordKind::Linedef,
        RecordKind::Sidedef,
        RecordKind::Sector,
        RecordKind::Subsector,
        RecordKind::Seg,
        RecordKind::Node,
        RecordKind::TextureHeader,
        RecordKind::TexturePatchRef,
    ]
}

/// For every record kind, its fields laid out without padding take exactly
/// the size that the format fixes for it.
pub proof fn lemma_layout_matches_size(kind: RecordKind)
    ensures
        layout_width(record_fields(kind)) == record_size(kind),
{
    match kind {
        RecordKind::Info => {
            reveal_with_fuel(field_offset, 4);
        },
        RecordKind::Lump => {
            reveal_with_fuel(field_offset, 4);
        },
        RecordKind::Thing => {
            reveal_with_fuel(field_offset, 6);
        },
        RecordKind::Vertex => {
            reveal_with_fuel(field_offset, 3);
        },
        RecordKind::Linedef => {
            reveal_with_fuel(field_offset, 8);
        },
        RecordKind::Sidedef => {
            reveal_with_fuel(field_offset, 7);
        },
        RecordKind::Sector => {
            reveal_with_fuel(field_offset, 8);
        },
        RecordKind::Subsector => {
            reveal_with_fuel(field_offset, 3);
        },
        RecordKind::Seg => {
            reveal_with_fuel(field_offset, 7);
        },
        RecordKind::Node => {
            reveal_with_fuel(field_offset, 15);
        },
        RecordKind::TextureHeader => {
            reveal_with_fuel(field_offset, 7);
        },
        RecordKind::TexturePatchRef => {
            reveal_with_fuel(field_offset, 6);
        },
    }
}

impl RecordKind {
    /// Size on disk of a record of this kind.
    pub fn canonical_size(&self) -> (r: usize)
        ensures
            r == record_size(*self),
    {
        match self {
            RecordKind::Info => 12,
            RecordKind::Lump => 16,
            RecordKind::Thing => 10,
            RecordKind::Vertex => 4,
            RecordKind::Linedef => 14,
            RecordKind::Sidedef => 30,
            RecordKind::Sector => 26,
            RecordKind::Subsector => 4,
            RecordKind::Seg => 12,
            RecordKind::Node => 28,
            RecordKind::TextureHeader => 22,
            RecordKind::TexturePatchRef => 10,
        }
    }

    /// The fields of a record of this kind, in the order in which they are
    /// stored.
    pub fn fields(&self) -> (r: Vec<FieldType>)
        ensures
            r@ == record_fields(*self),
    {
        let r = match self {
            RecordKind::Info => vec![FieldType::Identifier, FieldType::I32, FieldType::I32],
            RecordKind::Lump => vec![FieldType::I32, FieldType::I32, FieldType::Name],
            RecordKind::Thing => vec![
                FieldType::I16,
                FieldType::I16,
                FieldType::I16,
                FieldType::U16,
                FieldType::U16,
            ],
            RecordKind::Vertex => vec![FieldType::I16, FieldType::I16],
            RecordKind::Linedef => vec![
                FieldType::U16,
                FieldType::U16,
                FieldType::U16,
                FieldType::U16,
                FieldType::U16,
                FieldType::I16,
                FieldType::I16,
            ],
            RecordKind::Sidedef => vec![
                FieldType::I16,
                FieldType::I16,
                FieldType::Name,
                FieldType::Name,
                FieldType::Name,
                FieldType::U16,
            ],
            RecordKind::Sector => vec![
                FieldType::I16,
                FieldType::I16,
                FieldType::Name,
                FieldType::Name,
                FieldType::I16,
                FieldType::U16,
                FieldType::U16,
            ],
            RecordKind::Subsector => vec![FieldType::U16, FieldType::U16],
            RecordKind::Seg => vec![
                FieldType::U16,
                FieldType::U16,
                FieldType::U16,
                FieldType::U16,
                FieldType::U16,
                FieldType::U16,
            ],
            RecordKind::Node => vec![
                FieldType::I16,
                FieldType::I16,
                FieldType::I16,
                FieldType::I16,
                FieldType::I16,
                FieldType::I16,
                FieldType::I16,
                FieldType::I16,
                FieldType::I16,
                FieldType::I16,
                FieldType::I16,
                FieldType::I16,
                FieldType::U16,
                FieldType::U16,
            ],
            RecordKind::TextureHeader => vec![
                FieldType::Name,
                FieldType::U32,
                FieldType::U16,
                FieldType::U16,
                FieldType::U32,
                FieldType::U16,
            ],
            RecordKind::TexturePatchRef => vec![
                FieldType::I16,
                FieldType::I16,
                FieldType::U16,
                FieldType::U16,
                FieldType::U16,
            ],
        };
        assert(r@ =~= record_fields(*self));
        r
    }
}

/// Sum of the widths of `fields`.
pub fn layout_size(fields: &Vec<FieldType>) -> (r: usize)
    requires
        fields@.len() <= 64,
    ensures
        r == layout_width(fields@),
{
    let mut total: usize = 0;
    let mut i: usize = 0;
    while i < fields.len()
        invariant
            fields@.len() <= 64,
            0 <= i <= fields@.len(),
            total == field_offset(fields@, i as int),
            total <= 8 * i,
        decreases fields@.len() - i,
    {
        total = total + fields[i].width();
        i += 1;
    }
    total
}

/// The twelve record kinds, in the order of `all_kinds`.
pub fn record_kinds() -> (r: Vec<RecordKind>)
    ensures
        r@ == all_kinds(),
{
    let r = vec![
        RecordKind::Info,
        RecordKind::Lump,
        RecordKind::Thing,
        RecordKind::Vertex,
        RecordKind::Linedef,
        RecordKind::Sidedef,
        RecordKind::Sector,
        RecordKind::Subsector,
        RecordKind::Seg,
        RecordKind::Node,
        RecordKind::TextureHeader,
        RecordKind::TexturePatchRef,
    ];
    assert(r@ =~= all_kinds());
    r
}

/// Self-check run at start-up: for each record kind, the width of its
/// declared fields equals its size on disk. It holds of every kind.
pub fn check_record_sizes() -> (r: bool)
    ensures
        r,
        forall|k: RecordKind| layout_width(#[trigger] record_fields(k)) == record_size(k),
{
    let kinds = record_kinds();
    let mut i: usize = 0;
    while i < kinds.len()
        invariant
            kinds@ == all_kinds(),
            0 <= i <= kinds@.len(),
        decreases kinds@.len() - i,
    {
        let kind = kinds[i];
        let fields = kind.fields();
        proof {
            lemma_layout_matches_size(kind);
        }
        if layout_size(&fields) != kind.canonical_size() {
            return false;
        }
        i += 1;
    }
    assert forall|k: RecordKind| layout_width(#[trigger] record_fields(k)) == record_size(k) by {
        lemma_layout_matches_size(k);
    }
    true
}

impl FieldType {
    /// Bytes that a field of this type takes.
    pub fn width(&self) -> (r: usize)
        ensures
            r == field_width(*self),
    {
        match self {
            FieldType::U16 | FieldType::I16 => 2,
            FieldType::U32 | FieldType::I32 | FieldType::Identifier => 4,
            FieldType::Name => 8,
        }
    }
}

} // verus!
