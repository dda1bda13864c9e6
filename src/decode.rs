//! Decoding of records from their bytes on disk.
use vstd::prelude::*;
use crate::bytes::{le_u16, le_u32, signed16, signed32, read_u16, read_i16, read_u32, read_i32};
use crate::error::WadError;
use crate::name::WadName;
use crate::schema::{FieldType, RecordKind, field_offset, field_width, record_fields, record_size};
use crate::types::{
    WadInfo, WadLump, WadThing, WadVertex, WadLinedef, WadSidedef, WadSector, WadSubsector,
    WadSeg, WadNode, WadTextureHeader, WadTexturePatchRef,
};
use vstd::arithmetic::div_mod::lemma_fundamental_div_mod;

verus! {

/// The signed 16-bit integer stored little-endian at `off`.
pub open spec fn i16_at(w: Seq<u8>, off: int) -> int {
    signed16(le_u16(w, off))
}

/// The signed 32-bit integer stored little-endian at `off`.
pub open spec fn i32_at(w: Seq<u8>, off: int) -> int {
    signed32(le_u32(w, off))
}

/// Where field `i` of a record of kind `kind` starts.
pub open spec fn offset_of(kind: RecordKind, i: int) -> int {
    field_offset(record_fields(kind), i) as int
}

/// The value of integer field `i` of the record of kind `kind` held by `w`,
/// read at its offset as its declared type says.
pub open spec fn int_field(kind: RecordKind, w: Seq<u8>, i: int) -> int {
    let off = offset_of(kind, i);
    match record_fields(kind)[i] {
        FieldType::U16 => le_u16(w, off),
        FieldType::I16 => i16_at(w, off),
        FieldType::U32 => le_u32(w, off),
        FieldType::I32 => i32_at(w, off),
        _ => 0,
    }
}

/// The bytes of field `i` (a name or an identifier) of the record of kind
/// `kind` held by `w`.
pub open spec fn bytes_field(kind: RecordKind, w: Seq<u8>, i: int) -> Seq<u8> {
    let off = offset_of(kind, i);
    w.subrange(off, off + field_width(record_fields(kind)[i]))
}

pub open spec fn info_from(w: Seq<u8>, r: WadInfo) -> bool {
    &&& r.identifier@ == bytes_field(RecordKind::Info, w, 0)
    &&& r.num_lumps as int == int_field(RecordKind::Info, w, 1)
    &&& r.info_table_offset as int == int_field(RecordKind::Info, w, 2)
}

pub open spec fn lump_from(w: Seq<u8>, r: WadLump) -> bool {
    &&& r.file_pos as int == int_field(RecordKind::Lump, w, 0)
    &&& r.size as int == int_field(RecordKind::Lump, w, 1)
    &&& r.name.bytes@ == bytes_field(RecordKind::Lump, w, 2)
}

pub open spec fn thing_from(w: Seq<u8>, r: WadThing) -> bool {
    &&& r.x as int == int_field(RecordKind::Thing, w, 0)
    &&& r.y as int == int_field(RecordKind::Thing, w, 1)
    &&& r.angle as int == int_field(RecordKind::Thing, w, 2)
    &&& r.thing_type as int == int_field(RecordKind::Thing, w, 3)
    &&& r.flags as int == int_field(RecordKind::Thing, w, 4)
}

pub open spec fn vertex_from(w: Seq<u8>, r: WadVertex) -> bool {
    &&& r.x as int == int_field(RecordKind::Vertex, w, 0)
    &&& r.y as int == int_field(RecordKind::Vertex, w, 1)
}

pub open spec fn linedef_from(w: Seq<u8>, r: WadLinedef) -> bool {
    &&& r.start_vertex as int == int_field(RecordKind::Linedef, w, 0)
    &&& r.end_vertex as int == int_field(RecordKind::Linedef, w, 1)
    &&& r.flags as int == int_field(RecordKind::Linedef, w, 2)
    &&& r.special_type as int == int_field(RecordKind::Linedef, w, 3)
    &&& r.sector_tag as int == int_field(RecordKind::Linedef, w, 4)
    &&& r.right_side as int == int_field(RecordKind::Linedef, w, 5)
    &&& r.left_side as int == int_field(RecordKind::Linedef, w, 6)
}

pub open spec fn sidedef_from(w: Seq<u8>, r: WadSidedef) -> bool {
    &&& r.x_offset as int == int_field(RecordKind::Sidedef, w, 0)
    &&& r.y_offset as int == int_field(RecordKind::Sidedef, w, 1)
    &&& r.upper_texture.bytes@ == bytes_field(RecordKind::Sidedef, w, 2)
    &&& r.lower_texture.bytes@ == bytes_field(RecordKind::Sidedef, w, 3)
    &&& r.middle_texture.bytes@ == bytes_field(RecordKind::Sidedef, w, 4)
    &&& r.sector as int == int_field(RecordKind::Sidedef, w, 5)
}

pub open spec fn sector_from(w: Seq<u8>, r: WadSector) -> bool {
    &&& r.floor_height as int == int_field(RecordKind::Sector, w, 0)
    &&& r.ceiling_height as int == int_field(RecordKind::Sector, w, 1)
    &&& r.floor_texture.bytes@ == bytes_field(RecordKind::Sector, w, 2)
    &&& r.ceiling_texture.bytes@ == bytes_field(RecordKind::Sector, w, 3)
    &&& r.light as int == int_field(RecordKind::Sector, w, 4)
    &&& r.sector_type as int == int_field(RecordKind::Sector, w, 5)
    &&& r.tag as int == int_field(RecordKind::Sector, w, 6)
}

pub open spec fn subsector_from(w: Seq<u8>, r: WadSubsector) -> bool {
    &&& r.num_segs as int == int_field(RecordKind::Subsector, w, 0)
    &&& r.first_seg as int == int_field(RecordKind::Subsector, w, 1)
}

pub open spec fn seg_from(w: Seq<u8>, r: WadSeg) -> bool {
    &&& r.start_vertex as int == int_field(RecordKind::Seg, w, 0)
    &&& r.end_vertex as int == int_field(RecordKind::Seg, w, 1)
    &&& r.angle as int == int_field(RecordKind::Seg, w, 2)
    &&& r.linedef as int == int_field(RecordKind::Seg, w, 3)
    &&& r.direction as int == int_field(RecordKind::Seg, w, 4)
    &&& r.offset as int == int_field(RecordKind::Seg, w, 5)
}

pub open spec fn node_from(w: Seq<u8>, r: WadNode) -> bool {
    &&& r.line_x as int == int_field(RecordKind::Node, w, 0)
    &&& r.line_y as int == int_field(RecordKind::Node, w, 1)
    &&& r.step_x as int == int_field(RecordKind::Node, w, 2)
    &&& r.step_y as int == int_field(RecordKind::Node, w, 3)
    &&& r.right_y_max as int == int_field(RecordKind::Node, w, 4)
    &&& r.right_y_min as int == int_field(RecordKind::Node, w, 5)
    &&& r.right_x_max as int == int_field(RecordKind::Node, w, 6)
    &&& r.right_x_min as int == int_field(RecordKind::Node, w, 7)
    &&& r.left_y_max as int == int_field(RecordKind::Node, w, 8)
    &&& r.left_y_min as int == int_field(RecordKind::Node, w, 9)
    &&& r.left_x_max as int == int_field(RecordKind::Node, w, 10)
    &&& r.left_x_min as int == int_field(RecordKind::Node, w, 11)
    &&& r.right as int == int_field(RecordKind::Node, w, 12)
    &&& r.left as int == int_field(RecordKind::Node, w, 13)
}

pub open spec fn texture_header_from(w: Seq<u8>, r: WadTextureHeader) -> bool {
    &&& r.name.bytes@ == bytes_field(RecordKind::TextureHeader, w, 0)
    &&& r.masked as int == int_field(RecordKind::TextureHeader, w, 1)
    &&& r.width as int == int_field(RecordKind::TextureHeader, w, 2)
    &&& r.height as int == int_field(RecordKind::TextureHeader, w, 3)
    &&& r.column_directory as int == int_field(RecordKind::TextureHeader, w, 4)
    &&& r.num_patches as int == int_field(RecordKind::TextureHeader, w, 5)
}

pub open spec fn texture_patch_ref_from(w: Seq<u8>, r: WadTexturePatchRef) -> bool {
    &&& r.origin_x as int == int_field(RecordKind::TexturePatchRef, w, 0)
    &&& r.origin_y as int == int_field(RecordKind::TexturePatchRef, w, 1)
    &&& r.patch as int == int_field(RecordKind::TexturePatchRef, w, 2)
    &&& r.stepdir as int == int_field(RecordKind::TexturePatchRef, w, 3)
    &&& r.colormap as int == int_field(RecordKind::TexturePatchRef, w, 4)
}

/// A record of any kind.
#[derive(Clone, Copy, Debug)]
pub enum Record {
    Info(WadInfo),
    Lump(WadLump),
    Thing(WadThing),
    Vertex(WadVertex),
    Linedef(WadLinedef),
    Sidedef(WadSidedef),
    Sector(WadSector),
    Subsector(WadSubsector),
    Seg(WadSeg),
    Node(WadNode),
    TextureHeader(WadTextureHeader),
    TexturePatchRef(WadTexturePatchRef),
}

/// `r` is the record of kind `kind` that the bytes `w` hold.
pub open spec fn record_from(kind: RecordKind, w: Seq<u8>, r: Record) -> bool {
    match (kind, r) {
        (RecordKind::Info, Record::Info(x)) => info_from(w, x),
        (RecordKind::Lump, Record::Lump(x)) => lump_from(w, x),
        (RecordKind::Thing, Record::Thing(x)) => thing_from(w, x),
        (RecordKind::Vertex, Record::Vertex(x)) => vertex_from(w, x),
        (RecordKind::Linedef, Record::Linedef(x)) => linedef_from(w, x),
        (RecordKind::Sidedef, Record::Sidedef(x)) => sidedef_from(w, x),
        (RecordKind::Sector, Record::Sector(x)) => sector_from(w, x),
        (RecordKind::Subsector, Record::Subsector(x)) => subsector_from(w, x),
        (RecordKind::Seg, Record::Seg(x)) => seg_from(w, x),
        (RecordKind::Node, Record::Node(x)) => node_from(w, x),
        (RecordKind::TextureHeader, Record::TextureHeader(x)) => texture_header_from(w, x),
        (RecordKind::TexturePatchRef, Record::TexturePatchRef(x)) => texture_patch_ref_from(
            w,
            x,
        ),
        _ => false,
    }
}

/// The bytes of record number `i` in an array of records of `size` bytes.
pub open spec fn record_window(b: Seq<u8>, size: nat, i: int) -> Seq<u8> {
    b.subrange(i * size, (i + 1) * size)
}

/// `v` is the array of records of kind `kind` that `b` holds, in order.
pub open spec fn records_of(kind: RecordKind, b: Seq<u8>, v: Seq<Record>) -> bool {
    &&& v.len() == b.len() / record_size(kind)
    &&& forall|i: int|
        0 <= i < v.len() ==> record_from(
            kind,
            record_window(b, record_size(kind), i),
            #[trigger] v[i],
        )
}

fn read_name(w: &[u8], off: usize) -> (r: WadName)
    requires
        off + 8 <= w@.len(),
        off <= 32,
    ensures
        r.bytes@ == w@.subrange(off as int, off + 8),
{
    let bytes: [u8; 8] = [
        w[off],
        w[off + 1],
        w[off + 2],
        w[off + 3],
        w[off + 4],
        w[off + 5],
        w[off + 6],
        w[off + 7],
    ];
    assert(bytes@ =~= w@.subrange(off as int, off + 8));
    WadName::from_bytes(bytes)
}

impl WadInfo {
    /// The record that the 12 bytes `w` hold.
    pub fn decode(w: &[u8]) -> (r: WadInfo)
        requires
            w@.len() == 12,
        ensures
            info_from(w@, r),
    {
        reveal_with_fuel(field_offset, 4);
        let r = WadInfo {
            identifier: [w[0], w[1], w[2], w[3]],
            num_lumps: read_i32(w, 4),
            info_table_offset: read_i32(w, 8),
        };
        assert(r.identifier@ =~= w@.subrange(0, 4));
        r
    }
}

impl WadLump {
    /// The record that the 16 bytes `w` hold.
    pub fn decode(w: &[u8]) -> (r: WadLump)
        requires
            w@.len() == 16,
        ensures
            lump_from(w@, r),
    {
        reveal_with_fuel(field_offset, 4);
        WadLump {
            file_pos: read_i32(w, 0),
            size: read_i32(w, 4),
            name: read_name(w, 8),
        }
    }
}

impl WadThing {
    /// The record that the 10 bytes `w` hold.
    pub fn decode(w: &[u8]) -> (r: WadThing)
        requires
            w@.len() == 10,
        ensures
            thing_from(w@, r),
    {
        reveal_with_fuel(field_offset, 6);
        WadThing {
            x: read_i16(w, 0),
            y: read_i16(w, 2),
            angle: read_i16(w, 4),
            thing_type: read_u16(w, 6),
            flags: read_u16(w, 8),
        }
    }
}

impl WadVertex {
    /// The record that the 4 bytes `w` hold.
    pub fn decode(w: &[u8]) -> (r: WadVertex)
        requires
            w@.len() == 4,
        ensures
            vertex_from(w@, r),
    {
        reveal_with_fuel(field_offset, 3);
        WadVertex {
            x: read_i16(w, 0),
            y: read_i16(w, 2),
        }
    }
}

impl WadLinedef {
    /// The record that the 14 bytes `w` hold.
    pub fn decode(w: &[u8]) -> (r: WadLinedef)
        requires
            w@.len() == 14,
        ensures
            linedef_from(w@, r),
    {
        reveal_with_fuel(field_offset, 8);
        WadLinedef {
            start_vertex: read_u16(w, 0),
            end_vertex: read_u16(w, 2),
            flags: read_u16(w, 4),
            special_type: read_u16(w, 6),
            sector_tag: read_u16(w, 8),
            right_side: read_i16(w, 10),
            left_side: read_i16(w, 12),
        }
    }
}

impl WadSidedef {
    /// The record that the 30 bytes `w` hold.
    pub fn decode(w: &[u8]) -> (r: WadSidedef)
        requires
            w@.len() == 30,
        ensures
            sidedef_from(w@, r),
    {
        reveal_with_fuel(field_offset, 7);
        WadSidedef {
            x_offset: read_i16(w, 0),
            y_offset: read_i16(w, 2),
            upper_texture: read_name(w, 4),
            lower_texture: read_name(w, 12),
            middle_texture: read_name(w, 20),
            sector: read_u16(w, 28),
        }
    }
}

impl WadSector {
    /// The record that the 26 bytes `w` hold.
    pub fn decode(w: &[u8]) -> (r: WadSector)
        requires
            w@.len() == 26,
        ensures
            sector_from(w@, r),
    {
        reveal_with_fuel(field_offset, 8);
        WadSector {
            floor_height: read_i16(w, 0),
            ceiling_height: read_i16(w, 2),
            floor_texture: read_name(w, 4),
            ceiling_texture: read_name(w, 12),
            light: read_i16(w, 20),
            sector_type: read_u16(w, 22),
            tag: read_u16(w, 24),
        }
    }
}

impl WadSubsector {
    /// The record that the 4 bytes `w` hold.
    pub fn decode(w: &[u8]) -> (r: WadSubsector)
        requires
            w@.len() == 4,
        ensures
            subsector_from(w@, r),
    {
        reveal_with_fuel(field_offset, 3);
        WadSubsector {
            num_segs: read_u16(w, 0),
            first_seg: read_u16(w, 2),
        }
    }
}

impl WadSeg {
    /// The record that the 12 bytes `w` hold.
    pub fn decode(w: &[u8]) -> (r: WadSeg)
        requires
            w@.len() == 12,
        ensures
            seg_from(w@, r),
    {
        reveal_with_fuel(field_offset, 7);
        WadSeg {
            start_vertex: read_u16(w, 0),
            end_vertex: read_u16(w, 2),
            angle: read_u16(w, 4),
            linedef: read_u16(w, 6),
            direction: read_u16(w, 8),
            offset: read_u16(w, 10),
        }
    }
}

impl WadNode {
    /// The record that the 28 bytes `w` hold.
    pub fn decode(w: &[u8]) -> (r: WadNode)
        requires
            w@.len() == 28,
        ensures
            node_from(w@, r),
    {
        reveal_with_fuel(field_offset, 15);
        WadNode {
            line_x: read_i16(w, 0),
            line_y: read_i16(w, 2),
            step_x: read_i16(w, 4),
            step_y: read_i16(w, 6),
            right_y_max: read_i16(w, 8),
            right_y_min: read_i16(w, 10),
            right_x_max: read_i16(w, 12),
            right_x_min: read_i16(w, 14),
            left_y_max: read_i16(w, 16),
            left_y_min: read_i16(w, 18),
            left_x_max: read_i16(w, 20),
            left_x_min: read_i16(w, 22),
            right: read_u16(w, 24),
            left: read_u16(w, 26),
        }
    }
}

impl WadTextureHeader {
    /// The record that the 22 bytes `w` hold.
    pub fn decode(w: &[u8]) -> (r: WadTextureHeader)
        requires
            w@.len() == 22,
        ensures
            texture_header_from(w@, r),
    {
        reveal_with_fuel(field_offset, 7);
        WadTextureHeader {
            name: read_name(w, 0),
            masked: read_u32(w, 8),
            width: read_u16(w, 12),
            height: read_u16(w, 14),
            column_directory: read_u32(w, 16),
            num_patches: read_u16(w, 20),
        }
    }
}

impl WadTexturePatchRef {
    /// The record that the 10 bytes `w` hold.
    pub fn decode(w: &[u8]) -> (r: WadTexturePatchRef)
        requires
            w@.len() == 10,
        ensures
            texture_patch_ref_from(w@, r),
    {
        reveal_with_fuel(field_offset, 6);
        WadTexturePatchRef {
            origin_x: read_i16(w, 0),
            origin_y: read_i16(w, 2),
            patch: read_u16(w, 4),
            stepdir: read_u16(w, 6),
            colormap: read_u16(w, 8),
        }
    }
}

/// The record of kind `kind` that the bytes `w` hold.
pub fn decode_record(kind: RecordKind, w: &[u8]) -> (r: Record)
    requires
        w@.len() == record_size(kind),
    ensures
        record_from(kind, w@, r),
{
    match kind {
        RecordKind::Info => Record::Info(WadInfo::decode(w)),
        RecordKind::Lump => Record::Lump(WadLump::decode(w)),
        RecordKind::Thing => Record::Thing(WadThing::decode(w)),
        RecordKind::Vertex => Record::Vertex(WadVertex::decode(w)),
        RecordKind::Linedef => Record::Linedef(WadLinedef::decode(w)),
        RecordKind::Sidedef => Record::Sidedef(WadSidedef::decode(w)),
        RecordKind::Sector => Record::Sector(WadSector::decode(w)),
        RecordKind::Subsector => Record::Subsector(WadSubsector::decode(w)),
        RecordKind::Seg => Record::Seg(WadSeg::decode(w)),
        RecordKind::Node => Record::Node(WadNode::decode(w)),
        RecordKind::TextureHeader => Record::TextureHeader(WadTextureHeader::decode(w)),
        RecordKind::TexturePatchRef => Record::TexturePatchRef(WadTexturePatchRef::decode(w)),
    }
}

/// Decodes `bytes` as an array of records of kind `kind`, in the order in
/// which they are stored. Fails when the length is not a multiple of the
/// kind's size.
pub fn decode_all(kind: RecordKind, bytes: &[u8]) -> (r: Result<Vec<Record>, WadError>)
    ensures
        r is Err <==> bytes@.len() % record_size(kind) != 0,
        r is Err ==> r->Err_0 == WadError::UnexpectedRecordSize,
        r matches Ok(v) ==> records_of(kind, bytes@, v@),
{
    let size = kind.canonical_size();
    if bytes.len() % size != 0 {
        return Err(WadError::UnexpectedRecordSize);
    }
    let total = bytes.len();
    let n = total / size;
    proof {
        lemma_fundamental_div_mod(bytes@.len() as int, size as int);
    }
    let mut out: Vec<Record> = Vec::new();
    let mut i: usize = 0;
    let mut start: usize = 0;
    while i < n
        invariant
            size == record_size(kind),
            size > 0,
            n * size == bytes@.len(),
            total == bytes@.len(),
            0 <= i <= n,
            start == i * size,
            out@.len() == i,
            forall|j: int|
                0 <= j < i ==> record_from(
                    kind,
                    record_window(bytes@, size as nat, j),
                    #[trigger] out@[j],
                ),
        decreases n - i,
    {
        proof {
            assert((i + 1) * size <= n * size) by (nonlinear_arith)
                requires
                    i + 1 <= n,
            ;
            assert((i + 1) * size == i * size + size) by (nonlinear_arith);
        }
        let w = vstd::slice::slice_subrange(bytes, start, start + size);
        let rec = decode_record(kind, w);
        out.push(rec);
        i += 1;
        start = start + size;
    }
    Ok(out)
}

} // verus!
