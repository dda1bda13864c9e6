//! The fixed-layout records of an archive, and the bits of a linedef's flags.
use vstd::prelude::*;
pub use crate::name::WadName;

verus! {

pub type LightLevel = i16;
pub type LinedefFlags = u16;
pub type LinedefType = u16;
pub type SectorId = u16;
pub type SectorTag = u16;
pub type SectorType = u16;
pub type SidedefId = i16;
pub type SpecialType = u16;
pub type ThingFlags = u16;
pub type ThingType = u16;
pub type VertexId = u16;
pub type WadCoord = i16;
pub type SegId = u16;
pub type LinedefId = u16;
pub type ChildId = u16;

/// The archive header.
#[derive(Clone, Copy, Debug)]
pub struct WadInfo {
    pub identifier: [u8; 4],
    pub num_lumps: i32,
    pub info_table_offset: i32,
}

/// An entry of the lump directory.
#[derive(Clone, Copy, Debug)]
pub struct WadLump {
    pub file_pos: i32,
    pub size: i32,
    pub name: WadName,
}

/// An object placed in a map.
#[derive(Clone, Copy, Debug)]
pub struct WadThing {
    pub x: WadCoord,
    pub y: WadCoord,
    pub angle: WadCoord,
    pub thing_type: ThingType,
    pub flags: ThingFlags,
}

#[derive(Clone, Copy, Debug)]
pub struct WadVertex {
    pub x: WadCoord,
    pub y: WadCoord,
}

#[derive(Clone, Copy, Debug)]
pub struct WadLinedef {
    pub start_vertex: VertexId,
    pub end_vertex: VertexId,
    pub flags: LinedefFlags,
    pub special_type: SpecialType,
    pub sector_tag: SectorTag,
    pub right_side: SidedefId,
    pub left_side: SidedefId,
}

#[derive(Clone, Copy, Debug)]
pub struct WadSidedef {
    pub x_offset: WadCoord,
    pub y_offset: WadCoord,
    pub upper_texture: WadName,
    pub lower_texture: WadName,
    pub middle_texture: WadName,
    pub sector: SectorId,
}

#[derive(Clone, Copy, Debug)]
pub struct WadSector {
    pub floor_height: WadCoord,
    pub ceiling_height: WadCoord,
    pub floor_texture: WadName,
    pub ceiling_texture: WadName,
    pub light: LightLevel,
    pub sector_type: SectorType,
    pub tag: SectorTag,
}

#[derive(Clone, Copy, Debug)]
pub struct WadSubsector {
    pub num_segs: u16,
    pub first_seg: SegId,
}

#[derive(Clone, Copy, Debug)]
pub struct WadSeg {
    pub start_vertex: VertexId,
    pub end_vertex: VertexId,
    pub angle: u16,
    pub linedef: LinedefId,
    pub direction: u16,
    pub offset: u16,
}

/// A node of the binary space partition of a map.
#[derive(Clone, Copy, Debug)]
pub struct WadNode {
    pub line_x: WadCoord,
    pub line_y: WadCoord,
    pub step_x: WadCoord,
    pub step_y: WadCoord,
    pub right_y_max: WadCoord,
    pub right_y_min: WadCoord,
    pub right_x_max: WadCoord,
    pub right_x_min: WadCoord,
    pub left_y_max: WadCoord,
    pub left_y_min: WadCoord,
    pub left_x_max: WadCoord,
    pub left_x_min: WadCoord,
    pub right: ChildId,
    pub left: ChildId,
}

#[derive(Clone, Copy, Debug)]
pub struct WadTextureHeader {
    pub name: WadName,
    pub masked: u32,
    pub width: u16,
    pub height: u16,
    pub column_directory: u32,
    pub num_patches: u16,
}

#[derive(Clone, Copy, Debug)]
pub struct WadTexturePatchRef {
    pub origin_x: i16,
    pub origin_y: i16,
    pub patch: u16,
    pub stepdir: u16,
    pub colormap: u16,
}

/// Whether bit number `bit` of `flags` is set.
pub open spec fn flag_at(flags: u16, bit: u16) -> bool {
    (flags >> bit) & 1 == 1
}

fn test_bit(flags: u16, bit: u16) -> (r: bool)
    requires
        bit < 16,
    ensures
        r == flag_at(flags, bit),
{
    (flags >> bit) & 1 == 1
}

/// Each flag of a linedef is one bit of its mask; bits that no flag uses are
/// ignored.
impl WadLinedef {
    /// Mask 0x0001: players and monsters cannot cross the line.
    pub fn impassable(&self) -> (r: bool)
        ensures
            r == flag_at(self.flags, 0),
    {
        test_bit(self.flags, 0)
    }

    /// Mask 0x0002: monsters cannot cross the line.
    pub fn blocks_monsters(&self) -> (r: bool)
        ensures
            r == flag_at(self.flags, 1),
    {
        test_bit(self.flags, 1)
    }

    /// Mask 0x0004: the line has a sector on both sides.
    pub fn is_two_sided(&self) -> (r: bool)
        ensures
            r == flag_at(self.flags, 2),
    {
        test_bit(self.flags, 2)
    }

    /// Mask 0x0008: the upper texture is not pegged to the ceiling.
    pub fn upper_unpegged(&self) -> (r: bool)
        ensures
            r == flag_at(self.flags, 3),
    {
        test_bit(self.flags, 3)
    }

    /// Mask 0x0010: the lower texture is not pegged to the floor.
    pub fn lower_unpegged(&self) -> (r: bool)
        ensures
            r == flag_at(self.flags, 4),
    {
        test_bit(self.flags, 4)
    }

    /// Mask 0x0020: the line shows as one-sided on the automap.
    pub fn secret(&self) -> (r: bool)
        ensures
            r == flag_at(self.flags, 5),
    {
        test_bit(self.flags, 5)
    }

    /// Mask 0x0040: sound does not pass the line.
    pub fn blocks_sound(&self) -> (r: bool)
        ensures
            r == flag_at(self.flags, 6),
    {
        test_bit(self.flags, 6)
    }

    /// Mask 0x0080: the line is always drawn on the automap.
    pub fn always_shown_on_map(&self) -> (r: bool)
        ensures
            r == flag_at(self.flags, 7),
    {
        test_bit(self.flags, 7)
    }

    /// Mask 0x0100: the line is never drawn on the automap.
    pub fn never_shown_on_map(&self) -> (r: bool)
        ensures
            r == flag_at(self.flags, 8),
    {
        test_bit(self.flags, 8)
    }
}

/// A flag's value is the single bit it is bound to: the same as the mask
/// with only that bit kept, and unchanged by setting or clearing any other
/// bit.
pub proof fn lemma_flag_is_single_bit(flags: u16, other: u16, bit: u16)
    requires
        bit < 16,
        !flag_at(other, bit),
    ensures
        flag_at(flags, bit) == (flags & (1u16 << bit) != 0),
        flag_at(flags ^ other, bit) == flag_at(flags, bit),
        flag_at(flags | other, bit) == flag_at(flags, bit),
        flag_at(flags & !other, bit) == flag_at(flags, bit),
{
    assert(bit < 16 ==> (((flags >> bit) & 1 == 1) == (flags & (1u16 << bit) != 0)))
        by (bit_vector);
    assert(bit < 16 && (other >> bit) & 1 != 1 ==> (((flags ^ other) >> bit) & 1 == 1) == ((
    flags >> bit) & 1 == 1)) by (bit_vector);
    assert(bit < 16 && (other >> bit) & 1 != 1 ==> (((flags | other) >> bit) & 1 == 1) == ((
    flags >> bit) & 1 == 1)) by (bit_vector);
    assert(bit < 16 && (other >> bit) & 1 != 1 ==> (((flags & !other) >> bit) & 1 == 1) == ((
    flags >> bit) & 1 == 1)) by (bit_vector);
}

} // verus!
