use wad::decode::{decode_all, decode_record, Record};
use wad::error::WadError;
use wad::schema::{check_record_sizes, layout_size, record_kinds, RecordKind};
use wad::types::{WadLinedef, WadSector, WadTextureHeader, WadThing};

#[test]
fn canonical_sizes_match_table() {
    let expected = [12usize, 16, 10, 4, 14, 30, 26, 4, 12, 28, 22, 10];
    let kinds = record_kinds();
    assert_eq!(kinds.len(), 12);
    for (kind, size) in kinds.iter().zip(expected.iter()) {
        assert_eq!(kind.canonical_size(), *size);
        assert_eq!(layout_size(&kind.fields()), *size);
    }
}

#[test]
fn size_self_check_passes() {
    assert!(check_record_sizes());
}

#[test]
fn decode_all_rejects_partial_record() {
    for kind in record_kinds() {
        let size = kind.canonical_size();
        let bytes = vec![0u8; size + 1];
        assert!(matches!(decode_all(kind, &bytes), Err(WadError::UnexpectedRecordSize)));
        if size > 1 {
            let bytes = vec![0u8; 2 * size - 1];
            assert!(matches!(decode_all(kind, &bytes), Err(WadError::UnexpectedRecordSize)));
        }
    }
}

#[test]
fn decode_all_empty_lump() {
    assert_eq!(decode_all(RecordKind::Linedef, &[]).unwrap().len(), 0);
}

#[test]
fn decode_two_vertices_in_order() {
    let bytes = [0u8, 0, 0, 0, 64, 0, 0, 0];
    let records = decode_all(RecordKind::Vertex, &bytes).unwrap();
    assert_eq!(records.len(), 2);
    match (&records[0], &records[1]) {
        (Record::Vertex(a), Record::Vertex(b)) => {
            assert_eq!((a.x, a.y), (0, 0));
            assert_eq!((b.x, b.y), (64, 0));
        }
        _ => panic!("expected vertices"),
    }
}

#[test]
fn decode_negative_coordinates() {
    let bytes = [0xc0u8, 0xff, 0x00, 0x80];
    match decode_record(RecordKind::Vertex, &bytes) {
        Record::Vertex(v) => {
            assert_eq!(v.x, -64);
            assert_eq!(v.y, -32768);
        }
        _ => panic!("expected a vertex"),
    }
}

#[test]
fn decode_linedef_fields() {
    let bytes = [1u8, 0, 2, 0, 0x21, 0, 0x34, 0x12, 7, 0, 5, 0, 0xff, 0xff];
    let l = WadLinedef::decode(&bytes);
    assert_eq!(l.start_vertex, 1);
    assert_eq!(l.end_vertex, 2);
    assert_eq!(l.flags, 0x21);
    assert_eq!(l.special_type, 0x1234);
    assert_eq!(l.sector_tag, 7);
    assert_eq!(l.right_side, 5);
    assert_eq!(l.left_side, -1);
    assert!(l.impassable());
    assert!(l.secret());
    assert!(!l.is_two_sided());
}

#[test]
fn decode_thing_fields() {
    let bytes = [0x10u8, 0x00, 0xf0, 0xff, 0x5a, 0x00, 0x01, 0x00, 0x07, 0x00];
    let t = WadThing::decode(&bytes);
    assert_eq!((t.x, t.y, t.angle, t.thing_type, t.flags), (16, -16, 90, 1, 7));
}

#[test]
fn decode_sector_with_names() {
    let mut bytes = vec![0u8, 0, 0x80, 0];
    bytes.extend_from_slice(b"FLOOR4_8");
    bytes.extend_from_slice(b"CEIL3_5\0");
    bytes.extend_from_slice(&[160, 0, 9, 0, 3, 0]);
    let s = WadSector::decode(&bytes);
    assert_eq!(s.floor_height, 0);
    assert_eq!(s.ceiling_height, 128);
    assert_eq!(&s.floor_texture.bytes, b"FLOOR4_8");
    assert!(s.ceiling_texture.matches(b"ceil3_5"));
    assert_eq!((s.light, s.sector_type, s.tag), (160, 9, 3));
}

#[test]
fn decode_texture_header_u32_fields() {
    let mut bytes = b"BIGDOOR2".to_vec();
    bytes.extend_from_slice(&[1, 0, 0, 0x80, 128, 0, 72, 0, 0x78, 0x56, 0x34, 0x12, 2, 0]);
    let h = WadTextureHeader::decode(&bytes);
    assert!(h.name.matches(b"bigdoor2"));
    assert_eq!(h.masked, 0x8000_0001);
    assert_eq!((h.width, h.height), (128, 72));
    assert_eq!(h.column_directory, 0x1234_5678);
    assert_eq!(h.num_patches, 2);
}

fn linedef_with_flags(flags: u16) -> WadLinedef {
    let mut bytes = [0u8; 14];
    bytes[4] = flags as u8;
    bytes[5] = (flags >> 8) as u8;
    WadLinedef::decode(&bytes)
}

fn all_flags(l: &WadLinedef) -> [bool; 9] {
    [
        l.impassable(),
        l.blocks_monsters(),
        l.is_two_sided(),
        l.upper_unpegged(),
        l.lower_unpegged(),
        l.secret(),
        l.blocks_sound(),
        l.always_shown_on_map(),
        l.never_shown_on_map(),
    ]
}

#[test]
fn impassable_mask_sets_only_impassable() {
    let l = linedef_with_flags(0x0001);
    assert_eq!(all_flags(&l), [true, false, false, false, false, false, false, false, false]);
}

#[test]
fn each_flag_is_one_bit() {
    for bit in 0..9 {
        let l = linedef_with_flags(1 << bit);
        let flags = all_flags(&l);
        for k in 0..9 {
            assert_eq!(flags[k], k == bit);
        }
        let l = linedef_with_flags(!(1u16 << bit));
        let flags = all_flags(&l);
        for k in 0..9 {
            assert_eq!(flags[k], k != bit);
        }
    }
}

#[test]
fn every_mask_matches_single_bit_tests() {
    for mask in 0..=u16::MAX {
        let flags = all_flags(&linedef_with_flags(mask));
        for k in 0..9 {
            assert_eq!(flags[k], mask & (1 << k) != 0);
        }
    }
}

#[test]
fn unknown_bits_are_ignored() {
    assert_eq!(all_flags(&linedef_with_flags(0xfe00)), [false; 9]);
    assert_eq!(all_flags(&linedef_with_flags(0xffff)), [true; 9]);
}
