use wad::archive::Archive;
use wad::decode::Record;
use wad::error::WadError;
use wad::schema::RecordKind;

fn put_i32(out: &mut Vec<u8>, v: i32) {
    out.extend_from_slice(&v.to_le_bytes());
}

fn name8(name: &str) -> [u8; 8] {
    let mut b = [0u8; 8];
    b[..name.len()].copy_from_slice(name.as_bytes());
    b
}

/// An archive with the given lumps, their data first and the directory last.
fn build(magic: &[u8; 4], lumps: &[(&str, Vec<u8>)]) -> Vec<u8> {
    let mut data = Vec::new();
    let mut entries = Vec::new();
    let mut pos = 12i32;
    for (name, bytes) in lumps {
        entries.push((pos, bytes.len() as i32, name8(name)));
        data.extend_from_slice(bytes);
        pos += bytes.len() as i32;
    }
    let mut out = magic.to_vec();
    put_i32(&mut out, lumps.len() as i32);
    put_i32(&mut out, pos);
    out.extend_from_slice(&data);
    for (p, s, n) in entries {
        put_i32(&mut out, p);
        put_i32(&mut out, s);
        out.extend_from_slice(&n);
    }
    out
}

fn level_archive() -> Vec<u8> {
    build(
        b"IWAD",
        &[
            ("PLAYPAL", vec![1, 2, 3]),
            ("E1M1", vec![]),
            ("THINGS", vec![0; 10]),
            ("VERTEXES", vec![0, 0, 0, 0, 64, 0, 0, 0]),
            ("E1M2", vec![]),
            ("VERTEXES", vec![1, 0, 2, 0]),
        ],
    )
}

#[test]
fn open_reads_directory() {
    let a = Archive::open(level_archive(), b"meta".to_vec()).unwrap();
    assert_eq!(a.num_lumps(), 6);
    assert_eq!(a.info().num_lumps, 6);
    assert_eq!(&a.info().identifier, b"IWAD");
    assert!(a.lump(0).name.matches(b"PLAYPAL"));
    assert_eq!(a.lump(0).file_pos, 12);
    assert_eq!(a.lump(0).size, 3);
    assert_eq!(a.read_lump(0).unwrap(), vec![1, 2, 3]);
    assert_eq!(a.metadata(), b"meta");
}

#[test]
fn open_accepts_pwad() {
    let a = Archive::open(build(b"PWAD", &[("MAP01", vec![])]), vec![]).unwrap();
    assert_eq!(a.num_lumps(), 1);
}

#[test]
fn open_rejects_bad_magic() {
    let bytes = build(b"JWAD", &[("E1M1", vec![])]);
    assert!(matches!(Archive::open(bytes, vec![]), Err(WadError::MalformedHeader)));
    let bytes = build(b"iwad", &[]);
    assert!(matches!(Archive::open(bytes, vec![]), Err(WadError::MalformedHeader)));
    assert!(matches!(Archive::open(b"JWAD\0".to_vec(), vec![]), Err(WadError::MalformedHeader)));
}

#[test]
fn open_rejects_short_source() {
    assert!(matches!(Archive::open(b"IWAD\0\0\0".to_vec(), vec![]), Err(WadError::IoError)));
    assert!(matches!(Archive::open(vec![], vec![]), Err(WadError::IoError)));
    assert!(matches!(Archive::open(b"JW".to_vec(), vec![]), Err(WadError::IoError)));
}

#[test]
fn open_rejects_directory_out_of_bounds() {
    let mut bytes = build(b"IWAD", &[("E1M1", vec![])]);
    bytes.truncate(bytes.len() - 1);
    assert!(matches!(Archive::open(bytes, vec![]), Err(WadError::OutOfBounds)));
    let mut bytes = b"PWAD".to_vec();
    put_i32(&mut bytes, -1);
    put_i32(&mut bytes, 12);
    assert!(matches!(Archive::open(bytes, vec![]), Err(WadError::OutOfBounds)));
    let mut bytes = b"PWAD".to_vec();
    put_i32(&mut bytes, 0);
    put_i32(&mut bytes, -4);
    assert!(matches!(Archive::open(bytes, vec![]), Err(WadError::OutOfBounds)));
}

#[test]
fn lookup_is_case_insensitive() {
    let a = Archive::open(level_archive(), vec![]).unwrap();
    let l = a.lookup(b"e1m1").unwrap();
    assert!(l.name.matches(b"E1M1"));
    assert_eq!(a.find_lump(b"e1m1").unwrap(), 1);
    assert_eq!(a.find_lump(b"Playpal").unwrap(), 0);
}

#[test]
fn lookup_finds_first_of_equal_names() {
    let a = Archive::open(level_archive(), vec![]).unwrap();
    assert_eq!(a.find_lump(b"VERTEXES").unwrap(), 3);
    assert_eq!(a.lookup(b"vertexes").unwrap().size, 8);
}

#[test]
fn lookup_missing_name() {
    let a = Archive::open(level_archive(), vec![]).unwrap();
    assert!(matches!(a.lookup(b"E1M9"), Err(WadError::NotFound)));
    assert!(matches!(a.find_lump(b"PLAYPALX"), Err(WadError::NotFound)));
}

#[test]
fn lumps_between_level_markers() {
    let a = Archive::open(level_archive(), vec![]).unwrap();
    let lumps = a.lumps_between(b"E1M1", b"E1M2").unwrap();
    assert_eq!(lumps.len(), 2);
    assert!(lumps[0].name.matches(b"THINGS"));
    assert!(lumps[1].name.matches(b"VERTEXES"));
}

#[test]
fn lumps_between_runs_to_end_of_directory() {
    let a = Archive::open(level_archive(), vec![]).unwrap();
    let lumps = a.lumps_between(b"e1m2", b"E1M3").unwrap();
    assert_eq!(lumps.len(), 1);
    assert_eq!(lumps[0].size, 4);
    assert!(matches!(a.lumps_between(b"E2M1", b"E2M2"), Err(WadError::NotFound)));
}

#[test]
fn read_lump_out_of_bounds() {
    let mut bytes = level_archive();
    let dir = bytes.len() - 16 * 6;
    bytes[dir + 4] = 0xff;
    let a = Archive::open(bytes, vec![]).unwrap();
    assert!(matches!(a.read_lump(0), Err(WadError::OutOfBounds)));
    assert_eq!(a.read_lump(2).unwrap(), vec![0; 10]);
}

#[test]
fn decode_lump_by_name() {
    let a = Archive::open(level_archive(), vec![]).unwrap();
    let v = a.decode_lump(b"vertexes", RecordKind::Vertex).unwrap();
    assert_eq!(v.len(), 2);
    match v[1] {
        Record::Vertex(x) => assert_eq!((x.x, x.y), (64, 0)),
        _ => panic!("expected a vertex"),
    }
    assert!(matches!(
        a.decode_lump(b"PLAYPAL", RecordKind::Vertex),
        Err(WadError::UnexpectedRecordSize)
    ));
    assert!(matches!(a.decode_lump(b"E3M1", RecordKind::Vertex), Err(WadError::NotFound)));
}
