use std::borrow::Cow;
use vbsp::bspfile::{BSP_VERSION, PREAMBLE_LEN};
use vbsp::static_prop::{STATIC_PROP_ID, STATIC_PROP_V10_LEN, STATIC_PROP_V6_LEN};
use vbsp::{
    LumpReader, lzma_decompress_with_header, BspError, BspFile, GameLump, GameLumpFlags, GameLumpHeader,
    GameLumpType, LumpType, PropStaticGameLump, SolidType, StaticPropLump, StringError,
};

fn put_u32(out: &mut Vec<u8>, v: u32) {
    out.extend_from_slice(&v.to_le_bytes());
}

fn put_i32(out: &mut Vec<u8>, v: i32) {
    out.extend_from_slice(&v.to_le_bytes());
}

fn put_u16(out: &mut Vec<u8>, v: u16) {
    out.extend_from_slice(&v.to_le_bytes());
}

fn put_f32(out: &mut Vec<u8>, v: f32) {
    out.extend_from_slice(&v.to_le_bytes());
}

/// A file whose directory gives `lump` the range `[offset, offset+length)`
/// and the compression field `ident`, followed by `payload`.
fn bsp_with(lump: LumpType, offset: u32, length: u32, ident: u32, payload: &[u8]) -> Vec<u8> {
    let mut out = b"VBSP".to_vec();
    put_u32(&mut out, BSP_VERSION);
    for i in 0..64 {
        if i == lump.index() {
            put_u32(&mut out, offset);
            put_u32(&mut out, length);
            put_u32(&mut out, ident);
            put_u32(&mut out, 1);
        } else {
            for _ in 0..4 {
                put_u32(&mut out, 0);
            }
        }
    }
    out.extend_from_slice(payload);
    out
}

/// A compressed frame holding `plain`.
fn frame(plain: &[u8]) -> Vec<u8> {
    let mut standard = Vec::new();
    lzma_rs::lzma_compress(&mut &plain[..], &mut standard).unwrap();
    let props = &standard[0..5];
    let body = &standard[13..];
    let mut out = b"LZMA".to_vec();
    put_u32(&mut out, plain.len() as u32);
    put_u32(&mut out, body.len() as u32);
    out.extend_from_slice(props);
    out.extend_from_slice(body);
    out
}

/// The fields that a version-6 and an extended record share, in their byte
/// layout (bytes 0..30), then the solid byte.
fn shared_head(out: &mut Vec<u8>, solid: u8) {
    put_f32(out, 1.0);
    put_f32(out, 2.0);
    put_f32(out, 3.0);
    put_f32(out, 0.0);
    put_f32(out, 90.0);
    put_f32(out, 0.0);
    put_u16(out, 5);
    put_u16(out, 7);
    put_u16(out, 2);
    out.push(solid);
}

/// Bytes 32..64 of both layouts.
fn shared_tail(out: &mut Vec<u8>) {
    put_i32(out, 3);
    put_f32(out, 100.0);
    put_f32(out, 200.0);
    put_f32(out, 4.0);
    put_f32(out, 5.0);
    put_f32(out, 6.0);
    put_f32(out, 1.5);
    put_u16(out, 80);
    put_u16(out, 95);
}

fn prop_v6(flags: u8) -> Vec<u8> {
    let mut out = Vec::new();
    shared_head(&mut out, 6);
    out.push(flags);
    shared_tail(&mut out);
    out
}

fn prop_v10(flags: u32) -> Vec<u8> {
    let mut out = Vec::new();
    shared_head(&mut out, 6);
    out.push(0xee);
    shared_tail(&mut out);
    put_u32(&mut out, flags);
    put_u16(&mut out, 16);
    put_u16(&mut out, 32);
    out
}

fn game_lump_entry(out: &mut Vec<u8>, id: i32, flags: u16, version: u16, offset: i32, length: i32) {
    put_i32(out, id);
    put_u16(out, flags);
    put_u16(out, version);
    put_i32(out, offset);
    put_i32(out, length);
}

#[test]
fn test_static_prop_lump_v6_bytes() {
    let bytes = prop_v6(0);
    assert_eq!(bytes.len(), STATIC_PROP_V6_LEN);
    assert!(StaticPropLump::read_options(&bytes, 0, 6).is_ok());
    assert!(matches!(
        StaticPropLump::read_options(&bytes[..STATIC_PROP_V6_LEN - 1], 0, 6),
        Err(BspError::MalformedData)
    ));
}

#[test]
fn test_static_prop_lump_bytes() {
    let bytes = prop_v10(0);
    assert_eq!(bytes.len(), STATIC_PROP_V10_LEN);
    for version in [7, 9, 10] {
        assert!(StaticPropLump::read_options(&bytes, 0, version).is_ok());
        assert!(matches!(
            StaticPropLump::read_options(&bytes[..STATIC_PROP_V10_LEN - 1], 0, version),
            Err(BspError::MalformedData)
        ));
    }
}

#[test]
fn header_accepts_supported_magic_and_version() {
    let data = bsp_with(LumpType::Planes, 0, 0, 0, &[]);
    let file = BspFile::new(&data).unwrap();
    let h = file.header();
    assert_eq!((h.v, h.b, h.s, h.p), (b'V', b'B', b'S', b'P'));
}

#[test]
fn header_rejects_other_magic_or_version() {
    let mut data = bsp_with(LumpType::Planes, 0, 0, 0, &[]);
    data[0] = b'X';
    match BspFile::new(&data) {
        Err(BspError::UnexpectedHeader(h)) => assert_eq!(h.v, b'X'),
        _ => panic!("expected a header mismatch"),
    }
    let mut data = bsp_with(LumpType::Planes, 0, 0, 0, &[]);
    data[4] = 19;
    assert!(matches!(BspFile::new(&data), Err(BspError::UnexpectedHeader(_))));
}

#[test]
fn header_short_inputs_are_malformed() {
    assert!(matches!(BspFile::new(b"VBS"), Err(BspError::MalformedData)));
    let data = bsp_with(LumpType::Planes, 0, 0, 0, &[]);
    assert!(matches!(BspFile::new(&data[..PREAMBLE_LEN - 1]), Err(BspError::MalformedData)));
}

#[test]
fn lump_kinds_cover_the_directory() {
    let mut seen = [false; 64];
    for i in 0..64 {
        let kind = LumpType::from_index(i).unwrap();
        assert_eq!(kind.index(), i);
        seen[i] = true;
    }
    assert!(seen.iter().all(|s| *s));
    assert!(LumpType::from_index(64).is_none());
    assert_eq!(LumpType::GameLump.index(), 35);
    assert_eq!(LumpType::DisplacementMultiBlend.index(), 63);
}

#[test]
fn uncompressed_lump_is_borrowed_slice() {
    let payload = [1u8, 2, 3, 4, 5, 6];
    let data = bsp_with(LumpType::Entities, PREAMBLE_LEN as u32 + 1, 4, 0, &payload);
    let file = BspFile::new(&data).unwrap();
    match file.get_lump(LumpType::Entities).unwrap() {
        Cow::Borrowed(b) => assert_eq!(b, &[2u8, 3, 4, 5][..]),
        Cow::Owned(_) => panic!("expected a borrowed slice"),
    }
}

#[test]
fn out_of_bounds_lump_fails() {
    let data = bsp_with(LumpType::Vertices, PREAMBLE_LEN as u32, 10, 0, &[0u8; 9]);
    let file = BspFile::new(&data).unwrap();
    match file.get_lump(LumpType::Vertices) {
        Err(BspError::LumpOutOfBounds(e)) => assert_eq!((e.offset, e.length), (PREAMBLE_LEN as u32, 10)),
        _ => panic!("expected out of bounds"),
    }
    let data = bsp_with(LumpType::Vertices, u32::MAX, u32::MAX, 0, &[]);
    let file = BspFile::new(&data).unwrap();
    assert!(matches!(file.get_lump(LumpType::Vertices), Err(BspError::LumpOutOfBounds(_))));
}

#[test]
fn compressed_lump_is_decompressed() {
    let plain: Vec<u8> = (0..200u32).map(|i| (i % 7) as u8).collect();
    let f = frame(&plain);
    let data = bsp_with(LumpType::Planes, PREAMBLE_LEN as u32, f.len() as u32, 200, &f);
    let file = BspFile::new(&data).unwrap();
    match file.get_lump(LumpType::Planes).unwrap() {
        Cow::Owned(v) => assert_eq!(v, plain),
        Cow::Borrowed(_) => panic!("expected an owned buffer"),
    }
}

#[test]
fn decompress_returns_exactly_expected_length() {
    let plain = b"hello hello hello hello".to_vec();
    let f = frame(&plain);
    let out = lzma_decompress_with_header(&f, plain.len() as u64).unwrap();
    assert_eq!(out, plain);
}

#[test]
fn decompress_rejects_wrong_uncompressed_size() {
    let plain = b"abcabcabc".to_vec();
    let f = frame(&plain);
    match lzma_decompress_with_header(&f, 10) {
        Err(BspError::UnexpectedUncompressedLumpSize { got, expected }) => assert_eq!((got, expected), (9, 10)),
        _ => panic!("expected a size mismatch"),
    }
}

#[test]
fn decompress_rejects_short_payload() {
    let plain = b"abcabcabc".to_vec();
    let f = frame(&plain);
    let declared = (f.len() - 17) as u32;
    match lzma_decompress_with_header(&f[..f.len() - 1], 9) {
        Err(BspError::UnexpectedCompressedLumpSize { got, expected }) => {
            assert_eq!((got, expected), (declared as u64 - 1, declared))
        }
        _ => panic!("expected a compressed size mismatch"),
    }
}

#[test]
fn decompress_rejects_trailing_payload() {
    let plain = b"abcabcabc".to_vec();
    let mut f = frame(&plain);
    let declared = (f.len() - 17) as u32;
    f.push(0);
    match lzma_decompress_with_header(&f, 9) {
        Err(BspError::UnexpectedCompressedLumpSize { got, expected }) => {
            assert_eq!((got, expected), (declared as u64 + 1, declared))
        }
        _ => panic!("expected a compressed size mismatch"),
    }
}

#[test]
fn decompress_rejects_bad_envelope() {
    assert!(matches!(lzma_decompress_with_header(b"LZMA", 0), Err(BspError::MalformedData)));
    let mut f = frame(b"abc");
    f[0] = b'X';
    assert!(matches!(lzma_decompress_with_header(&f, 3), Err(BspError::MalformedData)));
}

#[test]
fn decompress_reports_codec_failure() {
    let mut f = b"LZMA".to_vec();
    put_u32(&mut f, 4);
    put_u32(&mut f, 5);
    f.extend_from_slice(&[255, 0, 0, 1, 0]);
    f.extend_from_slice(&[1, 2, 3, 4, 5]);
    assert!(matches!(
        lzma_decompress_with_header(&f, 4),
        Err(BspError::LumpDecompressError(_)) | Err(BspError::IO(_))
    ));
}

#[test]
fn game_lump_directory_reads_entries() {
    let mut data = Vec::new();
    put_i32(&mut data, 2);
    game_lump_entry(&mut data, STATIC_PROP_ID, 0, 10, 100, 20);
    game_lump_entry(&mut data, 0x64707270, 1, 4, 120, 30);
    let header = GameLumpHeader::read(&data).unwrap();
    assert_eq!(header.count, 2);
    assert_eq!(header.lumps[0].id, i32::from_be_bytes(*b"sprp"));
    assert_eq!((header.lumps[1].flags.bits, header.lumps[1].version), (1, 4));
    assert_eq!((header.lumps[1].offset, header.lumps[1].length), (120, 30));
    data.truncate(data.len() - 1);
    assert!(matches!(GameLumpHeader::read(&data), Err(BspError::MalformedData)));
}

fn lump(offset: i32, length: i32, flags: u16) -> GameLump {
    GameLump { id: STATIC_PROP_ID, flags: GameLumpFlags { bits: flags }, version: 10, offset, length }
}

#[test]
fn compressed_game_lump_uses_gap_to_next_entry() {
    let plain = b"static static static static".to_vec();
    let f = frame(&plain);
    let c = f.len() as i32;
    let d = 5;
    let mut source = vec![0xaau8; 100];
    source.extend_from_slice(&f);
    source.extend_from_slice(&[0u8; 5]);
    source.extend_from_slice(&[0u8; 3]);
    let lumps = vec![
        lump(100, plain.len() as i32, 1),
        lump(100 + c, d, 0),
        lump(100 + c + d, 3, 0),
    ];
    let header = GameLumpHeader { count: 3, lumps: lumps.clone() };
    let out = header.get_game_lump_data(0, &lumps[0], &source).unwrap();
    let mut expected = plain.clone();
    expected.extend_from_slice(&[0u8; 8]);
    assert_eq!(&out[..], &expected[..]);
    assert!(matches!(out, Cow::Owned(_)));

    // the same entry one byte longer than its frame: the gap still bounds it
    let lumps2 = vec![lump(100, plain.len() as i32, 1), lump(99 + c, d, 0)];
    let header2 = GameLumpHeader { count: 2, lumps: lumps2.clone() };
    assert!(matches!(
        header2.get_game_lump_data(0, &lumps2[0], &source),
        Err(BspError::UnexpectedCompressedLumpSize { .. })
    ));
}

#[test]
fn compressed_last_game_lump_is_out_of_bounds() {
    let lumps = vec![lump(0, 4, 0), lump(4, 10, 1)];
    let header = GameLumpHeader { count: 2, lumps: lumps.clone() };
    assert!(matches!(
        header.get_game_lump_data(1, &lumps[1], &[0u8; 64]),
        Err(BspError::GameLumpOutOfBounds(_))
    ));
}

#[test]
fn uncompressed_game_lump_is_borrowed_without_padding() {
    let source: Vec<u8> = (0..20u8).collect();
    let lumps = vec![lump(4, 6, 0)];
    let header = GameLumpHeader { count: 1, lumps: lumps.clone() };
    match header.get_game_lump_data(0, &lumps[0], &source).unwrap() {
        Cow::Borrowed(b) => assert_eq!(b, &[4u8, 5, 6, 7, 8, 9][..]),
        Cow::Owned(_) => panic!("expected a borrowed slice"),
    }
    assert!(matches!(
        header.get_game_lump_data(0, &lump(15, 6, 0), &source),
        Err(BspError::GameLumpOutOfBounds(_))
    ));
    assert!(matches!(
        header.get_game_lump_data(0, &lump(-1, 6, 0), &source),
        Err(BspError::GameLumpOutOfBounds(_))
    ));
}

#[test]
fn v6_and_v10_normalize_to_same_shared_fields() {
    let a = StaticPropLump::read_options(&prop_v6(0x85), 0, 6).unwrap();
    let b = StaticPropLump::read_options(&prop_v10(0x105), 0, 10).unwrap();
    assert_eq!(a.origin, b.origin);
    assert_eq!(a.origin.x, 1.0f32.to_bits());
    assert_eq!(a.angles, b.angles);
    assert_eq!(a.angles[1], 90.0f32.to_bits());
    assert_eq!((a.prop_type, a.first_leaf, a.leaf_count), (5, 7, 2));
    assert_eq!((b.prop_type, b.first_leaf, b.leaf_count), (5, 7, 2));
    assert_eq!(a.solid, SolidType::Physics);
    assert_eq!(a.solid, b.solid);
    assert_eq!((a.skin, b.skin), (3, 3));
    assert_eq!(a.fade_min_distance, 100.0f32.to_bits());
    assert_eq!(a.fade_max_distance, b.fade_max_distance);
    assert_eq!(a.lighting_origin, b.lighting_origin);
    assert_eq!(a.forced_fade_scale, 1.5f32.to_bits());
    assert_eq!((a.min_dx_level, a.max_dx_level), (80, 95));
    assert_eq!(a.lightmap_resolution, [0, 0]);
    assert_eq!(b.lightmap_resolution, [16, 32]);
    assert_eq!(a.flags.bits, 0x85);
    assert!(a.flags.contains(0x80));
    assert_eq!(b.flags.bits(), 0x105);
}

#[test]
fn unsupported_static_prop_version() {
    match StaticPropLump::read_options(&prop_v10(0), 0, 99) {
        Err(BspError::LumpVersion(e)) => {
            assert_eq!(e.lump_type, "static props");
            assert_eq!(e.version, 99);
        }
        _ => panic!("expected an unsupported version"),
    }
}

#[test]
fn invalid_solid_type_is_malformed() {
    let mut bytes = prop_v6(0);
    bytes[30] = 8;
    assert!(matches!(StaticPropLump::read_options(&bytes, 0, 6), Err(BspError::MalformedData)));
}

fn name_field(name: &[u8]) -> Vec<u8> {
    let mut out = name.to_vec();
    out.resize(128, 0);
    out
}

fn static_prop_lump_bytes() -> Vec<u8> {
    let mut out = Vec::new();
    put_i32(&mut out, 2);
    out.extend_from_slice(&name_field(b"models/a.mdl"));
    out.extend_from_slice(&name_field(b"models/b.mdl"));
    put_i32(&mut out, 3);
    put_u16(&mut out, 10);
    put_u16(&mut out, 11);
    put_u16(&mut out, 12);
    put_i32(&mut out, 2);
    out.extend_from_slice(&prop_v10(1));
    out.extend_from_slice(&prop_v10(2));
    out
}

#[test]
fn find_reads_static_prop_lump() {
    let payload = static_prop_lump_bytes();
    let mut source = vec![0u8; 40];
    source.extend_from_slice(&payload);
    let header = GameLumpHeader {
        count: 2,
        lumps: vec![
            GameLump { id: 0x64707270, flags: GameLumpFlags { bits: 0 }, version: 4, offset: 0, length: 40 },
            GameLump {
                id: STATIC_PROP_ID,
                flags: GameLumpFlags { bits: 0 },
                version: 10,
                offset: 40,
                length: payload.len() as i32,
            },
        ],
    };
    assert_eq!(PropStaticGameLump::id(), STATIC_PROP_ID);
    let lump: PropStaticGameLump = header.find(&source).unwrap().unwrap();
    assert_eq!(lump.dict.entries, 2);
    assert_eq!(lump.dict.name[0].as_str(), "models/a.mdl");
    assert_eq!(lump.dict.name[1].value, "models/b.mdl");
    assert_eq!(lump.leaf.leaves, vec![10, 11, 12]);
    assert_eq!(lump.props.entries, 2);
    assert_eq!(lump.props.props[1].flags.bits, 2);
}

#[test]
fn find_without_entry_is_none() {
    let header = GameLumpHeader { count: 0, lumps: vec![] };
    assert!(header.find::<PropStaticGameLump>(&[]).is_none());
}

#[test]
fn dictionary_name_without_terminator_fails() {
    let mut out = Vec::new();
    put_i32(&mut out, 1);
    out.extend_from_slice(&[b'a'; 128]);
    assert!(matches!(
        PropStaticGameLump::read(&out, 10),
        Err(BspError::String(StringError::NotNullTerminated))
    ));
    let mut out = Vec::new();
    put_i32(&mut out, 1);
    out.extend_from_slice(&name_field(&[0xff, 0xfe]));
    assert!(matches!(PropStaticGameLump::read(&out, 10), Err(BspError::String(StringError::NonUTF8(_)))));
}

#[test]
fn static_prop_lump_with_truncated_records_fails() {
    let payload = static_prop_lump_bytes();
    assert!(matches!(
        PropStaticGameLump::read(&payload[..payload.len() - 1], 10),
        Err(BspError::MalformedData)
    ));
    let mut empty = Vec::new();
    put_i32(&mut empty, 0);
    put_i32(&mut empty, 0);
    put_i32(&mut empty, 0);
    let lump = PropStaticGameLump::read(&empty, 99).unwrap();
    assert!(lump.props.props.is_empty());
}

#[test]
fn lump_reader_carries_bytes_and_kind() {
    let payload = [9u8, 8, 7];
    let data = bsp_with(LumpType::PakFile, PREAMBLE_LEN as u32, 3, 0, &payload);
    let file = BspFile::new(&data).unwrap();
    let reader: LumpReader = file.lump_reader(LumpType::PakFile).unwrap();
    assert_eq!(reader.data(), &payload[..]);
    assert_eq!(reader.lump(), LumpType::PakFile);
    assert!(matches!(file.lump_reader(LumpType::Faces), Ok(r) if r.data().is_empty()));
    let data = bsp_with(LumpType::PakFile, PREAMBLE_LEN as u32, 4, 0, &payload);
    let file = BspFile::new(&data).unwrap();
    assert!(matches!(file.lump_reader(LumpType::PakFile), Err(BspError::LumpOutOfBounds(_))));
}

fn sprp_entry(version: u16, length: i32) -> GameLumpHeader {
    GameLumpHeader {
        count: 1,
        lumps: vec![GameLump { id: STATIC_PROP_ID, flags: GameLumpFlags { bits: 0 }, version, offset: 0, length }],
    }
}

#[test]
fn find_reports_unsupported_record_version() {
    let data = [&0i32.to_le_bytes()[..], &0i32.to_le_bytes(), &1i32.to_le_bytes(), &[0u8; 72]].concat();
    let header = sprp_entry(99, 84);
    match header.find::<PropStaticGameLump>(&data) {
        Some(Err(BspError::LumpVersion(e))) => {
            assert_eq!(e.lump_type, "static props");
            assert_eq!(e.version, 99);
        }
        _ => panic!("expected an unsupported version"),
    }
}

#[test]
fn find_reads_empty_static_prop_lump() {
    assert_eq!(STATIC_PROP_ID, i32::from_be_bytes(*b"sprp"));
    let header = sprp_entry(10, 12);
    let p = header.find::<PropStaticGameLump>(&[0u8; 12]).unwrap().unwrap();
    assert_eq!((p.dict.entries, p.leaf.entries, p.props.entries), (0, 0, 0));
    assert!(p.dict.name.is_empty() && p.leaf.leaves.is_empty() && p.props.props.is_empty());
}

#[test]
fn find_on_truncated_static_prop_lump_is_malformed() {
    let header = sprp_entry(10, 8);
    assert!(matches!(header.find::<PropStaticGameLump>(&[0u8; 8]), Some(Err(BspError::MalformedData))));
    let mut data = [0u8; 12];
    data[8] = 1;
    let header = sprp_entry(10, 12);
    assert!(matches!(header.find::<PropStaticGameLump>(&data), Some(Err(BspError::MalformedData))));
}

#[test]
fn compressed_game_lump_with_slack_before_next_entry_fails() {
    let plain = b"static static static static".to_vec();
    let f = frame(&plain);
    let c = f.len() as i32;
    let mut source = f.clone();
    source.extend_from_slice(&[0u8; 16]);
    let lumps = vec![lump(0, plain.len() as i32, 1), lump(c + 1, 4, 0)];
    let header = GameLumpHeader { count: 2, lumps: lumps.clone() };
    assert!(matches!(
        header.get_game_lump_data(0, &lumps[0], &source),
        Err(BspError::UnexpectedCompressedLumpSize { .. })
    ));
}
