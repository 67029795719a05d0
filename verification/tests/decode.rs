use bw_assets::error::DecodeError;
use bw_assets::error::RecordKind;
use bw_assets::cv5::CV5Format;
use bw_assets::cv5::parse_cv5s;
use bw_assets::flingy::Flingy;
use bw_assets::flingy::FlingyDatFormat;
use bw_assets::flingy::FlingyPointer;
use bw_assets::flingy::parse_flingy_dat;
use bw_assets::megatile::MegaTile;
use bw_assets::vf4::VF4Format;
use bw_assets::vf4::parse_vf4s;
use bw_assets::vr4::VR4Format;
use bw_assets::vr4::parse_vr4s;
use bw_assets::vx4::VX4Format;
use bw_assets::vx4::parse_vx4s;
use bw_assets::wpe::WPEFormat;
use bw_assets::wpe::parse_wpes;

fn le16_bytes(v: u16) -> [u8; 2] {
    [(v & 0xff) as u8, (v >> 8) as u8]
}

/// A megatile-reference group: 20 header bytes, then 16 little-endian refs.
fn cv5_group(header: u8, refs: [u16; 16]) -> Vec<u8> {
    let mut b = vec![header; 20];
    for r in refs {
        b.extend_from_slice(&le16_bytes(r));
    }
    b
}

/// A 16-word block (image-reference or flag), little-endian.
fn word_block(words: [u16; 16]) -> Vec<u8> {
    let mut b = Vec::new();
    for w in words {
        b.extend_from_slice(&le16_bytes(w));
    }
    b
}

#[test]
fn wpe_whole_records_decode() {
    let b = vec![1, 2, 3, 99, 4, 5, 6, 98];
    let t = parse_wpes(&b).unwrap();
    assert_eq!(t.len(), 2);
    let e = t.entry(0).unwrap();
    assert_eq!((e.r(), e.g(), e.b()), (1, 2, 3));
    assert_eq!(e.rgb(), [1, 2, 3]);
    let e = t.entry(1).unwrap();
    assert_eq!(e.rgb(), [4, 5, 6]);
    assert!(t.entry(2).is_err());
}

#[test]
fn wpe_empty_buffer_decodes_empty() {
    let t = parse_wpes(&Vec::new()).unwrap();
    assert_eq!(t.len(), 0);
}

#[test]
fn wpe_one_byte_short_is_truncated() {
    let b = vec![0; 7];
    assert_eq!(
        parse_wpes(&b).unwrap_err(),
        DecodeError::TruncatedInput { offset: 4, record: RecordKind::PaletteRecord }
    );
}

#[test]
fn wpe_trailing_bytes_fail() {
    for extra in 1..=2 {
        let b = vec![0; 8 + extra];
        assert_eq!(
            parse_wpes(&b).unwrap_err(),
            DecodeError::TrailingData { offset: 8, record: RecordKind::PaletteRecord }
        );
    }
}

#[test]
fn wpe_format_front() {
    let f = WPEFormat;
    assert_eq!(f.name(), "WPEFormat");
    let t = f.import_simple(vec![9, 8, 7, 0]).unwrap();
    assert_eq!(t.entry(0).unwrap().rgb(), [9, 8, 7]);
}

#[test]
fn vr4_whole_blocks_decode() {
    let mut b: Vec<u8> = (0..64).collect();
    b.extend((0..64).map(|i| 100 + i));
    let t = parse_vr4s(&b).unwrap();
    assert_eq!(t.len(), 2);
    let blocks = t.blocks();
    assert_eq!(blocks[0][5].value(), 5);
    assert_eq!(blocks[1][63].value(), 163);
}

#[test]
fn vr4_one_byte_short_is_truncated() {
    let b = vec![0; 2 * 64 - 1];
    assert_eq!(
        parse_vr4s(&b).unwrap_err(),
        DecodeError::TruncatedInput { offset: 64, record: RecordKind::PixelIndexBlock }
    );
}

#[test]
fn vr4_trailing_bytes_fail() {
    let b = vec![0; 64 + 10];
    assert_eq!(
        parse_vr4s(&b).unwrap_err(),
        DecodeError::TrailingData { offset: 64, record: RecordKind::PixelIndexBlock }
    );
}

#[test]
fn vr4_format_front() {
    let f = VR4Format;
    assert_eq!(f.name(), "VR4Format");
    assert_eq!(f.import_simple(vec![7; 64]).unwrap().len(), 1);
}

#[test]
fn vx4_whole_blocks_decode() {
    let mut words = [0u16; 16];
    words[0] = 5;  // flipped, pixel block 2
    words[1] = 4;  // not flipped, pixel block 2
    let b = word_block(words);
    let t = parse_vx4s(&b).unwrap();
    assert_eq!(t.len(), 1);
    let cv5s = parse_cv5s(&cv5_group(0, [0; 16])).unwrap();
    let c = cv5s.index(&MegaTile::new(0, 0)).unwrap();
    let blk = t.index(&c).unwrap();
    assert!(blk[0].is_horizontally_flipped());
    assert_eq!(blk[0].index(), 2);
    assert!(!blk[1].is_horizontally_flipped());
    assert_eq!(blk[1].index(), 2);
}

#[test]
fn vx4_one_byte_short_is_truncated() {
    let b = vec![0; 31];
    assert_eq!(
        parse_vx4s(&b).unwrap_err(),
        DecodeError::TruncatedInput { offset: 0, record: RecordKind::ImageReferenceBlock }
    );
}

#[test]
fn vx4_trailing_bytes_fail() {
    let b = vec![0; 34];
    assert_eq!(
        parse_vx4s(&b).unwrap_err(),
        DecodeError::TrailingData { offset: 32, record: RecordKind::ImageReferenceBlock }
    );
}

#[test]
fn vx4_format_front() {
    let f = VX4Format;
    assert_eq!(f.name(), "VX4Format");
    assert_eq!(f.import_simple(vec![0; 64]).unwrap().len(), 2);
}

#[test]
fn vf4_whole_blocks_decode() {
    let mut words = [0u16; 16];
    words[0] = 0x0001;
    words[1] = 0x0006;
    let b = word_block(words);
    let t = parse_vf4s(&b).unwrap();
    assert_eq!(t.len(), 1);
}

#[test]
fn vf4_one_byte_short_is_truncated() {
    let b = vec![0; 63];
    assert_eq!(
        parse_vf4s(&b).unwrap_err(),
        DecodeError::TruncatedInput { offset: 32, record: RecordKind::FlagBlock }
    );
}

#[test]
fn vf4_trailing_bytes_fail() {
    let b = vec![0; 33];
    assert_eq!(
        parse_vf4s(&b).unwrap_err(),
        DecodeError::TrailingData { offset: 32, record: RecordKind::FlagBlock }
    );
}

#[test]
fn vf4_format_front() {
    let f = VF4Format;
    assert_eq!(f.name(), "VF4Format");
    assert_eq!(f.import_simple(vec![0; 32]).unwrap().len(), 1);
}

#[test]
fn cv5_whole_groups_decode() {
    let mut refs = [0u16; 16];
    refs[0] = 5;
    refs[15] = 0x0102;
    let b = cv5_group(0xAB, refs);
    let t = parse_cv5s(&b).unwrap();
    assert_eq!(t.len(), 1);
    assert_eq!(t.index(&MegaTile::new(0, 0)).unwrap().value(), 5);
    assert_eq!(t.index(&MegaTile::new(0, 15)).unwrap().value(), 0x0102);
    assert!(t.index(&MegaTile::new(1, 0)).is_err());
}

#[test]
fn cv5_header_bytes_are_skipped() {
    let refs = [3u16; 16];
    let a = parse_cv5s(&cv5_group(0x00, refs)).unwrap();
    let b = parse_cv5s(&cv5_group(0xFF, refs)).unwrap();
    for s in 0..16 {
        let m = MegaTile::new(0, s);
        assert_eq!(a.index(&m).unwrap().value(), b.index(&m).unwrap().value());
    }
}

#[test]
fn cv5_one_byte_short_is_truncated() {
    let b = vec![0; 2 * 52 - 1];
    assert_eq!(
        parse_cv5s(&b).unwrap_err(),
        DecodeError::TruncatedInput { offset: 52, record: RecordKind::MegatileGroup }
    );
}

#[test]
fn cv5_trailing_bytes_fail() {
    let b = vec![0; 52 + 20];
    assert_eq!(
        parse_cv5s(&b).unwrap_err(),
        DecodeError::TrailingData { offset: 52, record: RecordKind::MegatileGroup }
    );
}

#[test]
fn cv5_format_front() {
    let f = CV5Format;
    assert_eq!(f.name(), "CV5Format");
    assert_eq!(f.import_simple(vec![0; 104]).unwrap().len(), 2);
}

#[test]
fn flingy_dat_decodes_columns() {
    let mut b = vec![0u8; 3135];
    // row 0: sprite 0x0102
    b[0] = 0x02;
    b[1] = 0x01;
    // row 3: top_speed 0x0A0B0C0D at 418 + 4 * 3
    b[430] = 0x0D;
    b[431] = 0x0C;
    b[432] = 0x0B;
    b[433] = 0x0A;
    // row 208: acceleration 0xBEEF at 1254 + 2 * 208
    b[1670] = 0xEF;
    b[1671] = 0xBE;
    // row 1: halt_distance 0x00000400 at 1672 + 4 * 1
    b[1677] = 0x04;
    // row 5: turn_radius at 2508 + 5
    b[2513] = 40;
    // unknown column must not leak into any row
    for i in 0..209 {
        b[2717 + i] = 0x77;
    }
    // row 5: move_control at 2926 + 5
    b[2931] = 9;
    let t = parse_flingy_dat(&b).unwrap();
    assert_eq!(t.len(), 209);
    assert_eq!(t.get(0).unwrap().sprite, 0x0102);
    assert_eq!(t.get(3).unwrap().top_speed, 0x0A0B0C0D);
    assert_eq!(t.get(208).unwrap().acceleration, 0xBEEF);
    assert_eq!(t.get(1).unwrap().halt_distance, 0x00000400);
    let row5 = t.get(5).unwrap();
    assert_eq!(row5.turn_radius, 40);
    assert_eq!(row5.move_control, 9);
    assert_eq!(
        t.get(4).unwrap(),
        Flingy {
            sprite: 0,
            top_speed: 0,
            acceleration: 0,
            halt_distance: 0,
            turn_radius: 0,
            move_control: 0,
        }
    );
    assert!(t.get(209).is_none());
}

#[test]
fn flingy_dat_short_buffer_is_truncated() {
    // 417 bytes: mid-way through the sprite column, one byte into an element
    let b = vec![0u8; 417];
    assert_eq!(
        parse_flingy_dat(&b).unwrap_err(),
        DecodeError::TruncatedInput { offset: 416, record: RecordKind::StatsColumnElement }
    );
    // cut inside the top_speed column
    let b = vec![0u8; 421];
    assert_eq!(
        parse_flingy_dat(&b).unwrap_err(),
        DecodeError::TruncatedInput { offset: 418, record: RecordKind::StatsColumnElement }
    );
    // cut inside a byte column: every byte is whole, the column is not
    let b = vec![0u8; 2600];
    assert_eq!(
        parse_flingy_dat(&b).unwrap_err(),
        DecodeError::TruncatedInput { offset: 2600, record: RecordKind::StatsColumnElement }
    );
}

#[test]
fn flingy_dat_long_buffer_has_trailing_data() {
    let b = vec![0u8; 3136];
    assert_eq!(
        parse_flingy_dat(&b).unwrap_err(),
        DecodeError::TrailingData { offset: 3135, record: RecordKind::StatsColumnElement }
    );
}

#[test]
fn flingy_dat_asset_is_taken_once() {
    let f = FlingyDatFormat;
    assert_eq!(f.name(), "FlingyDatFormat");
    let mut asset = f.import_simple(vec![0u8; 3135]).unwrap();
    let first = asset.take();
    assert!(first.is_some());
    assert_eq!(first.unwrap().len(), 209);
    assert!(asset.take().is_none());
}

#[test]
fn flingy_pointer_wraps_value() {
    let p = FlingyPointer::new(77);
    let q = p.clone();
    let _ = q;
}
