use citrine::loader::threedsx::{check_magic, load, parse_header};
use citrine::loader::{detect_format, RomFormat};
use citrine::memory::Memory;

fn make_3dsx(code: &[u8], rodata: &[u8], ds: &[u8], bss: u32) -> Vec<u8> {
    let mut out = Vec::new();
    out.extend_from_slice(&[0x33, 0x44, 0x53, 0x58]);
    out.extend_from_slice(&32u16.to_le_bytes());
    out.extend_from_slice(&8u16.to_le_bytes());
    out.extend_from_slice(&0u32.to_le_bytes());
    out.extend_from_slice(&0u32.to_le_bytes());
    out.extend_from_slice(&(code.len() as u32).to_le_bytes());
    out.extend_from_slice(&(rodata.len() as u32).to_le_bytes());
    out.extend_from_slice(&((ds.len() as u32) + bss).to_le_bytes());
    out.extend_from_slice(&bss.to_le_bytes());
    for _ in 0..3 {
        out.extend_from_slice(&0u32.to_le_bytes());
        out.extend_from_slice(&0u32.to_le_bytes());
    }
    out.extend_from_slice(code);
    out.extend_from_slice(rodata);
    out.extend_from_slice(ds);
    out
}

#[test]
fn detect_3dsx_magic() {
    let mut data = vec![0u8; 64];
    data[0] = 0x33;
    data[1] = 0x44;
    data[2] = 0x53;
    data[3] = 0x58;
    match detect_format(&data) {
        RomFormat::ThreeDSX => {}
        _ => panic!("expected ThreeDSX"),
    }
}

#[test]
fn detect_unknown() {
    let data = vec![0u8; 64];
    match detect_format(&data) {
        RomFormat::Unknown => {}
        _ => panic!("expected Unknown"),
    }
}

#[test]
fn check_magic_valid() {
    let data = [0x33, 0x44, 0x53, 0x58, 0, 0, 0, 0];
    assert!(check_magic(&data));
}

#[test]
fn check_magic_invalid() {
    let data = [0x00, 0x00, 0x00, 0x00];
    assert!(!check_magic(&data));
}

#[test]
fn parse_valid_header() {
    let code = vec![0xAA; 16];
    let data = make_3dsx(&code, &[], &[], 0);
    let header = parse_header(&data).unwrap();
    assert_eq!(header.code_seg_size, 16);
    assert_eq!(header.rodata_seg_size, 0);
}

#[test]
fn load_basic() {
    let code = vec![0xEA, 0x00, 0x00, 0x00];
    let data = make_3dsx(&code, &[], &[], 4);
    let mut mem = Memory::new();
    let base = 0x0010_0000;
    let result = load(&data, &mut mem, base);
    assert_eq!(result, Some(base));
    assert_eq!(mem.read32(base), 0x000000EA);
    assert_eq!(mem.read8(base + 0x1000), 0);
}

#[test]
fn parse_too_short() {
    let data = vec![0x33, 0x44];
    assert!(parse_header(&data).is_none());
}

#[test]
fn load_round_trip_places_segments_and_bss() {
    // A file with no relocations lands byte-exact code at the base, and BSS
    // zero-filled after the page-aligned segments plus the data image.
    let code: Vec<u8> = (1..=20).collect();
    let rodata = vec![0x51, 0x52, 0x53];
    let ds = vec![0x61, 0x62];
    let bss = 16;
    let data = make_3dsx(&code, &rodata, &ds, bss);
    let mut mem = Memory::new();
    // Dirty the BSS region first so the zero fill is observable.
    let base = 0x0010_0000;
    let bss_addr = base + 0x1000 + 0x1000 + 2;
    for i in 0..bss {
        mem.write8(bss_addr + i, 0xEE);
    }
    assert_eq!(load(&data, &mut mem, base), Some(base));
    for (i, &b) in code.iter().enumerate() {
        assert_eq!(mem.read8(base + i as u32), b);
    }
    for (i, &b) in rodata.iter().enumerate() {
        assert_eq!(mem.read8(base + 0x1000 + i as u32), b);
    }
    for (i, &b) in ds.iter().enumerate() {
        assert_eq!(mem.read8(base + 0x2000 + i as u32), b);
    }
    for i in 0..bss {
        assert_eq!(mem.read8(bss_addr + i), 0);
    }
}

#[test]
fn load_truncated_segments_is_rejected() {
    let code = vec![0xAA; 64];
    let mut data = make_3dsx(&code, &[], &[], 0);
    data.truncate(data.len() - 8);
    let mut mem = Memory::new();
    assert_eq!(load(&data, &mut mem, 0x0010_0000), None);
}

#[test]
fn absolute_relocation_adds_base() {
    // One absolute relocation entry: skip one word, patch one word.
    let code: Vec<u8> = vec![
        0x11, 0x11, 0x11, 0x11, // untouched word
        0x40, 0x00, 0x00, 0x00, // becomes base + 0x40
    ];
    let mut data = make_3dsx(&code, &[], &[], 0);
    // Rewrite the code segment's absolute relocation count to one.
    data[32..36].copy_from_slice(&1u32.to_le_bytes());
    // Append the relocation entry: skip=1, patch=1.
    data.extend_from_slice(&0x0001_0001u32.to_le_bytes());
    let mut mem = Memory::new();
    let base = 0x0010_0000;
    assert_eq!(load(&data, &mut mem, base), Some(base));
    assert_eq!(mem.read32(base), 0x1111_1111);
    assert_eq!(mem.read32(base + 4), base + 0x40);
}
