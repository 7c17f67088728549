use c64_emu::system::c64_system::{ascii_to_petscii, Region};

#[test]
fn test_region_values() {
    assert_eq!(Region::PAL.clock_hz(), 985_248);
    assert_eq!(Region::NTSC.clock_hz(), 1_022_727);
    assert_eq!(Region::PAL.scanlines(), 312);
    assert_eq!(Region::NTSC.scanlines(), 263);
    assert_eq!(Region::PAL.cycles_per_line(), 63);
    assert_eq!(Region::NTSC.cycles_per_line(), 65);
}

#[test]
fn test_cycles_per_frame() {
    assert_eq!(Region::PAL.cycles_per_frame(), 312 * 63);
    assert_eq!(Region::NTSC.cycles_per_frame(), 263 * 65);
}

#[test]
fn test_ascii_to_petscii() {
    assert_eq!(ascii_to_petscii(b'A'), b'A');
    assert_eq!(ascii_to_petscii(b'Z'), b'Z');
    assert_eq!(ascii_to_petscii(b'a'), b'A');
    assert_eq!(ascii_to_petscii(b'z'), b'Z');
    assert_eq!(ascii_to_petscii(b'\n'), 0x0D);
    assert_eq!(ascii_to_petscii(b'1'), b'1');
}

