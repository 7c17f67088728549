use c64_emu::devices::vic_ii::VicII;
use c64_emu::system::disk_1541::{ChannelMode, D64Image, Drive1541};
use c64_emu::system::{C64Memory, SaveState, SAVESTATE_MAGIC, SAVESTATE_VERSION};

fn header_bytes(len: usize) -> Vec<u8> {
    let mut v = vec![0u8; len];
    v[0..4].copy_from_slice(&SAVESTATE_MAGIC);
    v[4..8].copy_from_slice(&SAVESTATE_VERSION.to_le_bytes());
    v
}

#[test]
fn test_decodable_short_input() {
    assert!(SaveState::is_decodable(&[0u8; 5]));
    assert!(SaveState::deserialize(&[0u8; 5]).is_err());
}

#[test]
fn test_decodable_bad_magic() {
    let mut v = header_bytes(65600);
    v[0] = b'X';
    assert!(SaveState::is_decodable(&v));
    assert!(SaveState::deserialize(&v).is_err());
}

#[test]
fn test_decodable_truncated_sections() {
    // Stops at the size check of the memory section.
    let v = header_bytes(40);
    assert!(SaveState::is_decodable(&v));
    assert!(SaveState::deserialize(&v).is_err());
    // Cut in the middle of the section after RAM: not decodable.
    let v = header_bytes(65600);
    assert!(!SaveState::is_decodable(&v));
}

#[test]
fn test_decodable_full_length() {
    let v = header_bytes(66838);
    assert!(SaveState::is_decodable(&v));
}

#[test]
fn test_cia2_pending_through_memory_accessor() {
    let mut mem = C64Memory::new();
    assert!(!mem.nmi_active());
    mem.cia2_mut().set_interrupt_pending(true);
    assert!(mem.nmi_active());
    assert!(mem.cia2_ref().interrupt_pending());
    assert!(!mem.cia1_ref().interrupt_pending());
}

#[test]
fn test_vic_through_memory_accessor() {
    let mut mem = C64Memory::new();
    mem.vic_mut().write(0x20, 0x05);
    assert_eq!(mem.vic_ref().border_color(), 0x05);
    assert_eq!(mem.read(0xD020) & 0x0F, 0x05);
}

#[test]
fn test_render_multicolor_text_scanline_cells() {
    let mut vic = VicII::new();
    vic.write(0x22, 0x07);
    vic.write(0x23, 0x08);
    let mut char_rom = vec![0u8; 16];
    char_rom[8] = 0x1B; // code 1, row 0: pairs 00 01 10 11
    let mut screen = vec![0u8; 1000];
    let mut color = vec![0u8; 1000];
    screen[0] = 1;
    color[0] = 0x0A; // multicolour cell, colour 2
    screen[1] = 1;
    color[1] = 0x03; // hires cell, colour 3
    vic.render_multicolor_text_scanline(0, &char_rom, &screen, &color);
    let row = vic.framebuffer()[0];
    assert_eq!(&row[0..8], &[6, 6, 7, 7, 8, 8, 2, 2]);
    assert_eq!(&row[8..16], &[6, 6, 6, 3, 3, 6, 3, 3]);
    // Code 0 with an empty pattern everywhere else: background.
    assert_eq!(row[16], 6);
    // Other rows keep their contents.
    assert_eq!(vic.framebuffer()[1][0], 0);
}

#[test]
fn test_directory_entry_layout() {
    let mut img = D64Image::create_blank("TEST", b"00");
    let slot = img.clone().find_free_directory_slot().unwrap();
    let r = img.create_directory_entry("PROG", 0x02, 17, 0, 3).unwrap();
    assert_eq!(r, slot);
    let (t, s, off) = slot;
    let sec = img.read_sector(t, s).unwrap();
    assert_eq!(sec[off + 2], 0x82);
    assert_eq!(sec[off + 3], 17);
    assert_eq!(sec[off + 4], 0);
    assert_eq!(&sec[off + 5..off + 9], b"PROG");
    assert_eq!(sec[off + 9], 0xA0);
    assert_eq!(sec[off + 20], 0xA0);
    assert_eq!(sec[off + 30], 3);
    assert_eq!(sec[off + 31], 0);
    assert!(img.is_modified());
    assert_eq!(img.find_file_entry("PROG").unwrap(), (t, s, off, 17, 0));
}

#[test]
fn test_blank_disk_name_upper_case() {
    let img = D64Image::create_blank("test disk", b"ab");
    assert_eq!(img.disk_name().unwrap(), "TEST DISK");
    assert_eq!(img.free_blocks(), 664);
}

#[test]
fn test_allocation_order_across_tracks() {
    let mut img = D64Image::create_blank("ORDER", b"01");
    // Track 17 first, lowest sector first.
    for s in 0..21u8 {
        assert_eq!(img.allocate_sector().unwrap(), (17, s));
    }
    // Track 17 is full: the search goes on above the directory track.
    assert_eq!(img.allocate_sector().unwrap(), (19, 0));
    // A sector freed on track 17 is found again before track 19's next one.
    img.mark_sector_free(17, 5).unwrap();
    assert_eq!(img.allocate_sector().unwrap(), (17, 5));
    assert_eq!(img.allocate_sector().unwrap(), (19, 1));
    assert_eq!(img.free_blocks(), 664 - 23);
}

fn drive_with_blank_disk() -> Drive1541 {
    let mut drive = Drive1541::new(8);
    let image = D64Image::create_blank("BLOCKS", b"42");
    drive.mount(image.data().to_vec()).unwrap();
    drive
}

fn write_file(drive: &mut Drive1541, name: &str, n: usize) {
    drive.open_channel(2, name, ChannelMode::Write).unwrap();
    for i in 0..n {
        drive.write_byte(2, (i % 256) as u8).unwrap();
    }
    drive.close_channel(2);
}

fn entry_block_count(drive: &Drive1541, name: &str) -> u16 {
    let img = drive.image().unwrap();
    let (dt, ds, off, _, _) = img.find_file_entry(name).unwrap();
    let sec = img.read_sector(dt, ds).unwrap();
    u16::from_le_bytes([sec[off + 30], sec[off + 31]])
}

fn chain(drive: &Drive1541, name: &str) -> Vec<[u8; 256]> {
    let (mut t, mut s) = drive.find_file(name).unwrap();
    let mut blocks = Vec::new();
    loop {
        let sec = drive.image().unwrap().read_sector(t, s).unwrap();
        blocks.push(sec);
        if sec[0] == 0 {
            break;
        }
        t = sec[0];
        s = sec[1];
    }
    blocks
}

#[test]
fn test_multi_block_file_accounting() {
    let mut drive = drive_with_blank_disk();
    let f0 = drive.free_blocks().unwrap();
    write_file(&mut drive, "BIG", 600);
    assert_eq!(drive.free_blocks(), Some(f0 - 3));
    assert_eq!(entry_block_count(&drive, "BIG"), 3);
    let blocks = chain(&drive, "BIG");
    assert_eq!(blocks.len(), 3);
    assert_eq!(blocks[2][1], 97);
    assert_eq!(blocks[0][2], 0);
    assert_eq!(blocks[1][2], (252 % 256) as u8);
}

#[test]
fn test_exact_block_multiple_file_accounting() {
    let mut drive = drive_with_blank_disk();
    let f0 = drive.free_blocks().unwrap();
    write_file(&mut drive, "TWO", 504);
    assert_eq!(drive.free_blocks(), Some(f0 - 2));
    assert_eq!(entry_block_count(&drive, "TWO"), 2);
    let blocks = chain(&drive, "TWO");
    assert_eq!(blocks.len(), 2);
    assert_eq!(blocks[1][1], 253);
}

#[test]
fn test_empty_file_makes_no_entry() {
    let mut drive = drive_with_blank_disk();
    let before = drive.get_disk_data().unwrap().to_vec();
    write_file(&mut drive, "NOTHING", 0);
    assert!(drive.find_file("NOTHING").is_err());
    assert_eq!(drive.free_blocks(), Some(664));
    assert_eq!(drive.get_disk_data().unwrap(), &before[..]);
}

fn chain_addresses(drive: &Drive1541, name: &str) -> Vec<(u8, u8)> {
    let (mut t, mut s) = drive.find_file(name).unwrap();
    let mut out = Vec::new();
    loop {
        out.push((t, s));
        let sec = drive.image().unwrap().read_sector(t, s).unwrap();
        if sec[0] == 0 {
            break;
        }
        t = sec[0];
        s = sec[1];
    }
    out
}

#[test]
fn test_scratch_frees_every_block_of_the_chain() {
    let mut drive = drive_with_blank_disk();
    write_file(&mut drive, "KEEP", 10);
    write_file(&mut drive, "GONE", 700);
    let addrs = chain_addresses(&drive, "GONE");
    assert_eq!(addrs.len(), 3);
    let before = drive.free_blocks().unwrap();
    drive.handle_command("S:GONE");
    assert!(drive.find_file("GONE").is_err());
    for (t, s) in &addrs {
        assert_eq!(drive.image().unwrap().is_sector_free(*t, *s), Ok(true));
    }
    assert_eq!(drive.free_blocks(), Some(before + 3));
    // The other file's block stays used.
    let (kt, ks) = drive.find_file("KEEP").unwrap();
    assert_eq!(drive.image().unwrap().is_sector_free(kt, ks), Ok(false));
}
