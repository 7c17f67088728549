use c64_emu::system::disk_1541::{
    ascii_to_petscii_upper, petscii_to_ascii, ChannelMode, D64Error, D64Image, Drive1541,
    DriveStatus, D64_SIZE,
};

fn blank_drive() -> Drive1541 {
    let mut drive = Drive1541::new(8);
    let image = D64Image::create_blank("TEST", &[0x30, 0x30]);
    drive.mount(image.data().to_vec()).unwrap();
    drive
}

fn write_file(drive: &mut Drive1541, channel: u8, name: &str, bytes: &[u8]) {
    drive.open_channel(channel, name, ChannelMode::Write).unwrap();
    for &b in bytes {
        drive.write_byte(channel, b).unwrap();
    }
    drive.close_channel(channel);
}

fn read_file(drive: &mut Drive1541, channel: u8, name: &str, limit: usize) -> Vec<u8> {
    drive.open_channel(channel, name, ChannelMode::Read).unwrap();
    let mut out = Vec::new();
    while out.len() < limit {
        match drive.read_byte(channel) {
            Ok(Some(b)) => out.push(b),
            _ => break,
        }
    }
    out
}

#[test]
fn sector_write_then_read_gives_data_back() {
    let mut image = D64Image::new(vec![0; D64_SIZE]).unwrap();
    let mut block = [0u8; 256];
    for (i, b) in block.iter_mut().enumerate() {
        *b = (i * 7 + 3) as u8;
    }
    image.write_sector(5, 7, &block).unwrap();
    assert_eq!(image.read_sector(5, 7).unwrap(), block);
    assert_eq!(image.read_sector(5, 8).unwrap(), [0u8; 256]);
    assert_eq!(image.read_sector(5, 6).unwrap(), [0u8; 256]);
    assert!(image.is_modified());
    image.clear_modified();
    assert!(!image.is_modified());
}

#[test]
fn sector_offsets_follow_the_zones() {
    let mut data = vec![0u8; D64_SIZE];
    // Track 18 sector 0 starts at sector 357, track 31 sector 0 at 598.
    data[357 * 256] = 0xAB;
    data[598 * 256 + 5] = 0xCD;
    data[682 * 256 + 255] = 0xEF;
    let image = D64Image::new(data).unwrap();
    assert_eq!(image.read_sector(18, 0).unwrap()[0], 0xAB);
    assert_eq!(image.read_sector(31, 0).unwrap()[5], 0xCD);
    assert_eq!(image.read_sector(35, 16).unwrap()[255], 0xEF);
}

#[test]
fn marking_sectors_free_and_used() {
    let mut image = D64Image::create_blank("BAM", &[0x41, 0x42]);
    assert!(image.is_sector_free(3, 4).unwrap());
    image.mark_sector_free(3, 4).unwrap();
    assert!(image.is_sector_free(3, 4).unwrap());
    let (t, s) = image.allocate_sector().unwrap();
    assert_eq!((t, s), (17, 0));
    assert!(!image.is_sector_free(17, 0).unwrap());
    assert!(image.is_sector_free(17, 1).unwrap());
    image.mark_sector_free(17, 0).unwrap();
    assert!(image.is_sector_free(17, 0).unwrap());
}

#[test]
fn allocation_searches_outward_from_the_directory_track() {
    let mut image = D64Image::create_blank("ORDER", &[0x41, 0x42]);
    let before = image.free_blocks();
    let mut seen = Vec::new();
    for _ in 0..22 {
        seen.push(image.allocate_sector().unwrap());
    }
    // Track 17 has 21 sectors, then the search moves to track 19.
    assert_eq!(seen[0], (17, 0));
    assert_eq!(seen[20], (17, 20));
    assert_eq!(seen[21], (19, 0));
    assert_eq!(image.free_blocks(), before - 22);
}

#[test]
fn blank_disk_has_name_id_and_664_free_blocks() {
    let image = D64Image::create_blank("my disk", &[0x31, 0x32]);
    assert_eq!(image.disk_name().unwrap(), "MY DISK");
    assert_eq!(image.disk_id().unwrap(), [0x31, 0x32]);
    assert_eq!(image.free_blocks(), 664);
    assert!(image.validate().is_ok());
    assert!(!image.is_sector_free(18, 0).unwrap());
    assert!(!image.is_sector_free(18, 1).unwrap());
    assert!(image.is_sector_free(18, 2).unwrap());
    assert!(image.is_sector_free(35, 16).unwrap());
}

#[test]
fn long_disk_name_keeps_sixteen_characters() {
    let image = D64Image::create_blank("ABCDEFGHIJKLMNOPQRST", &[0x31, 0x32]);
    assert_eq!(image.disk_name().unwrap(), "ABCDEFGHIJKLMNOP");
}

#[test]
fn entry_written_to_first_slot_is_found_again() {
    let mut image = D64Image::create_blank("DIR", &[0x31, 0x32]);
    let slot = image.create_directory_entry("prog", 0x02, 17, 3, 1).unwrap();
    assert_eq!(slot, (18, 1, 0));
    let found = image.find_file_entry("PROG").unwrap();
    assert_eq!(found, (18, 1, 0, 17, 3));
    let sector = image.read_sector(18, 1).unwrap();
    assert_eq!(sector[2], 0x82);
    assert_eq!(&sector[5..9], b"PROG");
    assert_eq!(sector[9], 0xA0);
    assert_eq!(sector[30], 1);
}

#[test]
fn directory_grows_past_eight_entries() {
    let mut image = D64Image::create_blank("DIR", &[0x31, 0x32]);
    for i in 0..9u8 {
        let name = format!("F{}", i);
        let slot = image.create_directory_entry(&name, 0x02, 1, i, 1).unwrap();
        if i < 8 {
            assert_eq!(slot, (18, 1, (i as usize) * 32));
        } else {
            assert_eq!(slot, (18, 2, 0));
        }
    }
    assert_eq!(image.read_sector(18, 1).unwrap()[0], 18);
    assert_eq!(image.read_sector(18, 1).unwrap()[1], 2);
    assert_eq!(image.find_file_entry("F8").unwrap(), (18, 2, 0, 1, 8));
    assert!(image.validate().is_ok());
}

#[test]
fn deleting_a_file_frees_its_blocks() {
    let mut drive = blank_drive();
    let data: Vec<u8> = (0..600u32).map(|i| (i % 251) as u8).collect();
    write_file(&mut drive, 2, "BIG", &data);
    let free_after_write = drive.free_blocks().unwrap();
    assert_eq!(free_after_write, 664 - 3);
    let image = drive.image_mut().unwrap();
    image.delete_file("BIG").unwrap();
    assert_eq!(image.free_blocks(), 664);
    assert!(matches!(image.find_file_entry("BIG"), Err(D64Error::FileNotFound(_))));
}

#[test]
fn error_variants_come_from_their_inputs() {
    let image = D64Image::new(vec![0; D64_SIZE]).unwrap();
    assert!(matches!(image.read_sector(0, 0), Err(D64Error::InvalidTrack(0))));
    assert!(matches!(image.read_sector(36, 0), Err(D64Error::InvalidTrack(36))));
    assert!(matches!(
        image.read_sector(31, 17),
        Err(D64Error::InvalidSector { track: 31, sector: 17 })
    ));
    assert!(matches!(D64Image::sectors_in_track(0), Err(D64Error::InvalidTrack(0))));
    match image.find_file_entry("NONE") {
        Err(D64Error::FileNotFound(name)) => assert_eq!(name, "NONE"),
        other => panic!("unexpected {:?}", other),
    }
    let mut empty = D64Image::new(vec![0; D64_SIZE]).unwrap();
    assert!(matches!(empty.allocate_sector(), Err(D64Error::DiskFull)));
    assert!(matches!(empty.allocate_directory_sector(), Err(D64Error::DirectoryFull)));
    match image.validate() {
        Err(D64Error::CorruptedImage(msg)) => {
            assert_eq!(msg, "BAM has no directory pointer (track=0)")
        }
        other => panic!("unexpected {:?}", other),
    }
    let mut drive = Drive1541::new(8);
    assert!(matches!(
        drive.open_channel(16, "X", ChannelMode::Read),
        Err(D64Error::IoError(_))
    ));
    assert!(matches!(drive.write_byte(3, 1), Err(D64Error::IoError(_))));
    assert!(matches!(D64Image::new(vec![0; 10]), Err(D64Error::InvalidSize { expected: D64_SIZE, got: 10 })));
    assert!(D64Image::new(vec![0; 175_531]).is_ok());
}

#[test]
fn validate_reports_broken_directory_chains() {
    let mut image = D64Image::create_blank("CHAIN", &[0x31, 0x32]);
    let mut bam = image.read_sector(18, 0).unwrap();
    bam[0] = 40;
    image.write_sector(18, 0, &bam).unwrap();
    match image.validate() {
        Err(D64Error::CorruptedImage(msg)) => assert_eq!(
            msg,
            "Invalid directory track pointer in BAM: track 40 is out of range"
        ),
        other => panic!("unexpected {:?}", other),
    }
    bam[0] = 18;
    bam[1] = 19;
    image.write_sector(18, 0, &bam).unwrap();
    match image.validate() {
        Err(D64Error::CorruptedImage(msg)) => assert_eq!(
            msg,
            "Invalid directory sector pointer in BAM: sector 19 exceeds track 18 maximum (18)"
        ),
        other => panic!("unexpected {:?}", other),
    }
    bam[1] = 1;
    image.write_sector(18, 0, &bam).unwrap();
    let mut dir = image.read_sector(18, 1).unwrap();
    dir[0] = 18;
    dir[1] = 1;
    image.write_sector(18, 1, &dir).unwrap();
    match image.validate() {
        Err(D64Error::CorruptedImage(msg)) => assert_eq!(
            msg,
            "Directory chain has circular reference at track 18, sector 1"
        ),
        other => panic!("unexpected {:?}", other),
    }
    dir[1] = 30;
    image.write_sector(18, 1, &dir).unwrap();
    match image.validate() {
        Err(D64Error::CorruptedImage(msg)) => assert_eq!(
            msg,
            "Directory chain has invalid sector 30 on track 18 (max: 18)"
        ),
        other => panic!("unexpected {:?}", other),
    }
    dir[0] = 99;
    image.write_sector(18, 1, &dir).unwrap();
    match image.validate() {
        Err(D64Error::CorruptedImage(msg)) => assert_eq!(
            msg,
            "Directory chain has invalid track 99 at entry 1"
        ),
        other => panic!("unexpected {:?}", other),
    }
}

#[test]
fn cyclic_directory_chain_ends_lookups_with_an_error() {
    let mut image = D64Image::create_blank("LOOP", &[0x31, 0x32]);
    let mut dir = image.read_sector(18, 1).unwrap();
    for i in 0..8 {
        dir[i * 32 + 2] = 0x82;
    }
    dir[0] = 18;
    dir[1] = 1;
    image.write_sector(18, 1, &dir).unwrap();
    match image.find_file_entry("NOTHERE") {
        Err(D64Error::CorruptedImage(msg)) => {
            assert_eq!(msg, "Directory chain exceeds maximum expected length")
        }
        other => panic!("unexpected {:?}", other),
    }
    assert!(matches!(image.find_free_directory_slot(), Err(D64Error::CorruptedImage(_))));
}

#[test]
fn error_messages() {
    assert_eq!(
        D64Error::InvalidSize { expected: D64_SIZE, got: 12 }.to_string(),
        "Invalid D64 size: expected 174848 bytes, got 12"
    );
    assert_eq!(D64Error::InvalidTrack(0).to_string(), "Invalid track: 0 (must be 1-35)");
    assert_eq!(
        D64Error::InvalidSector { track: 1, sector: 21 }.to_string(),
        "Invalid sector 21 on track 1"
    );
    assert_eq!(D64Error::FileNotFound("AB".to_string()).to_string(), "File not found: AB");
    assert_eq!(D64Error::DirectoryFull.to_string(), "Directory full");
    assert_eq!(D64Error::DiskFull.to_string(), "Disk full");
    assert_eq!(D64Error::IoError("x".to_string()).to_string(), "I/O error: x");
    assert_eq!(D64Error::CorruptedImage("y".to_string()).to_string(), "Corrupted D64 image: y");
}

#[test]
fn status_lines_pad_numbers_to_two_digits() {
    assert_eq!(DriveStatus::read_error(5, 12).to_string(), "21, READ ERROR,  05, 12\r");
    assert_eq!(DriveStatus::disk_full(200, 0).to_string(), "72, DISK FULL,  200, 00\r");
    assert_eq!(DriveStatus::syntax_error().to_string(), "30, SYNTAX ERROR,  00, 00\r");
    assert_eq!(DriveStatus::file_exists().to_string(), "63, FILE EXISTS,  00, 00\r");
}

#[test]
fn file_written_through_a_channel_reads_back() {
    for len in [1usize, 2, 100, 251, 252] {
        let mut drive = blank_drive();
        let data: Vec<u8> = (0..len).map(|i| (i * 13 + 1) as u8).collect();
        write_file(&mut drive, 2, "DATA", &data);
        let back = read_file(&mut drive, 3, "DATA", 1000);
        assert_eq!(back, data);
    }
}

#[test]
fn file_over_several_blocks_reads_back() {
    let mut drive = blank_drive();
    let data: Vec<u8> = (0..700u32).map(|i| (i * 31 % 256) as u8).collect();
    write_file(&mut drive, 2, "LONG,S", &data);
    let back = read_file(&mut drive, 3, "LONG", 2000);
    // Full blocks hold 252 bytes at positions 2 to 253; reading a block
    // that is not the last goes on to position 254, which holds a zero.
    let mut expected = Vec::new();
    expected.extend_from_slice(&data[0..252]);
    expected.push(0);
    expected.extend_from_slice(&data[252..504]);
    expected.push(0);
    expected.extend_from_slice(&data[504..700]);
    assert_eq!(back, expected);
    let entry = drive.image().unwrap().find_file_entry("LONG").unwrap();
    let sector = drive.image().unwrap().read_sector(entry.0, entry.1).unwrap();
    assert_eq!(sector[entry.2 + 2], 0x81);
    assert_eq!(sector[entry.2 + 30], 3);
}

#[test]
fn writing_an_existing_name_is_refused() {
    let mut drive = blank_drive();
    write_file(&mut drive, 2, "ONE", b"1");
    assert!(matches!(
        drive.open_channel(2, "ONE", ChannelMode::Write),
        Err(D64Error::IoError(_))
    ));
    assert_eq!(drive.status().error_number, 63);
}

#[test]
fn empty_file_gets_no_directory_entry() {
    let mut drive = blank_drive();
    drive.open_channel(2, "NOTHING", ChannelMode::Write).unwrap();
    drive.close_channel(2);
    assert!(drive.find_file("NOTHING").is_err());
}

#[test]
fn reading_a_missing_file_sets_file_not_found() {
    let mut drive = blank_drive();
    assert!(drive.open_channel(2, "MISSING", ChannelMode::Read).is_err());
    assert_eq!(drive.status().error_number, 62);
}

#[test]
fn wildcard_patterns() {
    let drive = Drive1541::new(8);
    assert!(drive.filename_matches("hel*", "HELLO"));
    assert!(!drive.filename_matches("hex*", "HELLO"));
    assert!(drive.filename_matches("  HELLO  ", "HELLO"));
    assert!(drive.filename_matches("h?llo", "HELLO"));
    assert!(!drive.filename_matches("H?LL", "HELLO"));
    assert!(drive.filename_matches("*", ""));
}

#[test]
fn lower_case_commands_are_understood() {
    let mut drive = blank_drive();
    write_file(&mut drive, 2, "GONE", b"abc");
    drive.handle_command("  s:gone ");
    assert!(drive.find_file("GONE").is_err());
    assert_eq!(drive.status().error_number, 1);
    assert_eq!(drive.status().message, "FILES SCRATCHED");
    drive.handle_command("s0:gone");
    assert_eq!(drive.status().error_number, 62);
    drive.handle_command("X");
    assert_eq!(drive.status().error_number, 30);
    drive.handle_command("S");
    assert_eq!(drive.status().error_number, 30);
}

#[test]
fn status_channel_reads_the_status_line() {
    let mut drive = blank_drive();
    drive.open_channel(15, "I", ChannelMode::Command).unwrap();
    let mut line = Vec::new();
    while let Ok(Some(b)) = drive.read_byte(15) {
        line.push(b);
        if b == b'\r' {
            break;
        }
    }
    assert_eq!(line, b"00, OK,  00, 00\r".to_vec());
}

#[test]
fn new_command_formats_with_name_and_id() {
    let mut drive = blank_drive();
    drive.handle_command("N0:WORK,X");
    assert_eq!(drive.image().unwrap().disk_name().unwrap(), "WORK");
    assert_eq!(drive.image().unwrap().disk_id().unwrap(), [b'X', 0x20]);
    drive.handle_command("N:PLAIN");
    assert_eq!(drive.image().unwrap().disk_id().unwrap(), [0x20, 0x20]);
    drive.handle_command("N:,AB");
    assert_eq!(drive.status().error_number, 30);
}

#[test]
fn directory_listing_is_a_basic_program() {
    let mut drive = Drive1541::new(8);
    let image = D64Image::create_blank("TEST", b"AB");
    drive.mount(image.data().to_vec()).unwrap();
    drive.open_channel(0, "$", ChannelMode::Read).unwrap();
    assert_eq!(drive.status().error_number, 0);
    let mut listing = Vec::new();
    while let Ok(Some(b)) = drive.read_byte(0) {
        listing.push(b);
    }
    let mut expected = vec![0x01, 0x04, 0x01, 0x01, 0x00, 0x00, 0x12, 0x22];
    expected.extend_from_slice(b"TEST");
    expected.extend_from_slice(&[0xA0; 12]);
    expected.extend_from_slice(&[0x22, 0x20, b'A', b'B', 0x20, b'2', b'A', 0x00]);
    expected.extend_from_slice(&[0x01, 0x01, 0x98, 0x02]);
    expected.extend_from_slice(b"BLOCKS FREE.");
    expected.extend_from_slice(&[0x00, 0x00, 0x00, 0x00]);
    assert_eq!(listing.len(), 52);
    assert_eq!(listing, expected);
    assert_eq!(drive.read_byte(0), Ok(None));
}

#[test]
fn directory_listing_shows_each_file() {
    let mut drive = blank_drive();
    write_file(&mut drive, 2, "HELLO", b"xyz");
    drive.open_channel(0, "$", ChannelMode::Read).unwrap();
    let mut listing = Vec::new();
    while let Ok(Some(b)) = drive.read_byte(0) {
        listing.push(b);
    }
    let line: Vec<u8> = listing[32..].to_vec();
    assert_eq!(&line[..4], &[0x01, 0x01, 0x01, 0x00]);
    assert_eq!(&line[4..8], &[0x20, 0x20, 0x20, 0x22]);
    assert_eq!(&line[8..13], b"HELLO");
    assert!(listing.ends_with(b"BLOCKS FREE.\0\0\0\0"));
}

#[test]
fn directory_needs_a_disk() {
    let mut drive = Drive1541::new(8);
    assert!(drive.open_channel(0, "$", ChannelMode::Read).is_err());
    assert_eq!(drive.status().error_number, 62);
}

#[test]
fn mount_refuses_corrupted_images_and_unmount_returns_the_disk() {
    let mut drive = Drive1541::new(8);
    assert!(matches!(drive.mount(vec![0; D64_SIZE]), Err(D64Error::CorruptedImage(_))));
    assert!(!drive.has_disk());
    let image = D64Image::create_blank("KEEP", &[0x31, 0x32]);
    drive.mount(image.data().to_vec()).unwrap();
    assert!(drive.has_disk());
    assert!(!drive.is_disk_modified());
    let taken = drive.unmount().unwrap();
    assert_eq!(taken.disk_name().unwrap(), "KEEP");
    assert!(!drive.has_disk());
    assert_eq!(drive.free_blocks(), None);
    assert!(drive.get_disk_data().is_none());
}

#[test]
fn unmount_finishes_files_being_written() {
    let mut drive = blank_drive();
    drive.open_channel(4, "OPEN", ChannelMode::Write).unwrap();
    drive.write_byte(4, 9).unwrap();
    let image = drive.unmount().unwrap();
    assert!(image.find_file_entry("OPEN").is_ok());
}

#[test]
fn parse_type_suffixes() {
    assert_eq!(Drive1541::parse_filename_type("A,R"), ("A", 0x04));
    assert_eq!(Drive1541::parse_filename_type("A,B,S"), ("A,B", 0x01));
    assert_eq!(Drive1541::parse_filename_type("A,"), ("A", 0x02));
    assert_eq!(Drive1541::parse_filename_type("A,x"), ("A", 0x02));
}

#[test]
fn petscii_character_classes() {
    assert_eq!(petscii_to_ascii(0x05), ' ');
    assert_eq!(petscii_to_ascii(0x40), '@');
    assert_eq!(petscii_to_ascii(0x60), '-');
    assert_eq!(petscii_to_ascii(0x61), 'A');
    assert_eq!(petscii_to_ascii(0x7B), '{');
    assert_eq!(petscii_to_ascii(0x85), ' ');
    assert_eq!(petscii_to_ascii(0xA0), ' ');
    assert_eq!(petscii_to_ascii(0xC1), 'A');
    assert_eq!(petscii_to_ascii(0xDA), 'Z');
    assert_eq!(petscii_to_ascii(0xFF), '?');
    assert_eq!(ascii_to_petscii_upper(0xE1), 0xE1);
    assert_eq!(ascii_to_petscii_upper(b'm'), b'M');
}

#[test]
fn deleting_one_file_keeps_the_others() {
    let mut image = D64Image::create_blank("TEST", &[0x30, 0x30]);
    image.create_directory_entry("FIRST", 0x02, 0, 0, 0).unwrap();
    image.create_directory_entry("SECOND", 0x02, 0, 0, 0).unwrap();
    image.delete_file("first").unwrap();
    assert!(matches!(image.find_file_entry("FIRST"), Err(D64Error::FileNotFound(_))));
    assert_eq!(image.find_file_entry("SECOND").unwrap(), (18, 1, 32, 0, 0));
    assert!(matches!(image.delete_file("FIRST"), Err(D64Error::FileNotFound(_))));
}

#[test]
fn blank_disk_marks_only_map_and_directory_used() {
    let image = D64Image::create_blank("TEST", &[0x30, 0x30]);
    assert_eq!(image.is_sector_free(18, 0), Ok(false));
    assert_eq!(image.is_sector_free(18, 1), Ok(false));
    assert_eq!(image.is_sector_free(18, 2), Ok(true));
    assert_eq!(image.is_sector_free(1, 0), Ok(true));
    assert_eq!(image.is_sector_free(17, 20), Ok(true));
    assert_eq!(image.is_sector_free(35, 16), Ok(true));
}

#[test]
fn file_reads_back_on_a_disk_that_holds_files() {
    let mut drive = blank_drive();
    write_file(&mut drive, 2, "ONE", b"first");
    write_file(&mut drive, 2, "TWO", b"second");
    let data: Vec<u8> = (0..252u32).map(|i| (i * 7 % 256) as u8).collect();
    write_file(&mut drive, 3, "THREE", &data);
    assert_eq!(read_file(&mut drive, 4, "THREE", 300), data);
    assert_eq!(read_file(&mut drive, 4, "ONE", 300), b"first".to_vec());
    let entry = drive.image().unwrap().find_file_entry("THREE").unwrap();
    assert_eq!((entry.0, entry.1, entry.2), (18, 1, 64));
}
