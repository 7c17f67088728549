//! The directory listing the drive sends for the file name `$`: a BASIC
//! program loaded at `$0401` whose line numbers are block counts.

use vstd::prelude::*;
use super::directory::chain_too_long_text;
use super::error::DiskFault;
use super::image::{location_fault, sector_of};

verus! {

/// The three-letter type name of a file type byte.
pub open spec fn type_text(file_type: u8) -> Seq<u8> {
    let t = file_type & 0x07u8;
    if t == 0 {
        seq![0x44u8, 0x45u8, 0x4Cu8]
    } else if t == 1 {
        seq![0x53u8, 0x45u8, 0x51u8]
    } else if t == 2 {
        seq![0x50u8, 0x52u8, 0x47u8]
    } else if t == 3 {
        seq![0x55u8, 0x53u8, 0x52u8]
    } else if t == 4 {
        seq![0x52u8, 0x45u8, 0x4Cu8]
    } else {
        seq![0x3Fu8, 0x3Fu8, 0x3Fu8]
    }
}

/// Spaces that align the file names after a block count.
pub open spec fn block_padding(blocks: int) -> Seq<u8> {
    if blocks < 10 {
        seq![0x20u8, 0x20u8, 0x20u8]
    } else if blocks < 100 {
        seq![0x20u8, 0x20u8]
    } else if blocks < 1000 {
        seq![0x20u8]
    } else {
        Seq::empty()
    }
}

/// The listing line of the entry at an offset of a directory sector: link,
/// block count as line number, padding, the quoted name, the type and a
/// `<` for a locked file.
pub open spec fn entry_line(sec: Seq<u8>, off: int) -> Seq<u8> {
    let file_type = sec[off + 2];
    let blocks = sec[off + 30] + 256 * sec[off + 31];
    seq![0x01u8, 0x01u8, sec[off + 30], sec[off + 31]] + block_padding(blocks) + seq![0x22u8]
        + sec.subrange(off + 5, off + 21) + seq![0x22u8, 0x20u8] + type_text(file_type) + (if file_type
        & 0x40u8 != 0 {
        seq![0x3Cu8]
    } else {
        Seq::empty()
    }) + seq![0u8]
}

/// The type name a listing line shows for a file is the three-letter name
/// of its type (the low three bits of the entry's type byte): 0 DEL, 1 SEQ,
/// 2 PRG, 3 USR, 4 REL, and ??? for the others. It stands after the quoted
/// name and a space, before the `<` of a locked file and the line's ending
/// zero byte. Types 0 to 4 get five different names.
pub proof fn lemma_listing_type_name(sec: Seq<u8>, off: int)
    requires
        0 <= off,
        off + 32 <= sec.len(),
    ensures
        ({
            let line = entry_line(sec, off);
            let ft = sec[off + 2];
            let t = ft & 0x07u8;
            let lk: int = if ft & 0x40u8 != 0 {
                1
            } else {
                0
            };
            let n = line.len() as int;
            let name = line.subrange(n - 4 - lk, n - 1 - lk);
            &&& n >= 27
            &&& line[n - 1] == 0
            &&& lk == 1 ==> line[n - 2] == ('<' as u8)
            &&& line[n - 5 - lk] == (' ' as u8)
            &&& line[n - 6 - lk] == ('"' as u8)
            &&& t == 0 ==> name == seq!['D' as u8, 'E' as u8, 'L' as u8]
            &&& t == 1 ==> name == seq!['S' as u8, 'E' as u8, 'Q' as u8]
            &&& t == 2 ==> name == seq!['P' as u8, 'R' as u8, 'G' as u8]
            &&& t == 3 ==> name == seq!['U' as u8, 'S' as u8, 'R' as u8]
            &&& t == 4 ==> name == seq!['R' as u8, 'E' as u8, 'L' as u8]
            &&& t >= 5 ==> name == seq!['?' as u8, '?' as u8, '?' as u8]
        }),
        forall|a: u8, b: u8|
            (a & 0x07u8) < 5 && (b & 0x07u8) < 5 && (a & 0x07u8) != (b & 0x07u8) ==> #[trigger] type_text(a)
                != #[trigger] type_text(b),
{
    let ft = sec[off + 2];
    let blocks = sec[off + 30] + 256 * sec[off + 31];
    let head = seq![0x01u8, 0x01u8, sec[off + 30], sec[off + 31]] + block_padding(blocks) + seq![
        0x22u8,
    ] + sec.subrange(off + 5, off + 21) + seq![0x22u8, 0x20u8];
    let lock: Seq<u8> = if ft & 0x40u8 != 0 {
        seq![0x3Cu8]
    } else {
        Seq::empty()
    };
    let line = entry_line(sec, off);
    assert(line =~= head + type_text(ft) + lock + seq![0u8]);
    let lk: int = if ft & 0x40u8 != 0 {
        1
    } else {
        0
    };
    let n = line.len() as int;
    assert(n == head.len() + 3 + lk + 1);
    assert(line.subrange(n - 4 - lk, n - 1 - lk) =~= type_text(ft));
    assert(line[n - 5 - lk] == head[head.len() - 1]);
    assert(line[n - 6 - lk] == head[head.len() - 2]);
    assert forall|a: u8, b: u8|
        (a & 0x07u8) < 5 && (b & 0x07u8) < 5 && (a & 0x07u8) != (b & 0x07u8) implies #[trigger] type_text(
        a,
    ) != #[trigger] type_text(b) by {
        let ta = type_text(a);
        let tb = type_text(b);
        assert(ta[0] != tb[0] || ta[1] != tb[1] || ta[2] != tb[2]);
    }
}

/// A listing line starts with a line link and, as its line number, the
/// file's block count (entry bytes 30 and 31, low byte first); spaces then
/// bring the quoted 16-byte name to the fifth column for counts of one to
/// four digits (three spaces below 10, two below 100, one below 1000).
pub proof fn lemma_listing_line_start(sec: Seq<u8>, off: int)
    requires
        0 <= off,
        off + 32 <= sec.len(),
    ensures
        ({
            let line = entry_line(sec, off);
            let blocks = sec[off + 30] as int + 256 * (sec[off + 31] as int);
            let pad: int = if blocks < 10 {
                3
            } else if blocks < 100 {
                2
            } else if blocks < 1000 {
                1
            } else {
                0
            };
            &&& line[0] == 1 && line[1] == 1
            &&& line[2] as int + 256 * (line[3] as int) == blocks
            &&& forall|k: int| 4 <= k < 4 + pad ==> #[trigger] line[k] == (' ' as u8)
            &&& line[4 + pad] == ('"' as u8)
            &&& line.subrange(5 + pad, 21 + pad) == sec.subrange(off + 5, off + 21)
            &&& line[21 + pad] == ('"' as u8)
        }),
{
    let ft = sec[off + 2];
    let blocks = sec[off + 30] + 256 * sec[off + 31];
    let pad = block_padding(blocks);
    let head = seq![0x01u8, 0x01u8, sec[off + 30], sec[off + 31]] + pad + seq![0x22u8];
    let name = sec.subrange(off + 5, off + 21);
    let rest = seq![0x22u8, 0x20u8] + type_text(ft) + (if ft & 0x40u8 != 0 {
        seq![0x3Cu8]
    } else {
        Seq::empty()
    }) + seq![0u8];
    let line = entry_line(sec, off);
    assert(line =~= head + name + rest);
    let p = pad.len() as int;
    assert(line.subrange(5 + p, 21 + p) =~= name);
}

/// The listing ends with a line whose number is the free block count (low
/// byte first) and whose text is `BLOCKS FREE.`, closed by its zero byte,
/// then the three zero bytes that end a BASIC program.
pub proof fn lemma_listing_footer(free: u16)
    ensures
        ({
            let f = listing_footer(free);
            let text = seq![
                'B' as u8, 'L' as u8, 'O' as u8, 'C' as u8, 'K' as u8, 'S' as u8, ' ' as u8,
                'F' as u8, 'R' as u8, 'E' as u8, 'E' as u8, '.' as u8,
            ];
            &&& f.len() == 20
            &&& f[0] == 1 && f[1] == 1
            &&& f[2] as int + 256 * (f[3] as int) == free as int
            &&& f.subrange(4, 16) == text
            &&& f.subrange(16, 20) == seq![0u8, 0u8, 0u8, 0u8]
        }),
{
    let f = listing_footer(free);
    assert(free & 0xFFu16 == free % 256 && free >> 8u16 == free / 256) by (bit_vector);
    assert(f.subrange(4, 16) =~= seq![
        'B' as u8, 'L' as u8, 'O' as u8, 'C' as u8, 'K' as u8, 'S' as u8, ' ' as u8,
        'F' as u8, 'R' as u8, 'E' as u8, 'E' as u8, '.' as u8,
    ]);
    assert(f.subrange(16, 20) =~= seq![0u8, 0u8, 0u8, 0u8]);
}

/// Whether an entry is listed: every entry but empty and scratched ones.
pub open spec fn listed(sec: Seq<u8>, off: int) -> bool {
    sec[off + 2] != 0 && sec[off + 2] != 0x80
}

/// The lines of the entries of a sector from entry `i` on.
pub open spec fn sector_lines(sec: Seq<u8>, i: int) -> Seq<u8>
    decreases 8 - i,
{
    if i < 0 || i >= 8 {
        Seq::empty()
    } else {
        (if listed(sec, 32 * i) {
            entry_line(sec, 32 * i)
        } else {
            Seq::empty()
        }) + sector_lines(sec, i + 1)
    }
}

/// The lines of all entries of the directory chain from a sector,
/// visiting at most `fuel` sectors.
pub open spec fn chain_lines(data: Seq<u8>, track: u8, sector: u8, fuel: nat) -> Result<Seq<u8>, DiskFault>
    decreases fuel,
{
    match location_fault(track, sector) {
        Some(f) => Err(f),
        None => {
            let sec = sector_of(data, track as int, sector as int);
            let lines = sector_lines(sec, 0);
            if sec[0] == 0 {
                Ok(lines)
            } else if fuel <= 1 {
                Err(DiskFault::CorruptedImage(chain_too_long_text()))
            } else {
                match chain_lines(data, sec[0], sec[1], (fuel - 1) as nat) {
                    Ok(rest) => Ok(lines + rest),
                    Err(f) => Err(f),
                }
            }
        },
    }
}

/// The start of the listing: load address, then the header line with
/// the disk name in reverse video, the disk ID and the DOS type.
pub open spec fn listing_header(bam: Seq<u8>) -> Seq<u8> {
    seq![0x01u8, 0x04u8, 0x01u8, 0x01u8, 0x00u8, 0x00u8, 0x12u8, 0x22u8] + bam.subrange(0x90, 0xA0)
        + seq![0x22u8, 0x20u8, bam[0xA2], bam[0xA3], 0x20u8, 0x32u8, 0x41u8, 0x00u8]
}

/// The end of the listing: the "BLOCKS FREE." line and the end of the
/// program.
pub open spec fn listing_footer(free: u16) -> Seq<u8> {
    seq![0x01u8, 0x01u8, (free & 0xFFu16) as u8, (free >> 8u16) as u8] + seq![
        0x42u8,
        0x4Cu8,
        0x4Fu8,
        0x43u8,
        0x4Bu8,
        0x53u8,
        0x20u8,
        0x46u8,
        0x52u8,
        0x45u8,
        0x45u8,
        0x2Eu8,
    ] + seq![0x00u8, 0x00u8, 0x00u8, 0x00u8]
}

/// Append the lines of the entries of a directory sector.
pub fn push_sector_lines(listing: &mut Vec<u8>, sector: &[u8; 256])
    ensures
        final(listing)@ == old(listing)@ + sector_lines(sector@, 0),
{
    let ghost start = listing@;
    let mut i: usize = 0;
    while i < 8
        invariant
            i <= 8,
            start + sector_lines(sector@, 0) == listing@ + sector_lines(sector@, i as int),
        decreases 8 - i,
    {
        let off = i * 32;
        let file_type = sector[off + 2];
        let ghost before = listing@;
        if file_type != 0 && file_type != 0x80 {
            push_entry_line(listing, sector, off);
        }
        assert(listing@ + sector_lines(sector@, i + 1) =~= before + sector_lines(
            sector@,
            i as int,
        ));
        i += 1;
    }
    assert(listing@ + sector_lines(sector@, 8) =~= listing@);
}

fn push_padding(listing: &mut Vec<u8>, blocks: u32)
    ensures
        final(listing)@ == old(listing)@ + block_padding(blocks as int),
{
    if blocks < 10 {
        listing.push(0x20);
        listing.push(0x20);
        listing.push(0x20);
    } else if blocks < 100 {
        listing.push(0x20);
        listing.push(0x20);
    } else if blocks < 1000 {
        listing.push(0x20);
    }
    assert(listing@ =~= old(listing)@ + block_padding(blocks as int));
}

fn push_type_name(listing: &mut Vec<u8>, file_type: u8)
    ensures
        final(listing)@ == old(listing)@ + type_text(file_type),
{
    let t = file_type & 0x07;
    if t == 0 {
        listing.push(0x44);
        listing.push(0x45);
        listing.push(0x4C);
    } else if t == 1 {
        listing.push(0x53);
        listing.push(0x45);
        listing.push(0x51);
    } else if t == 2 {
        listing.push(0x50);
        listing.push(0x52);
        listing.push(0x47);
    } else if t == 3 {
        listing.push(0x55);
        listing.push(0x53);
        listing.push(0x52);
    } else if t == 4 {
        listing.push(0x52);
        listing.push(0x45);
        listing.push(0x4C);
    } else {
        listing.push(0x3F);
        listing.push(0x3F);
        listing.push(0x3F);
    }
    assert(listing@ =~= old(listing)@ + type_text(file_type));
}

fn push_bytes(listing: &mut Vec<u8>, sector: &[u8; 256], from: usize, to: usize)
    requires
        from <= to <= 256,
    ensures
        final(listing)@ == old(listing)@ + sector@.subrange(from as int, to as int),
{
    let mut k: usize = from;
    while k < to
        invariant
            from <= k <= to <= 256,
            listing@ == old(listing)@ + sector@.subrange(from as int, k as int),
        decreases to - k,
    {
        listing.push(sector[k]);
        k += 1;
        assert(listing@ =~= old(listing)@ + sector@.subrange(from as int, k as int));
    }
}

fn push_entry_line(listing: &mut Vec<u8>, sector: &[u8; 256], off: usize)
    requires
        off <= 224,
    ensures
        final(listing)@ == old(listing)@ + entry_line(sector@, off as int),
{
    let file_type = sector[off + 2];
    let lo = sector[off + 30];
    let hi = sector[off + 31];
    let blocks: u32 = lo as u32 + 256 * (hi as u32);
    listing.push(0x01);
    listing.push(0x01);
    listing.push(lo);
    listing.push(hi);
    let ghost a = listing@;
    push_padding(listing, blocks);
    let ghost b = listing@;
    listing.push(0x22);
    let ghost c = listing@;
    push_bytes(listing, sector, off + 5, off + 21);
    let ghost d = listing@;
    listing.push(0x22);
    listing.push(0x20);
    let ghost e = listing@;
    push_type_name(listing, file_type);
    let ghost f = listing@;
    if file_type & 0x40 != 0 {
        listing.push(0x3C);
    }
    let ghost g = listing@;
    listing.push(0x00);
    assert(a =~= old(listing)@ + seq![0x01u8, 0x01u8, lo, hi]);
    assert(c =~= b + seq![0x22u8]);
    assert(e =~= d + seq![0x22u8, 0x20u8]);
    assert(g =~= f + (if file_type & 0x40u8 != 0 {
        seq![0x3Cu8]
    } else {
        Seq::empty()
    }));
    assert(listing@ =~= old(listing)@ + entry_line(sector@, off as int));
}

/// Append the header of the listing.
pub fn push_listing_header(listing: &mut Vec<u8>, bam: &[u8; 256])
    ensures
        final(listing)@ == old(listing)@ + listing_header(bam@),
{
    listing.push(0x01);
    listing.push(0x04);
    listing.push(0x01);
    listing.push(0x01);
    listing.push(0x00);
    listing.push(0x00);
    listing.push(0x12);
    listing.push(0x22);
    let ghost a = listing@;
    push_bytes(listing, bam, 0x90, 0xA0);
    let ghost b = listing@;
    listing.push(0x22);
    listing.push(0x20);
    listing.push(bam[0xA2]);
    listing.push(bam[0xA3]);
    listing.push(0x20);
    listing.push(0x32);
    listing.push(0x41);
    listing.push(0x00);
    assert(a =~= old(listing)@ + seq![0x01u8, 0x04u8, 0x01u8, 0x01u8, 0x00u8, 0x00u8, 0x12u8, 0x22u8]);
    assert(listing@ =~= b + seq![0x22u8, 0x20u8, bam[0xA2], bam[0xA3], 0x20u8, 0x32u8, 0x41u8, 0x00u8]);
    assert(listing@ =~= old(listing)@ + listing_header(bam@));
}

/// Append the end of the listing.
pub fn push_listing_footer(listing: &mut Vec<u8>, free: u16)
    ensures
        final(listing)@ == old(listing)@ + listing_footer(free),
{
    listing.push(0x01);
    listing.push(0x01);
    listing.push((free & 0xFF) as u8);
    listing.push((free >> 8) as u8);
    listing.push(0x42);
    listing.push(0x4C);
    listing.push(0x4F);
    listing.push(0x43);
    listing.push(0x4B);
    listing.push(0x53);
    listing.push(0x20);
    listing.push(0x46);
    listing.push(0x52);
    listing.push(0x45);
    listing.push(0x45);
    listing.push(0x2E);
    listing.push(0x00);
    listing.push(0x00);
    listing.push(0x00);
    listing.push(0x00);
    assert(listing@ =~= old(listing)@ + listing_footer(free));
}

} // verus!
