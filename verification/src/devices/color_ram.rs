//! C64 colour RAM: 1024 cells of 4-bit colour at $D800-$DBFF.
//!
//! Only the low nibble of a cell is stored; the high nibble of a bus read
//! "floats" and is modelled as all ones.

use vstd::prelude::*;

verus! {

/// Size of colour RAM in bytes.
pub const COLOR_RAM_SIZE: usize = 1024;

/// C64 colour RAM device.
#[derive(Debug, Clone)]
pub struct ColorRam {
    data: [u8; COLOR_RAM_SIZE],
}

impl View for ColorRam {
    type V = Seq<u8>;

    closed spec fn view(&self) -> Seq<u8> {
        self.data@
    }
}

impl ColorRam {
    /// The RAM always has its 1024 cells.
    pub proof fn lemma_size(c: &ColorRam)
        ensures
            c@.len() == COLOR_RAM_SIZE,
    {
    }

    /// Every cell holds light blue (14), the power-on colour.
    pub fn new() -> (r: Self)
        ensures
            r@ == Seq::new(COLOR_RAM_SIZE as nat, |i: int| 14u8),
    {
        ColorRam { data: [14u8; COLOR_RAM_SIZE] }
    }

    /// Colour RAM holding exactly the given bytes.
    pub fn with_data(data: [u8; COLOR_RAM_SIZE]) -> (r: Self)
        ensures
            r@ == data@,
    {
        ColorRam { data }
    }

    /// The colour at `offset` (low nibble), or 0 outside the RAM.
    pub fn get(&self, offset: usize) -> (r: u8)
        ensures
            offset < COLOR_RAM_SIZE ==> r == self@[offset as int] & 0x0F,
            offset >= COLOR_RAM_SIZE ==> r == 0,
            r < 16,
    {
        if offset < COLOR_RAM_SIZE {
            let v = self.data[offset];
            proof {
                lemma_nibble(v);
            }
            v & 0x0F
        } else {
            0
        }
    }

    /// Store the low nibble of `color` at `offset`; ignored outside the RAM.
    pub fn set(&mut self, offset: usize, color: u8)
        ensures
            offset < COLOR_RAM_SIZE ==> final(self)@ == old(self)@.update(offset as int, color & 0x0F),
            offset >= COLOR_RAM_SIZE ==> final(self)@ == old(self)@,
    {
        if offset < COLOR_RAM_SIZE {
            self.data[offset] = color & 0x0F;
        }
    }

    /// The raw cell contents.
    pub fn as_slice(&self) -> (r: &[u8])
        ensures
            r@ == self@,
    {
        self.data.as_slice()
    }

    /// Fill every cell with the low nibble of `color`.
    pub fn clear(&mut self, color: u8)
        ensures
            final(self)@ == Seq::new(COLOR_RAM_SIZE as nat, |i: int| color & 0x0F),
    {
        let c = color & 0x0F;
        let mut i: usize = 0;
        while i < COLOR_RAM_SIZE
            invariant
                i <= COLOR_RAM_SIZE,
                c == color & 0x0F,
                forall|j: int| 0 <= j < i ==> self.data@[j] == c,
            decreases COLOR_RAM_SIZE - i,
        {
            self.data[i] = c;
            i += 1;
        }
        assert(self.data@ == Seq::new(COLOR_RAM_SIZE as nat, |i: int| color & 0x0F));
    }

    /// Back to the power-on colour, light blue.
    pub fn reset(&mut self)
        ensures
            final(self)@ == Seq::new(COLOR_RAM_SIZE as nat, |i: int| 14u8),
    {
        self.clear(14);
        proof {
            lemma_nibble(14);
        }
    }

    /// Bus read: the stored nibble with the floating high nibble set;
    /// $FF outside the RAM.
    pub fn read(&self, offset: u16) -> (r: u8)
        ensures
            (offset as int) < COLOR_RAM_SIZE ==> r == self@[offset as int] | 0xF0,
            (offset as int) >= COLOR_RAM_SIZE ==> r == 0xFF,
    {
        let offset = offset as usize;
        if offset < COLOR_RAM_SIZE {
            self.data[offset] | 0xF0
        } else {
            0xFF
        }
    }

    /// Bus write: only the low nibble is stored; ignored outside the RAM.
    pub fn write(&mut self, offset: u16, value: u8)
        ensures
            (offset as int) < COLOR_RAM_SIZE ==> final(self)@ == old(self)@.update(
                offset as int,
                value & 0x0F,
            ),
            (offset as int) >= COLOR_RAM_SIZE ==> final(self)@ == old(self)@,
    {
        let offset = offset as usize;
        if offset < COLOR_RAM_SIZE {
            self.data[offset] = value & 0x0F;
        }
    }

    /// The device spans 1024 bytes of address space.
    pub fn size(&self) -> (r: u16)
        ensures
            r == 1024,
    {
        1024
    }
}

impl Default for ColorRam {
    fn default() -> (r: Self)
        ensures
            r@ == Seq::new(COLOR_RAM_SIZE as nat, |i: int| 14u8),
    {
        Self::new()
    }
}

/// The low nibble of a byte is below 16, keeps its value under a second
/// mask, and is the byte itself for a colour below 16.
proof fn lemma_nibble(v: u8)
    ensures
        v & 0x0F < 16,
        (v & 0x0F) & 0x0F == v & 0x0F,
        v < 16 ==> v & 0x0F == v,
{
    assert(v & 0x0F < 16 && (v & 0x0F) & 0x0F == v & 0x0F && (v < 16 ==> v & 0x0F == v))
        by (bit_vector);
}

/// A bus write followed by `get` at the same cell gives back the written
/// colour's low nibble.
pub proof fn lemma_write_then_get(before: Seq<u8>, offset: int, value: u8)
    requires
        0 <= offset < before.len(),
    ensures
        before.update(offset, value & 0x0F)[offset] & 0x0F == value & 0x0F,
{
    lemma_nibble(value);
}

} // verus!
