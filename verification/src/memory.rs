//! The cartridge's ROM and RAM chips with their segmented addressing.
//!
//! Addresses are always masked to the storage width: out-of-range inputs
//! wrap silently, which is what the address-latch hardware does.

use vstd::arithmetic::div_mod::{lemma_add_mod_noop, lemma_mod_twice};
use vstd::prelude::*;

verus! {

/// Relies on `rand::random`: an arbitrary value of the requested type;
/// nothing can be promised of a random result.
pub assume_specification<T>[ rand::random::<T> ]() -> (r: T)
    where
        rand::distributions::Standard: rand::distributions::Distribution<T>,
;

/// The error of a fallible memory operation.
#[derive(Clone, Copy, Debug, PartialEq, Eq, Structural)]
pub enum MemoryError {
    /// A bulk load was handed more bytes than the chip can store.
    TooLarge,
}

/// A segmented ROM address: a chapter bit, a 4-bit page and a 6-bit
/// offset, assembling to the 11-bit address `chapter:page:offset`.
#[derive(Clone, Copy, Debug, PartialEq, Eq, Structural)]
pub struct RomAddr {
    /// The 1-bit chapter.
    pub chapter: u8,
    /// The 4-bit page.
    pub page: u8,
    /// The 6-bit offset within the page.
    pub addr: u8,
}

/// The flat 11-bit ROM index that a chapter, page and offset assemble to.
pub open spec fn rom_index(chapter: u8, page: u8, addr: u8) -> int {
    chapter * 1024 + page * 64 + addr
}

impl RomAddr {
    /// Each segment fits its declared width.
    pub open spec fn wf(self) -> bool {
        self.chapter < 2 && self.page < 16 && self.addr < 64
    }

    /// Assemble a segmented ROM address, masking each segment to its
    /// width as the address latches do.
    pub fn new(chapter: u8, page: u8, addr: u8) -> (r: RomAddr)
        ensures
            r.wf(),
            r.chapter == chapter % 2,
            r.page == page % 16,
            r.addr == addr % 64,
    {
        RomAddr { chapter: chapter % 2, page: page % 16, addr: addr % 64 }
    }

    /// The full 11-bit ROM address.
    pub fn full(&self) -> (r: u16)
        requires
            self.wf(),
        ensures
            r == rom_index(self.chapter, self.page, self.addr),
            r < 2048,
    {
        self.chapter as u16 * 1024 + self.page as u16 * 64 + self.addr as u16
    }
}

/// The running byte sum of a ROM image, wrapped to 16 bits.
pub open spec fn checksum_of(s: Seq<u8>) -> int
    decreases s.len(),
{
    if s.len() == 0 {
        0
    } else {
        (checksum_of(s.drop_last()) + s.last()) % 0x10000
    }
}

/// The plain (unwrapped) byte sum of a ROM image.
pub open spec fn byte_sum(s: Seq<u8>) -> int
    decreases s.len(),
{
    if s.len() == 0 {
        0
    } else {
        byte_sum(s.drop_last()) + s.last()
    }
}

/// The wrapped checksum is the plain byte sum reduced modulo `2^16`.
pub proof fn lemma_checksum_is_byte_sum(s: Seq<u8>)
    ensures
        checksum_of(s) == byte_sum(s) % 0x10000,
    decreases s.len(),
{
    if s.len() > 0 {
        lemma_checksum_is_byte_sum(s.drop_last());
        lemma_add_mod_noop(byte_sum(s.drop_last()), s.last() as int, 0x10000);
        lemma_mod_twice(byte_sum(s.drop_last()), 0x10000);
        lemma_add_mod_noop(byte_sum(s.drop_last()) % 0x10000, s.last() as int, 0x10000);
    }
}

/// Replacing one byte shifts the plain byte sum by the difference.
proof fn lemma_byte_sum_update(s: Seq<u8>, i: int, v: u8)
    requires
        0 <= i < s.len(),
    ensures
        byte_sum(s.update(i, v)) == byte_sum(s) + v - s[i],
    decreases s.len(),
{
    let t = s.update(i, v);
    if i == s.len() - 1 {
        assert(t.drop_last() =~= s.drop_last());
    } else {
        assert(t.drop_last() =~= s.drop_last().update(i, v));
        lemma_byte_sum_update(s.drop_last(), i, v);
    }
}

/// The checksum is a homomorphism of single-byte edits: replacing the
/// byte at `i` by `v` moves the checksum by `v - s[i]`, modulo `2^16`.
pub proof fn lemma_checksum_update(s: Seq<u8>, i: int, v: u8)
    requires
        0 <= i < s.len(),
    ensures
        checksum_of(s.update(i, v)) == (checksum_of(s) + v - s[i]) % 0x10000,
{
    lemma_checksum_is_byte_sum(s);
    lemma_checksum_is_byte_sum(s.update(i, v));
    lemma_byte_sum_update(s, i, v);
    lemma_add_mod_noop(byte_sum(s), v - s[i], 0x10000);
    lemma_mod_twice(byte_sum(s), 0x10000);
    lemma_add_mod_noop(byte_sum(s) % 0x10000, v - s[i], 0x10000);
}

/// The 2048-byte (2048 x 8-bit) read-only memory chip of a cartridge.
#[derive(Clone, Debug)]
pub struct Rom {
    /// The stored bytes; exactly 2048 of them.
    data: Vec<u8>,
}

impl Rom {
    /// The stored bytes as a sequence.
    pub closed spec fn view(&self) -> Seq<u8> {
        self.data@
    }

    /// The chip holds exactly its 2048 bytes.
    pub open spec fn wf(&self) -> bool {
        self@.len() == 2048
    }

    /// A chip whose every byte is zero.
    pub fn new() -> (r: Rom)
        ensures
            r.wf(),
            forall|i: int| 0 <= i < 2048 ==> r@[i] == 0,
    {
        let mut data: Vec<u8> = Vec::new();
        let mut i: usize = 0;
        while i < 2048
            invariant
                i <= 2048,
                data@.len() == i,
                forall|j: int| 0 <= j < i ==> data@[j] == 0,
            decreases 2048 - i,
        {
            data.push(0);
            i += 1;
        }
        Rom { data }
    }

    /// Load a cartridge image: the slice's bytes in order, the rest of
    /// the chip zeroed. An image over 2048 bytes does not fit.
    pub fn copy(&mut self, slice: &[u8]) -> (r: Result<(), MemoryError>)
        ensures
            r is Ok <==> slice@.len() <= 2048,
            r is Ok ==> {
                &&& final(self).wf()
                &&& forall|i: int|
                    0 <= i < slice@.len() ==> final(self)@[i] == slice@[i]
                &&& forall|i: int|
                    slice@.len() <= i < 2048 ==> final(self)@[i] == 0
            },
            r is Err ==> *final(self) == *old(self),
    {
        if slice.len() > 2048 {
            return Err(MemoryError::TooLarge);
        }
        let mut data: Vec<u8> = Vec::new();
        let mut i: usize = 0;
        while i < slice.len()
            invariant
                i <= slice@.len() <= 2048,
                data@.len() == i,
                forall|j: int| 0 <= j < i ==> data@[j] == slice@[j],
            decreases slice@.len() - i,
        {
            data.push(slice[i]);
            i += 1;
        }
        while i < 2048
            invariant
                slice@.len() <= i <= 2048,
                data@.len() == i,
                forall|j: int| 0 <= j < slice@.len() ==> data@[j] == slice@[j],
                forall|j: int| slice@.len() <= j < i ==> data@[j] == 0,
            decreases 2048 - i,
        {
            data.push(0);
            i += 1;
        }
        self.data = data;
        Ok(())
    }

    /// Read the byte at the given segmented address.
    pub fn read(&self, addr: RomAddr) -> (r: u8)
        requires
            self.wf(),
            addr.wf(),
        ensures
            r == self@[rom_index(addr.chapter, addr.page, addr.addr)],
    {
        let idx = addr.full();
        self.data[idx as usize]
    }

    /// The 16-bit wrapping sum of every byte on the chip.
    pub fn checksum(&self) -> (r: u16)
        requires
            self.wf(),
        ensures
            r == checksum_of(self@),
    {
        let mut acc: u32 = 0;
        let mut i: usize = 0;
        while i < 2048
            invariant
                self.wf(),
                i <= 2048,
                acc == byte_sum(self@.subrange(0, i as int)),
                acc <= i * 255,
            decreases 2048 - i,
        {
            proof {
                assert(self@.subrange(0, i + 1).drop_last() =~= self@.subrange(0, i as int));
            }
            acc = acc + self.data[i] as u32;
            i += 1;
        }
        proof {
            assert(self@.subrange(0, 2048) =~= self@);
            lemma_checksum_is_byte_sum(self@);
        }
        (acc % 0x10000) as u16
    }
}

/// A segmented RAM address: the 3-bit X and 4-bit Y registers assemble
/// to the 7-bit address `x:y`.
#[derive(Clone, Copy, Debug, PartialEq, Eq, Structural)]
pub struct RamAddr {
    /// The 3-bit X file address.
    pub x: u8,
    /// The 4-bit Y address.
    pub y: u8,
}

/// The flat 7-bit RAM index that an X and Y register pair assembles to.
pub open spec fn ram_index(x: u8, y: u8) -> int {
    x * 16 + y
}

impl RamAddr {
    /// Each segment fits its declared width.
    pub open spec fn wf(self) -> bool {
        self.x < 8 && self.y < 16
    }

    /// Assemble a segmented RAM address, masking each segment to its
    /// width as the address latches do.
    pub fn new(x: u8, y: u8) -> (r: RamAddr)
        ensures
            r.wf(),
            r.x == x % 8,
            r.y == y % 16,
    {
        RamAddr { x: x % 8, y: y % 16 }
    }

    /// The full 7-bit RAM address.
    pub fn full(&self) -> (r: u8)
        requires
            self.wf(),
        ensures
            r == ram_index(self.x, self.y),
            r < 128,
    {
        self.x * 16 + self.y
    }
}

/// The 128-nibble (128 x 4-bit) random-access memory chip of a cartridge.
#[derive(Clone, Debug)]
pub struct Ram {
    /// The stored nibbles; exactly 128 of them, each below 16.
    data: Vec<u8>,
}

impl Ram {
    /// The stored nibbles as a sequence.
    pub closed spec fn view(&self) -> Seq<u8> {
        self.data@
    }

    /// The chip holds exactly its 128 nibbles, each fitting 4 bits.
    pub open spec fn wf(&self) -> bool {
        self@.len() == 128 && forall|i: int| 0 <= i < 128 ==> self@[i] < 16
    }

    /// A chip whose every nibble is zero.
    pub fn new() -> (r: Ram)
        ensures
            r.wf(),
            forall|i: int| 0 <= i < 128 ==> r@[i] == 0,
    {
        let mut data: Vec<u8> = Vec::new();
        let mut i: usize = 0;
        while i < 128
            invariant
                i <= 128,
                data@.len() == i,
                forall|j: int| 0 <= j < i ==> data@[j] == 0,
            decreases 128 - i,
        {
            data.push(0);
            i += 1;
        }
        Ram { data }
    }

    /// Zero every nibble on the chip.
    pub fn fill_zero(&mut self)
        requires
            old(self).wf(),
        ensures
            final(self).wf(),
            forall|i: int| 0 <= i < 128 ==> final(self)@[i] == 0,
    {
        let mut i: usize = 0;
        while i < 128
            invariant
                self@.len() == 128,
                i <= 128,
                forall|j: int| 0 <= j < i ==> self@[j] == 0,
                forall|j: int| i <= j < 128 ==> self@[j] == old(self)@[j],
            decreases 128 - i,
        {
            self.data.set(i, 0);
            i += 1;
        }
    }

    /// Fill the chip with arbitrary nibbles, as undriven power-on RAM
    /// holds. Every nibble still fits 4 bits; nothing else is promised.
    pub fn fill_random(&mut self)
        requires
            old(self).wf(),
        ensures
            final(self).wf(),
    {
        let mut i: usize = 0;
        while i < 128
            invariant
                self@.len() == 128,
                i <= 128,
                forall|j: int| 0 <= j < 128 ==> self@[j] < 16,
            decreases 128 - i,
        {
            let v: u8 = rand::random();
            self.data.set(i, v % 16);
            i += 1;
        }
    }

    /// Read the nibble at the given segmented address.
    pub fn read(&self, addr: RamAddr) -> (r: u8)
        requires
            self.wf(),
            addr.wf(),
        ensures
            r == self@[ram_index(addr.x, addr.y)],
            r < 16,
    {
        let idx = addr.full();
        self.data[idx as usize]
    }

    /// Write a nibble to the given segmented address.
    pub fn write(&mut self, addr: RamAddr, val: u8)
        requires
            old(self).wf(),
            addr.wf(),
            val < 16,
        ensures
            final(self).wf(),
            final(self)@ == old(self)@.update(ram_index(addr.x, addr.y), val),
    {
        let idx = addr.full();
        self.data.set(idx as usize, val);
    }
}

/// Writing a nibble and reading it back at the same address yields the
/// written value, at every valid RAM address.
pub proof fn lemma_ram_write_read(ram: Seq<u8>, addr: RamAddr, val: u8)
    requires
        ram.len() == 128,
        addr.wf(),
    ensures
        ram.update(ram_index(addr.x, addr.y), val)[ram_index(addr.x, addr.y)] == val,
{
}

} // verus!
