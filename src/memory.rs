use vstd::prelude::*;

use crate::cpu::registry::{hi_byte, lo_byte, pair, wrap16};

verus! {

/// Number of addressable bytes.
pub const MEMORY_SIZE: usize = 0x10000;
/// Number of bytes of the boot image that overlays the lowest addresses.
pub const BOOTROM_SIZE: usize = 0x100;

/// The address that follows `addr`, wrapping from 0xFFFF to 0.
pub open spec fn next_addr(addr: u16) -> u16 {
    wrap16(addr + 1)
}

/// `ram` after storing `v` at `addr`.
pub open spec fn store_byte(ram: Seq<u8>, addr: u16, v: u8) -> Seq<u8> {
    ram.update(addr as int, v)
}

/// `ram` after storing `v` little-endian at `addr` and the address after it.
pub open spec fn store_word(ram: Seq<u8>, addr: u16, v: u16) -> Seq<u8> {
    store_byte(store_byte(ram, addr, lo_byte(v)), next_addr(addr), hi_byte(v))
}

/// The 16-bit address space, with a boot image that can overlay its lowest
/// 256 bytes for reading.
pub struct Memory {
    pub memory: Vec<u8>,
    pub bootrom: Vec<u8>,
    pub in_bootrom: bool,
}

impl Memory {
    pub open spec fn wf(&self) -> bool {
        &&& self.memory@.len() == MEMORY_SIZE
        &&& self.bootrom@.len() == BOOTROM_SIZE
    }

    /// The byte a read of `addr` sees: the boot image below 0x100 while it is
    /// mapped, else the backing store.
    pub open spec fn byte_at(&self, addr: u16) -> u8 {
        if addr < 0x100 && self.in_bootrom {
            self.bootrom@[addr as int]
        } else {
            self.memory@[addr as int]
        }
    }

    /// The little-endian word a read of `addr` sees.
    pub open spec fn word_at(&self, addr: u16) -> u16 {
        pair(self.byte_at(next_addr(addr)), self.byte_at(addr))
    }

    /// Zero-filled memory with a zero-filled boot image that is not mapped.
    pub fn new() -> (r: Memory)
        ensures
            r.wf(),
            !r.in_bootrom,
            forall|i: int| 0 <= i < MEMORY_SIZE ==> r.memory@[i] == 0,
            forall|i: int| 0 <= i < BOOTROM_SIZE ==> r.bootrom@[i] == 0,
    {
        Memory { memory: vec![0u8; MEMORY_SIZE], bootrom: vec![0u8; BOOTROM_SIZE], in_bootrom: false }
    }

    /// Copies `file` into the backing store from address 0; bytes past the end
    /// of the address space are left out.
    pub fn load_rom(&mut self, file: Vec<u8>)
        requires
            old(self).wf(),
        ensures
            final(self).wf(),
            final(self).bootrom@ == old(self).bootrom@,
            final(self).in_bootrom == old(self).in_bootrom,
            forall|i: int|
                0 <= i < MEMORY_SIZE ==> final(self).memory@[i] == if i < file@.len() {
                    file@[i]
                } else {
                    old(self).memory@[i]
                },
    {
        let n: usize = if file.len() < MEMORY_SIZE { file.len() } else { MEMORY_SIZE };
        let mut i: usize = 0;
        while i < n
            invariant
                n <= file@.len(),
                n <= MEMORY_SIZE,
                i <= n,
                self.memory@.len() == MEMORY_SIZE,
                self.bootrom@ == old(self).bootrom@,
                self.in_bootrom == old(self).in_bootrom,
                forall|j: int|
                    0 <= j < MEMORY_SIZE ==> self.memory@[j] == if j < i {
                        file@[j]
                    } else {
                        old(self).memory@[j]
                    },
            decreases n - i,
        {
            self.memory.set(i, file[i]);
            i = i + 1;
        }
    }

    /// Copies `image` into the boot image (bytes past its 256th are left out)
    /// and maps it over the lowest addresses.
    pub fn load_bootrom(&mut self, image: Vec<u8>)
        requires
            old(self).wf(),
        ensures
            final(self).wf(),
            final(self).memory@ == old(self).memory@,
            final(self).in_bootrom,
            forall|i: int|
                0 <= i < BOOTROM_SIZE ==> final(self).bootrom@[i] == if i < image@.len() {
                    image@[i]
                } else {
                    old(self).bootrom@[i]
                },
    {
        let n: usize = if image.len() < BOOTROM_SIZE { image.len() } else { BOOTROM_SIZE };
        let mut i: usize = 0;
        while i < n
            invariant
                n <= image@.len(),
                n <= BOOTROM_SIZE,
                i <= n,
                self.bootrom@.len() == BOOTROM_SIZE,
                self.memory@ == old(self).memory@,
                forall|j: int|
                    0 <= j < BOOTROM_SIZE ==> self.bootrom@[j] == if j < i {
                        image@[j]
                    } else {
                        old(self).bootrom@[j]
                    },
            decreases n - i,
        {
            self.bootrom.set(i, image[i]);
            i = i + 1;
        }
        self.in_bootrom = true;
    }

    pub fn read_byte(&self, address: u16) -> (r: u8)
        requires
            self.wf(),
        ensures
            r == self.byte_at(address),
    {
        if address < 0x100 && self.in_bootrom {
            self.bootrom[address as usize]
        } else {
            self.memory[address as usize]
        }
    }

    /// Reads the little-endian word at `address` and the address after it.
    pub fn read_word(&self, address: u16) -> (r: u16)
        requires
            self.wf(),
        ensures
            r == self.word_at(address),
    {
        let lo = self.read_byte(address);
        let hi = self.read_byte(address.wrapping_add(1));
        (hi as u16) * 256 + (lo as u16)
    }

    /// Stores `value` little-endian at `address` and the address after it.
    pub fn write_word(&mut self, address: u16, value: u16)
        requires
            old(self).wf(),
        ensures
            final(self).wf(),
            final(self).bootrom@ == old(self).bootrom@,
            final(self).in_bootrom == old(self).in_bootrom,
            final(self).memory@ == store_word(old(self).memory@, address, value),
    {
        self.write_byte(address, (value % 256) as u8);
        self.write_byte(address.wrapping_add(1), (value / 256) as u8);
    }

    /// Stores `value` at `address` of the backing store.
    pub fn write_byte(&mut self, address: u16, value: u8)
        requires
            old(self).wf(),
        ensures
            final(self).wf(),
            final(self).bootrom@ == old(self).bootrom@,
            final(self).in_bootrom == old(self).in_bootrom,
            final(self).memory@ == store_byte(old(self).memory@, address, value),
    {
        self.memory.set(address as usize, value);
    }
}

} // verus!
