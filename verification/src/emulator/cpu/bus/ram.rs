use vstd::prelude::*;

verus! {

pub const WRAM_SIZE: usize = 0x2000;
pub const WRAM_OFFSET: usize = 0xC000;
pub const HRAM_SIZE: usize = 0x80;
pub const HRAM_OFFSET: usize = 0xFF80;

/// Work RAM (0xC000-0xDFFF) and high RAM (0xFF80-0xFFFF).
pub struct RAM {
    wram: [u8; 0x2000],
    hram: [u8; 0x80],
}

/// Contents of the two RAM areas.
pub struct RamView {
    pub wram: Seq<u8>,
    pub hram: Seq<u8>,
}

impl View for RAM {
    type V = RamView;

    closed spec fn view(&self) -> RamView {
        RamView { wram: self.wram@, hram: self.hram@ }
    }
}

impl RAM {
    /// Both areas zeroed.
    pub fn new() -> (ram: Self)
        ensures
            ram@.wram == Seq::new(WRAM_SIZE as nat, |i: int| 0u8),
            ram@.hram == Seq::new(HRAM_SIZE as nat, |i: int| 0u8),
    {
        let ram = Self { wram: [0; 0x2000], hram: [0; 0x80] };
        assert(ram@.wram =~= Seq::new(WRAM_SIZE as nat, |i: int| 0u8));
        assert(ram@.hram =~= Seq::new(HRAM_SIZE as nat, |i: int| 0u8));
        ram
    }

    /// Both areas always have their full size.
    pub proof fn lemma_sizes(&self)
        ensures
            self@.wram.len() == WRAM_SIZE,
            self@.hram.len() == HRAM_SIZE,
    {
    }

    /// The work-RAM byte at `address`.
    pub fn read_wram(&self, address: usize) -> (res: u8)
        requires
            WRAM_OFFSET <= address < WRAM_OFFSET + WRAM_SIZE,
        ensures
            res == self@.wram[address - WRAM_OFFSET],
    {
        self.wram[address - WRAM_OFFSET]
    }

    /// Stores `value` at `address` of work RAM; nothing else changes.
    pub fn write_wram(&mut self, address: usize, value: u8)
        requires
            WRAM_OFFSET <= address < WRAM_OFFSET + WRAM_SIZE,
        ensures
            final(self)@.wram == old(self)@.wram.update(address - WRAM_OFFSET, value),
            final(self)@.hram == old(self)@.hram,
    {
        self.wram[address - WRAM_OFFSET] = value;
    }

    /// The high-RAM byte at `address`.
    pub fn read_hram(&self, address: usize) -> (res: u8)
        requires
            HRAM_OFFSET <= address < HRAM_OFFSET + HRAM_SIZE,
        ensures
            res == self@.hram[address - HRAM_OFFSET],
    {
        self.hram[address - HRAM_OFFSET]
    }

    /// Stores `value` at `address` of high RAM; nothing else changes.
    pub fn write_hram(&mut self, address: usize, value: u8)
        requires
            HRAM_OFFSET <= address < HRAM_OFFSET + HRAM_SIZE,
        ensures
            final(self)@.hram == old(self)@.hram.update(address - HRAM_OFFSET, value),
            final(self)@.wram == old(self)@.wram,
    {
        self.hram[address - HRAM_OFFSET] = value;
    }
}

/// A read of work RAM gives back the last byte written at that address, and a write
/// leaves every other address, and all of high RAM, as it was.
pub proof fn lemma_wram_read_after_write(before: RamView, after: RamView, address: usize, value: u8, other: usize)
    requires
        before.wram.len() == WRAM_SIZE,
        WRAM_OFFSET <= address < WRAM_OFFSET + WRAM_SIZE,
        WRAM_OFFSET <= other < WRAM_OFFSET + WRAM_SIZE,
        after.wram == before.wram.update(address - WRAM_OFFSET, value),
        after.hram == before.hram,
    ensures
        after.wram[address - WRAM_OFFSET] == value,
        other != address ==> after.wram[other - WRAM_OFFSET] == before.wram[other - WRAM_OFFSET],
        after.hram == before.hram,
{
}

/// The same for high RAM.
pub proof fn lemma_hram_read_after_write(before: RamView, after: RamView, address: usize, value: u8, other: usize)
    requires
        before.hram.len() == HRAM_SIZE,
        HRAM_OFFSET <= address < HRAM_OFFSET + HRAM_SIZE,
        HRAM_OFFSET <= other < HRAM_OFFSET + HRAM_SIZE,
        after.hram == before.hram.update(address - HRAM_OFFSET, value),
        after.wram == before.wram,
    ensures
        after.hram[address - HRAM_OFFSET] == value,
        other != address ==> after.hram[other - HRAM_OFFSET] == before.hram[other - HRAM_OFFSET],
        after.wram == before.wram,
{
}

} // verus!
