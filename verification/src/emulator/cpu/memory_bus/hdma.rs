use vstd::prelude::*;

verus! {

/// CGB VRAM DMA (HDMA1-HDMA5): general-purpose or H-Blank transfers of 16-byte blocks.
#[derive(Clone, Copy)]
pub struct Hdma {
    pub source_high: u8,
    pub source_low: u8,
    pub dest_high: u8,
    pub dest_low: u8,
    pub mode_length: u8,
    pub active: bool,
    pub remaining_blocks: u8,
}

impl Hdma {
    pub open spec fn source_spec(self) -> u16 {
        (self.source_high as u16 * 256 + self.source_low as u16) as u16
    }

    /// Destination: bit 15 set, then the high and low registers.
    pub open spec fn dest_spec(self) -> u16 {
        0x8000u16 | ((self.dest_high as u16) << 8u16) | (self.dest_low as u16)
    }

    pub open spec fn h_blank_mode(self) -> bool {
        self.mode_length >= 0x80
    }

    pub open spec fn write_mode_length_next(self, value: u8) -> Hdma {
        if self.active && self.h_blank_mode() && value < 0x80 {
            Hdma {
                active: false,
                mode_length: (if self.remaining_blocks == 0 { 0u8 } else { (self.remaining_blocks - 1) as u8 }) | 0x80,
                ..self
            }
        } else {
            Hdma { mode_length: value, remaining_blocks: ((value % 0x80) + 1) as u8, active: true, ..self }
        }
    }

    pub open spec fn read_mode_length_spec(self) -> u8 {
        if self.active {
            (if self.remaining_blocks == 0 { 0u8 } else { (self.remaining_blocks - 1) as u8 }) % 0x80
        } else {
            0xFF
        }
    }

    /// State after one block and the `(source, destination)` of the block, if any.
    pub open spec fn transfer_block_next(self) -> (Hdma, Option<(u16, u16)>) {
        if !self.active || self.remaining_blocks == 0 {
            (self, None)
        } else {
            let source = self.source_spec();
            let dest = self.dest_spec();
            let ns = ((source + 16) % 0x10000) as u16;
            let nd = ((dest + 16) % 0x10000) as u16;
            let rem = (self.remaining_blocks - 1) as u8;
            (
                Hdma {
                    source_high: (ns / 256) as u8,
                    source_low: (ns % 256) as u8,
                    dest_high: ((nd / 256) % 0x20) as u8,
                    dest_low: (nd % 256) as u8,
                    remaining_blocks: rem,
                    active: rem != 0,
                    ..self
                },
                Some((source, dest)),
            )
        }
    }

    pub fn new() -> (res: Self)
        ensures
            res == (Hdma {
                source_high: 0xFF,
                source_low: 0xFF,
                dest_high: 0xFF,
                dest_low: 0xFF,
                mode_length: 0xFF,
                active: false,
                remaining_blocks: 0,
            }),
    {
        Self {
            source_high: 0xFF,
            source_low: 0xFF,
            dest_high: 0xFF,
            dest_low: 0xFF,
            mode_length: 0xFF,
            active: false,
            remaining_blocks: 0,
        }
    }

    pub fn is_active(&self) -> (res: bool)
        ensures
            res == self.active,
    {
        self.active
    }

    pub fn write_source_high(&mut self, value: u8)
        ensures
            *final(self) == (Hdma { source_high: value, ..*old(self) }),
    {
        self.source_high = value;
    }

    pub fn read_source_high(&self) -> (res: u8)
        ensures
            res == self.source_high,
    {
        self.source_high
    }

    /// The low 4 bits are dropped: blocks are 16-byte aligned.
    pub fn write_source_low(&mut self, value: u8)
        ensures
            *final(self) == (Hdma { source_low: value & 0xF0, ..*old(self) }),
    {
        self.source_low = value & 0xF0;
    }

    pub fn read_source_low(&self) -> (res: u8)
        ensures
            res == self.source_low,
    {
        self.source_low
    }

    /// Only bits 0-4 are kept: the destination lies in VRAM.
    pub fn write_dest_high(&mut self, value: u8)
        ensures
            *final(self) == (Hdma { dest_high: value & 0x1F, ..*old(self) }),
    {
        self.dest_high = value & 0x1F;
    }

    pub fn read_dest_high(&self) -> (res: u8)
        ensures
            res == self.dest_high,
    {
        self.dest_high
    }

    pub fn write_dest_low(&mut self, value: u8)
        ensures
            *final(self) == (Hdma { dest_low: value & 0xF0, ..*old(self) }),
    {
        self.dest_low = value & 0xF0;
    }

    pub fn read_dest_low(&self) -> (res: u8)
        ensures
            res == self.dest_low,
    {
        self.dest_low
    }

    /// HDMA5: starts a transfer of `(value & 0x7F) + 1` blocks, or stops an active H-Blank
    /// transfer when bit 7 is clear.
    pub fn write_mode_length(&mut self, value: u8)
        ensures
            *final(self) == old(self).write_mode_length_next(value),
    {
        assert((value & 0x80 == 0) == (value < 0x80) && (value & 0x7F) == value % 0x80) by (bit_vector);
        let m = self.mode_length;
        assert((m & 0x80 != 0) == (m >= 0x80)) by (bit_vector);
        if self.active && self.is_h_blank_mode() && (value & 0x80) == 0 {
            self.active = false;
            self.mode_length = self.remaining_blocks.saturating_sub(1) | 0x80;
            return;
        }
        let length = (value & 0x7F) + 1;
        self.mode_length = value;
        self.remaining_blocks = length;
        self.active = true;
    }

    pub fn read_mode_length(&self) -> (res: u8)
        ensures
            res == self.read_mode_length_spec(),
    {
        let r = self.remaining_blocks.saturating_sub(1);
        assert(r & 0x7F == r % 0x80) by (bit_vector);
        if self.active {
            self.remaining_blocks.saturating_sub(1) & 0x7F
        } else {
            0xFF
        }
    }

    pub fn get_source(&self) -> (res: u16)
        ensures
            res == self.source_spec(),
    {
        crate::emulator::cpu::registers::join(self.source_high, self.source_low)
    }

    pub fn get_dest(&self) -> (res: u16)
        ensures
            res == self.dest_spec(),
    {
        0x8000 | ((self.dest_high as u16) << 8) | (self.dest_low as u16)
    }

    pub fn is_h_blank_mode(&self) -> (res: bool)
        ensures
            res == self.h_blank_mode(),
    {
        let m = self.mode_length;
        assert((m & 0x80 != 0) == (m >= 0x80)) by (bit_vector);
        (self.mode_length & 0x80) != 0
    }

    /// Takes one 16-byte block: returns its `(source, destination)` and advances both.
    pub fn transfer_block(&mut self) -> (res: Option<(u16, u16)>)
        ensures
            (*final(self), res) == old(self).transfer_block_next(),
    {
        if !self.active || self.remaining_blocks == 0 {
            return None;
        }
        let source = self.get_source();
        let dest = self.get_dest();
        let new_source = source.wrapping_add(16);
        let (sh, sl) = crate::emulator::cpu::registers::split(new_source);
        self.source_high = sh;
        self.source_low = sl;
        let new_dest = dest.wrapping_add(16);
        assert(((new_dest >> 8u16) & 0x1F) == (new_dest / 256) % 0x20 && (new_dest & 0xFF) == new_dest % 256)
            by (bit_vector);
        self.dest_high = ((new_dest >> 8) & 0x1F) as u8;
        self.dest_low = (new_dest & 0xFF) as u8;
        self.remaining_blocks -= 1;
        if self.remaining_blocks == 0 {
            self.active = false;
        }
        Some((source, dest))
    }
}

/// State after `k` block transfers.
pub open spec fn blocks_done(h: Hdma, k: nat) -> Hdma
    decreases k,
{
    if k == 0 {
        h
    } else {
        blocks_done(h, (k - 1) as nat).transfer_block_next().0
    }
}

/// Registers holding source `s` and destination offset `o` (in VRAM), `r` blocks left.
pub open spec fn hdma_at(h: Hdma, s: int, o: int, r: int) -> Hdma {
    Hdma {
        source_high: (s / 256) as u8,
        source_low: (s % 256) as u8,
        dest_high: (o / 256) as u8,
        dest_low: (o % 256) as u8,
        remaining_blocks: r as u8,
        active: r != 0,
        ..h
    }
}

/// Bit-level facts of VRAM destinations: the register form of a destination and the
/// wrap of an advanced one within VRAM.
proof fn lemma_dest_bits(dh: u16, dl: u16, y: u16)
    by (bit_vector)
    requires
        dh < 32,
        dl < 256,
        y < 0x2010,
    ensures
        (0x8000u16 | (dh << 8u16) | dl) == 0x8000u16 + dh * 256 + dl,
        (((0x8000u16 + y) / 256) % 32) * 256 + (0x8000u16 + y) % 256 == y % 8192,
{
}

proof fn lemma_dest_in_vram(dh: u16, dl: u16)
    requires
        dh < 32,
        dl < 256,
    ensures
        (0x8000u16 | (dh << 8u16) | dl) == 0x8000u16 + dh * 256 + dl,
{
    lemma_dest_bits(dh, dl, 0);
}

proof fn lemma_dest_advance(y: u16)
    requires
        y < 0x2010,
    ensures
        (((0x8000u16 + y) / 256) % 32) * 256 + (0x8000u16 + y) % 256 == y % 8192,
{
    lemma_dest_bits(0, 0, y);
}

/// One block from the registers `hdma_at(h, s, o, r)` with `r > 0`: it copies from `s` to
/// `0x8000 + o`, and both addresses move on by 16 (the destination within VRAM).
#[verifier::rlimit(40)]
proof fn lemma_block_step(h: Hdma, s: int, o: int, r: int)
    requires
        0 <= s < 0x10000,
        0 <= o < 0x2000,
        0 < r <= 128,
    ensures
        hdma_at(h, s, o, r).transfer_block_next()
            == (hdma_at(h, (s + 16) % 0x10000, (o + 16) % 0x2000, r - 1), Some((s as u16, (0x8000 + o) as u16))),
{
    let a = hdma_at(h, s, o, r);
    vstd::arithmetic::div_mod::lemma_fundamental_div_mod(s, 256);
    vstd::arithmetic::div_mod::lemma_fundamental_div_mod(o, 256);
    assert(a.source_spec() == s);
    lemma_dest_in_vram((o / 256) as u16, (o % 256) as u16);
    assert(a.dest_spec() == 0x8000 + o);
    lemma_dest_advance((o + 16) as u16);
    let ns = ((s + 16) % 0x10000) as u16;
    let nd = ((0x8000 + o + 16) % 0x10000) as u16;
    assert(nd == 0x8000 + o + 16);
    let y = o + 16;
    vstd::arithmetic::div_mod::lemma_fundamental_div_mod(y % 0x2000, 256);
    assert(((nd / 256) % 0x20) * 256 + nd % 256 == y % 0x2000);
    assert((((nd / 256) % 0x20) as u8) as int == (y % 0x2000) / 256) by (nonlinear_arith)
        requires
            ((nd / 256) % 0x20) * 256 + nd % 256 == y % 0x2000,
            0 <= nd % 256 < 256,
            0 <= (nd / 256) % 0x20 < 0x20,
    ;
    assert(((nd % 256) as u8) as int == (y % 0x2000) % 256) by (nonlinear_arith)
        requires
            ((nd / 256) % 0x20) * 256 + nd % 256 == y % 0x2000,
            0 <= nd % 256 < 256,
            0 <= (nd / 256) % 0x20 < 0x20,
    ;
}

/// An HDMA transfer of `n = (value & 0x7F) + 1` blocks, started on an idle unit whose
/// destination lies in VRAM: block `k` (for `k` below `n`) copies from source + 16k to
/// VRAM offset (destination - 0x8000 + 16k) modulo 0x2000; the unit is idle after the
/// `n`-th block and copies nothing more.
#[verifier::rlimit(90)]
pub proof fn lemma_hdma_blocks(h: Hdma, value: u8, k: nat)
    requires
        !h.active,
        h.dest_high < 32,
    ensures
        ({
            let h0 = h.write_mode_length_next(value);
            let n = (value % 128 + 1) as nat;
            let src = h.source_spec() as int;
            let dst = h.dest_spec() as int;
            &&& k < n ==> blocks_done(h0, k).transfer_block_next().1
                == Some((((src + 16 * k) % 0x10000) as u16, (0x8000 + (dst - 0x8000 + 16 * k) % 0x2000) as u16))
            &&& k >= n ==> !blocks_done(h0, k).active && blocks_done(h0, k).transfer_block_next().1 is None
        }),
    decreases k,
{
    let h0 = h.write_mode_length_next(value);
    let n = (value % 128 + 1) as nat;
    let src = h.source_spec() as int;
    let dst = h.dest_spec() as int;
    lemma_dest_in_vram(h.dest_high as u16, h.dest_low as u16);
    lemma_hdma_progress(h, value, if k <= n { k } else { n });
    if k > n {
        lemma_hdma_blocks(h, value, (k - 1) as nat);
    } else if k < n {
        lemma_block_step(h0, (src + 16 * k) % 0x10000, (dst - 0x8000 + 16 * k) % 0x2000, n - k);
    }
}

/// The registers after `k <= n` blocks.
#[verifier::rlimit(90)]
proof fn lemma_hdma_progress(h: Hdma, value: u8, k: nat)
    requires
        !h.active,
        h.dest_high < 32,
        k <= value % 128 + 1,
    ensures
        ({
            let h0 = h.write_mode_length_next(value);
            let n = value % 128 + 1;
            blocks_done(h0, k) == hdma_at(
                h0,
                (h.source_spec() + 16 * k) % 0x10000,
                (h.dest_spec() - 0x8000 + 16 * k) % 0x2000,
                n - k,
            )
        }),
    decreases k,
{
    let h0 = h.write_mode_length_next(value);
    let n = value % 128 + 1;
    let src = h.source_spec() as int;
    let dst = h.dest_spec() as int;
    lemma_dest_in_vram(h.dest_high as u16, h.dest_low as u16);
    if k == 0 {
        vstd::arithmetic::div_mod::lemma_fundamental_div_mod(src, 256);
        vstd::arithmetic::div_mod::lemma_fundamental_div_mod(dst - 0x8000, 256);
        assert(h.source_spec() == h.source_high * 256 + h.source_low);
        assert(blocks_done(h0, 0) =~= hdma_at(h0, src % 0x10000, (dst - 0x8000) % 0x2000, n));
    } else {
        let j = (k - 1) as nat;
        lemma_hdma_progress(h, value, j);
        lemma_block_step(h0, (src + 16 * j) % 0x10000, (dst - 0x8000 + 16 * j) % 0x2000, n - j);
        vstd::arithmetic::div_mod::lemma_add_mod_noop(src + 16 * j, 16, 0x10000);
        vstd::arithmetic::div_mod::lemma_add_mod_noop(dst - 0x8000 + 16 * j, 16, 0x2000);
    }
}

} // verus!
