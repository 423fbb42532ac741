use vstd::prelude::*;
use vstd::utf8::{valid_utf8, decode_utf8, is_char_boundary};
use crate::emulator::cart::mbc::{MbcType, is_supported_cart_type, cart_type_has_battery};

pub mod licensee;
pub mod mbc;
pub mod mbc_type;

verus! {

/// Size of the part of a ROM image that holds the cartridge header.
pub const HEADER_END: usize = 0x150;

/// Size of the built-in RAM of an MBC2 (512 half-bytes).
pub const MBC2_RAM_SIZE: usize = 0x200;

/// Cartridge header fields (0x0134-0x014D of the ROM).
#[derive(Clone, Copy)]
pub struct Header {
    pub title: [u8; 16],
    pub new_lic_code: u16,
    pub sgb_flag: u8,
    pub cart_type: u8,
    pub rom_size: u8,
    pub ram_size: u8,
    pub dest_code: u8,
    pub lic_code: u8,
    pub version: u8,
    pub checksum: u8,
    pub cgb_flag: u8,
}

/// Number of 16 KiB ROM banks for a header ROM-size code (0 for an unknown code).
pub open spec fn rom_banks_for(code: u8) -> usize {
    if code == 0x00 {
        2
    } else if code == 0x01 {
        4
    } else if code == 0x02 {
        8
    } else if code == 0x03 {
        16
    } else if code == 0x04 {
        32
    } else if code == 0x05 {
        64
    } else if code == 0x06 {
        128
    } else if code == 0x07 {
        256
    } else if code == 0x08 {
        512
    } else if code == 0x52 {
        72
    } else if code == 0x53 {
        80
    } else if code == 0x54 {
        96
    } else {
        0
    }
}

/// Bytes of cartridge RAM for a header RAM-size code (0 for none, unused or unknown).
pub open spec fn ram_bytes_for(code: u8) -> usize {
    if code == 2 {
        0x2000
    } else if code == 3 {
        0x8000
    } else if code == 4 {
        0x20000
    } else if code == 5 {
        0x10000
    } else {
        0
    }
}

/// Number of 8 KiB RAM banks for a header RAM-size code.
pub open spec fn ram_banks_for(code: u8) -> usize {
    if code == 2 {
        1
    } else if code == 3 {
        4
    } else if code == 4 {
        16
    } else if code == 5 {
        8
    } else {
        0
    }
}

impl Header {
    /// The header read from the bytes of a ROM image.
    pub open spec fn parsed_from(self, rom: Seq<u8>) -> bool {
        &&& self.title@ == rom.subrange(0x134, 0x144)
        &&& self.new_lic_code == rom[0x144] as int * 256 + rom[0x145] as int
        &&& self.sgb_flag == rom[0x146]
        &&& self.cart_type == rom[0x147]
        &&& self.rom_size == rom[0x148]
        &&& self.ram_size == rom[0x149]
        &&& self.dest_code == rom[0x14A]
        &&& self.lic_code == rom[0x14B]
        &&& self.version == rom[0x14C]
        &&& self.checksum == rom[0x14D]
        &&& self.cgb_flag == rom[0x143]
    }

    pub fn new(rom: &[u8]) -> (res: Self)
        requires
            rom@.len() >= HEADER_END,
        ensures
            res.parsed_from(rom@),
    {
        let mut title = [0u8; 16];
        let mut i: usize = 0;
        while i < 16
            invariant
                i <= 16,
                rom@.len() >= HEADER_END,
                title@.len() == 16,
                forall|j: int| 0 <= j < i ==> title@[j] == rom@[0x134 + j],
            decreases 16 - i,
        {
            title[i] = rom[0x134 + i];
            i = i + 1;
        }
        assert(title@ =~= rom@.subrange(0x134, 0x144));
        let hi = rom[0x144];
        let lo = rom[0x145];
        assert(((hi as u16) << 8u16) | (lo as u16) == hi as u16 * 256 + lo as u16) by (bit_vector);
        Header {
            title,
            new_lic_code: ((hi as u16) << 8) | lo as u16,
            sgb_flag: rom[0x146],
            cart_type: rom[0x147],
            rom_size: rom[0x148],
            ram_size: rom[0x149],
            dest_code: rom[0x14A],
            lic_code: rom[0x14B],
            version: rom[0x14C],
            checksum: rom[0x14D],
            cgb_flag: rom[0x143],
        }
    }

    pub fn get_rom_banks_number(&self) -> (res: usize)
        ensures
            res == rom_banks_for(self.rom_size),
    {
        match self.rom_size {
            0x00 => 2,
            0x01 => 4,
            0x02 => 8,
            0x03 => 16,
            0x04 => 32,
            0x05 => 64,
            0x06 => 128,
            0x07 => 256,
            0x08 => 512,
            0x52 => 72,
            0x53 => 80,
            0x54 => 96,
            _ => 0,
        }
    }

    pub fn get_ram_size_in_bytes(&self) -> (res: usize)
        ensures
            res == ram_bytes_for(self.ram_size),
    {
        match self.ram_size {
            2 => 8 * 1024,
            3 => 32 * 1024,
            4 => 128 * 1024,
            5 => 64 * 1024,
            _ => 0,
        }
    }

    pub fn get_ram_banks_number(&self) -> (res: usize)
        ensures
            res == ram_banks_for(self.ram_size),
    {
        match self.ram_size {
            2 => 1,
            3 => 4,
            4 => 16,
            5 => 8,
            _ => 0,
        }
    }

    /// Publisher name: the new licensee code is used when the old one reads 0x33.
    pub fn lic_to_string(&self) -> (res: &'static str)
        ensures
            res == (if self.lic_code == 0x33 {
                crate::emulator::cart::licensee::new_licensee_name(self.new_lic_code)
            } else {
                crate::emulator::cart::licensee::old_licensee_name(self.lic_code)
            }),
    {
        match self.lic_code {
            0x33 => crate::emulator::cart::licensee::new_name(self.new_lic_code),
            _ => crate::emulator::cart::licensee::old_name(self.lic_code),
        }
    }

    pub fn cart_type_to_string(&self) -> (res: &'static str)
        ensures
            res == crate::emulator::cart::mbc::cart_type_name(self.cart_type),
    {
        MbcType::name(self.cart_type)
    }
}

/// Index of the first byte at or after `i` that is not NUL (the length when there is none).
pub open spec fn first_non_nul_from(t: Seq<u8>, i: int) -> int
    decreases t.len() - i,
{
    if i < 0 || i >= t.len() || t[i] != 0 {
        i
    } else {
        first_non_nul_from(t, i + 1)
    }
}

/// End of the bytes of `t` before `j` once NUL bytes down to `lo` are dropped.
pub open spec fn end_without_nuls(t: Seq<u8>, j: int, lo: int) -> int
    decreases j - lo,
{
    if j <= lo || j > t.len() || t[j - 1] != 0 {
        j
    } else {
        end_without_nuls(t, j - 1, lo)
    }
}

/// The title bytes with leading and trailing NUL bytes removed.
pub open spec fn title_core(t: Seq<u8>) -> Seq<u8> {
    let s = first_non_nul_from(t, 0);
    t.subrange(s, end_without_nuls(t, t.len() as int, s))
}

/// The title as text: its UTF-8 decoding without leading and trailing NUL characters, or
/// "Unknown Title" when the bytes are not UTF-8.
pub open spec fn title_text(t: Seq<u8>) -> Seq<char> {
    if valid_utf8(t) {
        decode_utf8(title_core(t))
    } else {
        "Unknown Title"@
    }
}

/// `std::str::from_utf8`: `Some` exactly when the bytes are valid UTF-8, holding the text
/// they decode to.
#[verifier::external_body]
fn str_from_utf8<'a>(bytes: &'a [u8]) -> (res: Option<&'a str>)
    ensures
        res.is_some() == valid_utf8(bytes@),
        res matches Some(s) ==> s@ == decode_utf8(bytes@),
{
    std::str::from_utf8(bytes).ok()
}

/// A position in a UTF-8 text preceded only by NUL bytes is a character boundary.
proof fn lemma_nul_prefix_boundary(t: Seq<u8>, k: int)
    requires
        valid_utf8(t),
        0 <= k <= t.len(),
        forall|i: int| 0 <= i < k ==> t[i] == 0,
    ensures
        is_char_boundary(t, k),
    decreases k,
{
    if k > 0 {
        let p = t.subrange(1, t.len() as int);
        assert(vstd::utf8::pop_first_scalar(t) == p);
        lemma_nul_prefix_boundary(p, k - 1);
    }
}

/// Removing NUL bytes from both ends of a UTF-8 text leaves UTF-8 text.
proof fn lemma_core_valid(t: Seq<u8>, s: int, e: int)
    requires
        valid_utf8(t),
        0 <= s <= e <= t.len(),
        forall|i: int| 0 <= i < s ==> t[i] == 0,
        forall|i: int| e <= i < t.len() ==> t[i] == 0,
    ensures
        valid_utf8(t.subrange(s, e)),
{
    lemma_nul_prefix_boundary(t, s);
    vstd::utf8::valid_utf8_split(t, s);
    let u = t.subrange(s, t.len() as int);
    if e < t.len() {
        assert(u[e - s] == 0);
        vstd::utf8::is_char_boundary_iff_is_leading_byte(u, e - s);
    } else {
        vstd::utf8::is_char_boundary_start_end_of_seq(u);
    }
    vstd::utf8::valid_utf8_split(u, e - s);
    assert(u.subrange(0, e - s) =~= t.subrange(s, e));
}

/// A cartridge: ROM image, header, external RAM and memory bank controller.
#[derive(Clone)]
pub struct Cart {
    pub rom_data: Vec<u8>,
    pub header: Header,
    pub ram_data: Vec<u8>,
    pub mbc_type: MbcType,
}

/// Mathematical model of a [`Cart`].
pub struct CartView {
    pub rom: Seq<u8>,
    pub header: Header,
    pub ram: Seq<u8>,
    pub mbc: MbcType,
}

impl View for Cart {
    type V = CartView;

    open spec fn view(&self) -> CartView {
        CartView { rom: self.rom_data@, header: self.header, ram: self.ram_data@, mbc: self.mbc_type }
    }
}

impl CartView {
    pub open spec fn wf(self) -> bool {
        self.mbc.wf_with(self.rom, self.ram)
    }

    pub open spec fn read_rom_spec(self, address: u16) -> u8 {
        self.mbc.read_rom_spec(self.rom, address)
    }

    pub open spec fn is_cgb_spec(self) -> bool {
        self.header.cgb_flag == 0x80 || self.header.cgb_flag == 0xC0
    }

    pub open spec fn read_ram_spec(self, address: u16) -> u8 {
        self.mbc.read_ram_spec(self.ram, address)
    }

    /// Cartridge after a write to 0x0000-0x7FFF, the wall clock reading `now`.
    pub open spec fn write_rom_next(self, address: u16, value: u8, now: u64) -> CartView {
        CartView { mbc: self.mbc.write_rom_next(address, value, now), ..self }
    }

    /// Cartridge after a write to 0xA000-0xBFFF, the wall clock reading `now`.
    pub open spec fn write_ram_next(self, address: u16, value: u8, now: u64) -> CartView {
        let (m, r) = self.mbc.write_ram_next(self.ram, address, value, now);
        CartView { mbc: m, ram: r, ..self }
    }
}

/// Bytes of RAM a cartridge gets: the header's size, or the built-in RAM of an MBC2.
pub open spec fn cart_ram_len(rom: Seq<u8>) -> usize {
    if rom[0x147] == 0x05 || rom[0x147] == 0x06 {
        MBC2_RAM_SIZE
    } else {
        ram_bytes_for(rom[0x149])
    }
}

/// Controller that a ROM image asks for.
pub open spec fn cart_mbc(rom: Seq<u8>) -> MbcType {
    MbcType::from_byte_spec(rom[0x147], rom_banks_for(rom[0x148]), ram_banks_for(rom[0x149]))
}

/// ROM images that make a cartridge: a whole header, a supported controller type, and a
/// controller that can map the ROM (bank count it handles, all banks present).
pub open spec fn rom_accepted(rom: Seq<u8>) -> bool {
    &&& rom.len() >= HEADER_END
    &&& is_supported_cart_type(rom[0x147])
    &&& cart_mbc(rom).wf_with(rom, Seq::new(cart_ram_len(rom) as nat, |_i: int| 0u8))
}

/// Header checksum: for each byte of 0x134..`end`, subtract the byte and one, modulo 256.
pub open spec fn header_checksum_upto(rom: Seq<u8>, end: int) -> u8
    decreases end - 0x134,
{
    if end <= 0x134 {
        0
    } else {
        header_checksum_upto(rom, end - 1).wrapping_sub(rom[end - 1]).wrapping_sub(1)
    }
}

impl Cart {
    pub open spec fn wf(&self) -> bool {
        self@.wf()
    }

    /// Cartridge for a ROM image; `None` for an image it cannot run.
    pub fn new(rom_data: Vec<u8>) -> (res: Option<Cart>)
        ensures
            res.is_some() == rom_accepted(rom_data@),
            res matches Some(c) ==> {
                &&& c.wf()
                &&& c.rom_data@ == rom_data@
                &&& c.header.parsed_from(rom_data@)
                &&& c.ram_data@ == Seq::new(cart_ram_len(rom_data@) as nat, |_i: int| 0u8)
                &&& c.mbc_type == cart_mbc(rom_data@)
            },
    {
        if rom_data.len() < HEADER_END {
            return None;
        }
        let header = Header::new(rom_data.as_slice());
        if !MbcType::is_supported(header.cart_type) {
            return None;
        }
        let ram_size = if header.cart_type == 0x05 || header.cart_type == 0x06 {
            MBC2_RAM_SIZE
        } else {
            header.get_ram_size_in_bytes()
        };
        let rom_banks = header.get_rom_banks_number();
        let ram_banks = header.get_ram_banks_number();
        let mbc_type = MbcType::from_byte(header.cart_type, rom_banks, ram_banks);
        let ram_data = vec![0u8; ram_size];
        assert(ram_data@ =~= Seq::new(cart_ram_len(rom_data@) as nat, |_i: int| 0u8));
        if !mbc_type.fits(rom_data.as_slice(), ram_data.as_slice()) {
            return None;
        }
        Some(Cart { rom_data, header, ram_data, mbc_type })
    }

    pub fn has_battery(&self) -> (res: bool)
        ensures
            res == cart_type_has_battery(self.header.cart_type),
    {
        MbcType::has_battery(self.header.cart_type)
    }

    pub fn is_cgb(&self) -> (res: bool)
        ensures
            res == (self.header.cgb_flag == 0x80 || self.header.cgb_flag == 0xC0),
    {
        self.header.cgb_flag == 0x80 || self.header.cgb_flag == 0xC0
    }

    pub fn is_cgb_only(&self) -> (res: bool)
        ensures
            res == (self.header.cgb_flag == 0xC0),
    {
        self.header.cgb_flag == 0xC0
    }

    /// Title from the header.
    pub fn get_title(&self) -> (res: String)
        ensures
            res@ == title_text(self.header.title@),
    {
        let title = self.header.title;
        let mut start: usize = 0;
        while start < 16 && title[start] == 0
            invariant
                start <= 16,
                title@.len() == 16,
                first_non_nul_from(title@, 0) == first_non_nul_from(title@, start as int),
                forall|i: int| 0 <= i < start ==> title@[i] == 0,
            decreases 16 - start,
        {
            start = start + 1;
        }
        let mut end: usize = 16;
        while end > start && title[end - 1] == 0
            invariant
                start <= end <= 16,
                title@.len() == 16,
                first_non_nul_from(title@, 0) == start,
                end_without_nuls(title@, 16, start as int) == end_without_nuls(title@, end as int, start as int),
                forall|i: int| end <= i < 16 ==> title@[i] == 0,
            decreases end,
        {
            end = end - 1;
        }
        let whole = str_from_utf8(title.as_slice());
        if whole.is_none() {
            return String::from_str("Unknown Title");
        }
        proof {
            lemma_core_valid(title@, start as int, end as int);
        }
        let core = vstd::slice::slice_subrange(title.as_slice(), start, end);
        match str_from_utf8(core) {
            Some(s) => String::from_str(s),
            None => String::from_str("Unknown Title"),
        }
    }

    /// Whether the header checksum byte matches the header bytes.
    pub fn is_checksum_valid(&self) -> (res: bool)
        requires
            self.rom_data@.len() >= HEADER_END,
        ensures
            res == (header_checksum_upto(self.rom_data@, 0x14D) == self.header.checksum),
    {
        let mut x: u8 = 0;
        let mut i: usize = 0x134;
        while i <= 0x14C
            invariant
                0x134 <= i <= 0x14D,
                self.rom_data@.len() >= HEADER_END,
                x == header_checksum_upto(self.rom_data@, i as int),
            decreases 0x14D - i,
        {
            x = x.wrapping_sub(self.rom_data[i]).wrapping_sub(1);
            i = i + 1;
        }
        x == self.header.checksum
    }

    /// Reads the ROM area (0x0000-0x7FFF) through the controller.
    pub fn read_rom(&self, address: u16) -> (res: u8)
        requires
            self.wf(),
        ensures
            res == self@.read_rom_spec(address),
    {
        self.mbc_type.read_rom(self.rom_data.as_slice(), address)
    }

    /// Writes to the ROM area, which drives the controller.
    pub fn write_rom(&mut self, address: u16, value: u8)
        requires
            old(self).wf(),
            0x2000 <= address <= 0x3FFF ==> old(self)@.mbc.bank_switch_ok(),
        ensures
            final(self).wf(),
            final(self)@.mbc.bank_switch_ok() == old(self)@.mbc.bank_switch_ok(),
            exists|now: u64| final(self)@ == old(self)@.write_rom_next(address, value, now),
    {
        let ghost before = self@;
        self.mbc_type.write_rom(address, value);
        proof {
            let w = choose|now: u64| self.mbc_type == before.mbc.write_rom_next(address, value, now);
            assert(self@ == before.write_rom_next(address, value, w));
        }
    }

    /// Reads the RAM area (0xA000-0xBFFF) through the controller.
    pub fn read_ram(&self, address: u16) -> (res: u8)
        requires
            self.wf(),
            0xA000 <= address,
        ensures
            res == self@.read_ram_spec(address),
    {
        self.mbc_type.read_ram(self.ram_data.as_slice(), address)
    }

    /// Writes to the RAM area through the controller.
    pub fn write_ram(&mut self, address: u16, value: u8)
        requires
            old(self).wf(),
            0xA000 <= address,
        ensures
            final(self).wf(),
            exists|now: u64| final(self)@ == old(self)@.write_ram_next(address, value, now),
    {
        let ghost before = self@;
        self.mbc_type.write_ram(self.ram_data.as_mut_slice(), address, value);
        proof {
            let w = choose|now: u64|
                (self.mbc_type, self.ram_data@) == before.mbc.write_ram_next(before.ram, address, value, now);
            assert(self@ == before.write_ram_next(address, value, w));
        }
    }
}

} // verus!
