use vstd::prelude::*;

verus! {

pub const ZERO_FLAG_POS: u8 = 7;
pub const SUB_FLAG_POS: u8 = 6;
pub const HALF_CARRY_FLAG_POS: u8 = 5;
pub const CARRY_FLAG_POS: u8 = 4;

/// The F register as four flags; its low nibble always reads as 0.
#[derive(Clone, Copy, PartialEq, Eq, Structural)]
pub struct FlagsRegister {
    pub z: bool,
    pub n: bool,
    pub h: bool,
    pub c: bool,
}

/// The eight 8-bit registers with the program counter and stack pointer.
#[derive(Clone, Copy)]
pub struct Registers {
    pub a: u8,
    pub b: u8,
    pub c: u8,
    pub d: u8,
    pub e: u8,
    pub f: FlagsRegister,
    pub h: u8,
    pub l: u8,
    pub pc: u16,
    pub sp: u16,
}

/// Byte encoding of the flags: Z in bit 7, N in 6, H in 5, C in 4.
pub open spec fn flags_to_byte(f: FlagsRegister) -> u8 {
    ((if f.z { 0x80u8 } else { 0u8 }) + (if f.n { 0x40u8 } else { 0u8 }) + (if f.h { 0x20u8 } else { 0u8 })
        + (if f.c { 0x10u8 } else { 0u8 })) as u8
}

/// Flags decoded from bits 7-4 of a byte.
pub open spec fn byte_to_flags(b: u8) -> FlagsRegister {
    FlagsRegister {
        z: (b / 128) % 2 == 1,
        n: (b / 64) % 2 == 1,
        h: (b / 32) % 2 == 1,
        c: (b / 16) % 2 == 1,
    }
}

/// Big-endian pair of two 8-bit registers.
pub open spec fn pair(hi: u8, lo: u8) -> u16 {
    (hi as u16 * 256 + lo as u16) as u16
}

pub open spec fn hi_byte(v: u16) -> u8 {
    (v / 256) as u8
}

pub open spec fn lo_byte(v: u16) -> u8 {
    (v % 256) as u8
}

impl FlagsRegister {
    pub fn default() -> (res: FlagsRegister)
        ensures
            res == (FlagsRegister { z: false, n: false, h: false, c: false }),
    {
        FlagsRegister { z: false, n: false, h: false, c: false }
    }
}

impl From<FlagsRegister> for u8 {
    fn from(flag: FlagsRegister) -> (res: u8) {
        (if flag.z { 1u8 } else { 0u8 }) << ZERO_FLAG_POS | (if flag.n { 1u8 } else { 0u8 }) << SUB_FLAG_POS
            | (if flag.h { 1u8 } else { 0u8 }) << HALF_CARRY_FLAG_POS | (if flag.c { 1u8 } else { 0u8 })
            << CARRY_FLAG_POS
    }
}

impl vstd::std_specs::convert::FromSpecImpl<FlagsRegister> for u8 {
    open spec fn obeys_from_spec() -> bool {
        true
    }

    open spec fn from_spec(flag: FlagsRegister) -> u8 {
        (if flag.z { 1u8 } else { 0u8 }) << ZERO_FLAG_POS | (if flag.n { 1u8 } else { 0u8 }) << SUB_FLAG_POS
            | (if flag.h { 1u8 } else { 0u8 }) << HALF_CARRY_FLAG_POS | (if flag.c { 1u8 } else { 0u8 })
            << CARRY_FLAG_POS
    }
}

impl From<u8> for FlagsRegister {
    fn from(byte: u8) -> (res: FlagsRegister) {
        let zero = ((byte >> ZERO_FLAG_POS) & 0b1) != 0;
        let sub = ((byte >> SUB_FLAG_POS) & 0b1) != 0;
        let half_carry = ((byte >> HALF_CARRY_FLAG_POS) & 0b1) != 0;
        let carry = ((byte >> CARRY_FLAG_POS) & 0b1) != 0;
        FlagsRegister { z: zero, n: sub, h: half_carry, c: carry }
    }
}

impl vstd::std_specs::convert::FromSpecImpl<u8> for FlagsRegister {
    open spec fn obeys_from_spec() -> bool {
        true
    }

    open spec fn from_spec(byte: u8) -> FlagsRegister {
        FlagsRegister {
            z: ((byte >> ZERO_FLAG_POS) & 0b1) != 0,
            n: ((byte >> SUB_FLAG_POS) & 0b1) != 0,
            h: ((byte >> HALF_CARRY_FLAG_POS) & 0b1) != 0,
            c: ((byte >> CARRY_FLAG_POS) & 0b1) != 0,
        }
    }
}

/// The bit-level encodings agree with the arithmetic ones.
pub proof fn lemma_flag_encodings(f: FlagsRegister, b: u8)
    ensures
        <u8 as vstd::std_specs::convert::FromSpec<FlagsRegister>>::from_spec(f) == flags_to_byte(f),
        <FlagsRegister as vstd::std_specs::convert::FromSpec<u8>>::from_spec(b) == byte_to_flags(b),
{
    let (z, n, h, c) = (f.z, f.n, f.h, f.c);
    assert((if z { 1u8 } else { 0u8 }) << 7u8 | (if n { 1u8 } else { 0u8 }) << 6u8 | (if h { 1u8 } else { 0u8 }) << 5u8
        | (if c { 1u8 } else { 0u8 }) << 4u8 == ((if z { 0x80u8 } else { 0u8 }) + (if n { 0x40u8 } else { 0u8 })
        + (if h { 0x20u8 } else { 0u8 }) + (if c { 0x10u8 } else { 0u8 }))) by (bit_vector);
    assert(((b >> 7u8) & 1 != 0) == ((b / 128) % 2 == 1) && ((b >> 6u8) & 1 != 0) == ((b / 64) % 2 == 1)
        && ((b >> 5u8) & 1 != 0) == ((b / 32) % 2 == 1) && ((b >> 4u8) & 1 != 0) == ((b / 16) % 2 == 1)) by (bit_vector);
}

/// Decoding the encoding of the flags gives them back; encoding decoded flags keeps bits 7-4.
pub proof fn lemma_flags_roundtrip(f: FlagsRegister, b: u8)
    ensures
        byte_to_flags(flags_to_byte(f)) == f,
        flags_to_byte(byte_to_flags(b)) == b - b % 16,
{
}

impl Registers {
    pub open spec fn af(self) -> u16 {
        pair(self.a, flags_to_byte(self.f))
    }

    pub open spec fn bc(self) -> u16 {
        pair(self.b, self.c)
    }

    pub open spec fn de(self) -> u16 {
        pair(self.d, self.e)
    }

    pub open spec fn hl(self) -> u16 {
        pair(self.h, self.l)
    }

    pub open spec fn with_af(self, v: u16) -> Registers {
        Registers { a: hi_byte(v), f: byte_to_flags(lo_byte(v)), ..self }
    }

    pub open spec fn with_bc(self, v: u16) -> Registers {
        Registers { b: hi_byte(v), c: lo_byte(v), ..self }
    }

    pub open spec fn with_de(self, v: u16) -> Registers {
        Registers { d: hi_byte(v), e: lo_byte(v), ..self }
    }

    pub open spec fn with_hl(self, v: u16) -> Registers {
        Registers { h: hi_byte(v), l: lo_byte(v), ..self }
    }

    /// Register values after the boot ROM hands over: PC at 0x0100, SP at 0xFFFE.
    pub open spec fn initial() -> Registers {
        Registers {
            a: 0,
            b: 0,
            c: 0,
            d: 0,
            e: 0,
            f: FlagsRegister { z: false, n: false, h: false, c: false },
            h: 0,
            l: 0,
            pc: 0x100,
            sp: 0xFFFE,
        }
    }

    pub fn new() -> (res: Self)
        ensures
            res == Registers::initial(),
            res == (Registers {
                a: 0,
                b: 0,
                c: 0,
                d: 0,
                e: 0,
                f: FlagsRegister { z: false, n: false, h: false, c: false },
                h: 0,
                l: 0,
                pc: 0x100,
                sp: 0xFFFE,
            }),
    {
        Self {
            a: 0,
            b: 0,
            c: 0,
            d: 0,
            e: 0,
            f: FlagsRegister::default(),
            h: 0,
            l: 0,
            pc: 0x100,
            sp: 0xFFFE,
        }
    }

    pub fn get_af(&self) -> (res: u16)
        ensures
            res == self.af(),
    {
        let f = u8::from(self.f);
        proof {
            lemma_flag_encodings(self.f, 0);
        }
        join(self.a, f)
    }

    pub fn get_bc(&self) -> (res: u16)
        ensures
            res == self.bc(),
    {
        join(self.b, self.c)
    }

    pub fn get_de(&self) -> (res: u16)
        ensures
            res == self.de(),
    {
        join(self.d, self.e)
    }

    pub fn get_hl(&self) -> (res: u16)
        ensures
            res == self.hl(),
    {
        join(self.h, self.l)
    }

    pub fn set_af(&mut self, value: u16)
        ensures
            *final(self) == old(self).with_af(value),
    {
        let (hi, lo) = split(value);
        self.a = hi;
        self.f = FlagsRegister::from(lo);
        proof {
            lemma_flag_encodings(self.f, lo);
        }
    }

    pub fn set_bc(&mut self, value: u16)
        ensures
            *final(self) == old(self).with_bc(value),
    {
        let (hi, lo) = split(value);
        self.b = hi;
        self.c = lo;
    }

    pub fn set_de(&mut self, value: u16)
        ensures
            *final(self) == old(self).with_de(value),
    {
        let (hi, lo) = split(value);
        self.d = hi;
        self.e = lo;
    }

    pub fn set_hl(&mut self, value: u16)
        ensures
            *final(self) == old(self).with_hl(value),
    {
        let (hi, lo) = split(value);
        self.h = hi;
        self.l = lo;
    }
}

/// `(hi << 8) | lo`.
pub fn join(hi: u8, lo: u8) -> (res: u16)
    ensures
        res == pair(hi, lo),
{
    assert((hi as u16) << 8u16 | (lo as u16) == hi as u16 * 256 + lo as u16) by (bit_vector);
    (hi as u16) << 8 | (lo as u16)
}

/// `(value >> 8, value & 0xFF)`.
pub fn split(value: u16) -> (res: (u8, u8))
    ensures
        res == (hi_byte(value), lo_byte(value)),
{
    assert((value >> 8u16) == value / 256 && (value & 0xFF) == value % 256) by (bit_vector);
    ((value >> 8) as u8, (value & 0xFF) as u8)
}

/// A register pair reads back the value written to it.
pub proof fn lemma_register_pair_roundtrip(r: Registers, v: u16)
    ensures
        r.with_bc(v).bc() == v,
        r.with_de(v).de() == v,
        r.with_hl(v).hl() == v,
        r.with_af(v).af() == v - v % 16,
{
    lemma_flags_roundtrip(r.f, lo_byte(v));
}

} // verus!
