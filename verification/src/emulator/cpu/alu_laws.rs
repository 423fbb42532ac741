use vstd::prelude::*;
use crate::emulator::cpu::{
    alu_add_hl_spec, alu_add_sp_spec, alu_daa_spec, alu_adc_spec, alu_add_spec, alu_cp_spec, alu_dec_spec, alu_inc_spec, alu_rl_spec, alu_rlc_spec, alu_rr_spec,
    alu_rrc_spec, alu_sbc_spec, alu_sla_spec, alu_sra_spec, alu_srl_spec, alu_sub_spec, alu_swap_spec, flag_bit,
};
use crate::emulator::cpu::registers::{FlagsRegister, Registers, lemma_register_pair_roundtrip};

verus! {

/// Whether two register files agree outside A and F.
pub open spec fn same_but_af(r1: Registers, r2: Registers) -> bool {
    r1.b == r2.b && r1.c == r2.c && r1.d == r2.d && r1.e == r2.e && r1.h == r2.h && r1.l == r2.l
        && r1.sp == r2.sp && r1.pc == r2.pc
}

/// ADD A,n: A becomes (A + n) mod 256; carry is the carry out of bit 7, half-carry the
/// carry out of bit 3, Z whether the result is 0, N clear; no other register changes.
pub proof fn lemma_add_arithmetic(r: Registers, v: u8)
    ensures
        ({
            let s = alu_add_spec(r, v);
            &&& s.a as int == (r.a + v) % 256
            &&& s.f.c == (r.a + v >= 256)
            &&& s.f.h == (r.a % 16 + v % 16 >= 16)
            &&& s.f.z == ((r.a + v) % 256 == 0)
            &&& !s.f.n
            &&& same_but_af(s, r)
        }),
{
    crate::bits::lemma_u8_facts(r.a);
    crate::bits::lemma_u8_facts(v);
}

/// ADC A,n: as ADD with the carry flag added in.
#[verifier::rlimit(30)]
pub proof fn lemma_adc_arithmetic(r: Registers, v: u8)
    ensures
        ({
            let s = alu_adc_spec(r, v);
            let c: int = if r.f.c { 1 } else { 0 };
            &&& s.a as int == (r.a + v + c) % 256
            &&& s.f.c == (r.a + v + c >= 256)
            &&& s.f.h == (r.a % 16 + v % 16 + c >= 16)
            &&& s.f.z == ((r.a + v + c) % 256 == 0)
            &&& !s.f.n
            &&& same_but_af(s, r)
        }),
{
    crate::bits::lemma_u8_facts(r.a);
    crate::bits::lemma_u8_facts(v);
    let c = flag_bit(r.f.c);
    crate::bits::lemma_u8_facts(c);
    assert(c & 0xF == c);
    let s = alu_adc_spec(r, v);
    assert(s.a == r.a.wrapping_add(v).wrapping_add(c));
    assert(s.a as int == (r.a + v + c) % 256);
}

/// SUB n: A becomes (A - n) mod 256; carry is the borrow (A < n), half-carry the borrow
/// from bit 4 (A mod 16 < n mod 16), Z whether A equalled n, N set.
pub proof fn lemma_sub_arithmetic(r: Registers, v: u8)
    ensures
        ({
            let s = alu_sub_spec(r, v);
            &&& s.a as int == (r.a - v + 256) % 256
            &&& s.f.c == (r.a < v)
            &&& s.f.h == (r.a % 16 < v % 16)
            &&& s.f.z == (r.a == v)
            &&& s.f.n
            &&& same_but_af(s, r)
        }),
{
    crate::bits::lemma_u8_facts(r.a);
    crate::bits::lemma_u8_facts(v);
}

/// SBC A,n: as SUB with the carry flag subtracted too.
pub proof fn lemma_sbc_arithmetic(r: Registers, v: u8)
    ensures
        ({
            let s = alu_sbc_spec(r, v);
            let c: int = if r.f.c { 1 } else { 0 };
            &&& s.a as int == (r.a - v - c + 512) % 256
            &&& s.f.c == (r.a < v + c)
            &&& s.f.h == (r.a % 16 < v % 16 + c)
            &&& s.f.z == ((r.a - v - c + 512) % 256 == 0)
            &&& s.f.n
            &&& same_but_af(s, r)
        }),
{
    crate::bits::lemma_u8_facts(r.a);
    crate::bits::lemma_u8_facts(v);
    let c = flag_bit(r.f.c);
    let t = r.a.wrapping_sub(v);
    let x = alu_sbc_spec(r, v).a;
    assert(x == t.wrapping_sub(c));
    if r.a >= v {
        assert(t as int == r.a - v);
    } else {
        assert(t as int == r.a - v + 256);
    }
    if t >= c {
        assert(x as int == t - c);
    } else {
        assert(x as int == t - c + 256);
    }
    assert(x as int == (r.a - v - c + 512) % 256);
}

/// CP n compares without storing: A and the other registers are unchanged, carry is set
/// exactly when A < n (a borrow out of A - n), half-carry when A mod 16 < n mod 16, Z when
/// A == n, N set; the flags are those SUB n would set.
pub proof fn lemma_cp_compares(r: Registers, v: u8)
    ensures
        ({
            let s = alu_cp_spec(r, v);
            &&& s.a == r.a
            &&& same_but_af(s, r)
            &&& s.f.c == (r.a < v)
            &&& s.f.h == (r.a % 16 < v % 16)
            &&& s.f.z == (r.a == v)
            &&& s.f.n
            &&& s.f == alu_sub_spec(r, v).f
        }),
{
    crate::bits::lemma_u8_facts(r.a);
    crate::bits::lemma_u8_facts(v);
    lemma_sub_arithmetic(r, v);
}

/// INC: value + 1 modulo 256; half-carry when the low nibble was 0xF; carry untouched.
/// DEC: value - 1 modulo 256; half-borrow when the low nibble was 0; carry untouched.
pub proof fn lemma_inc_dec_arithmetic(f: FlagsRegister, v: u8)
    ensures
        alu_inc_spec(f, v).0 as int == (v + 1) % 256,
        alu_inc_spec(f, v).1.h == (v % 16 == 15),
        alu_inc_spec(f, v).1.z == (v == 255),
        !alu_inc_spec(f, v).1.n,
        alu_inc_spec(f, v).1.c == f.c,
        alu_dec_spec(f, v).0 as int == (v + 255) % 256,
        alu_dec_spec(f, v).1.h == (v % 16 == 0),
        alu_dec_spec(f, v).1.z == (v == 1),
        alu_dec_spec(f, v).1.n,
        alu_dec_spec(f, v).1.c == f.c,
{
    crate::bits::lemma_u8_facts(v);
}

/// RLC and RL move bits 6-0 up one place and bring in bit 7 (RLC) or the old carry (RL)
/// at bit 0; the carry receives bit 7; Z tells a zero result, N and H are cleared.
pub proof fn lemma_rotate_left(f: FlagsRegister, v: u8)
    ensures
        ({
            let cin: u8 = if f.c { 1 } else { 0 };
            let rlc = alu_rlc_spec(f, v);
            let rl = alu_rl_spec(f, v);
            &&& rlc.0 / 2 == v % 128 && rlc.0 % 2 == v / 128 && rlc.1.c == (v >= 128)
            &&& rl.0 / 2 == v % 128 && rl.0 % 2 == cin && rl.1.c == (v >= 128)
            &&& rlc.1.z == (rlc.0 == 0) && !rlc.1.n && !rlc.1.h
            &&& rl.1.z == (rl.0 == 0) && !rl.1.n && !rl.1.h
        }),
{
    crate::bits::lemma_u8_facts(v);
    crate::bits::lemma_u8_rotation_facts(v);
}

/// RRC and RR move bits 7-1 down one place and bring in bit 0 (RRC) or the old carry (RR)
/// at bit 7; the carry receives bit 0; Z tells a zero result, N and H are cleared.
pub proof fn lemma_rotate_right(f: FlagsRegister, v: u8)
    ensures
        ({
            let cin: u8 = if f.c { 1 } else { 0 };
            let rrc = alu_rrc_spec(f, v);
            let rr = alu_rr_spec(f, v);
            &&& rrc.0 % 128 == v / 2 && rrc.0 / 128 == v % 2 && rrc.1.c == (v % 2 == 1)
            &&& rr.0 % 128 == v / 2 && rr.0 / 128 == cin && rr.1.c == (v % 2 == 1)
            &&& rrc.1.z == (rrc.0 == 0) && !rrc.1.n && !rrc.1.h
            &&& rr.1.z == (rr.0 == 0) && !rr.1.n && !rr.1.h
        }),
{
    crate::bits::lemma_u8_facts(v);
    crate::bits::lemma_u8_rotation_facts(v);
    crate::bits::lemma_u8_rotation_facts(flag_bit(f.c));
}

/// SLA doubles (bit 7 into the carry), SRA and SRL halve (bit 0 into the carry, bit 7
/// cleared), SWAP exchanges the nibbles and clears the carry; Z tells a zero result.
pub proof fn lemma_shifts_and_swap(f: FlagsRegister, v: u8)
    ensures
        ({
            let sla = alu_sla_spec(f, v);
            let sra = alu_sra_spec(f, v);
            let srl = alu_srl_spec(f, v);
            let swap = alu_swap_spec(f, v);
            &&& sla.0 / 2 == v % 128 && sla.0 % 2 == 0 && sla.1.c == (v >= 128) && sla.1.z == (sla.0 == 0)
            &&& sra.0 == v / 2 && sra.1.c == (v % 2 == 1) && sra.1.z == (v / 2 == 0)
            &&& srl.0 == v / 2 && srl.1.c == (v % 2 == 1) && srl.1.z == (v / 2 == 0)
            &&& swap.0 / 16 == v % 16 && swap.0 % 16 == v / 16 && !swap.1.c && swap.1.z == (swap.0 == 0)
        }),
{
    crate::bits::lemma_u8_facts(v);
    crate::bits::lemma_u8_rotation_facts(v);
}

/// A byte holding two decimal digits (packed BCD).
pub open spec fn is_bcd(x: u8) -> bool {
    x % 16 <= 9 && x / 16 <= 9
}

/// The number (0-99) that a packed BCD byte holds.
pub open spec fn bcd_value(x: u8) -> int {
    (x / 16) * 10 + x % 16
}

/// The decimal adjustment on the digits of two packed BCD bytes: the low digits sum to
/// `dl`, the high digits to `dh`.
#[verifier::rlimit(40)]
proof fn lemma_bcd_digit_sums(ah: int, al: int, vh: int, vl: int)
    requires
        0 <= ah <= 9,
        0 <= al <= 9,
        0 <= vh <= 9,
        0 <= vl <= 9,
    ensures
        ({
            let x = 16 * ah + al + 16 * vh + vl;
            let t = x % 256;
            let lo: int = if al + vl > 15 || t % 16 > 9 { 6 } else { 0 };
            let hi: int = if x > 255 || t > 0x99 { 0x60 } else { 0 };
            let y = (t + lo + hi) % 256;
            let sum = 10 * ah + al + 10 * vh + vl;
            &&& y % 16 <= 9 && y / 16 <= 9
            &&& (y / 16) * 10 + y % 16 == sum % 100
            &&& (hi != 0) == (sum >= 100)
        }),
{
    let dl = al + vl;
    let dh = ah + vh;
    let x = 16 * ah + al + 16 * vh + vl;
    let sum = 10 * ah + al + 10 * vh + vl;
    assert(x == 16 * dh + dl);
    assert(sum == 10 * dh + dl);
    // low digit after the adjustment, and the high digit it carries into
    let (ldig, hcarry): (int, int) = if dl <= 9 { (dl, 0) } else { (dl - 10, 1) };
    let d = dh + hcarry;
    let t = x % 256;
    if x >= 256 {
        assert(t == x - 256);
    } else {
        assert(t == x);
    }
    if dl <= 9 {
        assert(t % 16 == dl);
    } else if dl <= 15 {
        assert(t % 16 == dl);
    } else {
        assert(t % 16 == dl - 16);
    }
    let y = if d >= 10 { 16 * (d - 10) + ldig } else { 16 * d + ldig };
    assert(sum == 10 * d + ldig);
    if d >= 10 {
        assert(sum % 100 == 10 * (d - 10) + ldig);
    } else {
        assert(sum % 100 == sum);
    }
    let lo: int = if al + vl > 15 || t % 16 > 9 { 6 } else { 0 };
    let hi: int = if x > 255 || t > 0x99 { 0x60 } else { 0 };
    assert(lo == 6 * hcarry);
    assert((hi != 0) == (d >= 10));
    assert((t + lo + hi) % 256 == y);
    assert(y % 16 == ldig);
    assert(y / 16 == (if d >= 10 { d - 10 } else { d }));
}

/// DAA after ADD: adding two packed BCD bytes and adjusting gives the BCD digits of the
/// decimal sum modulo 100, with the carry set exactly when the sum reaches 100.
pub proof fn lemma_daa_after_add(r: Registers, v: u8)
    requires
        is_bcd(r.a),
        is_bcd(v),
    ensures
        ({
            let s = alu_daa_spec(alu_add_spec(r, v));
            let sum = bcd_value(r.a) + bcd_value(v);
            &&& is_bcd(s.a)
            &&& bcd_value(s.a) == sum % 100
            &&& s.f.c == (sum >= 100)
            &&& s.f.z == (sum % 100 == 0)
        }),
{
    let t = alu_add_spec(r, v);
    lemma_add_arithmetic(r, v);
    crate::bits::lemma_u8_facts(t.a);
    crate::bits::lemma_bcd_corrections();
    let lo: int = if t.f.h || t.a % 16 > 9 { 6 } else { 0 };
    let hi: int = if t.f.c || t.a > 0x99 { 0x60 } else { 0 };
    let s = alu_daa_spec(t);
    assert(s.a as int == (t.a + lo + hi) % 256);
    assert(s.f.c == (hi != 0));
    lemma_bcd_digit_sums((r.a / 16) as int, (r.a % 16) as int, (v / 16) as int, (v % 16) as int);
}

/// The decimal adjustment after a subtraction, on the digits of two packed BCD bytes.
#[verifier::rlimit(40)]
proof fn lemma_bcd_digit_differences(ah: int, al: int, vh: int, vl: int)
    requires
        0 <= ah <= 9,
        0 <= al <= 9,
        0 <= vh <= 9,
        0 <= vl <= 9,
    ensures
        ({
            let x = 16 * ah + al - 16 * vh - vl;
            let t = (x + 256) % 256;
            let lo: int = if al < vl { 6 } else { 0 };
            let hi: int = if x < 0 { 0x60 } else { 0 };
            let y = (t - lo - hi + 256) % 256;
            let diff = 10 * ah + al - 10 * vh - vl;
            &&& y % 16 <= 9 && y / 16 <= 9
            &&& (y / 16) * 10 + y % 16 == (diff + 100) % 100
            &&& (x < 0) == (diff < 0)
        }),
{
    let dl = al - vl;
    let dh = ah - vh;
    let x = 16 * ah + al - 16 * vh - vl;
    let diff = 10 * ah + al - 10 * vh - vl;
    assert(x == 16 * dh + dl);
    assert(diff == 10 * dh + dl);
    // low digit after the adjustment, and the borrow it takes from the high digit
    let (ldig, b): (int, int) = if dl < 0 { (dl + 10, 1) } else { (dl, 0) };
    let d = dh - b;
    assert(diff == 10 * d + ldig);
    if dh >= 1 {
        assert(x > 0 && diff > 0);
    } else if dh <= -1 {
        assert(x < 0 && diff < 0);
    }
    let t = (x + 256) % 256;
    if x < 0 {
        assert(t == x + 256);
        assert(d < 0);
    } else {
        assert(t == x);
        assert(d >= 0);
    }
    let y = if d < 0 { 16 * (d + 10) + ldig } else { 16 * d + ldig };
    if d < 0 {
        assert((diff + 100) % 100 == 10 * (d + 10) + ldig);
    } else {
        assert((diff + 100) % 100 == diff);
    }
    let lo: int = if al < vl { 6 } else { 0 };
    let hi: int = if x < 0 { 0x60 } else { 0 };
    assert(lo == 6 * b);
    assert((t - lo - hi + 256) % 256 == y);
    assert(y % 16 == ldig);
    assert(y / 16 == (if d < 0 { d + 10 } else { d }));
}

/// DAA after SUB: subtracting packed BCD bytes and adjusting gives the BCD digits of the
/// decimal difference modulo 100, with the carry (borrow) set exactly when the difference
/// is negative.
pub proof fn lemma_daa_after_sub(r: Registers, v: u8)
    requires
        is_bcd(r.a),
        is_bcd(v),
    ensures
        ({
            let s = alu_daa_spec(alu_sub_spec(r, v));
            let diff = bcd_value(r.a) - bcd_value(v);
            &&& is_bcd(s.a)
            &&& bcd_value(s.a) == (diff + 100) % 100
            &&& s.f.c == (diff < 0)
            &&& s.f.z == (diff == 0)
        }),
{
    let t = alu_sub_spec(r, v);
    lemma_sub_arithmetic(r, v);
    crate::bits::lemma_bcd_corrections();
    let lo: int = if t.f.h { 6 } else { 0 };
    let hi: int = if t.f.c { 0x60 } else { 0 };
    let s = alu_daa_spec(t);
    assert(s.a as int == (t.a - lo - hi + 256) % 256);
    lemma_bcd_digit_differences((r.a / 16) as int, (r.a % 16) as int, (v / 16) as int, (v % 16) as int);
}

/// ADD HL,rr: HL becomes (HL + rr) mod 65536; carry is the carry out of bit 15,
/// half-carry the carry out of bit 11; N clears, Z and the other registers are kept.
pub proof fn lemma_add_hl_arithmetic(r: Registers, v: u16)
    ensures
        ({
            let s = alu_add_hl_spec(r, v);
            &&& s.hl() as int == (r.hl() + v) % 65536
            &&& s.f.c == (r.hl() + v >= 65536)
            &&& s.f.h == (r.hl() % 4096 + v % 4096 >= 4096)
            &&& s.f.z == r.f.z
            &&& !s.f.n
            &&& s.a == r.a && s.b == r.b && s.c == r.c && s.d == r.d && s.e == r.e
            &&& s.sp == r.sp && s.pc == r.pc
        }),
{
    let hl = r.hl();
    crate::bits::lemma_u16_low_bits(hl);
    crate::bits::lemma_u16_low_bits(v);
    let r1 = Registers {
        f: FlagsRegister { n: false, h: (hl & 0x0FFF) + (v & 0x0FFF) > 0x0FFF, c: hl + v > 0xFFFF, ..r.f },
        ..r
    };
    lemma_register_pair_roundtrip(r1, hl.wrapping_add(v));
}

/// ADD SP,e: SP moves by the signed byte e (modulo 65536); the carry and half-carry are
/// those of adding the unsigned byte to SP's low byte (out of bit 7 and bit 3); Z and N
/// clear.
pub proof fn lemma_add_sp_arithmetic(r: Registers, offset: u8)
    ensures
        ({
            let s = alu_add_sp_spec(r, offset);
            let e: int = if offset < 128 { offset as int } else { offset - 256 };
            &&& s.sp as int == (r.sp + e + 65536) % 65536
            &&& s.f.c == (r.sp % 256 + offset >= 256)
            &&& s.f.h == (r.sp % 16 + offset % 16 >= 16)
            &&& !s.f.z && !s.f.n
            &&& s.a == r.a && s.b == r.b && s.c == r.c && s.d == r.d && s.e == r.e
            &&& s.h == r.h && s.l == r.l && s.pc == r.pc
        }),
{
    let off = crate::emulator::cpu::sign_extend(offset);
    crate::bits::lemma_u16_low_bits(r.sp);
    crate::bits::lemma_u16_low_bits(off);
}

} // verus!
